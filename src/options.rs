//! DHCPv6 options: the type-length-value records that follow a header.
//!
//! An option is a two-byte code, a two-byte payload length `L` and `L` bytes
//! of payload, whose layout depends on the code. Variable-length parts of a
//! payload are copied out of the input.
use vstd::prelude::*;
use vstd::utf8::{encode_utf8, valid_utf8};
use vstd::string::StringSliceAdditionalSpecFns;
use crate::bytes::{be16, be32, be64, be128, read_u16, read_u32, read_u64, read_u128};
use crate::error::{DecodeError, LengthRule};

verus! {

#[derive(Debug, Clone, PartialEq)]
pub enum DHCPv6Option {
    CliendID { duid: Vec<u8> },
    ServerID { duid: Vec<u8> },
    IdentityAssociationForNonTemporaryAddresses { id: u32, time_1: u32, time_2: u32, options: Vec<u8> },
    IdentityAssociationForTemporaryAddresses { id: u32, options: Vec<u8> },
    IdentityAssociationAddress {
        address: u128,
        prefered_lifetime: u32,
        valid_lifetime: u32,
        options: Vec<u8>,
    },
    OptionRequest { options: Vec<u16> },
    Preference { pref_value: u8 },
    ElapstedTime { elapsed_time: u16 },
    RelayMessage { data: Vec<u8> },
    Authentication {
        protocol: u8,
        algorithm: u8,
        rdm: u8,
        replay_detection: u64,
        authentication_information: Vec<u8>,
    },
    ServerUnicast { address: u128 },
    StatusCode { code: u16, message: String },
    RapidCommit {},
    UserClass { data: Vec<u8> },
    VendorClass { enterprise_number: u32, data: Vec<u8> },
    VendorSpecificInformation { enterprise_number: u32, data: Vec<u8> },
    InterfaceID { data: Vec<u8> },
    ReconfigureMessage { message_type: u8 },
    ReconfigureAccept {},
}

/// The mathematical value of an option: byte strings as sequences, and a
/// status message as its UTF-8 bytes.
pub ghost enum OptionModel {
    CliendID { duid: Seq<u8> },
    ServerID { duid: Seq<u8> },
    IdentityAssociationForNonTemporaryAddresses { id: u32, time_1: u32, time_2: u32, options: Seq<u8> },
    IdentityAssociationForTemporaryAddresses { id: u32, options: Seq<u8> },
    IdentityAssociationAddress {
        address: u128,
        prefered_lifetime: u32,
        valid_lifetime: u32,
        options: Seq<u8>,
    },
    OptionRequest { options: Seq<u16> },
    Preference { pref_value: u8 },
    ElapstedTime { elapsed_time: u16 },
    RelayMessage { data: Seq<u8> },
    Authentication {
        protocol: u8,
        algorithm: u8,
        rdm: u8,
        replay_detection: u64,
        authentication_information: Seq<u8>,
    },
    ServerUnicast { address: u128 },
    StatusCode { code: u16, message: Seq<u8> },
    RapidCommit,
    UserClass { data: Seq<u8> },
    VendorClass { enterprise_number: u32, data: Seq<u8> },
    VendorSpecificInformation { enterprise_number: u32, data: Seq<u8> },
    InterfaceID { data: Seq<u8> },
    ReconfigureMessage { message_type: u8 },
    ReconfigureAccept,
}

impl View for DHCPv6Option {
    type V = OptionModel;

    open spec fn view(&self) -> OptionModel {
        match self {
            DHCPv6Option::CliendID { duid } => OptionModel::CliendID { duid: duid@ },
            DHCPv6Option::ServerID { duid } => OptionModel::ServerID { duid: duid@ },
            DHCPv6Option::IdentityAssociationForNonTemporaryAddresses { id, time_1, time_2, options } =>
                OptionModel::IdentityAssociationForNonTemporaryAddresses {
                    id: *id,
                    time_1: *time_1,
                    time_2: *time_2,
                    options: options@,
                },
            DHCPv6Option::IdentityAssociationForTemporaryAddresses { id, options } =>
                OptionModel::IdentityAssociationForTemporaryAddresses { id: *id, options: options@ },
            DHCPv6Option::IdentityAssociationAddress { address, prefered_lifetime, valid_lifetime, options } =>
                OptionModel::IdentityAssociationAddress {
                    address: *address,
                    prefered_lifetime: *prefered_lifetime,
                    valid_lifetime: *valid_lifetime,
                    options: options@,
                },
            DHCPv6Option::OptionRequest { options } => OptionModel::OptionRequest { options: options@ },
            DHCPv6Option::Preference { pref_value } => OptionModel::Preference { pref_value: *pref_value },
            DHCPv6Option::ElapstedTime { elapsed_time } => OptionModel::ElapstedTime { elapsed_time: *elapsed_time },
            DHCPv6Option::RelayMessage { data } => OptionModel::RelayMessage { data: data@ },
            DHCPv6Option::Authentication { protocol, algorithm, rdm, replay_detection, authentication_information } =>
                OptionModel::Authentication {
                    protocol: *protocol,
                    algorithm: *algorithm,
                    rdm: *rdm,
                    replay_detection: *replay_detection,
                    authentication_information: authentication_information@,
                },
            DHCPv6Option::ServerUnicast { address } => OptionModel::ServerUnicast { address: *address },
            DHCPv6Option::StatusCode { code, message } =>
                OptionModel::StatusCode { code: *code, message: encode_utf8(message@) },
            DHCPv6Option::RapidCommit {} => OptionModel::RapidCommit,
            DHCPv6Option::UserClass { data } => OptionModel::UserClass { data: data@ },
            DHCPv6Option::VendorClass { enterprise_number, data } =>
                OptionModel::VendorClass { enterprise_number: *enterprise_number, data: data@ },
            DHCPv6Option::VendorSpecificInformation { enterprise_number, data } =>
                OptionModel::VendorSpecificInformation { enterprise_number: *enterprise_number, data: data@ },
            DHCPv6Option::InterfaceID { data } => OptionModel::InterfaceID { data: data@ },
            DHCPv6Option::ReconfigureMessage { message_type } =>
                OptionModel::ReconfigureMessage { message_type: *message_type },
            DHCPv6Option::ReconfigureAccept {} => OptionModel::ReconfigureAccept,
        }
    }
}

/// The option codes this decoder knows: 1 to 20, but for the unassigned 10.
pub open spec fn option_code_known(code: u16) -> bool {
    1 <= code <= 20 && code != 10
}

/// The rule on the payload length of an option with this code, if any.
pub open spec fn length_rule(code: u16) -> Option<LengthRule> {
    match code {
        3 => Some(LengthRule::AtLeast(12)),
        4 => Some(LengthRule::AtLeast(4)),
        5 => Some(LengthRule::AtLeast(24)),
        6 => Some(LengthRule::Even),
        7 => Some(LengthRule::Exactly(1)),
        8 => Some(LengthRule::Exactly(2)),
        11 => Some(LengthRule::AtLeast(11)),
        12 => Some(LengthRule::Exactly(16)),
        13 => Some(LengthRule::AtLeast(2)),
        14 => Some(LengthRule::Exactly(0)),
        16 => Some(LengthRule::AtLeast(4)),
        17 => Some(LengthRule::AtLeast(4)),
        19 => Some(LengthRule::Exactly(1)),
        20 => Some(LengthRule::Exactly(0)),
        _ => None,
    }
}

/// Whether a payload of `len` bytes is allowed for an option with this code.
pub open spec fn length_allowed(code: u16, len: nat) -> bool {
    match length_rule(code) {
        Some(rule) => rule.holds(len),
        None => true,
    }
}

/// The big-endian 16-bit values that make up `p`, two bytes each.
pub open spec fn be16_list(p: Seq<u8>) -> Seq<u16> {
    Seq::new(p.len() / 2, |i: int| be16(p, 2 * i) as u16)
}

/// The option with this code whose whole payload is `p`, for a payload whose
/// length obeys the code's rule.
pub open spec fn option_from_payload(code: u16, p: Seq<u8>) -> Result<OptionModel, DecodeError> {
    match code {
        1 => Ok(OptionModel::CliendID { duid: p }),
        2 => Ok(OptionModel::ServerID { duid: p }),
        3 => Ok(OptionModel::IdentityAssociationForNonTemporaryAddresses {
            id: be32(p, 0) as u32,
            time_1: be32(p, 4) as u32,
            time_2: be32(p, 8) as u32,
            options: p.skip(12),
        }),
        4 => Ok(OptionModel::IdentityAssociationForTemporaryAddresses {
            id: be32(p, 0) as u32,
            options: p.skip(4),
        }),
        5 => Ok(OptionModel::IdentityAssociationAddress {
            address: be128(p, 0) as u128,
            prefered_lifetime: be32(p, 16) as u32,
            valid_lifetime: be32(p, 20) as u32,
            options: p.skip(24),
        }),
        6 => Ok(OptionModel::OptionRequest { options: be16_list(p) }),
        7 => Ok(OptionModel::Preference { pref_value: p[0] }),
        8 => Ok(OptionModel::ElapstedTime { elapsed_time: be16(p, 0) as u16 }),
        9 => Ok(OptionModel::RelayMessage { data: p }),
        11 => Ok(OptionModel::Authentication {
            protocol: p[0],
            algorithm: p[1],
            rdm: p[2],
            replay_detection: be64(p, 3) as u64,
            authentication_information: p.skip(11),
        }),
        12 => Ok(OptionModel::ServerUnicast { address: be128(p, 0) as u128 }),
        13 => if valid_utf8(p.skip(2)) {
            Ok(OptionModel::StatusCode { code: be16(p, 0) as u16, message: p.skip(2) })
        } else {
            Err(DecodeError::InvalidText)
        },
        14 => Ok(OptionModel::RapidCommit),
        15 => Ok(OptionModel::UserClass { data: p }),
        16 => Ok(OptionModel::VendorClass { enterprise_number: be32(p, 0) as u32, data: p.skip(4) }),
        17 => Ok(OptionModel::VendorSpecificInformation {
            enterprise_number: be32(p, 0) as u32,
            data: p.skip(4),
        }),
        18 => Ok(OptionModel::InterfaceID { data: p }),
        19 => Ok(OptionModel::ReconfigureMessage { message_type: p[0] }),
        20 => Ok(OptionModel::ReconfigureAccept),
        _ => Err(DecodeError::UnknownOptionCode),
    }
}

/// Decoding one option at the start of `s`: the option, and the bytes after it.
pub open spec fn spec_parse_option(s: Seq<u8>) -> Result<(Seq<u8>, OptionModel), DecodeError> {
    if s.len() < 2 {
        Err(DecodeError::Truncated)
    } else if !option_code_known(be16(s, 0) as u16) {
        Err(DecodeError::UnknownOptionCode)
    } else if s.len() < 4 {
        Err(DecodeError::Truncated)
    } else {
        let code = be16(s, 0) as u16;
        let len = be16(s, 2) as u16;
        if !length_allowed(code, len as nat) {
            Err(DecodeError::LengthConstraintViolation { code, length: len, rule: length_rule(code)->0 })
        } else if s.len() < 4 + len {
            Err(DecodeError::Truncated)
        } else {
            match option_from_payload(code, s.subrange(4, 4 + len)) {
                Ok(o) => Ok((s.skip(4 + len), o)),
                Err(e) => Err(e),
            }
        }
    }
}

/// A decoded option and the rest of the input, as values.
pub open spec fn option_result_view(r: Result<(&[u8], DHCPv6Option), DecodeError>) -> Result<
    (Seq<u8>, OptionModel),
    DecodeError,
> {
    match r {
        Ok((rest, o)) => Ok((rest@, o@)),
        Err(e) => Err(e),
    }
}

/// Relies on std::str::from_utf8: it accepts exactly the well-formed UTF-8
/// byte sequences, and the text it returns is made of those same bytes.
#[verifier::external_body]
fn utf8_text(b: &[u8]) -> (r: Option<&str>)
    ensures
        r is Some <==> valid_utf8(b@),
        r matches Some(t) ==> t.spec_bytes() == b@,
{
    std::str::from_utf8(b).ok()
}

/// A copy of the bytes of `p` from `start` to its end.
fn tail_copy(p: &[u8], start: usize) -> (r: Vec<u8>)
    requires
        start <= p@.len(),
    ensures
        r@ == p@.skip(start as int),
{
    let r = vstd::slice::slice_to_vec(vstd::slice::slice_subrange(p, start, p.len()));
    assert(r@ =~= p@.skip(start as int));
    r
}

fn option_length_rule(code: u16) -> (r: Option<LengthRule>)
    ensures
        r == length_rule(code),
{
    match code {
        3 => Some(LengthRule::AtLeast(12)),
        4 => Some(LengthRule::AtLeast(4)),
        5 => Some(LengthRule::AtLeast(24)),
        6 => Some(LengthRule::Even),
        7 => Some(LengthRule::Exactly(1)),
        8 => Some(LengthRule::Exactly(2)),
        11 => Some(LengthRule::AtLeast(11)),
        12 => Some(LengthRule::Exactly(16)),
        13 => Some(LengthRule::AtLeast(2)),
        14 => Some(LengthRule::Exactly(0)),
        16 => Some(LengthRule::AtLeast(4)),
        17 => Some(LengthRule::AtLeast(4)),
        19 => Some(LengthRule::Exactly(1)),
        20 => Some(LengthRule::Exactly(0)),
        _ => None,
    }
}

fn rule_holds(rule: LengthRule, len: u16) -> (r: bool)
    ensures
        r == rule.holds(len as nat),
{
    match rule {
        LengthRule::AtLeast(m) => len >= m,
        LengthRule::Exactly(m) => len == m,
        LengthRule::Even => len % 2 == 0,
    }
}

fn parse_dhcpv6_option_client_id(p: &[u8]) -> (r: DHCPv6Option)
    ensures
        Ok::<OptionModel, DecodeError>(r@) == option_from_payload(1, p@),
{
    DHCPv6Option::CliendID { duid: vstd::slice::slice_to_vec(p) }
}

fn parse_dhcpv6_option_server_id(p: &[u8]) -> (r: DHCPv6Option)
    ensures
        Ok::<OptionModel, DecodeError>(r@) == option_from_payload(2, p@),
{
    DHCPv6Option::ServerID { duid: vstd::slice::slice_to_vec(p) }
}

fn parse_dhcpv6_option_ia_na(p: &[u8]) -> (r: DHCPv6Option)
    requires
        p@.len() >= 12,
    ensures
        Ok::<OptionModel, DecodeError>(r@) == option_from_payload(3, p@),
{
    DHCPv6Option::IdentityAssociationForNonTemporaryAddresses {
        id: read_u32(p, 0),
        time_1: read_u32(p, 4),
        time_2: read_u32(p, 8),
        options: tail_copy(p, 12),
    }
}

fn parse_dhcpv6_option_ia_ta(p: &[u8]) -> (r: DHCPv6Option)
    requires
        p@.len() >= 4,
    ensures
        Ok::<OptionModel, DecodeError>(r@) == option_from_payload(4, p@),
{
    DHCPv6Option::IdentityAssociationForTemporaryAddresses { id: read_u32(p, 0), options: tail_copy(p, 4) }
}

fn parse_dhcpv6_option_ia(p: &[u8]) -> (r: DHCPv6Option)
    requires
        p@.len() >= 24,
    ensures
        Ok::<OptionModel, DecodeError>(r@) == option_from_payload(5, p@),
{
    DHCPv6Option::IdentityAssociationAddress {
        address: read_u128(p, 0),
        prefered_lifetime: read_u32(p, 16),
        valid_lifetime: read_u32(p, 20),
        options: tail_copy(p, 24),
    }
}

fn parse_dhcpv6_option_option_request(p: &[u8]) -> (r: DHCPv6Option)
    ensures
        Ok::<OptionModel, DecodeError>(r@) == option_from_payload(6, p@),
{
    let count = p.len() / 2;
    let mut options: Vec<u16> = Vec::new();
    let mut i: usize = 0;
    while i < count
        invariant
            count == p@.len() / 2,
            i <= count,
            options@ == be16_list(p@).take(i as int),
        decreases count - i,
    {
        assert(2 * i + 2 <= p.len());
        options.push(read_u16(p, 2 * i));
        i = i + 1;
        assert(options@ =~= be16_list(p@).take(i as int));
    }
    assert(options@ =~= be16_list(p@));
    DHCPv6Option::OptionRequest { options }
}

fn parse_dhcpv6_option_preference(p: &[u8]) -> (r: DHCPv6Option)
    requires
        p@.len() == 1,
    ensures
        Ok::<OptionModel, DecodeError>(r@) == option_from_payload(7, p@),
{
    DHCPv6Option::Preference { pref_value: p[0] }
}

fn parse_dhcpv6_option_elapsted_time(p: &[u8]) -> (r: DHCPv6Option)
    requires
        p@.len() == 2,
    ensures
        Ok::<OptionModel, DecodeError>(r@) == option_from_payload(8, p@),
{
    DHCPv6Option::ElapstedTime { elapsed_time: read_u16(p, 0) }
}

fn parse_dhcpv6_option_relay_message(p: &[u8]) -> (r: DHCPv6Option)
    ensures
        Ok::<OptionModel, DecodeError>(r@) == option_from_payload(9, p@),
{
    DHCPv6Option::RelayMessage { data: vstd::slice::slice_to_vec(p) }
}

fn parse_dhcpv6_option_authentication(p: &[u8]) -> (r: DHCPv6Option)
    requires
        p@.len() >= 11,
    ensures
        Ok::<OptionModel, DecodeError>(r@) == option_from_payload(11, p@),
{
    DHCPv6Option::Authentication {
        protocol: p[0],
        algorithm: p[1],
        rdm: p[2],
        replay_detection: read_u64(p, 3),
        authentication_information: tail_copy(p, 11),
    }
}

fn parse_dhcpv6_option_server_unicast(p: &[u8]) -> (r: DHCPv6Option)
    requires
        p@.len() == 16,
    ensures
        Ok::<OptionModel, DecodeError>(r@) == option_from_payload(12, p@),
{
    DHCPv6Option::ServerUnicast { address: read_u128(p, 0) }
}

fn parse_dhcpv6_option_status_code(p: &[u8]) -> (r: Result<DHCPv6Option, DecodeError>)
    requires
        p@.len() >= 2,
    ensures
        match r {
            Ok(o) => option_from_payload(13, p@) == Ok::<_, DecodeError>(o@),
            Err(e) => option_from_payload(13, p@) == Err::<OptionModel, _>(e),
        },
{
    let code = read_u16(p, 0);
    let raw = vstd::slice::slice_subrange(p, 2, p.len());
    assert(raw@ =~= p@.skip(2));
    match utf8_text(raw) {
        Some(text) => Ok(DHCPv6Option::StatusCode { code, message: text.to_owned() }),
        None => Err(DecodeError::InvalidText),
    }
}

fn parse_dhcpv6_option_rapid_commit(p: &[u8]) -> (r: DHCPv6Option)
    ensures
        Ok::<OptionModel, DecodeError>(r@) == option_from_payload(14, p@),
{
    DHCPv6Option::RapidCommit {}
}

fn parse_dhcpv6_option_user_class(p: &[u8]) -> (r: DHCPv6Option)
    ensures
        Ok::<OptionModel, DecodeError>(r@) == option_from_payload(15, p@),
{
    DHCPv6Option::UserClass { data: vstd::slice::slice_to_vec(p) }
}

fn parse_dhcpv6_option_vendor_class(p: &[u8]) -> (r: DHCPv6Option)
    requires
        p@.len() >= 4,
    ensures
        Ok::<OptionModel, DecodeError>(r@) == option_from_payload(16, p@),
{
    DHCPv6Option::VendorClass { enterprise_number: read_u32(p, 0), data: tail_copy(p, 4) }
}

fn parse_dhcpv6_option_vendor_specific_information(p: &[u8]) -> (r: DHCPv6Option)
    requires
        p@.len() >= 4,
    ensures
        Ok::<OptionModel, DecodeError>(r@) == option_from_payload(17, p@),
{
    DHCPv6Option::VendorSpecificInformation { enterprise_number: read_u32(p, 0), data: tail_copy(p, 4) }
}

fn parse_dhcpv6_option_interface_id(p: &[u8]) -> (r: DHCPv6Option)
    ensures
        Ok::<OptionModel, DecodeError>(r@) == option_from_payload(18, p@),
{
    DHCPv6Option::InterfaceID { data: vstd::slice::slice_to_vec(p) }
}

fn parse_dhcpv6_option_reconfigure_message(p: &[u8]) -> (r: DHCPv6Option)
    requires
        p@.len() == 1,
    ensures
        Ok::<OptionModel, DecodeError>(r@) == option_from_payload(19, p@),
{
    DHCPv6Option::ReconfigureMessage { message_type: p[0] }
}

fn parse_dhcpv6_option_reconfigure_accept(p: &[u8]) -> (r: DHCPv6Option)
    ensures
        Ok::<OptionModel, DecodeError>(r@) == option_from_payload(20, p@),
{
    DHCPv6Option::ReconfigureAccept {}
}

/// Builds the option with a known `code` from its whole payload `p`, whose
/// length obeys the code's rule.
fn option_from_payload_bytes(code: u16, p: &[u8]) -> (r: Result<DHCPv6Option, DecodeError>)
    requires
        option_code_known(code),
        length_allowed(code, p@.len()),
    ensures
        match r {
            Ok(o) => option_from_payload(code, p@) == Ok::<_, DecodeError>(o@),
            Err(e) => option_from_payload(code, p@) == Err::<OptionModel, _>(e),
        },
{
    match code {
        1 => Ok(parse_dhcpv6_option_client_id(p)),
        2 => Ok(parse_dhcpv6_option_server_id(p)),
        3 => Ok(parse_dhcpv6_option_ia_na(p)),
        4 => Ok(parse_dhcpv6_option_ia_ta(p)),
        5 => Ok(parse_dhcpv6_option_ia(p)),
        6 => Ok(parse_dhcpv6_option_option_request(p)),
        7 => Ok(parse_dhcpv6_option_preference(p)),
        8 => Ok(parse_dhcpv6_option_elapsted_time(p)),
        9 => Ok(parse_dhcpv6_option_relay_message(p)),
        11 => Ok(parse_dhcpv6_option_authentication(p)),
        12 => Ok(parse_dhcpv6_option_server_unicast(p)),
        13 => parse_dhcpv6_option_status_code(p),
        14 => Ok(parse_dhcpv6_option_rapid_commit(p)),
        15 => Ok(parse_dhcpv6_option_user_class(p)),
        16 => Ok(parse_dhcpv6_option_vendor_class(p)),
        17 => Ok(parse_dhcpv6_option_vendor_specific_information(p)),
        18 => Ok(parse_dhcpv6_option_interface_id(p)),
        19 => Ok(parse_dhcpv6_option_reconfigure_message(p)),
        _ => Ok(parse_dhcpv6_option_reconfigure_accept(p)),
    }
}

/// Decodes the option at the start of `input` and returns the bytes after it.
pub fn parse_dhcpv6_option(input: &[u8]) -> (r: Result<(&[u8], DHCPv6Option), DecodeError>)
    ensures
        option_result_view(r) == spec_parse_option(input@),
{
    if input.len() < 2 {
        return Err(DecodeError::Truncated);
    }
    let code = read_u16(input, 0);
    if !(1 <= code && code <= 20 && code != 10) {
        return Err(DecodeError::UnknownOptionCode);
    }
    if input.len() < 4 {
        return Err(DecodeError::Truncated);
    }
    let len = read_u16(input, 2);
    match option_length_rule(code) {
        Some(rule) => {
            if !rule_holds(rule, len) {
                return Err(DecodeError::LengthConstraintViolation { code, length: len, rule });
            }
        },
        None => {},
    }
    if input.len() - 4 < len as usize {
        return Err(DecodeError::Truncated);
    }
    let end = 4 + len as usize;
    let payload = vstd::slice::slice_subrange(input, 4, end);
    match option_from_payload_bytes(code, payload) {
        Ok(o) => {
            let rest = vstd::slice::slice_subrange(input, end, input.len());
            assert(rest@ =~= input@.skip(end as int));
            Ok((rest, o))
        },
        Err(e) => Err(e),
    }
}

/// Each option decoded from `s` takes at least its four header bytes.
pub proof fn lemma_option_consumes(s: Seq<u8>)
    ensures
        spec_parse_option(s) matches Ok((rest, _)) ==> rest.len() + 4 <= s.len(),
{
}

/// Decoding a region that holds nothing but options, in order. The region
/// must be used up exactly: a failing option fails the whole sequence.
pub open spec fn spec_parse_options(s: Seq<u8>) -> Result<Seq<OptionModel>, DecodeError>
    decreases s.len(),
{
    if s.len() == 0 {
        Ok(Seq::empty())
    } else if s.len() < 4 {
        Err(DecodeError::TrailingBytes)
    } else {
        match spec_parse_option(s) {
            Ok((rest, o)) => {
                proof {
                    lemma_option_consumes(s);
                }
                match spec_parse_options(rest) {
                    Ok(os) => Ok(seq![o] + os),
                    Err(e) => Err(e),
                }
            },
            Err(e) => Err(e),
        }
    }
}

/// The values of a list of decoded options.
pub open spec fn option_models(v: Seq<DHCPv6Option>) -> Seq<OptionModel> {
    v.map_values(|o: DHCPv6Option| o@)
}

/// `r` with `prefix` put before the options it holds.
pub open spec fn prepend_options(prefix: Seq<OptionModel>, r: Result<Seq<OptionModel>, DecodeError>) -> Result<
    Seq<OptionModel>,
    DecodeError,
> {
    match r {
        Ok(os) => Ok(prefix + os),
        Err(e) => Err(e),
    }
}

/// Decodes every option of `input`, which must be used up exactly. On
/// success the returned rest is empty.
pub fn parse_dhcpv6_options(input: &[u8]) -> (r: Result<(&[u8], Vec<DHCPv6Option>), DecodeError>)
    ensures
        match r {
            Ok((rest, os)) => rest@.len() == 0 && spec_parse_options(input@) == Ok::<_, DecodeError>(
                option_models(os@),
            ),
            Err(e) => spec_parse_options(input@) == Err::<Seq<OptionModel>, _>(e),
        },
{
    let mut options: Vec<DHCPv6Option> = Vec::new();
    let mut cur: &[u8] = input;
    assert(prepend_options(option_models(options@), spec_parse_options(cur@)) == spec_parse_options(
        input@,
    )) by {
        match spec_parse_options(input@) {
            Ok(os) => assert(option_models(options@) + os =~= os),
            Err(_) => {},
        }
    }
    while cur.len() > 0
        invariant
            prepend_options(option_models(options@), spec_parse_options(cur@)) == spec_parse_options(input@),
        decreases cur@.len(),
    {
        if cur.len() < 4 {
            return Err(DecodeError::TrailingBytes);
        }
        match parse_dhcpv6_option(cur) {
            Ok((rest, o)) => {
                proof {
                    lemma_option_consumes(cur@);
                }
                let ghost before = options@;
                options.push(o);
                proof {
                    assert(option_models(options@) =~= option_models(before) + seq![o@]);
                    match spec_parse_options(rest@) {
                        Ok(os) => assert(option_models(before) + (seq![o@] + os) =~= option_models(options@)
                            + os),
                        Err(_) => {},
                    }
                }
                cur = rest;
            },
            Err(e) => {
                return Err(e);
            },
        }
    }
    assert(option_models(options@) + Seq::<OptionModel>::empty() =~= option_models(options@));
    Ok((cur, options))
}

} // verus!
