//! Properties of the decoder as a whole, stated over the decoding
//! specifications and proved.
use vstd::prelude::*;
use vstd::utf8::valid_utf8;
use crate::bytes::{
    enc16, enc32, enc64, enc128, lemma_be16_enc16, lemma_be32_enc32, lemma_be64_enc64,
    lemma_be128_enc128, be16,
};
use crate::error::DecodeError;
use crate::header::spec_parse_header;
use crate::message_types::spec_parse_message_type;
use crate::options::{
    be16_list, length_allowed, option_code_known, option_from_payload, spec_parse_option,
    spec_parse_options, OptionModel,
};

verus! {

/// The wire code of an option.
pub open spec fn option_code(o: OptionModel) -> u16 {
    match o {
        OptionModel::CliendID { .. } => 1,
        OptionModel::ServerID { .. } => 2,
        OptionModel::IdentityAssociationForNonTemporaryAddresses { .. } => 3,
        OptionModel::IdentityAssociationForTemporaryAddresses { .. } => 4,
        OptionModel::IdentityAssociationAddress { .. } => 5,
        OptionModel::OptionRequest { .. } => 6,
        OptionModel::Preference { .. } => 7,
        OptionModel::ElapstedTime { .. } => 8,
        OptionModel::RelayMessage { .. } => 9,
        OptionModel::Authentication { .. } => 11,
        OptionModel::ServerUnicast { .. } => 12,
        OptionModel::StatusCode { .. } => 13,
        OptionModel::RapidCommit => 14,
        OptionModel::UserClass { .. } => 15,
        OptionModel::VendorClass { .. } => 16,
        OptionModel::VendorSpecificInformation { .. } => 17,
        OptionModel::InterfaceID { .. } => 18,
        OptionModel::ReconfigureMessage { .. } => 19,
        OptionModel::ReconfigureAccept => 20,
    }
}

/// Two bytes for each value of `v`, most significant first.
pub open spec fn enc16_list(v: Seq<u16>) -> Seq<u8> {
    Seq::new(
        2 * v.len(),
        |j: int|
            if j % 2 == 0 {
                (v[j / 2] / 0x100) as u8
            } else {
                (v[j / 2] % 0x100) as u8
            },
    )
}

/// The payload bytes that carry an option's fields.
pub open spec fn option_payload(o: OptionModel) -> Seq<u8> {
    match o {
        OptionModel::CliendID { duid } => duid,
        OptionModel::ServerID { duid } => duid,
        OptionModel::IdentityAssociationForNonTemporaryAddresses { id, time_1, time_2, options } =>
            enc32(id as nat) + enc32(time_1 as nat) + enc32(time_2 as nat) + options,
        OptionModel::IdentityAssociationForTemporaryAddresses { id, options } => enc32(id as nat) + options,
        OptionModel::IdentityAssociationAddress { address, prefered_lifetime, valid_lifetime, options } =>
            enc128(address as nat) + enc32(prefered_lifetime as nat) + enc32(valid_lifetime as nat) + options,
        OptionModel::OptionRequest { options } => enc16_list(options),
        OptionModel::Preference { pref_value } => seq![pref_value],
        OptionModel::ElapstedTime { elapsed_time } => enc16(elapsed_time as nat),
        OptionModel::RelayMessage { data } => data,
        OptionModel::Authentication { protocol, algorithm, rdm, replay_detection, authentication_information } =>
            seq![protocol, algorithm, rdm] + enc64(replay_detection as nat) + authentication_information,
        OptionModel::ServerUnicast { address } => enc128(address as nat),
        OptionModel::StatusCode { code, message } => enc16(code as nat) + message,
        OptionModel::RapidCommit => Seq::empty(),
        OptionModel::UserClass { data } => data,
        OptionModel::VendorClass { enterprise_number, data } => enc32(enterprise_number as nat) + data,
        OptionModel::VendorSpecificInformation { enterprise_number, data } =>
            enc32(enterprise_number as nat) + data,
        OptionModel::InterfaceID { data } => data,
        OptionModel::ReconfigureMessage { message_type } => seq![message_type],
        OptionModel::ReconfigureAccept => Seq::empty(),
    }
}

/// The wire form of an option: code, payload length, payload.
pub open spec fn encode_option(o: OptionModel) -> Seq<u8> {
    enc16(option_code(o) as nat) + enc16(option_payload(o).len()) + option_payload(o)
}

/// An option that has a wire form: its payload fits the 16-bit length field,
/// and a status message is UTF-8 text.
pub open spec fn option_encodable(o: OptionModel) -> bool {
    &&& option_payload(o).len() < 0x1_0000
    &&& (o matches OptionModel::StatusCode { message, .. } ==> valid_utf8(message))
}

/// A record made of a known code, a length that obeys the code's rule and
/// that many payload bytes decodes to what the payload gives, and leaves the
/// bytes after it.
proof fn lemma_parse_framed(code: u16, payload: Seq<u8>, rest: Seq<u8>)
    requires
        option_code_known(code),
        payload.len() < 0x1_0000,
        length_allowed(code, payload.len()),
    ensures
        spec_parse_option(enc16(code as nat) + enc16(payload.len()) + payload + rest) == match option_from_payload(
            code,
            payload,
        ) {
            Ok(o) => Ok::<_, DecodeError>((rest, o)),
            Err(e) => Err(e),
        },
{
    let s = enc16(code as nat) + enc16(payload.len()) + payload + rest;
    let len = payload.len();
    assert(s.subrange(0, 2) =~= enc16(code as nat));
    assert(s.subrange(2, 4) =~= enc16(len));
    lemma_be16_enc16(code as nat, s, 0);
    lemma_be16_enc16(len, s, 2);
    assert(s.subrange(4, 4 + len as int) =~= payload);
    assert(s.skip(4 + len as int) =~= rest);
}

/// Each value of an option request comes back from its two bytes.
proof fn lemma_be16_list(v: Seq<u16>)
    ensures
        be16_list(enc16_list(v)) =~= v,
{
    let p = enc16_list(v);
    assert forall|i: int| 0 <= i < v.len() implies be16(p, 2 * i) == v[i] by {
        assert((2 * i) / 2 == i && (2 * i) % 2 == 0);
        assert((2 * i + 1) / 2 == i && (2 * i + 1) % 2 == 1);
    }
}

/// The payload of an IA_NA option obeys its length rule and gives the option back.
proof fn lemma_round_trip_ia_na(o: OptionModel)
    requires
        o is IdentityAssociationForNonTemporaryAddresses,
        option_encodable(o),
    ensures
        option_code_known(option_code(o)),
        length_allowed(option_code(o), option_payload(o).len()),
        option_from_payload(option_code(o), option_payload(o)) == Ok::<_, DecodeError>(o),
{
    let p = option_payload(o);
    match o {
        OptionModel::IdentityAssociationForNonTemporaryAddresses { id, time_1, time_2, options } => {
            assert(p.subrange(0, 4) =~= enc32(id as nat));
            assert(p.subrange(4, 8) =~= enc32(time_1 as nat));
            assert(p.subrange(8, 12) =~= enc32(time_2 as nat));
            lemma_be32_enc32(id as nat, p, 0);
            lemma_be32_enc32(time_1 as nat, p, 4);
            lemma_be32_enc32(time_2 as nat, p, 8);
            assert(p.skip(12) =~= options);
        },
        _ => {},
    }
}

/// The payload of an IA_TA option obeys its length rule and gives the option back.
proof fn lemma_round_trip_ia_ta(o: OptionModel)
    requires
        o is IdentityAssociationForTemporaryAddresses,
        option_encodable(o),
    ensures
        option_code_known(option_code(o)),
        length_allowed(option_code(o), option_payload(o).len()),
        option_from_payload(option_code(o), option_payload(o)) == Ok::<_, DecodeError>(o),
{
    let p = option_payload(o);
    match o {
        OptionModel::IdentityAssociationForTemporaryAddresses { id, options } => {
            assert(p.subrange(0, 4) =~= enc32(id as nat));
            lemma_be32_enc32(id as nat, p, 0);
            assert(p.skip(4) =~= options);
        },
        _ => {},
    }
}

/// The payload of an IA Address option obeys its length rule and gives the option back.
proof fn lemma_round_trip_ia_address(o: OptionModel)
    requires
        o is IdentityAssociationAddress,
        option_encodable(o),
    ensures
        option_code_known(option_code(o)),
        length_allowed(option_code(o), option_payload(o).len()),
        option_from_payload(option_code(o), option_payload(o)) == Ok::<_, DecodeError>(o),
{
    let p = option_payload(o);
    match o {
        OptionModel::IdentityAssociationAddress { address, prefered_lifetime, valid_lifetime, options } => {
            assert(p.subrange(0, 16) =~= enc128(address as nat));
            assert(p.subrange(16, 20) =~= enc32(prefered_lifetime as nat));
            assert(p.subrange(20, 24) =~= enc32(valid_lifetime as nat));
            lemma_be128_enc128(address as nat, p, 0);
            lemma_be32_enc32(prefered_lifetime as nat, p, 16);
            lemma_be32_enc32(valid_lifetime as nat, p, 20);
            assert(p.skip(24) =~= options);
        },
        _ => {},
    }
}

/// The payload of an Option Request option obeys its length rule and gives the option back.
proof fn lemma_round_trip_option_request(o: OptionModel)
    requires
        o is OptionRequest,
        option_encodable(o),
    ensures
        option_code_known(option_code(o)),
        length_allowed(option_code(o), option_payload(o).len()),
        option_from_payload(option_code(o), option_payload(o)) == Ok::<_, DecodeError>(o),
{
    let p = option_payload(o);
    match o {
        OptionModel::OptionRequest { options } => {
            lemma_be16_list(options);
        },
        _ => {},
    }
}

/// The payload of an Elapsed Time option obeys its length rule and gives the option back.
proof fn lemma_round_trip_elapsed_time(o: OptionModel)
    requires
        o is ElapstedTime,
        option_encodable(o),
    ensures
        option_code_known(option_code(o)),
        length_allowed(option_code(o), option_payload(o).len()),
        option_from_payload(option_code(o), option_payload(o)) == Ok::<_, DecodeError>(o),
{
    let p = option_payload(o);
    match o {
        OptionModel::ElapstedTime { elapsed_time } => {
            assert(p.subrange(0, 2) =~= enc16(elapsed_time as nat));
            lemma_be16_enc16(elapsed_time as nat, p, 0);
        },
        _ => {},
    }
}

/// The payload of an Authentication option obeys its length rule and gives the option back.
proof fn lemma_round_trip_authentication(o: OptionModel)
    requires
        o is Authentication,
        option_encodable(o),
    ensures
        option_code_known(option_code(o)),
        length_allowed(option_code(o), option_payload(o).len()),
        option_from_payload(option_code(o), option_payload(o)) == Ok::<_, DecodeError>(o),
{
    let p = option_payload(o);
    match o {
        OptionModel::Authentication { protocol, algorithm, rdm, replay_detection, authentication_information } => {
            assert(p.subrange(3, 11) =~= enc64(replay_detection as nat));
            lemma_be64_enc64(replay_detection as nat, p, 3);
            assert(p.skip(11) =~= authentication_information);
        },
        _ => {},
    }
}

/// The payload of a Server Unicast option obeys its length rule and gives the option back.
proof fn lemma_round_trip_server_unicast(o: OptionModel)
    requires
        o is ServerUnicast,
        option_encodable(o),
    ensures
        option_code_known(option_code(o)),
        length_allowed(option_code(o), option_payload(o).len()),
        option_from_payload(option_code(o), option_payload(o)) == Ok::<_, DecodeError>(o),
{
    let p = option_payload(o);
    match o {
        OptionModel::ServerUnicast { address } => {
            assert(p.subrange(0, 16) =~= enc128(address as nat));
            lemma_be128_enc128(address as nat, p, 0);
        },
        _ => {},
    }
}

/// The payload of a Status Code option obeys its length rule and gives the option back.
proof fn lemma_round_trip_status_code(o: OptionModel)
    requires
        o is StatusCode,
        option_encodable(o),
    ensures
        option_code_known(option_code(o)),
        length_allowed(option_code(o), option_payload(o).len()),
        option_from_payload(option_code(o), option_payload(o)) == Ok::<_, DecodeError>(o),
{
    let p = option_payload(o);
    match o {
        OptionModel::StatusCode { code, message } => {
            assert(p.subrange(0, 2) =~= enc16(code as nat));
            lemma_be16_enc16(code as nat, p, 0);
            assert(p.skip(2) =~= message);
        },
        _ => {},
    }
}

/// The payload of a Vendor Class option obeys its length rule and gives the option back.
proof fn lemma_round_trip_vendor_class(o: OptionModel)
    requires
        o is VendorClass,
        option_encodable(o),
    ensures
        option_code_known(option_code(o)),
        length_allowed(option_code(o), option_payload(o).len()),
        option_from_payload(option_code(o), option_payload(o)) == Ok::<_, DecodeError>(o),
{
    let p = option_payload(o);
    match o {
        OptionModel::VendorClass { enterprise_number, data } => {
            assert(p.subrange(0, 4) =~= enc32(enterprise_number as nat));
            lemma_be32_enc32(enterprise_number as nat, p, 0);
            assert(p.skip(4) =~= data);
        },
        _ => {},
    }
}

/// The payload of a Vendor-Specific Information option obeys its length rule and gives the option back.
proof fn lemma_round_trip_vendor_specific_information(o: OptionModel)
    requires
        o is VendorSpecificInformation,
        option_encodable(o),
    ensures
        option_code_known(option_code(o)),
        length_allowed(option_code(o), option_payload(o).len()),
        option_from_payload(option_code(o), option_payload(o)) == Ok::<_, DecodeError>(o),
{
    let p = option_payload(o);
    match o {
        OptionModel::VendorSpecificInformation { enterprise_number, data } => {
            assert(p.subrange(0, 4) =~= enc32(enterprise_number as nat));
            lemma_be32_enc32(enterprise_number as nat, p, 0);
            assert(p.skip(4) =~= data);
        },
        _ => {},
    }
}

/// An encodable option's payload obeys its code's length rule and gives the
/// option back.
proof fn lemma_payload_round_trip(o: OptionModel)
    requires
        option_encodable(o),
    ensures
        option_code_known(option_code(o)),
        length_allowed(option_code(o), option_payload(o).len()),
        option_from_payload(option_code(o), option_payload(o)) == Ok::<_, DecodeError>(o),
{
    match o {
        OptionModel::IdentityAssociationForNonTemporaryAddresses { .. } => lemma_round_trip_ia_na(o),
        OptionModel::IdentityAssociationForTemporaryAddresses { .. } => lemma_round_trip_ia_ta(o),
        OptionModel::IdentityAssociationAddress { .. } => lemma_round_trip_ia_address(o),
        OptionModel::OptionRequest { .. } => lemma_round_trip_option_request(o),
        OptionModel::ElapstedTime { .. } => lemma_round_trip_elapsed_time(o),
        OptionModel::Authentication { .. } => lemma_round_trip_authentication(o),
        OptionModel::ServerUnicast { .. } => lemma_round_trip_server_unicast(o),
        OptionModel::StatusCode { .. } => lemma_round_trip_status_code(o),
        OptionModel::VendorClass { .. } => lemma_round_trip_vendor_class(o),
        OptionModel::VendorSpecificInformation { .. } => lemma_round_trip_vendor_specific_information(o),
        _ => {},
    }
}

/// Decoding the wire form of any encodable option, followed by any bytes,
/// gives back exactly that option and leaves exactly those bytes.
pub proof fn lemma_option_round_trip(o: OptionModel, rest: Seq<u8>)
    requires
        option_encodable(o),
    ensures
        spec_parse_option(encode_option(o) + rest) == Ok::<_, DecodeError>((rest, o)),
{
    lemma_payload_round_trip(o);
    lemma_parse_framed(option_code(o), option_payload(o), rest);
}

/// A message too short for its fixed fields fails with `Truncated`: an empty
/// buffer, a client or server message of fewer than four bytes, and a relay
/// message of fewer than thirty-four.
pub proof fn lemma_header_truncated(s: Seq<u8>)
    requires
        s.len() == 0 || (1 <= s[0] <= 13 && s.len() < 4) || (12 <= s[0] <= 13 && s.len() < 34),
    ensures
        spec_parse_header(s) == Err::<(Seq<u8>, crate::header::HeaderModel), _>(DecodeError::Truncated),
{
}

/// An option too short for its fixed fields fails with `Truncated`: fewer
/// than two bytes, a known code with fewer than four, or a payload shorter
/// than an allowed declared length.
pub proof fn lemma_option_truncated(s: Seq<u8>)
    requires
        s.len() < 2 || (option_code_known(be16(s, 0) as u16) && (s.len() < 4 || (length_allowed(
            be16(s, 0) as u16,
            be16(s, 2),
        ) && s.len() < 4 + be16(s, 2)))),
    ensures
        spec_parse_option(s) == Err::<(Seq<u8>, OptionModel), _>(DecodeError::Truncated),
{
}

/// A message whose type byte is not one of the codes 1 to 13 fails with
/// `InvalidMessageType`, whatever follows it.
pub proof fn lemma_invalid_message_type(s: Seq<u8>)
    requires
        s.len() >= 1,
        !(1 <= s[0] <= 13),
    ensures
        spec_parse_message_type(s) == Err::<(Seq<u8>, crate::message_types::DHCPv6MessageType), _>(
            DecodeError::InvalidMessageType,
        ),
        spec_parse_header(s) == Err::<(Seq<u8>, crate::header::HeaderModel), _>(DecodeError::InvalidMessageType),
{
}

/// An option whose code is not one of 1 to 9 or 11 to 20 (code 10
/// included) fails with `UnknownOptionCode`, whatever follows the code; in
/// an option region of at least four bytes the whole region fails so.
pub proof fn lemma_unknown_option_code(s: Seq<u8>)
    requires
        s.len() >= 2,
        !(1 <= be16(s, 0) <= 9 || 11 <= be16(s, 0) <= 20),
    ensures
        spec_parse_option(s) == Err::<(Seq<u8>, OptionModel), _>(DecodeError::UnknownOptionCode),
        s.len() >= 4 ==> spec_parse_options(s) == Err::<Seq<OptionModel>, _>(DecodeError::UnknownOptionCode),
{
}

/// Decoding is a function of the bytes alone: equal inputs give equal
/// results, at every level of the decoder.
pub proof fn lemma_decode_deterministic(a: Seq<u8>, b: Seq<u8>)
    requires
        a == b,
    ensures
        spec_parse_header(a) == spec_parse_header(b),
        spec_parse_options(a) == spec_parse_options(b),
        spec_parse_option(a) == spec_parse_option(b),
        spec_parse_message_type(a) == spec_parse_message_type(b),
{
}

} // verus!
