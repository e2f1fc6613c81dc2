//! The thirteen kinds of DHCPv6 message and their one-byte wire codes.
use vstd::prelude::*;
use crate::error::DecodeError;

verus! {

#[derive(Debug, Clone, Copy, PartialEq, Eq, Structural)]
pub enum DHCPv6MessageType {
    Solicit,
    Advertise,
    Request,
    Confirm,
    Renew,
    Rebind,
    Reply,
    Release,
    Decline,
    Reconfigure,
    InformationRequest,
    RelayForw,
    RelayRepl,
}

impl DHCPv6MessageType {
    /// The wire code of this message type.
    pub open spec fn code(self) -> u8 {
        match self {
            DHCPv6MessageType::Solicit => 1,
            DHCPv6MessageType::Advertise => 2,
            DHCPv6MessageType::Request => 3,
            DHCPv6MessageType::Confirm => 4,
            DHCPv6MessageType::Renew => 5,
            DHCPv6MessageType::Rebind => 6,
            DHCPv6MessageType::Reply => 7,
            DHCPv6MessageType::Release => 8,
            DHCPv6MessageType::Decline => 9,
            DHCPv6MessageType::Reconfigure => 10,
            DHCPv6MessageType::InformationRequest => 11,
            DHCPv6MessageType::RelayForw => 12,
            DHCPv6MessageType::RelayRepl => 13,
        }
    }

    /// Relay messages carry the relay-agent header.
    pub open spec fn is_relay(self) -> bool {
        self == DHCPv6MessageType::RelayForw || self == DHCPv6MessageType::RelayRepl
    }
}

/// The message type whose wire code is `b`, if any.
pub open spec fn message_type_of(b: u8) -> Option<DHCPv6MessageType> {
    match b {
        1 => Some(DHCPv6MessageType::Solicit),
        2 => Some(DHCPv6MessageType::Advertise),
        3 => Some(DHCPv6MessageType::Request),
        4 => Some(DHCPv6MessageType::Confirm),
        5 => Some(DHCPv6MessageType::Renew),
        6 => Some(DHCPv6MessageType::Rebind),
        7 => Some(DHCPv6MessageType::Reply),
        8 => Some(DHCPv6MessageType::Release),
        9 => Some(DHCPv6MessageType::Decline),
        10 => Some(DHCPv6MessageType::Reconfigure),
        11 => Some(DHCPv6MessageType::InformationRequest),
        12 => Some(DHCPv6MessageType::RelayForw),
        13 => Some(DHCPv6MessageType::RelayRepl),
        _ => None,
    }
}

/// Decoding the message type tag: the first byte, and the bytes after it.
pub open spec fn spec_parse_message_type(s: Seq<u8>) -> Result<(Seq<u8>, DHCPv6MessageType), DecodeError> {
    if s.len() == 0 {
        Err(DecodeError::Truncated)
    } else {
        match message_type_of(s[0]) {
            Some(t) => Ok((s.skip(1), t)),
            None => Err(DecodeError::InvalidMessageType),
        }
    }
}

/// A byte names a message type exactly when it is one of the codes 1 to 13,
/// and then the type's code is that byte.
pub proof fn lemma_message_type_of(b: u8)
    ensures
        message_type_of(b) is Some <==> 1 <= b <= 13,
        message_type_of(b) matches Some(t) ==> t.code() == b,
{
}

/// Reads the one-byte message type at the start of `input`.
pub fn parse_dhcpv6_message_type(input: &[u8]) -> (r: Result<(&[u8], DHCPv6MessageType), DecodeError>)
    ensures
        match r {
            Ok((rest, t)) => spec_parse_message_type(input@) == Ok::<_, DecodeError>((rest@, t)),
            Err(e) => spec_parse_message_type(input@) == Err::<(Seq<u8>, DHCPv6MessageType), _>(e),
        },
{
    if input.len() == 0 {
        return Err(DecodeError::Truncated);
    }
    let b = input[0];
    let t = match b {
        1 => DHCPv6MessageType::Solicit,
        2 => DHCPv6MessageType::Advertise,
        3 => DHCPv6MessageType::Request,
        4 => DHCPv6MessageType::Confirm,
        5 => DHCPv6MessageType::Renew,
        6 => DHCPv6MessageType::Rebind,
        7 => DHCPv6MessageType::Reply,
        8 => DHCPv6MessageType::Release,
        9 => DHCPv6MessageType::Decline,
        10 => DHCPv6MessageType::Reconfigure,
        11 => DHCPv6MessageType::InformationRequest,
        12 => DHCPv6MessageType::RelayForw,
        13 => DHCPv6MessageType::RelayRepl,
        _ => {
            return Err(DecodeError::InvalidMessageType);
        },
    };
    let rest = vstd::slice::slice_subrange(input, 1, input.len());
    assert(rest@ =~= input@.skip(1));
    Ok((rest, t))
}

} // verus!
