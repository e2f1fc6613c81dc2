//! Whole DHCPv6 messages: the type tag, the header it selects, and the
//! options that run to the end of the message.
use vstd::prelude::*;
use crate::bytes::{be24, be128, read_u24, read_u128};
use crate::error::DecodeError;
use crate::message_types::{parse_dhcpv6_message_type, spec_parse_message_type, DHCPv6MessageType};
use crate::options::{option_models, parse_dhcpv6_options, spec_parse_options, DHCPv6Option, OptionModel};

verus! {

#[derive(Debug, Clone, PartialEq)]
pub enum DHCPv6Header {
    ClientServer { message_type: DHCPv6MessageType, transaction_id: u32, options: Vec<DHCPv6Option> },
    RelayAgentServer {
        message_type: DHCPv6MessageType,
        hop_count: u8,
        link_address: u128,
        peer_address: u128,
        options: Vec<DHCPv6Option>,
    },
}

/// The mathematical value of a decoded message.
pub ghost enum HeaderModel {
    ClientServer { message_type: DHCPv6MessageType, transaction_id: u32, options: Seq<OptionModel> },
    RelayAgentServer {
        message_type: DHCPv6MessageType,
        hop_count: u8,
        link_address: u128,
        peer_address: u128,
        options: Seq<OptionModel>,
    },
}

impl View for DHCPv6Header {
    type V = HeaderModel;

    open spec fn view(&self) -> HeaderModel {
        match self {
            DHCPv6Header::ClientServer { message_type, transaction_id, options } => HeaderModel::ClientServer {
                message_type: *message_type,
                transaction_id: *transaction_id,
                options: option_models(options@),
            },
            DHCPv6Header::RelayAgentServer { message_type, hop_count, link_address, peer_address, options } =>
                HeaderModel::RelayAgentServer {
                message_type: *message_type,
                hop_count: *hop_count,
                link_address: *link_address,
                peer_address: *peer_address,
                options: option_models(options@),
            },
        }
    }
}

/// Decoding what follows the type tag of a client or server message: a
/// 24-bit transaction id, then options to the end.
pub open spec fn spec_parse_client_server(s: Seq<u8>, t: DHCPv6MessageType) -> Result<(Seq<u8>, HeaderModel), DecodeError> {
    if s.len() < 3 {
        Err(DecodeError::Truncated)
    } else {
        match spec_parse_options(s.skip(3)) {
            Ok(os) => Ok((Seq::empty(), HeaderModel::ClientServer { message_type: t, transaction_id: be24(s, 0) as u32, options: os })),
            Err(e) => Err(e),
        }
    }
}

/// Decoding what follows the type tag of a relay message: the hop count, the
/// link address, the peer address, then options to the end.
pub open spec fn spec_parse_relay_agent_server(s: Seq<u8>, t: DHCPv6MessageType) -> Result<(Seq<u8>, HeaderModel), DecodeError> {
    if s.len() < 33 {
        Err(DecodeError::Truncated)
    } else {
        match spec_parse_options(s.skip(33)) {
            Ok(os) => Ok((Seq::empty(), HeaderModel::RelayAgentServer {
                message_type: t,
                hop_count: s[0],
                link_address: be128(s, 1) as u128,
                peer_address: be128(s, 17) as u128,
                options: os,
            })),
            Err(e) => Err(e),
        }
    }
}

/// Decoding a whole message; relay messages take the relay-agent layout.
pub open spec fn spec_parse_header(s: Seq<u8>) -> Result<(Seq<u8>, HeaderModel), DecodeError> {
    match spec_parse_message_type(s) {
        Ok((rest, t)) => if t.is_relay() {
            spec_parse_relay_agent_server(rest, t)
        } else {
            spec_parse_client_server(rest, t)
        },
        Err(e) => Err(e),
    }
}

/// A decoded message and the rest of the input, as values.
pub open spec fn header_result_view(r: Result<(&[u8], DHCPv6Header), DecodeError>) -> Result<
    (Seq<u8>, HeaderModel),
    DecodeError,
> {
    match r {
        Ok((rest, h)) => Ok((rest@, h@)),
        Err(e) => Err(e),
    }
}

fn parse_dhcpv6_header_client_server(input: &[u8], message_type: DHCPv6MessageType) -> (r: Result<
    (&[u8], DHCPv6Header),
    DecodeError,
>)
    ensures
        header_result_view(r) == spec_parse_client_server(input@, message_type),
{
    if input.len() < 3 {
        return Err(DecodeError::Truncated);
    }
    let transaction_id = read_u24(input, 0);
    let region = vstd::slice::slice_subrange(input, 3, input.len());
    assert(region@ =~= input@.skip(3));
    match parse_dhcpv6_options(region) {
        Ok((rest, options)) => {
            assert(rest@ =~= Seq::<u8>::empty());
            Ok((rest, DHCPv6Header::ClientServer { message_type, transaction_id, options }))
        },
        Err(e) => Err(e),
    }
}

fn parse_dhcpv6_header_relay_agent_server(input: &[u8], message_type: DHCPv6MessageType) -> (r: Result<
    (&[u8], DHCPv6Header),
    DecodeError,
>)
    ensures
        header_result_view(r) == spec_parse_relay_agent_server(input@, message_type),
{
    if input.len() < 33 {
        return Err(DecodeError::Truncated);
    }
    let hop_count = input[0];
    let link_address = read_u128(input, 1);
    let peer_address = read_u128(input, 17);
    let region = vstd::slice::slice_subrange(input, 33, input.len());
    assert(region@ =~= input@.skip(33));
    match parse_dhcpv6_options(region) {
        Ok((rest, options)) => {
            assert(rest@ =~= Seq::<u8>::empty());
            Ok((
                rest,
                DHCPv6Header::RelayAgentServer { message_type, hop_count, link_address, peer_address, options },
            ))
        },
        Err(e) => Err(e),
    }
}

/// Decodes a whole DHCPv6 message. On success the returned rest is empty.
pub fn parse_dhcpv6_header(input: &[u8]) -> (r: Result<(&[u8], DHCPv6Header), DecodeError>)
    ensures
        header_result_view(r) == spec_parse_header(input@),
{
    match parse_dhcpv6_message_type(input) {
        Ok((rest, message_type)) => match message_type {
            DHCPv6MessageType::RelayForw | DHCPv6MessageType::RelayRepl => {
                parse_dhcpv6_header_relay_agent_server(rest, message_type)
            },
            _ => parse_dhcpv6_header_client_server(rest, message_type),
        },
        Err(e) => Err(e),
    }
}

} // verus!
