//! Decoder for DHCPv6 messages: a message type tag, one of two header
//! layouts, and a sequence of type-length-value options.
//!
//! Every decoding function is pure and is proved equal to a specification
//! over byte sequences. Decoded values own copies of the variable-length
//! payloads they carry, so they stay valid independently of the input buffer
//! at the cost of one allocation per payload; the rest of the input that a
//! function hands back is a view into that input.
pub mod bytes;
pub mod error;
pub mod header;
pub mod laws;
pub mod message_types;
pub mod options;

pub use error::{DecodeError, LengthRule};
pub use header::{parse_dhcpv6_header, DHCPv6Header};
pub use message_types::{parse_dhcpv6_message_type, DHCPv6MessageType};
pub use options::{parse_dhcpv6_option, parse_dhcpv6_options, DHCPv6Option};
