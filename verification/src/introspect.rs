//! [`IntrospectClient`] — a client for a second component, the introspect
//! daemon, over its query socket.
//!
//! The client owns the socket path and the largest reply it will read. The
//! daemon answers every query with a 4-byte big-endian length prefix wrapping
//! the reply frame; [`IntrospectClient::reply_length`] decides, from that
//! prefix, how many bytes to read or why to refuse the reply.

use vstd::prelude::*;

use crate::error::Error;

verus! {

/// The largest reply a client reads unless told otherwise: 16 MiB.
pub const DEFAULT_MAXIMUM_REPLY_BYTES: usize = 16777216;

/// The value of a 4-byte big-endian length prefix.
pub open spec fn big_endian_length(prefix: Seq<u8>) -> nat {
    (prefix[0] as nat) * 16777216 + (prefix[1] as nat) * 65536 + (prefix[2] as nat) * 256 + (
    prefix[3] as nat)
}

/// The decimal digit character of a value below ten.
pub open spec fn digit_char(digit: nat) -> char {
    ((('0' as u32) as nat + digit) as u32) as char
}

/// The decimal text of a natural number: its digits, most significant first,
/// without leading zeros.
pub open spec fn decimal_text(value: nat) -> Seq<char>
    decreases value,
{
    if value < 10 {
        seq![digit_char(value)]
    } else {
        decimal_text(value / 10).push(digit_char(value % 10))
    }
}

/// The detail of an over-long reply refusal.
pub open spec fn reply_too_long_detail(length: nat, maximum: nat) -> Seq<char> {
    "reply length "@ + decimal_text(length) + " exceeds maximum "@ + decimal_text(maximum)
}

/// The decimal text of an integer: `ToString` of `u64`, whose `Display`
/// writes the base-ten digits with no sign, padding or leading zeros.
#[verifier::external_body]
fn decimal(value: u64) -> (text: String)
    ensures
        text@ == decimal_text(value as nat),
{
    value.to_string()
}

/// A blocking client for the introspect daemon's introspection-query socket.
#[derive(Debug, Clone, PartialEq, Eq)]
pub struct IntrospectClient {
    socket: String,
    maximum_reply_bytes: usize,
}

impl IntrospectClient {
    pub closed spec fn socket_path(self) -> Seq<char> {
        self.socket@
    }

    pub closed spec fn maximum_reply(self) -> nat {
        self.maximum_reply_bytes as nat
    }

    /// Construct a client bound to an introspection-query socket path.
    pub fn new(socket: String) -> (client: Self)
        ensures
            client.socket_path() == socket@,
            client.maximum_reply() == DEFAULT_MAXIMUM_REPLY_BYTES,
    {
        IntrospectClient { socket, maximum_reply_bytes: DEFAULT_MAXIMUM_REPLY_BYTES }
    }

    /// The socket path this client dials, for a shell to display.
    pub fn socket(&self) -> (socket: &String)
        ensures
            socket@ == self.socket_path(),
    {
        &self.socket
    }

    /// Decide from a reply's 4-byte big-endian length prefix how many body
    /// bytes to read: the prefix's value when it is within the client's
    /// maximum, and otherwise an `UnexpectedIntrospectFrame` naming both
    /// numbers.
    pub fn reply_length(&self, prefix: [u8; 4]) -> (length: Result<usize, Error>)
        ensures
            match length {
                Ok(bytes) => bytes == big_endian_length(prefix@) && bytes <= self.maximum_reply(),
                Err(error) => {
                    &&& big_endian_length(prefix@) > self.maximum_reply()
                    &&& error matches Error::UnexpectedIntrospectFrame { detail }
                    &&& detail@ == reply_too_long_detail(
                        big_endian_length(prefix@),
                        self.maximum_reply(),
                    )
                },
            },
    {
        let length: u64 = (prefix[0] as u64) * 16777216 + (prefix[1] as u64) * 65536 + (
        prefix[2] as u64) * 256 + (prefix[3] as u64);
        let maximum = self.maximum_reply_bytes;
        if length > maximum as u64 {
            let mut detail = String::from_str("reply length ");
            let length_text = decimal(length);
            detail.append(length_text.as_str());
            detail.append(" exceeds maximum ");
            let maximum_text = decimal(maximum as u64);
            detail.append(maximum_text.as_str());
            Err(Error::UnexpectedIntrospectFrame { detail })
        } else {
            Ok(length as usize)
        }
    }
}

} // verus!
