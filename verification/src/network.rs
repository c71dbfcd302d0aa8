//! IPv4 networks in CIDR notation: an address and the length of its prefix.

use crate::decimal::append_decimal;
use crate::decimal::decimal;
use std::str::FromStr;
use vstd::prelude::*;
use vstd::string::StringExecFns;

verus! {

/// `ipnetwork::IpNetworkError`, with which a text is rejected. It is handed on
/// and never looked into.
#[verifier::external_type_specification]
#[verifier::external_body]
pub struct ExIpNetworkError(ipnetwork::IpNetworkError);

/// An IPv4 address together with a prefix length.
#[derive(Clone, Copy, Debug, PartialEq, Eq)]
pub struct Ipv4Network {
    /// The four octets of the address, the most significant first.
    pub octets: [u8; 4],
    /// The number of leading bits that name the network.
    pub prefix: u8,
}

/// The number of bits of an IPv4 address.
pub const IPV4_BITS: u8 = 32;

impl Ipv4Network {
    /// A prefix cannot be longer than the address.
    pub open spec fn well_formed(&self) -> bool {
        self.prefix <= IPV4_BITS
    }

    /// The CIDR notation: the octets in decimal joined by dots, a slash, and
    /// the prefix length in decimal.
    pub open spec fn text(&self) -> Seq<char> {
        decimal(self.octets[0] as nat) + seq!['.'] + decimal(self.octets[1] as nat) + seq!['.']
            + decimal(self.octets[2] as nat) + seq!['.'] + decimal(self.octets[3] as nat)
            + seq!['/'] + decimal(self.prefix as nat)
    }

    /// The network of the given address and prefix length, unless the prefix
    /// is longer than 32 bits.
    pub fn new(octets: [u8; 4], prefix: u8) -> (r: Option<Ipv4Network>)
        ensures
            r == if prefix <= IPV4_BITS {
                Some(Ipv4Network { octets, prefix })
            } else {
                None
            },
            r matches Some(net) ==> net.well_formed(),
    {
        if prefix <= IPV4_BITS {
            Some(Ipv4Network { octets, prefix })
        } else {
            None
        }
    }

    /// Writes the network in CIDR notation.
    pub fn to_text(&self) -> (r: String)
        ensures
            r@ == self.text(),
    {
        proof {
            reveal_strlit(".");
            reveal_strlit("/");
        }
        let mut out = String::new();
        append_decimal(&mut out, self.octets[0] as u64);
        out.append(".");
        append_decimal(&mut out, self.octets[1] as u64);
        out.append(".");
        append_decimal(&mut out, self.octets[2] as u64);
        out.append(".");
        append_decimal(&mut out, self.octets[3] as u64);
        out.append("/");
        append_decimal(&mut out, self.prefix as u64);
        out
    }
}

/// What `ipnetwork::IpNetwork::from_str` reads from a text: nothing where it
/// reports an error, otherwise the IPv4 network it read, or none where the
/// network it read is an IPv6 one.
pub uninterp spec fn parsed_network(text: Seq<char>) -> Option<Option<Ipv4Network>>;

/// Calls `ipnetwork::IpNetwork::from_str` on `text` and copies the address and
/// the prefix length out of an IPv4 result. The contract names what the parser
/// returns; of its value it states only that an IPv4 network's prefix is at
/// most 32, which the parser checks before it builds one.
#[verifier::external_body]
pub(crate) fn read_network(text: &str) -> (r: Result<
    Option<Ipv4Network>,
    ipnetwork::IpNetworkError,
>)
    ensures
        match r {
            Ok(found) => parsed_network(text@) == Some(found),
            Err(_) => parsed_network(text@) is None,
        },
        r matches Ok(Some(net)) ==> net.well_formed(),
{
    match ipnetwork::IpNetwork::from_str(text) {
        Ok(ipnetwork::IpNetwork::V4(net)) => Ok(
            Some(Ipv4Network { octets: net.ip().octets(), prefix: net.prefix() }),
        ),
        Ok(ipnetwork::IpNetwork::V6(_)) => Ok(None),
        Err(e) => Err(e),
    }
}

} // verus!
