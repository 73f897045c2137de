//! Hardware and network addresses as plain octets.

use vstd::prelude::*;

verus! {

/// What `wol::MacAddr`'s `FromStr` makes of a text: the six octets it reads,
/// or nothing where it rejects the text.
pub uninterp spec fn mac_octets_of(text: Seq<char>) -> Option<[u8; 6]>;

/// Calls `<wol::MacAddr as FromStr>::from_str`, which accepts the notations
/// of `eui48::MacAddress::parse_str`. The result depends on the text alone;
/// the contract gives it the name `mac_octets_of` and claims nothing else.
#[verifier::external_body]
fn read_mac_octets(text: &str) -> (octets: Option<[u8; 6]>)
    ensures
        octets == mac_octets_of(text@),
{
    match text.parse::<wol::MacAddr>() {
        Ok(mac) => Some(mac.0),
        Err(_) => None,
    }
}

/// A six-octet hardware address.
#[derive(Clone, Copy, Debug, PartialEq, Eq)]
pub struct MacAddr {
    pub octets: [u8; 6],
}

impl MacAddr {
    /// The address that a text denotes, if it denotes one.
    pub open spec fn parsed(text: Seq<char>) -> Option<MacAddr> {
        Self::from_octets(mac_octets_of(text))
    }

    /// The address made of six octets that were read, if any were.
    pub open spec fn from_octets(octets: Option<[u8; 6]>) -> Option<MacAddr> {
        match octets {
            Some(o) => Some(MacAddr { octets: o }),
            None => None,
        }
    }

    /// Reads an address such as `00:0a:0b:0c:0d:0e`.
    pub fn parse(text: &str) -> (mac: Option<MacAddr>)
        ensures
            mac == Self::parsed(text@),
    {
        match read_mac_octets(text) {
            Some(o) => Some(MacAddr { octets: o }),
            None => None,
        }
    }
}

/// The two families of network address.
#[derive(Clone, Copy, Debug, PartialEq, Eq, Structural)]
pub enum AddressFamily {
    V4,
    V6,
}

/// A network address: four octets, or sixteen.
#[derive(Clone, Copy, Debug, PartialEq, Eq)]
pub enum IpAddress {
    V4([u8; 4]),
    V6([u8; 16]),
}

impl IpAddress {
    /// The family that the address belongs to.
    pub open spec fn spec_family(self) -> AddressFamily {
        match self {
            IpAddress::V4(_) => AddressFamily::V4,
            IpAddress::V6(_) => AddressFamily::V6,
        }
    }

    /// The family that the address belongs to.
    #[verifier::when_used_as_spec(spec_family)]
    pub fn family(self) -> (family: AddressFamily)
        ensures
            family == self.spec_family(),
    {
        match self {
            IpAddress::V4(_) => AddressFamily::V4,
            IpAddress::V6(_) => AddressFamily::V6,
        }
    }
}

} // verus!
