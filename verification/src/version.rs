//! Protocol versions and the version-negotiation rule.

use vstd::prelude::*;

verus! {

/// An enumerated, totally ordered LoRaWAN protocol version.
///
/// The order is given by [`Version::ordinal`]; negotiation between a
/// server version and a device-declared version takes the minimum.
#[derive(Clone, Copy, Debug, PartialEq, Eq, Structural)]
pub enum Version {
    LoRaWAN1_0,
    LoRaWAN1_1,
}

impl Version {
    /// Numeric ordinal of the version; also its wire encoding
    /// (the minor-version value carried in Reset payload bytes).
    pub open spec fn ordinal(self) -> u8 {
        match self {
            Version::LoRaWAN1_0 => 0,
            Version::LoRaWAN1_1 => 1,
        }
    }

    /// Numeric ordinal used for comparing two versions.
    pub fn to_u8(&self) -> (r: u8)
        ensures
            r == self.ordinal(),
    {
        match self {
            Version::LoRaWAN1_0 => 0,
            Version::LoRaWAN1_1 => 1,
        }
    }

    /// The version whose ordinal is `b`, if `b` encodes one.
    pub fn from_u8(b: u8) -> (r: Option<Version>)
        ensures
            r == spec_version_of(b),
    {
        match b {
            0u8 => Some(Version::LoRaWAN1_0),
            1u8 => Some(Version::LoRaWAN1_1),
            _ => None,
        }
    }
}

/// The version a payload byte encodes, if any: the inverse of
/// [`Version::ordinal`] on the bytes that encode a version.
pub open spec fn spec_version_of(b: u8) -> Option<Version> {
    if b == 0 {
        Some(Version::LoRaWAN1_0)
    } else if b == 1 {
        Some(Version::LoRaWAN1_1)
    } else {
        None
    }
}

/// The minimum of two versions under the ordinal order.
pub open spec fn spec_min_version(a: Version, b: Version) -> Version {
    if a.ordinal() <= b.ordinal() {
        a
    } else {
        b
    }
}

/// Negotiate the version answered to a device: the minimum of the
/// server's own version and the device-declared version.
pub fn min_version(a: Version, b: Version) -> (r: Version)
    ensures
        r == spec_min_version(a, b),
{
    if a.to_u8() <= b.to_u8() {
        a
    } else {
        b
    }
}

/// Law: version negotiation is monotone. The negotiated version never
/// exceeds either operand, is one of the two operands, and its ordinal
/// is exactly the minimum of the operands' ordinals.
pub proof fn lemma_negotiation_monotonic(server: Version, dev: Version)
    ensures
        spec_min_version(server, dev).ordinal() <= server.ordinal(),
        spec_min_version(server, dev).ordinal() <= dev.ordinal(),
        spec_min_version(server, dev) == server || spec_min_version(server, dev) == dev,
        spec_min_version(server, dev).ordinal() == if server.ordinal() <= dev.ordinal() {
            server.ordinal()
        } else {
            dev.ordinal()
        },
{
}

} // verus!
