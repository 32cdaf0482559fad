//! Sensors or actuators (*a.k.a.,* features) controlled by a chip: their kinds.

use crate::chip::{bytes_view, same_bytes, same_chip, ChipName};
use vstd::prelude::*;

verus! {

/// Type of a sensor or actuator (*a.k.a.,* feature) controlled by a chip.
#[derive(Debug, Clone, Copy, PartialEq, Eq, Structural, PartialOrd, Ord, Hash)]
pub enum Kind {
    /// Raw code 0x0.
    Voltage,
    /// Raw code 0x1.
    Fan,
    /// Raw code 0x2.
    Temperature,
    /// Raw code 0x3.
    Power,
    /// Raw code 0x4.
    Energy,
    /// Raw code 0x5.
    Current,
    /// Raw code 0x6.
    Humidity,
    /// Raw code 0x10.
    VoltageID,
    /// Raw code 0x11.
    Intrusion,
    /// Raw code 0x18.
    BeepEnable,
    /// Raw code 0x7fffffff.
    Unknown,
}

impl Kind {
    /// The raw code of each feature kind.
    pub open spec fn code(self) -> u32 {
        match self {
            Kind::Voltage => 0u32,
            Kind::Fan => 1u32,
            Kind::Temperature => 2u32,
            Kind::Power => 3u32,
            Kind::Energy => 4u32,
            Kind::Current => 5u32,
            Kind::Humidity => 6u32,
            Kind::VoltageID => 16u32,
            Kind::Intrusion => 17u32,
            Kind::BeepEnable => 24u32,
            Kind::Unknown => 2147483647u32,
        }
    }

    /// The feature kind of a raw code, if the code names one.
    pub open spec fn of_code(code: u32) -> Option<Kind> {
        match code {
            0u32 => Some(Kind::Voltage),
            1u32 => Some(Kind::Fan),
            2u32 => Some(Kind::Temperature),
            3u32 => Some(Kind::Power),
            4u32 => Some(Kind::Energy),
            5u32 => Some(Kind::Current),
            6u32 => Some(Kind::Humidity),
            16u32 => Some(Kind::VoltageID),
            17u32 => Some(Kind::Intrusion),
            24u32 => Some(Kind::BeepEnable),
            2147483647u32 => Some(Kind::Unknown),
            _ => None,
        }
    }

    /// The name of each feature kind.
    pub open spec fn spec_name(self) -> Seq<char> {
        match self {
            Kind::Voltage => "Voltage"@,
            Kind::Fan => "Fan"@,
            Kind::Temperature => "Temperature"@,
            Kind::Power => "Power"@,
            Kind::Energy => "Energy"@,
            Kind::Current => "Current"@,
            Kind::Humidity => "Humidity"@,
            Kind::VoltageID => "VoltageID"@,
            Kind::Intrusion => "Intrusion"@,
            Kind::BeepEnable => "BeepEnable"@,
            Kind::Unknown => "Unknown"@,
        }
    }

    /// Return the feature kind of a raw code, if the code names one.
    pub fn from_raw(kind: u32) -> (r: Option<Kind>)
        ensures
            r == Kind::of_code(kind),
    {
        match kind {
            0u32 => Some(Kind::Voltage),
            1u32 => Some(Kind::Fan),
            2u32 => Some(Kind::Temperature),
            3u32 => Some(Kind::Power),
            4u32 => Some(Kind::Energy),
            5u32 => Some(Kind::Current),
            6u32 => Some(Kind::Humidity),
            16u32 => Some(Kind::VoltageID),
            17u32 => Some(Kind::Intrusion),
            24u32 => Some(Kind::BeepEnable),
            2147483647u32 => Some(Kind::Unknown),
            _ => None,
        }
    }

    /// Return the raw code equivalent to this instance.
    pub fn as_raw(self) -> (r: u32)
        ensures
            r == self.code(),
    {
        match self {
            Kind::Voltage => 0u32,
            Kind::Fan => 1u32,
            Kind::Temperature => 2u32,
            Kind::Power => 3u32,
            Kind::Energy => 4u32,
            Kind::Current => 5u32,
            Kind::Humidity => 6u32,
            Kind::VoltageID => 16u32,
            Kind::Intrusion => 17u32,
            Kind::BeepEnable => 24u32,
            Kind::Unknown => 2147483647u32,
        }
    }

    /// Return the name of this feature kind.
    pub fn name(self) -> (r: &'static str)
        ensures
            r@ == self.spec_name(),
    {
        match self {
            Kind::Voltage => "Voltage",
            Kind::Fan => "Fan",
            Kind::Temperature => "Temperature",
            Kind::Power => "Power",
            Kind::Energy => "Energy",
            Kind::Current => "Current",
            Kind::Humidity => "Humidity",
            Kind::VoltageID => "VoltageID",
            Kind::Intrusion => "Intrusion",
            Kind::BeepEnable => "BeepEnable",
            Kind::Unknown => "Unknown",
        }
    }
}

impl Default for Kind {
    fn default() -> (r: Kind)
        ensures
            r == Kind::Unknown,
    {
        Kind::Unknown
    }
}

/// Identity of a feature: its chip, number, raw kind code and name.
#[derive(Debug)]
pub struct FeatureId {
    /// The chip that controls the feature.
    pub chip: ChipName,
    /// The number of the feature, unique within its chip.
    pub number: i32,
    /// The raw kind code.
    pub raw_kind: u32,
    /// The name, if any, without its terminating nul.
    pub name: Option<Vec<u8>>,
}

/// Two features are the same feature: same chip, number, kind and name.
pub open spec fn same_feature(a: FeatureId, b: FeatureId) -> bool {
    &&& same_chip(a.chip, b.chip)
    &&& a.number == b.number
    &&& a.raw_kind == b.raw_kind
    &&& bytes_view(a.name) == bytes_view(b.name)
}

impl FeatureId {
    /// Return whether this feature and `other` are the same feature.
    pub fn same_as(&self, other: &FeatureId) -> (r: bool)
        ensures
            r == same_feature(*self, *other),
    {
        self.chip.same_as(&other.chip) && self.number == other.number && self.raw_kind
            == other.raw_kind && same_bytes(&self.name, &other.name)
    }

    /// Return the kind of this feature, if its raw code names one.
    pub fn kind(&self) -> (r: Option<Kind>)
        ensures
            r == Kind::of_code(self.raw_kind),
    {
        Kind::from_raw(self.raw_kind)
    }
}

/// Decoding the raw code of a feature kind gives the kind back.
pub proof fn lemma_kind_decode_encode(k: Kind)
    ensures
        Kind::of_code(k.code()) == Some(k),
{
}

/// Encoding the feature kind decoded from a raw code gives the code back.
pub proof fn lemma_kind_encode_decode(code: u32)
    ensures
        Kind::of_code(code) matches Some(k) ==> k.code() == code,
{
}

} // verus!
