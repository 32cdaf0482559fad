//! Data reported by a sensor or set for an actuator (*a.k.a.,* sub-feature):
//! its access flags.

use crate::chip::{bytes_view, same_bytes};
use crate::errors::{Error, IoErrorKind};
use crate::feature::{same_feature, FeatureId};
use crate::value::{Kind, Value};
use vstd::prelude::*;

verus! {

/// Raw bit of a readable sub-feature.
pub const MODE_R: u32 = 1;
/// Raw bit of a writable sub-feature.
pub const MODE_W: u32 = 2;
/// Raw bit of a sub-feature whose value follows the computation rules of its
/// main feature.
pub const COMPUTE_MAPPING: u32 = 4;

/// Flags of a sub-feature of a chip: a combination of [`Flags::readable`],
/// [`Flags::writable`] and [`Flags::compute_mapping`].
#[derive(Debug, Clone, Copy, PartialEq, Eq, Structural, PartialOrd, Ord, Hash)]
pub struct Flags {
    bits: u32,
}

impl Flags {
    /// Sub-feature is readable, *e.g.,* sensor data.
    pub fn readable() -> (r: Flags)
        ensures
            r.spec_bits() == MODE_R,
    {
        Flags { bits: MODE_R }
    }

    /// Sub-feature is writable, *e.g.,* actuator value.
    pub fn writable() -> (r: Flags)
        ensures
            r.spec_bits() == MODE_W,
    {
        Flags { bits: MODE_W }
    }

    /// Sub-feature value is affected by the computation rules of the main feature.
    pub fn compute_mapping() -> (r: Flags)
        ensures
            r.spec_bits() == COMPUTE_MAPPING,
    {
        Flags { bits: COMPUTE_MAPPING }
    }

    /// The bits of all known flags.
    pub open spec fn all_bits() -> u32 {
        7
    }

    /// The raw bits of these flags.
    pub closed spec fn spec_bits(self) -> u32 {
        self.bits
    }

    /// Every set of flags holds known flags only.
    pub closed spec fn wf(self) -> bool {
        self.bits & !7u32 == 0
    }

    /// Return the flags of raw bits, if every bit set is a known flag.
    pub fn from_bits(bits: u32) -> (r: Option<Flags>)
        ensures
            (bits & !7u32 == 0) <==> r is Some,
            r matches Some(f) ==> f.spec_bits() == bits && f.wf(),
    {
        if bits & !7u32 == 0 {
            Some(Flags { bits })
        } else {
            None
        }
    }

    /// Return the flags of raw bits, without the bits of unknown flags.
    pub fn from_bits_truncate(bits: u32) -> (r: Flags)
        ensures
            r.spec_bits() == bits & 7u32,
            r.wf(),
    {
        let b = bits & 7u32;
        assert(b & !7u32 == 0) by (bit_vector)
            requires
                b == bits & 7u32,
        ;
        Flags { bits: b }
    }

    /// Return the raw bits of these flags.
    pub fn bits(&self) -> (r: u32)
        ensures
            r == self.spec_bits(),
    {
        self.bits
    }

    /// Return no flags.
    pub fn empty() -> (r: Flags)
        ensures
            r.spec_bits() == 0,
            r.wf(),
    {
        assert(0u32 & !7u32 == 0) by (bit_vector);
        Flags { bits: 0 }
    }

    /// Return all known flags.
    pub fn all() -> (r: Flags)
        ensures
            r.spec_bits() == Flags::all_bits(),
            r.wf(),
    {
        assert(7u32 & !7u32 == 0) by (bit_vector);
        Flags { bits: 7 }
    }

    /// Return whether every flag of `other` is set in these flags.
    pub fn contains(&self, other: Flags) -> (r: bool)
        ensures
            r == (self.spec_bits() & other.spec_bits() == other.spec_bits()),
    {
        self.bits & other.bits == other.bits
    }

    /// Return whether the sub-feature is readable.
    pub fn is_readable(&self) -> (r: bool)
        ensures
            r == (self.spec_bits() & 1u32 != 0),
    {
        self.bits & 1u32 != 0
    }

    /// Return whether the sub-feature is writable.
    pub fn is_writable(&self) -> (r: bool)
        ensures
            r == (self.spec_bits() & 2u32 != 0),
    {
        self.bits & 2u32 != 0
    }

    /// Return whether the sub-feature's value follows the computation rules
    /// of its main feature.
    pub fn computes_mapping(&self) -> (r: bool)
        ensures
            r == (self.spec_bits() & 4u32 != 0),
    {
        self.bits & 4u32 != 0
    }
}

/// Identity of a sub-feature: its feature, number, mapping, raw kind code,
/// raw flags and name.
#[derive(Debug)]
pub struct SubFeatureId {
    /// The feature the sub-feature belongs to.
    pub feature: FeatureId,
    /// The number of the sub-feature, by which its value is read and written.
    pub number: i32,
    /// The number of the main feature.
    pub mapping: i32,
    /// The raw kind code.
    pub raw_kind: u32,
    /// The raw flags.
    pub raw_flags: u32,
    /// The name, if any, without its terminating nul.
    pub name: Option<Vec<u8>>,
}

/// Two sub-features are the same sub-feature: same feature, number,
/// mapping, kind, flags and name.
pub open spec fn same_sub_feature(a: SubFeatureId, b: SubFeatureId) -> bool {
    &&& same_feature(a.feature, b.feature)
    &&& a.number == b.number
    &&& a.mapping == b.mapping
    &&& a.raw_kind == b.raw_kind
    &&& a.raw_flags == b.raw_flags
    &&& bytes_view(a.name) == bytes_view(b.name)
}

impl SubFeatureId {
    /// Return whether this sub-feature and `other` are the same sub-feature.
    pub fn same_as(&self, other: &SubFeatureId) -> (r: bool)
        ensures
            r == same_sub_feature(*self, *other),
    {
        self.feature.same_as(&other.feature) && self.number == other.number && self.mapping
            == other.mapping && self.raw_kind == other.raw_kind && self.raw_flags == other.raw_flags
            && same_bytes(&self.name, &other.name)
    }

    /// Return the kind of this sub-feature, if its raw code names one.
    pub fn kind(&self) -> (r: Option<Kind>)
        ensures
            r == Kind::of_code(self.raw_kind),
    {
        Kind::from_raw(self.raw_kind)
    }

    /// Return the flags of this sub-feature, if every raw bit is a known flag.
    pub fn flags(&self) -> (r: Option<Flags>)
        ensures
            (self.raw_flags & !7u32 == 0) <==> r is Some,
            r matches Some(f) ==> f.spec_bits() == self.raw_flags,
    {
        Flags::from_bits(self.raw_flags)
    }
}

/// Name of the conversion from a raw value to a typed value.
pub const VALUE_FROM_RAW: &'static str = "Value::from_raw";

/// Return the typed value of a sub-feature of raw kind code `kind` whose
/// raw value, read from the backend, has the binary64 encoding `value_bits`.
/// A kind code that names no kind, or a raw value that is invalid for the
/// kind, is invalid data.
pub fn value_of_raw(kind: u32, value_bits: u64) -> (r: Result<Value, Error>)
    ensures
        (match Kind::of_code(kind) {
            Some(k) => Value::spec_new(k, value_bits),
            None => None,
        }) matches Some(v) ==> r == Ok::<Value, Error>(v),
        (match Kind::of_code(kind) {
            Some(k) => Value::spec_new(k, value_bits),
            None => None,
        }) is None ==> r == Err::<Value, Error>(
            Error::IO { operation: VALUE_FROM_RAW, kind: IoErrorKind::InvalidData },
        ),
{
    match Value::from_raw(kind, value_bits) {
        Some(v) => Ok(v),
        None => Err(Error::from_io(VALUE_FROM_RAW, IoErrorKind::InvalidData)),
    }
}

} // verus!
