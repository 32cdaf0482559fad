//! Bus connections of chips: a kind and a number.

use vstd::prelude::*;

verus! {

/// Raw code of a bus of any kind.
pub const BUS_TYPE_ANY: i16 = -1;
/// Raw code of an Inter-Integrated Circuit bus.
pub const BUS_TYPE_I2C: i16 = 0;
/// Raw code of an Industry Standard Architecture bus.
pub const BUS_TYPE_ISA: i16 = 1;
/// Raw code of a Peripheral Component Interconnect bus.
pub const BUS_TYPE_PCI: i16 = 2;
/// Raw code of a Serial Peripheral Interface bus.
pub const BUS_TYPE_SPI: i16 = 3;
/// Raw code of a virtual bus.
pub const BUS_TYPE_VIRTUAL: i16 = 4;
/// Raw code of an Advanced Configuration and Power Interface bus.
pub const BUS_TYPE_ACPI: i16 = 5;
/// Raw code of a Human Interface Device bus.
pub const BUS_TYPE_HID: i16 = 6;
/// Raw code of a Management Data Input/Output bus.
pub const BUS_TYPE_MDIO: i16 = 7;
/// Raw code of a Small Computer System Interface bus.
pub const BUS_TYPE_SCSI: i16 = 8;

/// Raw bus number that matches a bus of any number.
pub const BUS_NR_ANY: i16 = -1;
/// Raw bus number that is ignored.
pub const BUS_NR_IGNORE: i16 = -2;

/// Type of a [`Bus`].
#[derive(Debug, Clone, Copy, PartialEq, Eq, Structural, PartialOrd, Ord, Hash)]
pub enum Kind {
    /// Any type of bus.
    Any,
    /// Inter-Integrated Circuit.
    I2C,
    /// Industry Standard Architecture.
    ISA,
    /// Peripheral Component Interconnect.
    PCI,
    /// Serial Peripheral Interface.
    SPI,
    /// Virtual bus.
    Virtual,
    /// Advanced Configuration and Power Interface.
    ACPI,
    /// Human Interface Device.
    HID,
    /// Management Data Input/Output.
    MDIO,
    /// Small Computer System Interface.
    SCSI,
}

impl Kind {
    /// The raw code of each bus kind.
    pub open spec fn code(self) -> i16 {
        match self {
            Kind::Any => BUS_TYPE_ANY,
            Kind::I2C => BUS_TYPE_I2C,
            Kind::ISA => BUS_TYPE_ISA,
            Kind::PCI => BUS_TYPE_PCI,
            Kind::SPI => BUS_TYPE_SPI,
            Kind::Virtual => BUS_TYPE_VIRTUAL,
            Kind::ACPI => BUS_TYPE_ACPI,
            Kind::HID => BUS_TYPE_HID,
            Kind::MDIO => BUS_TYPE_MDIO,
            Kind::SCSI => BUS_TYPE_SCSI,
        }
    }

    /// The bus kind of a raw code, if the code names one.
    pub open spec fn of_code(code: i16) -> Option<Kind> {
        if code == BUS_TYPE_ANY {
            Some(Kind::Any)
        } else if code == BUS_TYPE_I2C {
            Some(Kind::I2C)
        } else if code == BUS_TYPE_ISA {
            Some(Kind::ISA)
        } else if code == BUS_TYPE_PCI {
            Some(Kind::PCI)
        } else if code == BUS_TYPE_SPI {
            Some(Kind::SPI)
        } else if code == BUS_TYPE_VIRTUAL {
            Some(Kind::Virtual)
        } else if code == BUS_TYPE_ACPI {
            Some(Kind::ACPI)
        } else if code == BUS_TYPE_HID {
            Some(Kind::HID)
        } else if code == BUS_TYPE_MDIO {
            Some(Kind::MDIO)
        } else if code == BUS_TYPE_SCSI {
            Some(Kind::SCSI)
        } else {
            None
        }
    }

    /// Return an instance from one of the raw bus type codes.
    pub fn from_raw(kind: i16) -> (r: Option<Kind>)
        ensures
            r == Kind::of_code(kind),
    {
        if kind == BUS_TYPE_ANY {
            Some(Kind::Any)
        } else if kind == BUS_TYPE_I2C {
            Some(Kind::I2C)
        } else if kind == BUS_TYPE_ISA {
            Some(Kind::ISA)
        } else if kind == BUS_TYPE_PCI {
            Some(Kind::PCI)
        } else if kind == BUS_TYPE_SPI {
            Some(Kind::SPI)
        } else if kind == BUS_TYPE_VIRTUAL {
            Some(Kind::Virtual)
        } else if kind == BUS_TYPE_ACPI {
            Some(Kind::ACPI)
        } else if kind == BUS_TYPE_HID {
            Some(Kind::HID)
        } else if kind == BUS_TYPE_MDIO {
            Some(Kind::MDIO)
        } else if kind == BUS_TYPE_SCSI {
            Some(Kind::SCSI)
        } else {
            None
        }
    }

    /// Return the raw bus type code equivalent to this instance.
    pub fn as_raw(self) -> (r: i16)
        ensures
            r == self.code(),
    {
        match self {
            Kind::Any => BUS_TYPE_ANY,
            Kind::I2C => BUS_TYPE_I2C,
            Kind::ISA => BUS_TYPE_ISA,
            Kind::PCI => BUS_TYPE_PCI,
            Kind::SPI => BUS_TYPE_SPI,
            Kind::Virtual => BUS_TYPE_VIRTUAL,
            Kind::ACPI => BUS_TYPE_ACPI,
            Kind::HID => BUS_TYPE_HID,
            Kind::MDIO => BUS_TYPE_MDIO,
            Kind::SCSI => BUS_TYPE_SCSI,
        }
    }

    /// Human-readable name of each bus kind.
    pub open spec fn spec_description(self) -> Seq<char> {
        match self {
            Kind::Any => "Any"@,
            Kind::I2C => "Inter-Integrated Circuit (I2C)"@,
            Kind::ISA => "Industry Standard Architecture (ISA)"@,
            Kind::PCI => "Peripheral Component Interconnect (PCI)"@,
            Kind::SPI => "Serial Peripheral Interface (SPI)"@,
            Kind::Virtual => "Virtual"@,
            Kind::ACPI => "Advanced Configuration and Power Interface (ACPI)"@,
            Kind::HID => "Human Interface Device (HID)"@,
            Kind::MDIO => "Management Data Input/Output (MDIO)"@,
            Kind::SCSI => "Small Computer System Interface (SCSI)"@,
        }
    }

    /// Return the human-readable name of this bus kind.
    pub fn description(self) -> (r: &'static str)
        ensures
            r@ == self.spec_description(),
    {
        match self {
            Kind::Any => "Any",
            Kind::I2C => "Inter-Integrated Circuit (I2C)",
            Kind::ISA => "Industry Standard Architecture (ISA)",
            Kind::PCI => "Peripheral Component Interconnect (PCI)",
            Kind::SPI => "Serial Peripheral Interface (SPI)",
            Kind::Virtual => "Virtual",
            Kind::ACPI => "Advanced Configuration and Power Interface (ACPI)",
            Kind::HID => "Human Interface Device (HID)",
            Kind::MDIO => "Management Data Input/Output (MDIO)",
            Kind::SCSI => "Small Computer System Interface (SCSI)",
        }
    }

}

impl Default for Kind {
    fn default() -> (r: Kind)
        ensures
            r == Kind::Any,
    {
        Kind::Any
    }
}

/// Number of a [`Bus`].
#[derive(Debug, Clone, Copy, PartialEq, Eq, Structural, Hash)]
pub enum Number {
    /// A bus of any number.
    Any,
    /// Ignored bus number.
    Ignore,
    /// Bus of a specific number.
    Number(i16),
}

impl Number {
    /// The bus number that a raw number stands for.
    pub open spec fn of_raw(n: i16) -> Number {
        if n == BUS_NR_ANY {
            Number::Any
        } else if n == BUS_NR_IGNORE {
            Number::Ignore
        } else {
            Number::Number(n)
        }
    }

    /// The raw number of a bus number.
    pub open spec fn raw(self) -> i16 {
        match self {
            Number::Any => BUS_NR_ANY,
            Number::Ignore => BUS_NR_IGNORE,
            Number::Number(n) => n,
        }
    }

    /// A bus number that survives encoding: a specific number that is not one
    /// of the two reserved raw values.
    pub open spec fn is_encodable(self) -> bool {
        match self {
            Number::Number(n) => n != BUS_NR_ANY && n != BUS_NR_IGNORE,
            _ => true,
        }
    }

    /// Return the bus number that a raw number stands for.
    pub fn from_raw(n: i16) -> (r: Number)
        ensures
            r == Number::of_raw(n),
    {
        if n == BUS_NR_ANY {
            Number::Any
        } else if n == BUS_NR_IGNORE {
            Number::Ignore
        } else {
            Number::Number(n)
        }
    }

    /// Return the raw number equivalent to this instance.
    pub fn as_raw(self) -> (r: i16)
        ensures
            r == self.raw(),
    {
        match self {
            Number::Any => BUS_NR_ANY,
            Number::Ignore => BUS_NR_IGNORE,
            Number::Number(n) => n,
        }
    }
}

impl Default for Number {
    fn default() -> (r: Number)
        ensures
            r == Number::Any,
    {
        Number::Any
    }
}

impl From<i16> for Number {
    fn from(other: i16) -> (r: Number) {
        Number::from_raw(other)
    }
}

impl vstd::std_specs::convert::FromSpecImpl<i16> for Number {
    open spec fn obeys_from_spec() -> bool {
        true
    }

    open spec fn from_spec(v: i16) -> Number {
        Number::of_raw(v)
    }
}

impl From<Number> for i16 {
    fn from(other: Number) -> (r: i16) {
        other.as_raw()
    }
}

impl vstd::std_specs::convert::FromSpecImpl<Number> for i16 {
    open spec fn obeys_from_spec() -> bool {
        true
    }

    open spec fn from_spec(v: Number) -> i16 {
        v.raw()
    }
}

/// Bus connection of some [`Kind`], *e.g.,* PCI: a raw (type, number) pair.
#[derive(Debug, Clone, Copy, PartialEq, Eq, Structural, Hash)]
pub struct Bus {
    /// Raw bus type code.
    pub raw_kind: i16,
    /// Raw bus number.
    pub raw_number: i16,
}

impl Bus {
    /// Return a bus given its raw (type, number) pair.
    pub fn new_raw(kind: i16, number: i16) -> (r: Bus)
        ensures
            r.raw_kind == kind,
            r.raw_number == number,
    {
        Bus { raw_kind: kind, raw_number: number }
    }

    /// Return a bus given its (type, number) pair.
    pub fn new(kind: Kind, number: Number) -> (r: Bus)
        ensures
            r.raw_kind == kind.code(),
            r.raw_number == number.raw(),
    {
        Bus { raw_kind: kind.as_raw(), raw_number: number.as_raw() }
    }

    /// Return the bus that matches any bus: any type, any number.
    pub fn default_bus() -> (r: Bus)
        ensures
            r.raw_kind == BUS_TYPE_ANY,
            r.raw_number == BUS_NR_ANY,
    {
        Bus { raw_kind: BUS_TYPE_ANY, raw_number: BUS_NR_ANY }
    }

    /// Return the bus type, if the raw code names one.
    pub fn kind(&self) -> (r: Option<Kind>)
        ensures
            r == Kind::of_code(self.raw_kind),
    {
        Kind::from_raw(self.raw_kind)
    }

    /// Return the bus number.
    pub fn number(&self) -> (r: Number)
        ensures
            r == Number::of_raw(self.raw_number),
    {
        Number::from_raw(self.raw_number)
    }

    /// Return the raw bus type code.
    pub fn raw_kind(&self) -> (r: i16)
        ensures
            r == self.raw_kind,
    {
        self.raw_kind
    }

    /// Return the raw bus number.
    pub fn raw_number(&self) -> (r: i16)
        ensures
            r == self.raw_number,
    {
        self.raw_number
    }

    /// Set the bus type.
    pub fn set_kind(&mut self, kind: Kind)
        ensures
            final(self).raw_kind == kind.code(),
            final(self).raw_number == old(self).raw_number,
    {
        self.raw_kind = kind.as_raw();
    }

    /// Set the bus number.
    pub fn set_number(&mut self, number: Number)
        ensures
            final(self).raw_number == number.raw(),
            final(self).raw_kind == old(self).raw_kind,
    {
        self.raw_number = number.as_raw();
    }

    /// Set the raw bus type code.
    pub fn set_raw_kind(&mut self, kind: i16)
        ensures
            final(self).raw_kind == kind,
            final(self).raw_number == old(self).raw_number,
    {
        self.raw_kind = kind;
    }

    /// Set the raw bus number.
    pub fn set_raw_number(&mut self, number: i16)
        ensures
            final(self).raw_number == number,
            final(self).raw_kind == old(self).raw_kind,
    {
        self.raw_number = number;
    }
}

/// Decoding the raw code of a bus kind gives the kind back.
pub proof fn lemma_kind_decode_encode(k: Kind)
    ensures
        Kind::of_code(k.code()) == Some(k),
{
}

/// Encoding a bus kind decoded from a raw code gives the code back.
pub proof fn lemma_kind_encode_decode(code: i16)
    ensures
        Kind::of_code(code) matches Some(k) ==> k.code() == code,
{
}

/// Decoding the raw form of an encodable bus number gives it back; the two
/// reserved raw values decode to [`Number::Any`] and [`Number::Ignore`].
pub proof fn lemma_number_decode_encode(n: Number)
    ensures
        n.is_encodable() ==> Number::of_raw(n.raw()) == n,
        !n.is_encodable() ==> Number::of_raw(n.raw()) != n,
{
}

/// Encoding the bus number decoded from any raw number gives that raw number back.
pub proof fn lemma_number_encode_decode(raw: i16)
    ensures
        Number::of_raw(raw).raw() == raw,
        Number::of_raw(raw).is_encodable(),
{
}

/// A bus built from a (kind, number) pair gives the same pair back, for
/// every kind and every encodable number.
pub proof fn lemma_bus_round_trip(kind: Kind, number: Number)
    requires
        number.is_encodable(),
    ensures
        ({
            let b = Bus { raw_kind: kind.code(), raw_number: number.raw() };
            Kind::of_code(b.raw_kind) == Some(kind) && Number::of_raw(b.raw_number) == number
        }),
{
}

} // verus!
