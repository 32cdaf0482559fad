//! Values of sensors or actuators: their kinds, units and typed values.
//!
//! The backend hands a value over as an IEEE 754 binary64 number; this
//! library carries such a number as its 64-bit encoding (see [`crate::binary64`]).

use crate::binary64::{
    infinite, is_infinite, is_nan, lemma_one_and_zero, significand, is_nonzero, nan, negative, nonzero, rounded_magnitude,
    rounded_magnitude_saturating, sign_bit, ONE_BITS, ZERO_BITS,
};
use crate::errors::{Error, IoErrorKind};
use vstd::arithmetic::power2::{lemma2_to64, lemma2_to64_rest, lemma_pow2_pos, pow2};
use vstd::prelude::*;

verus! {

/// Type of the value of a sensor or actuator (*a.k.a.,* sub-feature).
#[derive(Debug, Clone, Copy, PartialEq, Eq, Structural, PartialOrd, Ord, Hash)]
pub enum Kind {
    /// Raw code 0x0.
    VoltageInput,
    /// Raw code 0x1.
    VoltageMinimum,
    /// Raw code 0x2.
    VoltageMaximum,
    /// Raw code 0x3.
    VoltageLCritical,
    /// Raw code 0x4.
    VoltageCritical,
    /// Raw code 0x5.
    VoltageAverage,
    /// Raw code 0x6.
    VoltageLowest,
    /// Raw code 0x7.
    VoltageHighest,
    /// Raw code 0x80.
    VoltageAlarm,
    /// Raw code 0x81.
    VoltageMinimumAlarm,
    /// Raw code 0x82.
    VoltageMaximumAlarm,
    /// Raw code 0x83.
    VoltageBeep,
    /// Raw code 0x84.
    VoltageLCriticalAlarm,
    /// Raw code 0x85.
    VoltageCriticalAlarm,
    /// Raw code 0x100.
    FanInput,
    /// Raw code 0x101.
    FanMinimum,
    /// Raw code 0x102.
    FanMaximum,
    /// Raw code 0x180.
    FanAlarm,
    /// Raw code 0x181.
    FanFault,
    /// Raw code 0x182.
    FanDivisor,
    /// Raw code 0x183.
    FanBeep,
    /// Raw code 0x184.
    FanPulses,
    /// Raw code 0x185.
    FanMinimumAlarm,
    /// Raw code 0x186.
    FanMaximumAlarm,
    /// Raw code 0x200.
    TemperatureInput,
    /// Raw code 0x201.
    TemperatureMaximum,
    /// Raw code 0x202.
    TemperatureMaximumHysteresis,
    /// Raw code 0x203.
    TemperatureMinimum,
    /// Raw code 0x204.
    TemperatureCritical,
    /// Raw code 0x205.
    TemperatureCriticalHysteresis,
    /// Raw code 0x206.
    TemperatureLCritical,
    /// Raw code 0x207.
    TemperatureEmergency,
    /// Raw code 0x208.
    TemperatureEmergencyHysteresis,
    /// Raw code 0x209.
    TemperatureLowest,
    /// Raw code 0x20a.
    TemperatureHighest,
    /// Raw code 0x20b.
    TemperatureMinimumHysteresis,
    /// Raw code 0x20c.
    TemperatureLCriticalHysteresis,
    /// Raw code 0x280.
    TemperatureAlarm,
    /// Raw code 0x281.
    TemperatureMaximumAlarm,
    /// Raw code 0x282.
    TemperatureMinimumAlarm,
    /// Raw code 0x283.
    TemperatureCriticalAlarm,
    /// Raw code 0x284.
    TemperatureFault,
    /// Raw code 0x285.
    TemperatureType,
    /// Raw code 0x286.
    TemperatureOffset,
    /// Raw code 0x287.
    TemperatureBeep,
    /// Raw code 0x288.
    TemperatureEmergencyAlarm,
    /// Raw code 0x289.
    TemperatureLCriticalAlarm,
    /// Raw code 0x300.
    PowerAverage,
    /// Raw code 0x301.
    PowerAverageHighest,
    /// Raw code 0x302.
    PowerAverageLowest,
    /// Raw code 0x303.
    PowerInput,
    /// Raw code 0x304.
    PowerInputHighest,
    /// Raw code 0x305.
    PowerInputLowest,
    /// Raw code 0x306.
    PowerCap,
    /// Raw code 0x307.
    PowerCapHysteresis,
    /// Raw code 0x308.
    PowerMaximum,
    /// Raw code 0x309.
    PowerCritical,
    /// Raw code 0x30a.
    PowerMinimum,
    /// Raw code 0x30b.
    PowerLCritical,
    /// Raw code 0x380.
    PowerAverageInterval,
    /// Raw code 0x381.
    PowerAlarm,
    /// Raw code 0x382.
    PowerCapAlarm,
    /// Raw code 0x383.
    PowerMaximumAlarm,
    /// Raw code 0x384.
    PowerCriticalAlarm,
    /// Raw code 0x385.
    PowerMinimumAlarm,
    /// Raw code 0x386.
    PowerLCriticalAlarm,
    /// Raw code 0x400.
    EnergyInput,
    /// Raw code 0x500.
    CurrentInput,
    /// Raw code 0x501.
    CurrentMinimum,
    /// Raw code 0x502.
    CurrentMaximum,
    /// Raw code 0x503.
    CurrentLCritical,
    /// Raw code 0x504.
    CurrentCritical,
    /// Raw code 0x505.
    CurrentAverage,
    /// Raw code 0x506.
    CurrentLowest,
    /// Raw code 0x507.
    CurrentHighest,
    /// Raw code 0x580.
    CurrentAlarm,
    /// Raw code 0x581.
    CurrentMinimumAlarm,
    /// Raw code 0x582.
    CurrentMaximumAlarm,
    /// Raw code 0x583.
    CurrentBeep,
    /// Raw code 0x584.
    CurrentLCriticalAlarm,
    /// Raw code 0x585.
    CurrentCriticalAlarm,
    /// Raw code 0x600.
    HumidityInput,
    /// Raw code 0x1000.
    VoltageID,
    /// Raw code 0x1100.
    IntrusionAlarm,
    /// Raw code 0x1101.
    IntrusionBeep,
    /// Raw code 0x1800.
    BeepEnable,
    /// Raw code 0x7fffffff.
    Unknown,
}

/// How the raw value of a [`Kind`] is represented in a [`Value`].
#[derive(Debug, Clone, Copy, PartialEq, Eq, Structural)]
pub enum Representation {
    /// A measurement, kept as its binary64 encoding.
    Measurement,
    /// A flag (alarm, beep, fault): any value unequal to zero is `true`.
    Flag,
    /// A [`TemperatureSensorKind`].
    SensorKind,
    /// A value of an unrecognized kind, kept as its binary64 encoding.
    Opaque,
}

/// Word shown for a raised flag.
#[derive(Debug, Clone, Copy, PartialEq, Eq, Structural)]
pub enum FlagWord {
    /// An alarm is raised.
    Alarm,
    /// Beeping is enabled.
    Beep,
    /// A fault is reported.
    Fault,
}

impl FlagWord {
    /// The text of each word.
    pub open spec fn spec_text(self) -> Seq<char> {
        match self {
            FlagWord::Alarm => "ALARM"@,
            FlagWord::Beep => "BEEP"@,
            FlagWord::Fault => "FAULT"@,
        }
    }

    /// Return the text of this word.
    pub fn text(self) -> (r: &'static str)
        ensures
            r@ == self.spec_text(),
    {
        match self {
            FlagWord::Alarm => "ALARM",
            FlagWord::Beep => "BEEP",
            FlagWord::Fault => "FAULT",
        }
    }
}

impl Kind {
    /// The raw code of each kind.
    pub open spec fn code(self) -> u32 {
        match self {
            Kind::VoltageInput => 0u32,
            Kind::VoltageMinimum => 1u32,
            Kind::VoltageMaximum => 2u32,
            Kind::VoltageLCritical => 3u32,
            Kind::VoltageCritical => 4u32,
            Kind::VoltageAverage => 5u32,
            Kind::VoltageLowest => 6u32,
            Kind::VoltageHighest => 7u32,
            Kind::VoltageAlarm => 128u32,
            Kind::VoltageMinimumAlarm => 129u32,
            Kind::VoltageMaximumAlarm => 130u32,
            Kind::VoltageBeep => 131u32,
            Kind::VoltageLCriticalAlarm => 132u32,
            Kind::VoltageCriticalAlarm => 133u32,
            Kind::FanInput => 256u32,
            Kind::FanMinimum => 257u32,
            Kind::FanMaximum => 258u32,
            Kind::FanAlarm => 384u32,
            Kind::FanFault => 385u32,
            Kind::FanDivisor => 386u32,
            Kind::FanBeep => 387u32,
            Kind::FanPulses => 388u32,
            Kind::FanMinimumAlarm => 389u32,
            Kind::FanMaximumAlarm => 390u32,
            Kind::TemperatureInput => 512u32,
            Kind::TemperatureMaximum => 513u32,
            Kind::TemperatureMaximumHysteresis => 514u32,
            Kind::TemperatureMinimum => 515u32,
            Kind::TemperatureCritical => 516u32,
            Kind::TemperatureCriticalHysteresis => 517u32,
            Kind::TemperatureLCritical => 518u32,
            Kind::TemperatureEmergency => 519u32,
            Kind::TemperatureEmergencyHysteresis => 520u32,
            Kind::TemperatureLowest => 521u32,
            Kind::TemperatureHighest => 522u32,
            Kind::TemperatureMinimumHysteresis => 523u32,
            Kind::TemperatureLCriticalHysteresis => 524u32,
            Kind::TemperatureAlarm => 640u32,
            Kind::TemperatureMaximumAlarm => 641u32,
            Kind::TemperatureMinimumAlarm => 642u32,
            Kind::TemperatureCriticalAlarm => 643u32,
            Kind::TemperatureFault => 644u32,
            Kind::TemperatureType => 645u32,
            Kind::TemperatureOffset => 646u32,
            Kind::TemperatureBeep => 647u32,
            Kind::TemperatureEmergencyAlarm => 648u32,
            Kind::TemperatureLCriticalAlarm => 649u32,
            Kind::PowerAverage => 768u32,
            Kind::PowerAverageHighest => 769u32,
            Kind::PowerAverageLowest => 770u32,
            Kind::PowerInput => 771u32,
            Kind::PowerInputHighest => 772u32,
            Kind::PowerInputLowest => 773u32,
            Kind::PowerCap => 774u32,
            Kind::PowerCapHysteresis => 775u32,
            Kind::PowerMaximum => 776u32,
            Kind::PowerCritical => 777u32,
            Kind::PowerMinimum => 778u32,
            Kind::PowerLCritical => 779u32,
            Kind::PowerAverageInterval => 896u32,
            Kind::PowerAlarm => 897u32,
            Kind::PowerCapAlarm => 898u32,
            Kind::PowerMaximumAlarm => 899u32,
            Kind::PowerCriticalAlarm => 900u32,
            Kind::PowerMinimumAlarm => 901u32,
            Kind::PowerLCriticalAlarm => 902u32,
            Kind::EnergyInput => 1024u32,
            Kind::CurrentInput => 1280u32,
            Kind::CurrentMinimum => 1281u32,
            Kind::CurrentMaximum => 1282u32,
            Kind::CurrentLCritical => 1283u32,
            Kind::CurrentCritical => 1284u32,
            Kind::CurrentAverage => 1285u32,
            Kind::CurrentLowest => 1286u32,
            Kind::CurrentHighest => 1287u32,
            Kind::CurrentAlarm => 1408u32,
            Kind::CurrentMinimumAlarm => 1409u32,
            Kind::CurrentMaximumAlarm => 1410u32,
            Kind::CurrentBeep => 1411u32,
            Kind::CurrentLCriticalAlarm => 1412u32,
            Kind::CurrentCriticalAlarm => 1413u32,
            Kind::HumidityInput => 1536u32,
            Kind::VoltageID => 4096u32,
            Kind::IntrusionAlarm => 4352u32,
            Kind::IntrusionBeep => 4353u32,
            Kind::BeepEnable => 6144u32,
            Kind::Unknown => 2147483647u32,
        }
    }

    /// The kind of a raw code, if the code names one.
    pub open spec fn of_code(code: u32) -> Option<Kind> {
        match code {
            0u32 => Some(Kind::VoltageInput),
            1u32 => Some(Kind::VoltageMinimum),
            2u32 => Some(Kind::VoltageMaximum),
            3u32 => Some(Kind::VoltageLCritical),
            4u32 => Some(Kind::VoltageCritical),
            5u32 => Some(Kind::VoltageAverage),
            6u32 => Some(Kind::VoltageLowest),
            7u32 => Some(Kind::VoltageHighest),
            128u32 => Some(Kind::VoltageAlarm),
            129u32 => Some(Kind::VoltageMinimumAlarm),
            130u32 => Some(Kind::VoltageMaximumAlarm),
            131u32 => Some(Kind::VoltageBeep),
            132u32 => Some(Kind::VoltageLCriticalAlarm),
            133u32 => Some(Kind::VoltageCriticalAlarm),
            256u32 => Some(Kind::FanInput),
            257u32 => Some(Kind::FanMinimum),
            258u32 => Some(Kind::FanMaximum),
            384u32 => Some(Kind::FanAlarm),
            385u32 => Some(Kind::FanFault),
            386u32 => Some(Kind::FanDivisor),
            387u32 => Some(Kind::FanBeep),
            388u32 => Some(Kind::FanPulses),
            389u32 => Some(Kind::FanMinimumAlarm),
            390u32 => Some(Kind::FanMaximumAlarm),
            512u32 => Some(Kind::TemperatureInput),
            513u32 => Some(Kind::TemperatureMaximum),
            514u32 => Some(Kind::TemperatureMaximumHysteresis),
            515u32 => Some(Kind::TemperatureMinimum),
            516u32 => Some(Kind::TemperatureCritical),
            517u32 => Some(Kind::TemperatureCriticalHysteresis),
            518u32 => Some(Kind::TemperatureLCritical),
            519u32 => Some(Kind::TemperatureEmergency),
            520u32 => Some(Kind::TemperatureEmergencyHysteresis),
            521u32 => Some(Kind::TemperatureLowest),
            522u32 => Some(Kind::TemperatureHighest),
            523u32 => Some(Kind::TemperatureMinimumHysteresis),
            524u32 => Some(Kind::TemperatureLCriticalHysteresis),
            640u32 => Some(Kind::TemperatureAlarm),
            641u32 => Some(Kind::TemperatureMaximumAlarm),
            642u32 => Some(Kind::TemperatureMinimumAlarm),
            643u32 => Some(Kind::TemperatureCriticalAlarm),
            644u32 => Some(Kind::TemperatureFault),
            645u32 => Some(Kind::TemperatureType),
            646u32 => Some(Kind::TemperatureOffset),
            647u32 => Some(Kind::TemperatureBeep),
            648u32 => Some(Kind::TemperatureEmergencyAlarm),
            649u32 => Some(Kind::TemperatureLCriticalAlarm),
            768u32 => Some(Kind::PowerAverage),
            769u32 => Some(Kind::PowerAverageHighest),
            770u32 => Some(Kind::PowerAverageLowest),
            771u32 => Some(Kind::PowerInput),
            772u32 => Some(Kind::PowerInputHighest),
            773u32 => Some(Kind::PowerInputLowest),
            774u32 => Some(Kind::PowerCap),
            775u32 => Some(Kind::PowerCapHysteresis),
            776u32 => Some(Kind::PowerMaximum),
            777u32 => Some(Kind::PowerCritical),
            778u32 => Some(Kind::PowerMinimum),
            779u32 => Some(Kind::PowerLCritical),
            896u32 => Some(Kind::PowerAverageInterval),
            897u32 => Some(Kind::PowerAlarm),
            898u32 => Some(Kind::PowerCapAlarm),
            899u32 => Some(Kind::PowerMaximumAlarm),
            900u32 => Some(Kind::PowerCriticalAlarm),
            901u32 => Some(Kind::PowerMinimumAlarm),
            902u32 => Some(Kind::PowerLCriticalAlarm),
            1024u32 => Some(Kind::EnergyInput),
            1280u32 => Some(Kind::CurrentInput),
            1281u32 => Some(Kind::CurrentMinimum),
            1282u32 => Some(Kind::CurrentMaximum),
            1283u32 => Some(Kind::CurrentLCritical),
            1284u32 => Some(Kind::CurrentCritical),
            1285u32 => Some(Kind::CurrentAverage),
            1286u32 => Some(Kind::CurrentLowest),
            1287u32 => Some(Kind::CurrentHighest),
            1408u32 => Some(Kind::CurrentAlarm),
            1409u32 => Some(Kind::CurrentMinimumAlarm),
            1410u32 => Some(Kind::CurrentMaximumAlarm),
            1411u32 => Some(Kind::CurrentBeep),
            1412u32 => Some(Kind::CurrentLCriticalAlarm),
            1413u32 => Some(Kind::CurrentCriticalAlarm),
            1536u32 => Some(Kind::HumidityInput),
            4096u32 => Some(Kind::VoltageID),
            4352u32 => Some(Kind::IntrusionAlarm),
            4353u32 => Some(Kind::IntrusionBeep),
            6144u32 => Some(Kind::BeepEnable),
            2147483647u32 => Some(Kind::Unknown),
            _ => None,
        }
    }

    /// Return the kind of a raw code, if the code names one.
    pub fn from_raw(kind: u32) -> (r: Option<Kind>)
        ensures
            r == Kind::of_code(kind),
    {
        match kind {
            0u32 => Some(Kind::VoltageInput),
            1u32 => Some(Kind::VoltageMinimum),
            2u32 => Some(Kind::VoltageMaximum),
            3u32 => Some(Kind::VoltageLCritical),
            4u32 => Some(Kind::VoltageCritical),
            5u32 => Some(Kind::VoltageAverage),
            6u32 => Some(Kind::VoltageLowest),
            7u32 => Some(Kind::VoltageHighest),
            128u32 => Some(Kind::VoltageAlarm),
            129u32 => Some(Kind::VoltageMinimumAlarm),
            130u32 => Some(Kind::VoltageMaximumAlarm),
            131u32 => Some(Kind::VoltageBeep),
            132u32 => Some(Kind::VoltageLCriticalAlarm),
            133u32 => Some(Kind::VoltageCriticalAlarm),
            256u32 => Some(Kind::FanInput),
            257u32 => Some(Kind::FanMinimum),
            258u32 => Some(Kind::FanMaximum),
            384u32 => Some(Kind::FanAlarm),
            385u32 => Some(Kind::FanFault),
            386u32 => Some(Kind::FanDivisor),
            387u32 => Some(Kind::FanBeep),
            388u32 => Some(Kind::FanPulses),
            389u32 => Some(Kind::FanMinimumAlarm),
            390u32 => Some(Kind::FanMaximumAlarm),
            512u32 => Some(Kind::TemperatureInput),
            513u32 => Some(Kind::TemperatureMaximum),
            514u32 => Some(Kind::TemperatureMaximumHysteresis),
            515u32 => Some(Kind::TemperatureMinimum),
            516u32 => Some(Kind::TemperatureCritical),
            517u32 => Some(Kind::TemperatureCriticalHysteresis),
            518u32 => Some(Kind::TemperatureLCritical),
            519u32 => Some(Kind::TemperatureEmergency),
            520u32 => Some(Kind::TemperatureEmergencyHysteresis),
            521u32 => Some(Kind::TemperatureLowest),
            522u32 => Some(Kind::TemperatureHighest),
            523u32 => Some(Kind::TemperatureMinimumHysteresis),
            524u32 => Some(Kind::TemperatureLCriticalHysteresis),
            640u32 => Some(Kind::TemperatureAlarm),
            641u32 => Some(Kind::TemperatureMaximumAlarm),
            642u32 => Some(Kind::TemperatureMinimumAlarm),
            643u32 => Some(Kind::TemperatureCriticalAlarm),
            644u32 => Some(Kind::TemperatureFault),
            645u32 => Some(Kind::TemperatureType),
            646u32 => Some(Kind::TemperatureOffset),
            647u32 => Some(Kind::TemperatureBeep),
            648u32 => Some(Kind::TemperatureEmergencyAlarm),
            649u32 => Some(Kind::TemperatureLCriticalAlarm),
            768u32 => Some(Kind::PowerAverage),
            769u32 => Some(Kind::PowerAverageHighest),
            770u32 => Some(Kind::PowerAverageLowest),
            771u32 => Some(Kind::PowerInput),
            772u32 => Some(Kind::PowerInputHighest),
            773u32 => Some(Kind::PowerInputLowest),
            774u32 => Some(Kind::PowerCap),
            775u32 => Some(Kind::PowerCapHysteresis),
            776u32 => Some(Kind::PowerMaximum),
            777u32 => Some(Kind::PowerCritical),
            778u32 => Some(Kind::PowerMinimum),
            779u32 => Some(Kind::PowerLCritical),
            896u32 => Some(Kind::PowerAverageInterval),
            897u32 => Some(Kind::PowerAlarm),
            898u32 => Some(Kind::PowerCapAlarm),
            899u32 => Some(Kind::PowerMaximumAlarm),
            900u32 => Some(Kind::PowerCriticalAlarm),
            901u32 => Some(Kind::PowerMinimumAlarm),
            902u32 => Some(Kind::PowerLCriticalAlarm),
            1024u32 => Some(Kind::EnergyInput),
            1280u32 => Some(Kind::CurrentInput),
            1281u32 => Some(Kind::CurrentMinimum),
            1282u32 => Some(Kind::CurrentMaximum),
            1283u32 => Some(Kind::CurrentLCritical),
            1284u32 => Some(Kind::CurrentCritical),
            1285u32 => Some(Kind::CurrentAverage),
            1286u32 => Some(Kind::CurrentLowest),
            1287u32 => Some(Kind::CurrentHighest),
            1408u32 => Some(Kind::CurrentAlarm),
            1409u32 => Some(Kind::CurrentMinimumAlarm),
            1410u32 => Some(Kind::CurrentMaximumAlarm),
            1411u32 => Some(Kind::CurrentBeep),
            1412u32 => Some(Kind::CurrentLCriticalAlarm),
            1413u32 => Some(Kind::CurrentCriticalAlarm),
            1536u32 => Some(Kind::HumidityInput),
            4096u32 => Some(Kind::VoltageID),
            4352u32 => Some(Kind::IntrusionAlarm),
            4353u32 => Some(Kind::IntrusionBeep),
            6144u32 => Some(Kind::BeepEnable),
            2147483647u32 => Some(Kind::Unknown),
            _ => None,
        }
    }

    /// Return the raw code equivalent to this instance.
    pub fn as_raw(self) -> (r: u32)
        ensures
            r == self.code(),
    {
        match self {
            Kind::VoltageInput => 0u32,
            Kind::VoltageMinimum => 1u32,
            Kind::VoltageMaximum => 2u32,
            Kind::VoltageLCritical => 3u32,
            Kind::VoltageCritical => 4u32,
            Kind::VoltageAverage => 5u32,
            Kind::VoltageLowest => 6u32,
            Kind::VoltageHighest => 7u32,
            Kind::VoltageAlarm => 128u32,
            Kind::VoltageMinimumAlarm => 129u32,
            Kind::VoltageMaximumAlarm => 130u32,
            Kind::VoltageBeep => 131u32,
            Kind::VoltageLCriticalAlarm => 132u32,
            Kind::VoltageCriticalAlarm => 133u32,
            Kind::FanInput => 256u32,
            Kind::FanMinimum => 257u32,
            Kind::FanMaximum => 258u32,
            Kind::FanAlarm => 384u32,
            Kind::FanFault => 385u32,
            Kind::FanDivisor => 386u32,
            Kind::FanBeep => 387u32,
            Kind::FanPulses => 388u32,
            Kind::FanMinimumAlarm => 389u32,
            Kind::FanMaximumAlarm => 390u32,
            Kind::TemperatureInput => 512u32,
            Kind::TemperatureMaximum => 513u32,
            Kind::TemperatureMaximumHysteresis => 514u32,
            Kind::TemperatureMinimum => 515u32,
            Kind::TemperatureCritical => 516u32,
            Kind::TemperatureCriticalHysteresis => 517u32,
            Kind::TemperatureLCritical => 518u32,
            Kind::TemperatureEmergency => 519u32,
            Kind::TemperatureEmergencyHysteresis => 520u32,
            Kind::TemperatureLowest => 521u32,
            Kind::TemperatureHighest => 522u32,
            Kind::TemperatureMinimumHysteresis => 523u32,
            Kind::TemperatureLCriticalHysteresis => 524u32,
            Kind::TemperatureAlarm => 640u32,
            Kind::TemperatureMaximumAlarm => 641u32,
            Kind::TemperatureMinimumAlarm => 642u32,
            Kind::TemperatureCriticalAlarm => 643u32,
            Kind::TemperatureFault => 644u32,
            Kind::TemperatureType => 645u32,
            Kind::TemperatureOffset => 646u32,
            Kind::TemperatureBeep => 647u32,
            Kind::TemperatureEmergencyAlarm => 648u32,
            Kind::TemperatureLCriticalAlarm => 649u32,
            Kind::PowerAverage => 768u32,
            Kind::PowerAverageHighest => 769u32,
            Kind::PowerAverageLowest => 770u32,
            Kind::PowerInput => 771u32,
            Kind::PowerInputHighest => 772u32,
            Kind::PowerInputLowest => 773u32,
            Kind::PowerCap => 774u32,
            Kind::PowerCapHysteresis => 775u32,
            Kind::PowerMaximum => 776u32,
            Kind::PowerCritical => 777u32,
            Kind::PowerMinimum => 778u32,
            Kind::PowerLCritical => 779u32,
            Kind::PowerAverageInterval => 896u32,
            Kind::PowerAlarm => 897u32,
            Kind::PowerCapAlarm => 898u32,
            Kind::PowerMaximumAlarm => 899u32,
            Kind::PowerCriticalAlarm => 900u32,
            Kind::PowerMinimumAlarm => 901u32,
            Kind::PowerLCriticalAlarm => 902u32,
            Kind::EnergyInput => 1024u32,
            Kind::CurrentInput => 1280u32,
            Kind::CurrentMinimum => 1281u32,
            Kind::CurrentMaximum => 1282u32,
            Kind::CurrentLCritical => 1283u32,
            Kind::CurrentCritical => 1284u32,
            Kind::CurrentAverage => 1285u32,
            Kind::CurrentLowest => 1286u32,
            Kind::CurrentHighest => 1287u32,
            Kind::CurrentAlarm => 1408u32,
            Kind::CurrentMinimumAlarm => 1409u32,
            Kind::CurrentMaximumAlarm => 1410u32,
            Kind::CurrentBeep => 1411u32,
            Kind::CurrentLCriticalAlarm => 1412u32,
            Kind::CurrentCriticalAlarm => 1413u32,
            Kind::HumidityInput => 1536u32,
            Kind::VoltageID => 4096u32,
            Kind::IntrusionAlarm => 4352u32,
            Kind::IntrusionBeep => 4353u32,
            Kind::BeepEnable => 6144u32,
            Kind::Unknown => 2147483647u32,
        }
    }

    /// The measurement unit of each kind.
    pub open spec fn spec_unit(self) -> Unit {
        match self {
            Kind::VoltageInput
            | Kind::VoltageMinimum
            | Kind::VoltageMaximum
            | Kind::VoltageLCritical
            | Kind::VoltageCritical
            | Kind::VoltageAverage
            | Kind::VoltageLowest
            | Kind::VoltageHighest
            | Kind::VoltageID => Unit::Volt,
            Kind::VoltageAlarm
            | Kind::VoltageMinimumAlarm
            | Kind::VoltageMaximumAlarm
            | Kind::VoltageBeep
            | Kind::VoltageLCriticalAlarm
            | Kind::VoltageCriticalAlarm
            | Kind::FanAlarm
            | Kind::FanFault
            | Kind::FanDivisor
            | Kind::FanBeep
            | Kind::FanPulses
            | Kind::FanMinimumAlarm
            | Kind::FanMaximumAlarm
            | Kind::TemperatureAlarm
            | Kind::TemperatureMaximumAlarm
            | Kind::TemperatureMinimumAlarm
            | Kind::TemperatureCriticalAlarm
            | Kind::TemperatureFault
            | Kind::TemperatureType
            | Kind::TemperatureOffset
            | Kind::TemperatureBeep
            | Kind::TemperatureEmergencyAlarm
            | Kind::TemperatureLCriticalAlarm
            | Kind::PowerAlarm
            | Kind::PowerCapAlarm
            | Kind::PowerMaximumAlarm
            | Kind::PowerCriticalAlarm
            | Kind::PowerMinimumAlarm
            | Kind::PowerLCriticalAlarm
            | Kind::CurrentAlarm
            | Kind::CurrentMinimumAlarm
            | Kind::CurrentMaximumAlarm
            | Kind::CurrentBeep
            | Kind::CurrentLCriticalAlarm
            | Kind::CurrentCriticalAlarm
            | Kind::IntrusionAlarm
            | Kind::IntrusionBeep
            | Kind::BeepEnable
            | Kind::Unknown => Unit::Unitless,
            Kind::FanInput
            | Kind::FanMinimum
            | Kind::FanMaximum => Unit::RotationPerMinute,
            Kind::TemperatureInput
            | Kind::TemperatureMaximum
            | Kind::TemperatureMaximumHysteresis
            | Kind::TemperatureMinimum
            | Kind::TemperatureCritical
            | Kind::TemperatureCriticalHysteresis
            | Kind::TemperatureLCritical
            | Kind::TemperatureEmergency
            | Kind::TemperatureEmergencyHysteresis
            | Kind::TemperatureLowest
            | Kind::TemperatureHighest
            | Kind::TemperatureMinimumHysteresis
            | Kind::TemperatureLCriticalHysteresis => Unit::Celcius,
            Kind::PowerAverage
            | Kind::PowerAverageHighest
            | Kind::PowerAverageLowest
            | Kind::PowerInput
            | Kind::PowerInputHighest
            | Kind::PowerInputLowest
            | Kind::PowerCap
            | Kind::PowerCapHysteresis
            | Kind::PowerMaximum
            | Kind::PowerCritical
            | Kind::PowerMinimum
            | Kind::PowerLCritical => Unit::Watt,
            Kind::PowerAverageInterval => Unit::Second,
            Kind::EnergyInput => Unit::Joule,
            Kind::CurrentInput
            | Kind::CurrentMinimum
            | Kind::CurrentMaximum
            | Kind::CurrentLCritical
            | Kind::CurrentCritical
            | Kind::CurrentAverage
            | Kind::CurrentLowest
            | Kind::CurrentHighest => Unit::Amp,
            Kind::HumidityInput => Unit::Percentage,
        }
    }

    /// Return the measurement unit of this kind.
    pub fn unit(self) -> (r: Unit)
        ensures
            r == self.spec_unit(),
    {
        match self {
            Kind::VoltageInput
            | Kind::VoltageMinimum
            | Kind::VoltageMaximum
            | Kind::VoltageLCritical
            | Kind::VoltageCritical
            | Kind::VoltageAverage
            | Kind::VoltageLowest
            | Kind::VoltageHighest
            | Kind::VoltageID => Unit::Volt,
            Kind::VoltageAlarm
            | Kind::VoltageMinimumAlarm
            | Kind::VoltageMaximumAlarm
            | Kind::VoltageBeep
            | Kind::VoltageLCriticalAlarm
            | Kind::VoltageCriticalAlarm
            | Kind::FanAlarm
            | Kind::FanFault
            | Kind::FanDivisor
            | Kind::FanBeep
            | Kind::FanPulses
            | Kind::FanMinimumAlarm
            | Kind::FanMaximumAlarm
            | Kind::TemperatureAlarm
            | Kind::TemperatureMaximumAlarm
            | Kind::TemperatureMinimumAlarm
            | Kind::TemperatureCriticalAlarm
            | Kind::TemperatureFault
            | Kind::TemperatureType
            | Kind::TemperatureOffset
            | Kind::TemperatureBeep
            | Kind::TemperatureEmergencyAlarm
            | Kind::TemperatureLCriticalAlarm
            | Kind::PowerAlarm
            | Kind::PowerCapAlarm
            | Kind::PowerMaximumAlarm
            | Kind::PowerCriticalAlarm
            | Kind::PowerMinimumAlarm
            | Kind::PowerLCriticalAlarm
            | Kind::CurrentAlarm
            | Kind::CurrentMinimumAlarm
            | Kind::CurrentMaximumAlarm
            | Kind::CurrentBeep
            | Kind::CurrentLCriticalAlarm
            | Kind::CurrentCriticalAlarm
            | Kind::IntrusionAlarm
            | Kind::IntrusionBeep
            | Kind::BeepEnable
            | Kind::Unknown => Unit::Unitless,
            Kind::FanInput
            | Kind::FanMinimum
            | Kind::FanMaximum => Unit::RotationPerMinute,
            Kind::TemperatureInput
            | Kind::TemperatureMaximum
            | Kind::TemperatureMaximumHysteresis
            | Kind::TemperatureMinimum
            | Kind::TemperatureCritical
            | Kind::TemperatureCriticalHysteresis
            | Kind::TemperatureLCritical
            | Kind::TemperatureEmergency
            | Kind::TemperatureEmergencyHysteresis
            | Kind::TemperatureLowest
            | Kind::TemperatureHighest
            | Kind::TemperatureMinimumHysteresis
            | Kind::TemperatureLCriticalHysteresis => Unit::Celcius,
            Kind::PowerAverage
            | Kind::PowerAverageHighest
            | Kind::PowerAverageLowest
            | Kind::PowerInput
            | Kind::PowerInputHighest
            | Kind::PowerInputLowest
            | Kind::PowerCap
            | Kind::PowerCapHysteresis
            | Kind::PowerMaximum
            | Kind::PowerCritical
            | Kind::PowerMinimum
            | Kind::PowerLCritical => Unit::Watt,
            Kind::PowerAverageInterval => Unit::Second,
            Kind::EnergyInput => Unit::Joule,
            Kind::CurrentInput
            | Kind::CurrentMinimum
            | Kind::CurrentMaximum
            | Kind::CurrentLCritical
            | Kind::CurrentCritical
            | Kind::CurrentAverage
            | Kind::CurrentLowest
            | Kind::CurrentHighest => Unit::Amp,
            Kind::HumidityInput => Unit::Percentage,
        }
    }

    /// The name of each kind.
    pub open spec fn spec_name(self) -> Seq<char> {
        match self {
            Kind::VoltageInput => "VoltageInput"@,
            Kind::VoltageMinimum => "VoltageMinimum"@,
            Kind::VoltageMaximum => "VoltageMaximum"@,
            Kind::VoltageLCritical => "VoltageLCritical"@,
            Kind::VoltageCritical => "VoltageCritical"@,
            Kind::VoltageAverage => "VoltageAverage"@,
            Kind::VoltageLowest => "VoltageLowest"@,
            Kind::VoltageHighest => "VoltageHighest"@,
            Kind::VoltageAlarm => "VoltageAlarm"@,
            Kind::VoltageMinimumAlarm => "VoltageMinimumAlarm"@,
            Kind::VoltageMaximumAlarm => "VoltageMaximumAlarm"@,
            Kind::VoltageBeep => "VoltageBeep"@,
            Kind::VoltageLCriticalAlarm => "VoltageLCriticalAlarm"@,
            Kind::VoltageCriticalAlarm => "VoltageCriticalAlarm"@,
            Kind::FanInput => "FanInput"@,
            Kind::FanMinimum => "FanMinimum"@,
            Kind::FanMaximum => "FanMaximum"@,
            Kind::FanAlarm => "FanAlarm"@,
            Kind::FanFault => "FanFault"@,
            Kind::FanDivisor => "FanDivisor"@,
            Kind::FanBeep => "FanBeep"@,
            Kind::FanPulses => "FanPulses"@,
            Kind::FanMinimumAlarm => "FanMinimumAlarm"@,
            Kind::FanMaximumAlarm => "FanMaximumAlarm"@,
            Kind::TemperatureInput => "TemperatureInput"@,
            Kind::TemperatureMaximum => "TemperatureMaximum"@,
            Kind::TemperatureMaximumHysteresis => "TemperatureMaximumHysteresis"@,
            Kind::TemperatureMinimum => "TemperatureMinimum"@,
            Kind::TemperatureCritical => "TemperatureCritical"@,
            Kind::TemperatureCriticalHysteresis => "TemperatureCriticalHysteresis"@,
            Kind::TemperatureLCritical => "TemperatureLCritical"@,
            Kind::TemperatureEmergency => "TemperatureEmergency"@,
            Kind::TemperatureEmergencyHysteresis => "TemperatureEmergencyHysteresis"@,
            Kind::TemperatureLowest => "TemperatureLowest"@,
            Kind::TemperatureHighest => "TemperatureHighest"@,
            Kind::TemperatureMinimumHysteresis => "TemperatureMinimumHysteresis"@,
            Kind::TemperatureLCriticalHysteresis => "TemperatureLCriticalHysteresis"@,
            Kind::TemperatureAlarm => "TemperatureAlarm"@,
            Kind::TemperatureMaximumAlarm => "TemperatureMaximumAlarm"@,
            Kind::TemperatureMinimumAlarm => "TemperatureMinimumAlarm"@,
            Kind::TemperatureCriticalAlarm => "TemperatureCriticalAlarm"@,
            Kind::TemperatureFault => "TemperatureFault"@,
            Kind::TemperatureType => "TemperatureType"@,
            Kind::TemperatureOffset => "TemperatureOffset"@,
            Kind::TemperatureBeep => "TemperatureBeep"@,
            Kind::TemperatureEmergencyAlarm => "TemperatureEmergencyAlarm"@,
            Kind::TemperatureLCriticalAlarm => "TemperatureLCriticalAlarm"@,
            Kind::PowerAverage => "PowerAverage"@,
            Kind::PowerAverageHighest => "PowerAverageHighest"@,
            Kind::PowerAverageLowest => "PowerAverageLowest"@,
            Kind::PowerInput => "PowerInput"@,
            Kind::PowerInputHighest => "PowerInputHighest"@,
            Kind::PowerInputLowest => "PowerInputLowest"@,
            Kind::PowerCap => "PowerCap"@,
            Kind::PowerCapHysteresis => "PowerCapHysteresis"@,
            Kind::PowerMaximum => "PowerMaximum"@,
            Kind::PowerCritical => "PowerCritical"@,
            Kind::PowerMinimum => "PowerMinimum"@,
            Kind::PowerLCritical => "PowerLCritical"@,
            Kind::PowerAverageInterval => "PowerAverageInterval"@,
            Kind::PowerAlarm => "PowerAlarm"@,
            Kind::PowerCapAlarm => "PowerCapAlarm"@,
            Kind::PowerMaximumAlarm => "PowerMaximumAlarm"@,
            Kind::PowerCriticalAlarm => "PowerCriticalAlarm"@,
            Kind::PowerMinimumAlarm => "PowerMinimumAlarm"@,
            Kind::PowerLCriticalAlarm => "PowerLCriticalAlarm"@,
            Kind::EnergyInput => "EnergyInput"@,
            Kind::CurrentInput => "CurrentInput"@,
            Kind::CurrentMinimum => "CurrentMinimum"@,
            Kind::CurrentMaximum => "CurrentMaximum"@,
            Kind::CurrentLCritical => "CurrentLCritical"@,
            Kind::CurrentCritical => "CurrentCritical"@,
            Kind::CurrentAverage => "CurrentAverage"@,
            Kind::CurrentLowest => "CurrentLowest"@,
            Kind::CurrentHighest => "CurrentHighest"@,
            Kind::CurrentAlarm => "CurrentAlarm"@,
            Kind::CurrentMinimumAlarm => "CurrentMinimumAlarm"@,
            Kind::CurrentMaximumAlarm => "CurrentMaximumAlarm"@,
            Kind::CurrentBeep => "CurrentBeep"@,
            Kind::CurrentLCriticalAlarm => "CurrentLCriticalAlarm"@,
            Kind::CurrentCriticalAlarm => "CurrentCriticalAlarm"@,
            Kind::HumidityInput => "HumidityInput"@,
            Kind::VoltageID => "VoltageID"@,
            Kind::IntrusionAlarm => "IntrusionAlarm"@,
            Kind::IntrusionBeep => "IntrusionBeep"@,
            Kind::BeepEnable => "BeepEnable"@,
            Kind::Unknown => "Unknown"@,
        }
    }

    /// Return the name of this kind.
    pub fn name(self) -> (r: &'static str)
        ensures
            r@ == self.spec_name(),
    {
        match self {
            Kind::VoltageInput => "VoltageInput",
            Kind::VoltageMinimum => "VoltageMinimum",
            Kind::VoltageMaximum => "VoltageMaximum",
            Kind::VoltageLCritical => "VoltageLCritical",
            Kind::VoltageCritical => "VoltageCritical",
            Kind::VoltageAverage => "VoltageAverage",
            Kind::VoltageLowest => "VoltageLowest",
            Kind::VoltageHighest => "VoltageHighest",
            Kind::VoltageAlarm => "VoltageAlarm",
            Kind::VoltageMinimumAlarm => "VoltageMinimumAlarm",
            Kind::VoltageMaximumAlarm => "VoltageMaximumAlarm",
            Kind::VoltageBeep => "VoltageBeep",
            Kind::VoltageLCriticalAlarm => "VoltageLCriticalAlarm",
            Kind::VoltageCriticalAlarm => "VoltageCriticalAlarm",
            Kind::FanInput => "FanInput",
            Kind::FanMinimum => "FanMinimum",
            Kind::FanMaximum => "FanMaximum",
            Kind::FanAlarm => "FanAlarm",
            Kind::FanFault => "FanFault",
            Kind::FanDivisor => "FanDivisor",
            Kind::FanBeep => "FanBeep",
            Kind::FanPulses => "FanPulses",
            Kind::FanMinimumAlarm => "FanMinimumAlarm",
            Kind::FanMaximumAlarm => "FanMaximumAlarm",
            Kind::TemperatureInput => "TemperatureInput",
            Kind::TemperatureMaximum => "TemperatureMaximum",
            Kind::TemperatureMaximumHysteresis => "TemperatureMaximumHysteresis",
            Kind::TemperatureMinimum => "TemperatureMinimum",
            Kind::TemperatureCritical => "TemperatureCritical",
            Kind::TemperatureCriticalHysteresis => "TemperatureCriticalHysteresis",
            Kind::TemperatureLCritical => "TemperatureLCritical",
            Kind::TemperatureEmergency => "TemperatureEmergency",
            Kind::TemperatureEmergencyHysteresis => "TemperatureEmergencyHysteresis",
            Kind::TemperatureLowest => "TemperatureLowest",
            Kind::TemperatureHighest => "TemperatureHighest",
            Kind::TemperatureMinimumHysteresis => "TemperatureMinimumHysteresis",
            Kind::TemperatureLCriticalHysteresis => "TemperatureLCriticalHysteresis",
            Kind::TemperatureAlarm => "TemperatureAlarm",
            Kind::TemperatureMaximumAlarm => "TemperatureMaximumAlarm",
            Kind::TemperatureMinimumAlarm => "TemperatureMinimumAlarm",
            Kind::TemperatureCriticalAlarm => "TemperatureCriticalAlarm",
            Kind::TemperatureFault => "TemperatureFault",
            Kind::TemperatureType => "TemperatureType",
            Kind::TemperatureOffset => "TemperatureOffset",
            Kind::TemperatureBeep => "TemperatureBeep",
            Kind::TemperatureEmergencyAlarm => "TemperatureEmergencyAlarm",
            Kind::TemperatureLCriticalAlarm => "TemperatureLCriticalAlarm",
            Kind::PowerAverage => "PowerAverage",
            Kind::PowerAverageHighest => "PowerAverageHighest",
            Kind::PowerAverageLowest => "PowerAverageLowest",
            Kind::PowerInput => "PowerInput",
            Kind::PowerInputHighest => "PowerInputHighest",
            Kind::PowerInputLowest => "PowerInputLowest",
            Kind::PowerCap => "PowerCap",
            Kind::PowerCapHysteresis => "PowerCapHysteresis",
            Kind::PowerMaximum => "PowerMaximum",
            Kind::PowerCritical => "PowerCritical",
            Kind::PowerMinimum => "PowerMinimum",
            Kind::PowerLCritical => "PowerLCritical",
            Kind::PowerAverageInterval => "PowerAverageInterval",
            Kind::PowerAlarm => "PowerAlarm",
            Kind::PowerCapAlarm => "PowerCapAlarm",
            Kind::PowerMaximumAlarm => "PowerMaximumAlarm",
            Kind::PowerCriticalAlarm => "PowerCriticalAlarm",
            Kind::PowerMinimumAlarm => "PowerMinimumAlarm",
            Kind::PowerLCriticalAlarm => "PowerLCriticalAlarm",
            Kind::EnergyInput => "EnergyInput",
            Kind::CurrentInput => "CurrentInput",
            Kind::CurrentMinimum => "CurrentMinimum",
            Kind::CurrentMaximum => "CurrentMaximum",
            Kind::CurrentLCritical => "CurrentLCritical",
            Kind::CurrentCritical => "CurrentCritical",
            Kind::CurrentAverage => "CurrentAverage",
            Kind::CurrentLowest => "CurrentLowest",
            Kind::CurrentHighest => "CurrentHighest",
            Kind::CurrentAlarm => "CurrentAlarm",
            Kind::CurrentMinimumAlarm => "CurrentMinimumAlarm",
            Kind::CurrentMaximumAlarm => "CurrentMaximumAlarm",
            Kind::CurrentBeep => "CurrentBeep",
            Kind::CurrentLCriticalAlarm => "CurrentLCriticalAlarm",
            Kind::CurrentCriticalAlarm => "CurrentCriticalAlarm",
            Kind::HumidityInput => "HumidityInput",
            Kind::VoltageID => "VoltageID",
            Kind::IntrusionAlarm => "IntrusionAlarm",
            Kind::IntrusionBeep => "IntrusionBeep",
            Kind::BeepEnable => "BeepEnable",
            Kind::Unknown => "Unknown",
        }
    }

    /// How the raw value of each kind is represented.
    pub open spec fn spec_representation(self) -> Representation {
        match self {
            Kind::VoltageInput
            | Kind::VoltageMinimum
            | Kind::VoltageMaximum
            | Kind::VoltageLCritical
            | Kind::VoltageCritical
            | Kind::VoltageAverage
            | Kind::VoltageLowest
            | Kind::VoltageHighest
            | Kind::FanInput
            | Kind::FanMinimum
            | Kind::FanMaximum
            | Kind::FanDivisor
            | Kind::FanPulses
            | Kind::TemperatureInput
            | Kind::TemperatureMaximum
            | Kind::TemperatureMaximumHysteresis
            | Kind::TemperatureMinimum
            | Kind::TemperatureCritical
            | Kind::TemperatureCriticalHysteresis
            | Kind::TemperatureLCritical
            | Kind::TemperatureEmergency
            | Kind::TemperatureEmergencyHysteresis
            | Kind::TemperatureLowest
            | Kind::TemperatureHighest
            | Kind::TemperatureMinimumHysteresis
            | Kind::TemperatureLCriticalHysteresis
            | Kind::TemperatureOffset
            | Kind::PowerAverage
            | Kind::PowerAverageHighest
            | Kind::PowerAverageLowest
            | Kind::PowerInput
            | Kind::PowerInputHighest
            | Kind::PowerInputLowest
            | Kind::PowerCap
            | Kind::PowerCapHysteresis
            | Kind::PowerMaximum
            | Kind::PowerCritical
            | Kind::PowerMinimum
            | Kind::PowerLCritical
            | Kind::PowerAverageInterval
            | Kind::EnergyInput
            | Kind::CurrentInput
            | Kind::CurrentMinimum
            | Kind::CurrentMaximum
            | Kind::CurrentLCritical
            | Kind::CurrentCritical
            | Kind::CurrentAverage
            | Kind::CurrentLowest
            | Kind::CurrentHighest
            | Kind::HumidityInput
            | Kind::VoltageID => Representation::Measurement,
            Kind::VoltageAlarm
            | Kind::VoltageMinimumAlarm
            | Kind::VoltageMaximumAlarm
            | Kind::VoltageBeep
            | Kind::VoltageLCriticalAlarm
            | Kind::VoltageCriticalAlarm
            | Kind::FanAlarm
            | Kind::FanFault
            | Kind::FanBeep
            | Kind::FanMinimumAlarm
            | Kind::FanMaximumAlarm
            | Kind::TemperatureAlarm
            | Kind::TemperatureMaximumAlarm
            | Kind::TemperatureMinimumAlarm
            | Kind::TemperatureCriticalAlarm
            | Kind::TemperatureFault
            | Kind::TemperatureBeep
            | Kind::TemperatureEmergencyAlarm
            | Kind::TemperatureLCriticalAlarm
            | Kind::PowerAlarm
            | Kind::PowerCapAlarm
            | Kind::PowerMaximumAlarm
            | Kind::PowerCriticalAlarm
            | Kind::PowerMinimumAlarm
            | Kind::PowerLCriticalAlarm
            | Kind::CurrentAlarm
            | Kind::CurrentMinimumAlarm
            | Kind::CurrentMaximumAlarm
            | Kind::CurrentBeep
            | Kind::CurrentLCriticalAlarm
            | Kind::CurrentCriticalAlarm
            | Kind::IntrusionAlarm
            | Kind::IntrusionBeep
            | Kind::BeepEnable => Representation::Flag,
            Kind::TemperatureType => Representation::SensorKind,
            Kind::Unknown => Representation::Opaque,
        }
    }

    /// Return how the raw value of this kind is represented.
    pub fn representation(self) -> (r: Representation)
        ensures
            r == self.spec_representation(),
    {
        match self {
            Kind::VoltageInput
            | Kind::VoltageMinimum
            | Kind::VoltageMaximum
            | Kind::VoltageLCritical
            | Kind::VoltageCritical
            | Kind::VoltageAverage
            | Kind::VoltageLowest
            | Kind::VoltageHighest
            | Kind::FanInput
            | Kind::FanMinimum
            | Kind::FanMaximum
            | Kind::FanDivisor
            | Kind::FanPulses
            | Kind::TemperatureInput
            | Kind::TemperatureMaximum
            | Kind::TemperatureMaximumHysteresis
            | Kind::TemperatureMinimum
            | Kind::TemperatureCritical
            | Kind::TemperatureCriticalHysteresis
            | Kind::TemperatureLCritical
            | Kind::TemperatureEmergency
            | Kind::TemperatureEmergencyHysteresis
            | Kind::TemperatureLowest
            | Kind::TemperatureHighest
            | Kind::TemperatureMinimumHysteresis
            | Kind::TemperatureLCriticalHysteresis
            | Kind::TemperatureOffset
            | Kind::PowerAverage
            | Kind::PowerAverageHighest
            | Kind::PowerAverageLowest
            | Kind::PowerInput
            | Kind::PowerInputHighest
            | Kind::PowerInputLowest
            | Kind::PowerCap
            | Kind::PowerCapHysteresis
            | Kind::PowerMaximum
            | Kind::PowerCritical
            | Kind::PowerMinimum
            | Kind::PowerLCritical
            | Kind::PowerAverageInterval
            | Kind::EnergyInput
            | Kind::CurrentInput
            | Kind::CurrentMinimum
            | Kind::CurrentMaximum
            | Kind::CurrentLCritical
            | Kind::CurrentCritical
            | Kind::CurrentAverage
            | Kind::CurrentLowest
            | Kind::CurrentHighest
            | Kind::HumidityInput
            | Kind::VoltageID => Representation::Measurement,
            Kind::VoltageAlarm
            | Kind::VoltageMinimumAlarm
            | Kind::VoltageMaximumAlarm
            | Kind::VoltageBeep
            | Kind::VoltageLCriticalAlarm
            | Kind::VoltageCriticalAlarm
            | Kind::FanAlarm
            | Kind::FanFault
            | Kind::FanBeep
            | Kind::FanMinimumAlarm
            | Kind::FanMaximumAlarm
            | Kind::TemperatureAlarm
            | Kind::TemperatureMaximumAlarm
            | Kind::TemperatureMinimumAlarm
            | Kind::TemperatureCriticalAlarm
            | Kind::TemperatureFault
            | Kind::TemperatureBeep
            | Kind::TemperatureEmergencyAlarm
            | Kind::TemperatureLCriticalAlarm
            | Kind::PowerAlarm
            | Kind::PowerCapAlarm
            | Kind::PowerMaximumAlarm
            | Kind::PowerCriticalAlarm
            | Kind::PowerMinimumAlarm
            | Kind::PowerLCriticalAlarm
            | Kind::CurrentAlarm
            | Kind::CurrentMinimumAlarm
            | Kind::CurrentMaximumAlarm
            | Kind::CurrentBeep
            | Kind::CurrentLCriticalAlarm
            | Kind::CurrentCriticalAlarm
            | Kind::IntrusionAlarm
            | Kind::IntrusionBeep
            | Kind::BeepEnable => Representation::Flag,
            Kind::TemperatureType => Representation::SensorKind,
            Kind::Unknown => Representation::Opaque,
        }
    }

    /// The word shown for a raised flag of a flag kind.
    pub open spec fn spec_flag_word(self) -> Option<FlagWord> {
        match self {
            Kind::VoltageAlarm
            | Kind::VoltageMinimumAlarm
            | Kind::VoltageMaximumAlarm
            | Kind::VoltageLCriticalAlarm
            | Kind::VoltageCriticalAlarm
            | Kind::FanAlarm
            | Kind::FanMinimumAlarm
            | Kind::FanMaximumAlarm
            | Kind::TemperatureAlarm
            | Kind::TemperatureMaximumAlarm
            | Kind::TemperatureMinimumAlarm
            | Kind::TemperatureCriticalAlarm
            | Kind::TemperatureEmergencyAlarm
            | Kind::TemperatureLCriticalAlarm
            | Kind::PowerAlarm
            | Kind::PowerCapAlarm
            | Kind::PowerMaximumAlarm
            | Kind::PowerCriticalAlarm
            | Kind::PowerMinimumAlarm
            | Kind::PowerLCriticalAlarm
            | Kind::CurrentAlarm
            | Kind::CurrentMinimumAlarm
            | Kind::CurrentMaximumAlarm
            | Kind::CurrentLCriticalAlarm
            | Kind::CurrentCriticalAlarm
            | Kind::IntrusionAlarm => Some(FlagWord::Alarm),
            Kind::VoltageBeep
            | Kind::FanBeep
            | Kind::TemperatureBeep
            | Kind::CurrentBeep
            | Kind::IntrusionBeep
            | Kind::BeepEnable => Some(FlagWord::Beep),
            Kind::FanFault
            | Kind::TemperatureFault => Some(FlagWord::Fault),
            _ => None,
        }
    }
}

impl Default for Kind {
    fn default() -> (r: Kind)
        ensures
            r == Kind::Unknown,
    {
        Kind::Unknown
    }
}

/// Decoding the raw code of a kind gives the kind back.
pub proof fn lemma_kind_decode_encode(k: Kind)
    ensures
        Kind::of_code(k.code()) == Some(k),
{
}

/// Encoding the kind decoded from a raw code gives the code back.
pub proof fn lemma_kind_encode_decode(code: u32)
    ensures
        Kind::of_code(code) matches Some(k) ==> k.code() == code,
{
}

/// Unit of a value of a sensor or actuator.
#[derive(Debug, Clone, Copy, PartialEq, Eq, Structural, PartialOrd, Ord, Hash)]
pub enum Unit {
    /// No unit.
    Unitless,
    /// Volt.
    Volt,
    /// Ampere.
    Amp,
    /// Watt.
    Watt,
    /// Joule.
    Joule,
    /// Degree Celsius.
    Celcius,
    /// Second.
    Second,
    /// Rotations per minute.
    RotationPerMinute,
    /// Percentage.
    Percentage,
}

impl Unit {
    /// The symbol of each unit.
    pub open spec fn spec_symbol(self) -> Seq<char> {
        match self {
            Unit::Unitless => ""@,
            Unit::Volt => "V"@,
            Unit::Amp => "A"@,
            Unit::Watt => "W"@,
            Unit::Joule => "J"@,
            Unit::Celcius => "C"@,
            Unit::Second => "s"@,
            Unit::RotationPerMinute => "RPM"@,
            Unit::Percentage => "%"@,
        }
    }

    /// Return the symbol of this unit; it is empty for [`Unit::Unitless`].
    pub fn symbol(self) -> (r: &'static str)
        ensures
            r@ == self.spec_symbol(),
    {
        match self {
            Unit::Unitless => "",
            Unit::Volt => "V",
            Unit::Amp => "A",
            Unit::Watt => "W",
            Unit::Joule => "J",
            Unit::Celcius => "C",
            Unit::Second => "s",
            Unit::RotationPerMinute => "RPM",
            Unit::Percentage => "%",
        }
    }
}

impl Default for Unit {
    fn default() -> (r: Unit)
        ensures
            r == Unit::Unitless,
    {
        Unit::Unitless
    }
}

/// Largest rounded raw value that is read as a specific temperature sensor
/// type; every larger value means a thermistor.
pub const SENSOR_KIND_LIMIT: u64 = 1000;

/// Type of a temperature sensor.
#[derive(Debug, Clone, Copy, PartialEq, Eq, Structural, PartialOrd, Ord, Hash)]
pub enum TemperatureSensorKind {
    /// Raw value 0.
    Disabled,
    /// Raw value 1.
    CPUDiode,
    /// Raw value 2.
    Transistor,
    /// Raw value 3.
    ThermalDiode,
    /// Raw value 4.
    Thermistor,
    /// Raw value 5.
    AMDAMDSI,
    /// Raw value 6.
    IntelPECI,
}

impl TemperatureSensorKind {
    /// The raw value of each sensor type.
    pub open spec fn code(self) -> i32 {
        match self {
            TemperatureSensorKind::Disabled => 0,
            TemperatureSensorKind::CPUDiode => 1,
            TemperatureSensorKind::Transistor => 2,
            TemperatureSensorKind::ThermalDiode => 3,
            TemperatureSensorKind::Thermistor => 4,
            TemperatureSensorKind::AMDAMDSI => 5,
            TemperatureSensorKind::IntelPECI => 6,
        }
    }

    /// The sensor type of an integer raw value, if it names one.
    pub open spec fn of_code(n: int) -> Option<TemperatureSensorKind> {
        if n == 0 {
            Some(TemperatureSensorKind::Disabled)
        } else if n == 1 {
            Some(TemperatureSensorKind::CPUDiode)
        } else if n == 2 {
            Some(TemperatureSensorKind::Transistor)
        } else if n == 3 {
            Some(TemperatureSensorKind::ThermalDiode)
        } else if n == 4 {
            Some(TemperatureSensorKind::Thermistor)
        } else if n == 5 {
            Some(TemperatureSensorKind::AMDAMDSI)
        } else if n == 6 {
            Some(TemperatureSensorKind::IntelPECI)
        } else {
            None
        }
    }

    /// The sensor type that a binary64 raw value stands for: none for NaN,
    /// negative infinity and values that round to a negative integer; a
    /// thermistor for positive infinity and values that round above
    /// [`SENSOR_KIND_LIMIT`]; otherwise the type whose code is the rounded
    /// value, if there is one.
    pub open spec fn of_bits(b: u64) -> Option<TemperatureSensorKind> {
        if is_nan(b) {
            None
        } else if is_infinite(b) {
            if sign_bit(b) == 1 {
                None
            } else {
                Some(TemperatureSensorKind::Thermistor)
            }
        } else if sign_bit(b) == 1 && rounded_magnitude(b) > 0 {
            None
        } else if rounded_magnitude(b) > SENSOR_KIND_LIMIT {
            Some(TemperatureSensorKind::Thermistor)
        } else {
            TemperatureSensorKind::of_code(rounded_magnitude(b) as int)
        }
    }

    /// The binary64 encoding of the raw value of each sensor type.
    pub open spec fn spec_bits(self) -> u64 {
        match self {
            TemperatureSensorKind::Disabled => 0,
            TemperatureSensorKind::CPUDiode => 0x3FF0_0000_0000_0000,
            TemperatureSensorKind::Transistor => 0x4000_0000_0000_0000,
            TemperatureSensorKind::ThermalDiode => 0x4008_0000_0000_0000,
            TemperatureSensorKind::Thermistor => 0x4010_0000_0000_0000,
            TemperatureSensorKind::AMDAMDSI => 0x4014_0000_0000_0000,
            TemperatureSensorKind::IntelPECI => 0x4018_0000_0000_0000,
        }
    }

    /// The name of each sensor type.
    pub open spec fn spec_name(self) -> Seq<char> {
        match self {
            TemperatureSensorKind::Disabled => "Disabled"@,
            TemperatureSensorKind::CPUDiode => "CPU diode"@,
            TemperatureSensorKind::Transistor => "Transistor"@,
            TemperatureSensorKind::ThermalDiode => "Thermal diode"@,
            TemperatureSensorKind::Thermistor => "Thermistor"@,
            TemperatureSensorKind::AMDAMDSI => "AMD AMDSI"@,
            TemperatureSensorKind::IntelPECI => "Intel PECI"@,
        }
    }

    fn of_rounded(n: u64) -> (r: Option<TemperatureSensorKind>)
        ensures
            r == TemperatureSensorKind::of_code(n as int),
    {
        if n == 0 {
            Some(TemperatureSensorKind::Disabled)
        } else if n == 1 {
            Some(TemperatureSensorKind::CPUDiode)
        } else if n == 2 {
            Some(TemperatureSensorKind::Transistor)
        } else if n == 3 {
            Some(TemperatureSensorKind::ThermalDiode)
        } else if n == 4 {
            Some(TemperatureSensorKind::Thermistor)
        } else if n == 5 {
            Some(TemperatureSensorKind::AMDAMDSI)
        } else if n == 6 {
            Some(TemperatureSensorKind::IntelPECI)
        } else {
            None
        }
    }

    /// Return the sensor type that a raw value, given by its binary64
    /// encoding, stands for, if it is valid.
    pub fn from_raw(value_bits: u64) -> (r: Option<TemperatureSensorKind>)
        ensures
            r == TemperatureSensorKind::of_bits(value_bits),
    {
        if nan(value_bits) {
            None
        } else if infinite(value_bits) {
            if negative(value_bits) {
                None
            } else {
                Some(TemperatureSensorKind::Thermistor)
            }
        } else {
            let magnitude = rounded_magnitude_saturating(value_bits, SENSOR_KIND_LIMIT);
            if negative(value_bits) && magnitude > 0 {
                None
            } else if magnitude > SENSOR_KIND_LIMIT {
                Some(TemperatureSensorKind::Thermistor)
            } else {
                TemperatureSensorKind::of_rounded(magnitude)
            }
        }
    }

    /// Return the raw value equivalent to this instance.
    pub fn as_raw(self) -> (r: i32)
        ensures
            r == self.code(),
    {
        match self {
            TemperatureSensorKind::Disabled => 0,
            TemperatureSensorKind::CPUDiode => 1,
            TemperatureSensorKind::Transistor => 2,
            TemperatureSensorKind::ThermalDiode => 3,
            TemperatureSensorKind::Thermistor => 4,
            TemperatureSensorKind::AMDAMDSI => 5,
            TemperatureSensorKind::IntelPECI => 6,
        }
    }

    /// Return the binary64 encoding of the raw value of this instance.
    pub fn raw_bits(self) -> (r: u64)
        ensures
            r == self.spec_bits(),
    {
        match self {
            TemperatureSensorKind::Disabled => 0,
            TemperatureSensorKind::CPUDiode => 0x3FF0_0000_0000_0000,
            TemperatureSensorKind::Transistor => 0x4000_0000_0000_0000,
            TemperatureSensorKind::ThermalDiode => 0x4008_0000_0000_0000,
            TemperatureSensorKind::Thermistor => 0x4010_0000_0000_0000,
            TemperatureSensorKind::AMDAMDSI => 0x4014_0000_0000_0000,
            TemperatureSensorKind::IntelPECI => 0x4018_0000_0000_0000,
        }
    }

    /// Return the name of this sensor type.
    pub fn name(self) -> (r: &'static str)
        ensures
            r@ == self.spec_name(),
    {
        match self {
            TemperatureSensorKind::Disabled => "Disabled",
            TemperatureSensorKind::CPUDiode => "CPU diode",
            TemperatureSensorKind::Transistor => "Transistor",
            TemperatureSensorKind::ThermalDiode => "Thermal diode",
            TemperatureSensorKind::Thermistor => "Thermistor",
            TemperatureSensorKind::AMDAMDSI => "AMD AMDSI",
            TemperatureSensorKind::IntelPECI => "Intel PECI",
        }
    }
}

impl Default for TemperatureSensorKind {
    fn default() -> (r: TemperatureSensorKind)
        ensures
            r == TemperatureSensorKind::Disabled,
    {
        TemperatureSensorKind::Disabled
    }
}

/// Value reported by a sensor or set for an actuator. Measurements are kept
/// as their binary64 encoding.
#[derive(Debug, Clone, Copy, PartialEq, Eq, Structural)]
pub enum Value {
    /// A value of kind [`Kind::VoltageInput`].
    VoltageInput(u64),
    /// A value of kind [`Kind::VoltageMinimum`].
    VoltageMinimum(u64),
    /// A value of kind [`Kind::VoltageMaximum`].
    VoltageMaximum(u64),
    /// A value of kind [`Kind::VoltageLCritical`].
    VoltageLCritical(u64),
    /// A value of kind [`Kind::VoltageCritical`].
    VoltageCritical(u64),
    /// A value of kind [`Kind::VoltageAverage`].
    VoltageAverage(u64),
    /// A value of kind [`Kind::VoltageLowest`].
    VoltageLowest(u64),
    /// A value of kind [`Kind::VoltageHighest`].
    VoltageHighest(u64),
    /// A value of kind [`Kind::VoltageAlarm`].
    VoltageAlarm(bool),
    /// A value of kind [`Kind::VoltageMinimumAlarm`].
    VoltageMinimumAlarm(bool),
    /// A value of kind [`Kind::VoltageMaximumAlarm`].
    VoltageMaximumAlarm(bool),
    /// A value of kind [`Kind::VoltageBeep`].
    VoltageBeep(bool),
    /// A value of kind [`Kind::VoltageLCriticalAlarm`].
    VoltageLCriticalAlarm(bool),
    /// A value of kind [`Kind::VoltageCriticalAlarm`].
    VoltageCriticalAlarm(bool),
    /// A value of kind [`Kind::FanInput`].
    FanInput(u64),
    /// A value of kind [`Kind::FanMinimum`].
    FanMinimum(u64),
    /// A value of kind [`Kind::FanMaximum`].
    FanMaximum(u64),
    /// A value of kind [`Kind::FanAlarm`].
    FanAlarm(bool),
    /// A value of kind [`Kind::FanFault`].
    FanFault(bool),
    /// A value of kind [`Kind::FanDivisor`].
    FanDivisor(u64),
    /// A value of kind [`Kind::FanBeep`].
    FanBeep(bool),
    /// A value of kind [`Kind::FanPulses`].
    FanPulses(u64),
    /// A value of kind [`Kind::FanMinimumAlarm`].
    FanMinimumAlarm(bool),
    /// A value of kind [`Kind::FanMaximumAlarm`].
    FanMaximumAlarm(bool),
    /// A value of kind [`Kind::TemperatureInput`].
    TemperatureInput(u64),
    /// A value of kind [`Kind::TemperatureMaximum`].
    TemperatureMaximum(u64),
    /// A value of kind [`Kind::TemperatureMaximumHysteresis`].
    TemperatureMaximumHysteresis(u64),
    /// A value of kind [`Kind::TemperatureMinimum`].
    TemperatureMinimum(u64),
    /// A value of kind [`Kind::TemperatureCritical`].
    TemperatureCritical(u64),
    /// A value of kind [`Kind::TemperatureCriticalHysteresis`].
    TemperatureCriticalHysteresis(u64),
    /// A value of kind [`Kind::TemperatureLCritical`].
    TemperatureLCritical(u64),
    /// A value of kind [`Kind::TemperatureEmergency`].
    TemperatureEmergency(u64),
    /// A value of kind [`Kind::TemperatureEmergencyHysteresis`].
    TemperatureEmergencyHysteresis(u64),
    /// A value of kind [`Kind::TemperatureLowest`].
    TemperatureLowest(u64),
    /// A value of kind [`Kind::TemperatureHighest`].
    TemperatureHighest(u64),
    /// A value of kind [`Kind::TemperatureMinimumHysteresis`].
    TemperatureMinimumHysteresis(u64),
    /// A value of kind [`Kind::TemperatureLCriticalHysteresis`].
    TemperatureLCriticalHysteresis(u64),
    /// A value of kind [`Kind::TemperatureAlarm`].
    TemperatureAlarm(bool),
    /// A value of kind [`Kind::TemperatureMaximumAlarm`].
    TemperatureMaximumAlarm(bool),
    /// A value of kind [`Kind::TemperatureMinimumAlarm`].
    TemperatureMinimumAlarm(bool),
    /// A value of kind [`Kind::TemperatureCriticalAlarm`].
    TemperatureCriticalAlarm(bool),
    /// A value of kind [`Kind::TemperatureFault`].
    TemperatureFault(bool),
    /// A value of kind [`Kind::TemperatureType`].
    TemperatureType(TemperatureSensorKind),
    /// A value of kind [`Kind::TemperatureOffset`].
    TemperatureOffset(u64),
    /// A value of kind [`Kind::TemperatureBeep`].
    TemperatureBeep(bool),
    /// A value of kind [`Kind::TemperatureEmergencyAlarm`].
    TemperatureEmergencyAlarm(bool),
    /// A value of kind [`Kind::TemperatureLCriticalAlarm`].
    TemperatureLCriticalAlarm(bool),
    /// A value of kind [`Kind::PowerAverage`].
    PowerAverage(u64),
    /// A value of kind [`Kind::PowerAverageHighest`].
    PowerAverageHighest(u64),
    /// A value of kind [`Kind::PowerAverageLowest`].
    PowerAverageLowest(u64),
    /// A value of kind [`Kind::PowerInput`].
    PowerInput(u64),
    /// A value of kind [`Kind::PowerInputHighest`].
    PowerInputHighest(u64),
    /// A value of kind [`Kind::PowerInputLowest`].
    PowerInputLowest(u64),
    /// A value of kind [`Kind::PowerCap`].
    PowerCap(u64),
    /// A value of kind [`Kind::PowerCapHysteresis`].
    PowerCapHysteresis(u64),
    /// A value of kind [`Kind::PowerMaximum`].
    PowerMaximum(u64),
    /// A value of kind [`Kind::PowerCritical`].
    PowerCritical(u64),
    /// A value of kind [`Kind::PowerMinimum`].
    PowerMinimum(u64),
    /// A value of kind [`Kind::PowerLCritical`].
    PowerLCritical(u64),
    /// A value of kind [`Kind::PowerAverageInterval`].
    PowerAverageInterval(u64),
    /// A value of kind [`Kind::PowerAlarm`].
    PowerAlarm(bool),
    /// A value of kind [`Kind::PowerCapAlarm`].
    PowerCapAlarm(bool),
    /// A value of kind [`Kind::PowerMaximumAlarm`].
    PowerMaximumAlarm(bool),
    /// A value of kind [`Kind::PowerCriticalAlarm`].
    PowerCriticalAlarm(bool),
    /// A value of kind [`Kind::PowerMinimumAlarm`].
    PowerMinimumAlarm(bool),
    /// A value of kind [`Kind::PowerLCriticalAlarm`].
    PowerLCriticalAlarm(bool),
    /// A value of kind [`Kind::EnergyInput`].
    EnergyInput(u64),
    /// A value of kind [`Kind::CurrentInput`].
    CurrentInput(u64),
    /// A value of kind [`Kind::CurrentMinimum`].
    CurrentMinimum(u64),
    /// A value of kind [`Kind::CurrentMaximum`].
    CurrentMaximum(u64),
    /// A value of kind [`Kind::CurrentLCritical`].
    CurrentLCritical(u64),
    /// A value of kind [`Kind::CurrentCritical`].
    CurrentCritical(u64),
    /// A value of kind [`Kind::CurrentAverage`].
    CurrentAverage(u64),
    /// A value of kind [`Kind::CurrentLowest`].
    CurrentLowest(u64),
    /// A value of kind [`Kind::CurrentHighest`].
    CurrentHighest(u64),
    /// A value of kind [`Kind::CurrentAlarm`].
    CurrentAlarm(bool),
    /// A value of kind [`Kind::CurrentMinimumAlarm`].
    CurrentMinimumAlarm(bool),
    /// A value of kind [`Kind::CurrentMaximumAlarm`].
    CurrentMaximumAlarm(bool),
    /// A value of kind [`Kind::CurrentBeep`].
    CurrentBeep(bool),
    /// A value of kind [`Kind::CurrentLCriticalAlarm`].
    CurrentLCriticalAlarm(bool),
    /// A value of kind [`Kind::CurrentCriticalAlarm`].
    CurrentCriticalAlarm(bool),
    /// A value of kind [`Kind::HumidityInput`].
    HumidityInput(u64),
    /// A value of kind [`Kind::VoltageID`].
    VoltageID(u64),
    /// A value of kind [`Kind::IntrusionAlarm`].
    IntrusionAlarm(bool),
    /// A value of kind [`Kind::IntrusionBeep`].
    IntrusionBeep(bool),
    /// A value of kind [`Kind::BeepEnable`].
    BeepEnable(bool),
    /// A value of an unrecognized kind.
    Unknown {
        /// The kind.
        kind: Kind,
        /// The binary64 encoding of the raw value.
        value: u64,
    },
}

/// What a [`Value`] holds, whatever its kind.
#[derive(Debug, Clone, Copy, PartialEq, Eq, Structural)]
pub enum Payload {
    /// The binary64 encoding of a measurement, or of an unrecognized value.
    Measurement(u64),
    /// A flag.
    Flag(bool),
    /// A temperature sensor type.
    SensorKind(TemperatureSensorKind),
}

/// How a [`Value`] is shown to a person.
#[derive(Debug, Clone, Copy, PartialEq, Eq, Structural)]
pub enum DisplayForm {
    /// Nothing: a flag that is not raised.
    Empty,
    /// A word: a flag that is raised.
    Word(FlagWord),
    /// A number, followed by the unit's symbol unless the unit is [`Unit::Unitless`].
    Measurement {
        /// The binary64 encoding of the number.
        bits: u64,
        /// The unit.
        unit: Unit,
    },
    /// The name of a temperature sensor type.
    SensorKind(TemperatureSensorKind),
    /// The placeholder [`crate::errors::PLACEHOLDER`]: a value of an unrecognized kind.
    Placeholder,
}

impl Kind {
    /// Return the word shown for a raised flag of this kind, if it is a flag kind.
    pub fn flag_word(self) -> (r: Option<FlagWord>)
        ensures
            r == self.spec_flag_word(),
    {
        match self {
            Kind::VoltageAlarm
            | Kind::VoltageMinimumAlarm
            | Kind::VoltageMaximumAlarm
            | Kind::VoltageLCriticalAlarm
            | Kind::VoltageCriticalAlarm
            | Kind::FanAlarm
            | Kind::FanMinimumAlarm
            | Kind::FanMaximumAlarm
            | Kind::TemperatureAlarm
            | Kind::TemperatureMaximumAlarm
            | Kind::TemperatureMinimumAlarm
            | Kind::TemperatureCriticalAlarm
            | Kind::TemperatureEmergencyAlarm
            | Kind::TemperatureLCriticalAlarm
            | Kind::PowerAlarm
            | Kind::PowerCapAlarm
            | Kind::PowerMaximumAlarm
            | Kind::PowerCriticalAlarm
            | Kind::PowerMinimumAlarm
            | Kind::PowerLCriticalAlarm
            | Kind::CurrentAlarm
            | Kind::CurrentMinimumAlarm
            | Kind::CurrentMaximumAlarm
            | Kind::CurrentLCriticalAlarm
            | Kind::CurrentCriticalAlarm
            | Kind::IntrusionAlarm => Some(FlagWord::Alarm),
            Kind::VoltageBeep
            | Kind::FanBeep
            | Kind::TemperatureBeep
            | Kind::CurrentBeep
            | Kind::IntrusionBeep
            | Kind::BeepEnable => Some(FlagWord::Beep),
            Kind::FanFault
            | Kind::TemperatureFault => Some(FlagWord::Fault),
            _ => None,
        }
    }
}

impl Value {
    /// The value of a kind built from a raw value: measurements keep the
    /// encoding, flags are raised for every raw value unequal to zero, a
    /// temperature sensor type is decoded and may be missing.
    pub open spec fn spec_new(kind: Kind, bits: u64) -> Option<Value> {
        match kind {
            Kind::VoltageInput => Some(Value::VoltageInput(bits)),
            Kind::VoltageMinimum => Some(Value::VoltageMinimum(bits)),
            Kind::VoltageMaximum => Some(Value::VoltageMaximum(bits)),
            Kind::VoltageLCritical => Some(Value::VoltageLCritical(bits)),
            Kind::VoltageCritical => Some(Value::VoltageCritical(bits)),
            Kind::VoltageAverage => Some(Value::VoltageAverage(bits)),
            Kind::VoltageLowest => Some(Value::VoltageLowest(bits)),
            Kind::VoltageHighest => Some(Value::VoltageHighest(bits)),
            Kind::VoltageAlarm => Some(Value::VoltageAlarm(is_nonzero(bits))),
            Kind::VoltageMinimumAlarm => Some(Value::VoltageMinimumAlarm(is_nonzero(bits))),
            Kind::VoltageMaximumAlarm => Some(Value::VoltageMaximumAlarm(is_nonzero(bits))),
            Kind::VoltageBeep => Some(Value::VoltageBeep(is_nonzero(bits))),
            Kind::VoltageLCriticalAlarm => Some(Value::VoltageLCriticalAlarm(is_nonzero(bits))),
            Kind::VoltageCriticalAlarm => Some(Value::VoltageCriticalAlarm(is_nonzero(bits))),
            Kind::FanInput => Some(Value::FanInput(bits)),
            Kind::FanMinimum => Some(Value::FanMinimum(bits)),
            Kind::FanMaximum => Some(Value::FanMaximum(bits)),
            Kind::FanAlarm => Some(Value::FanAlarm(is_nonzero(bits))),
            Kind::FanFault => Some(Value::FanFault(is_nonzero(bits))),
            Kind::FanDivisor => Some(Value::FanDivisor(bits)),
            Kind::FanBeep => Some(Value::FanBeep(is_nonzero(bits))),
            Kind::FanPulses => Some(Value::FanPulses(bits)),
            Kind::FanMinimumAlarm => Some(Value::FanMinimumAlarm(is_nonzero(bits))),
            Kind::FanMaximumAlarm => Some(Value::FanMaximumAlarm(is_nonzero(bits))),
            Kind::TemperatureInput => Some(Value::TemperatureInput(bits)),
            Kind::TemperatureMaximum => Some(Value::TemperatureMaximum(bits)),
            Kind::TemperatureMaximumHysteresis => Some(Value::TemperatureMaximumHysteresis(bits)),
            Kind::TemperatureMinimum => Some(Value::TemperatureMinimum(bits)),
            Kind::TemperatureCritical => Some(Value::TemperatureCritical(bits)),
            Kind::TemperatureCriticalHysteresis => Some(Value::TemperatureCriticalHysteresis(bits)),
            Kind::TemperatureLCritical => Some(Value::TemperatureLCritical(bits)),
            Kind::TemperatureEmergency => Some(Value::TemperatureEmergency(bits)),
            Kind::TemperatureEmergencyHysteresis => Some(Value::TemperatureEmergencyHysteresis(bits)),
            Kind::TemperatureLowest => Some(Value::TemperatureLowest(bits)),
            Kind::TemperatureHighest => Some(Value::TemperatureHighest(bits)),
            Kind::TemperatureMinimumHysteresis => Some(Value::TemperatureMinimumHysteresis(bits)),
            Kind::TemperatureLCriticalHysteresis => Some(Value::TemperatureLCriticalHysteresis(bits)),
            Kind::TemperatureAlarm => Some(Value::TemperatureAlarm(is_nonzero(bits))),
            Kind::TemperatureMaximumAlarm => Some(Value::TemperatureMaximumAlarm(is_nonzero(bits))),
            Kind::TemperatureMinimumAlarm => Some(Value::TemperatureMinimumAlarm(is_nonzero(bits))),
            Kind::TemperatureCriticalAlarm => Some(Value::TemperatureCriticalAlarm(is_nonzero(bits))),
            Kind::TemperatureFault => Some(Value::TemperatureFault(is_nonzero(bits))),
            Kind::TemperatureType => match TemperatureSensorKind::of_bits(bits) {
                Some(t) => Some(Value::TemperatureType(t)),
                None => None,
            },
            Kind::TemperatureOffset => Some(Value::TemperatureOffset(bits)),
            Kind::TemperatureBeep => Some(Value::TemperatureBeep(is_nonzero(bits))),
            Kind::TemperatureEmergencyAlarm => Some(Value::TemperatureEmergencyAlarm(is_nonzero(bits))),
            Kind::TemperatureLCriticalAlarm => Some(Value::TemperatureLCriticalAlarm(is_nonzero(bits))),
            Kind::PowerAverage => Some(Value::PowerAverage(bits)),
            Kind::PowerAverageHighest => Some(Value::PowerAverageHighest(bits)),
            Kind::PowerAverageLowest => Some(Value::PowerAverageLowest(bits)),
            Kind::PowerInput => Some(Value::PowerInput(bits)),
            Kind::PowerInputHighest => Some(Value::PowerInputHighest(bits)),
            Kind::PowerInputLowest => Some(Value::PowerInputLowest(bits)),
            Kind::PowerCap => Some(Value::PowerCap(bits)),
            Kind::PowerCapHysteresis => Some(Value::PowerCapHysteresis(bits)),
            Kind::PowerMaximum => Some(Value::PowerMaximum(bits)),
            Kind::PowerCritical => Some(Value::PowerCritical(bits)),
            Kind::PowerMinimum => Some(Value::PowerMinimum(bits)),
            Kind::PowerLCritical => Some(Value::PowerLCritical(bits)),
            Kind::PowerAverageInterval => Some(Value::PowerAverageInterval(bits)),
            Kind::PowerAlarm => Some(Value::PowerAlarm(is_nonzero(bits))),
            Kind::PowerCapAlarm => Some(Value::PowerCapAlarm(is_nonzero(bits))),
            Kind::PowerMaximumAlarm => Some(Value::PowerMaximumAlarm(is_nonzero(bits))),
            Kind::PowerCriticalAlarm => Some(Value::PowerCriticalAlarm(is_nonzero(bits))),
            Kind::PowerMinimumAlarm => Some(Value::PowerMinimumAlarm(is_nonzero(bits))),
            Kind::PowerLCriticalAlarm => Some(Value::PowerLCriticalAlarm(is_nonzero(bits))),
            Kind::EnergyInput => Some(Value::EnergyInput(bits)),
            Kind::CurrentInput => Some(Value::CurrentInput(bits)),
            Kind::CurrentMinimum => Some(Value::CurrentMinimum(bits)),
            Kind::CurrentMaximum => Some(Value::CurrentMaximum(bits)),
            Kind::CurrentLCritical => Some(Value::CurrentLCritical(bits)),
            Kind::CurrentCritical => Some(Value::CurrentCritical(bits)),
            Kind::CurrentAverage => Some(Value::CurrentAverage(bits)),
            Kind::CurrentLowest => Some(Value::CurrentLowest(bits)),
            Kind::CurrentHighest => Some(Value::CurrentHighest(bits)),
            Kind::CurrentAlarm => Some(Value::CurrentAlarm(is_nonzero(bits))),
            Kind::CurrentMinimumAlarm => Some(Value::CurrentMinimumAlarm(is_nonzero(bits))),
            Kind::CurrentMaximumAlarm => Some(Value::CurrentMaximumAlarm(is_nonzero(bits))),
            Kind::CurrentBeep => Some(Value::CurrentBeep(is_nonzero(bits))),
            Kind::CurrentLCriticalAlarm => Some(Value::CurrentLCriticalAlarm(is_nonzero(bits))),
            Kind::CurrentCriticalAlarm => Some(Value::CurrentCriticalAlarm(is_nonzero(bits))),
            Kind::HumidityInput => Some(Value::HumidityInput(bits)),
            Kind::VoltageID => Some(Value::VoltageID(bits)),
            Kind::IntrusionAlarm => Some(Value::IntrusionAlarm(is_nonzero(bits))),
            Kind::IntrusionBeep => Some(Value::IntrusionBeep(is_nonzero(bits))),
            Kind::BeepEnable => Some(Value::BeepEnable(is_nonzero(bits))),
            Kind::Unknown => Some(Value::Unknown { kind, value: bits }),
        }
    }

    /// The kind of each value.
    pub open spec fn spec_kind(self) -> Kind {
        match self {
            Value::VoltageInput(_) => Kind::VoltageInput,
            Value::VoltageMinimum(_) => Kind::VoltageMinimum,
            Value::VoltageMaximum(_) => Kind::VoltageMaximum,
            Value::VoltageLCritical(_) => Kind::VoltageLCritical,
            Value::VoltageCritical(_) => Kind::VoltageCritical,
            Value::VoltageAverage(_) => Kind::VoltageAverage,
            Value::VoltageLowest(_) => Kind::VoltageLowest,
            Value::VoltageHighest(_) => Kind::VoltageHighest,
            Value::VoltageAlarm(_) => Kind::VoltageAlarm,
            Value::VoltageMinimumAlarm(_) => Kind::VoltageMinimumAlarm,
            Value::VoltageMaximumAlarm(_) => Kind::VoltageMaximumAlarm,
            Value::VoltageBeep(_) => Kind::VoltageBeep,
            Value::VoltageLCriticalAlarm(_) => Kind::VoltageLCriticalAlarm,
            Value::VoltageCriticalAlarm(_) => Kind::VoltageCriticalAlarm,
            Value::FanInput(_) => Kind::FanInput,
            Value::FanMinimum(_) => Kind::FanMinimum,
            Value::FanMaximum(_) => Kind::FanMaximum,
            Value::FanAlarm(_) => Kind::FanAlarm,
            Value::FanFault(_) => Kind::FanFault,
            Value::FanDivisor(_) => Kind::FanDivisor,
            Value::FanBeep(_) => Kind::FanBeep,
            Value::FanPulses(_) => Kind::FanPulses,
            Value::FanMinimumAlarm(_) => Kind::FanMinimumAlarm,
            Value::FanMaximumAlarm(_) => Kind::FanMaximumAlarm,
            Value::TemperatureInput(_) => Kind::TemperatureInput,
            Value::TemperatureMaximum(_) => Kind::TemperatureMaximum,
            Value::TemperatureMaximumHysteresis(_) => Kind::TemperatureMaximumHysteresis,
            Value::TemperatureMinimum(_) => Kind::TemperatureMinimum,
            Value::TemperatureCritical(_) => Kind::TemperatureCritical,
            Value::TemperatureCriticalHysteresis(_) => Kind::TemperatureCriticalHysteresis,
            Value::TemperatureLCritical(_) => Kind::TemperatureLCritical,
            Value::TemperatureEmergency(_) => Kind::TemperatureEmergency,
            Value::TemperatureEmergencyHysteresis(_) => Kind::TemperatureEmergencyHysteresis,
            Value::TemperatureLowest(_) => Kind::TemperatureLowest,
            Value::TemperatureHighest(_) => Kind::TemperatureHighest,
            Value::TemperatureMinimumHysteresis(_) => Kind::TemperatureMinimumHysteresis,
            Value::TemperatureLCriticalHysteresis(_) => Kind::TemperatureLCriticalHysteresis,
            Value::TemperatureAlarm(_) => Kind::TemperatureAlarm,
            Value::TemperatureMaximumAlarm(_) => Kind::TemperatureMaximumAlarm,
            Value::TemperatureMinimumAlarm(_) => Kind::TemperatureMinimumAlarm,
            Value::TemperatureCriticalAlarm(_) => Kind::TemperatureCriticalAlarm,
            Value::TemperatureFault(_) => Kind::TemperatureFault,
            Value::TemperatureType(_) => Kind::TemperatureType,
            Value::TemperatureOffset(_) => Kind::TemperatureOffset,
            Value::TemperatureBeep(_) => Kind::TemperatureBeep,
            Value::TemperatureEmergencyAlarm(_) => Kind::TemperatureEmergencyAlarm,
            Value::TemperatureLCriticalAlarm(_) => Kind::TemperatureLCriticalAlarm,
            Value::PowerAverage(_) => Kind::PowerAverage,
            Value::PowerAverageHighest(_) => Kind::PowerAverageHighest,
            Value::PowerAverageLowest(_) => Kind::PowerAverageLowest,
            Value::PowerInput(_) => Kind::PowerInput,
            Value::PowerInputHighest(_) => Kind::PowerInputHighest,
            Value::PowerInputLowest(_) => Kind::PowerInputLowest,
            Value::PowerCap(_) => Kind::PowerCap,
            Value::PowerCapHysteresis(_) => Kind::PowerCapHysteresis,
            Value::PowerMaximum(_) => Kind::PowerMaximum,
            Value::PowerCritical(_) => Kind::PowerCritical,
            Value::PowerMinimum(_) => Kind::PowerMinimum,
            Value::PowerLCritical(_) => Kind::PowerLCritical,
            Value::PowerAverageInterval(_) => Kind::PowerAverageInterval,
            Value::PowerAlarm(_) => Kind::PowerAlarm,
            Value::PowerCapAlarm(_) => Kind::PowerCapAlarm,
            Value::PowerMaximumAlarm(_) => Kind::PowerMaximumAlarm,
            Value::PowerCriticalAlarm(_) => Kind::PowerCriticalAlarm,
            Value::PowerMinimumAlarm(_) => Kind::PowerMinimumAlarm,
            Value::PowerLCriticalAlarm(_) => Kind::PowerLCriticalAlarm,
            Value::EnergyInput(_) => Kind::EnergyInput,
            Value::CurrentInput(_) => Kind::CurrentInput,
            Value::CurrentMinimum(_) => Kind::CurrentMinimum,
            Value::CurrentMaximum(_) => Kind::CurrentMaximum,
            Value::CurrentLCritical(_) => Kind::CurrentLCritical,
            Value::CurrentCritical(_) => Kind::CurrentCritical,
            Value::CurrentAverage(_) => Kind::CurrentAverage,
            Value::CurrentLowest(_) => Kind::CurrentLowest,
            Value::CurrentHighest(_) => Kind::CurrentHighest,
            Value::CurrentAlarm(_) => Kind::CurrentAlarm,
            Value::CurrentMinimumAlarm(_) => Kind::CurrentMinimumAlarm,
            Value::CurrentMaximumAlarm(_) => Kind::CurrentMaximumAlarm,
            Value::CurrentBeep(_) => Kind::CurrentBeep,
            Value::CurrentLCriticalAlarm(_) => Kind::CurrentLCriticalAlarm,
            Value::CurrentCriticalAlarm(_) => Kind::CurrentCriticalAlarm,
            Value::HumidityInput(_) => Kind::HumidityInput,
            Value::VoltageID(_) => Kind::VoltageID,
            Value::IntrusionAlarm(_) => Kind::IntrusionAlarm,
            Value::IntrusionBeep(_) => Kind::IntrusionBeep,
            Value::BeepEnable(_) => Kind::BeepEnable,
            Value::Unknown { .. } => Kind::Unknown,
        }
    }

    /// What each value holds.
    pub open spec fn payload(self) -> Payload {
        match self {
            Value::VoltageInput(v)
            | Value::VoltageMinimum(v)
            | Value::VoltageMaximum(v)
            | Value::VoltageLCritical(v)
            | Value::VoltageCritical(v)
            | Value::VoltageAverage(v)
            | Value::VoltageLowest(v)
            | Value::VoltageHighest(v)
            | Value::FanInput(v)
            | Value::FanMinimum(v)
            | Value::FanMaximum(v)
            | Value::FanDivisor(v)
            | Value::FanPulses(v)
            | Value::TemperatureInput(v)
            | Value::TemperatureMaximum(v)
            | Value::TemperatureMaximumHysteresis(v)
            | Value::TemperatureMinimum(v)
            | Value::TemperatureCritical(v)
            | Value::TemperatureCriticalHysteresis(v)
            | Value::TemperatureLCritical(v)
            | Value::TemperatureEmergency(v)
            | Value::TemperatureEmergencyHysteresis(v)
            | Value::TemperatureLowest(v)
            | Value::TemperatureHighest(v)
            | Value::TemperatureMinimumHysteresis(v)
            | Value::TemperatureLCriticalHysteresis(v)
            | Value::TemperatureOffset(v)
            | Value::PowerAverage(v)
            | Value::PowerAverageHighest(v)
            | Value::PowerAverageLowest(v)
            | Value::PowerInput(v)
            | Value::PowerInputHighest(v)
            | Value::PowerInputLowest(v)
            | Value::PowerCap(v)
            | Value::PowerCapHysteresis(v)
            | Value::PowerMaximum(v)
            | Value::PowerCritical(v)
            | Value::PowerMinimum(v)
            | Value::PowerLCritical(v)
            | Value::PowerAverageInterval(v)
            | Value::EnergyInput(v)
            | Value::CurrentInput(v)
            | Value::CurrentMinimum(v)
            | Value::CurrentMaximum(v)
            | Value::CurrentLCritical(v)
            | Value::CurrentCritical(v)
            | Value::CurrentAverage(v)
            | Value::CurrentLowest(v)
            | Value::CurrentHighest(v)
            | Value::HumidityInput(v)
            | Value::VoltageID(v)
            | Value::Unknown { value: v, .. } => Payload::Measurement(v),
            Value::VoltageAlarm(v)
            | Value::VoltageMinimumAlarm(v)
            | Value::VoltageMaximumAlarm(v)
            | Value::VoltageBeep(v)
            | Value::VoltageLCriticalAlarm(v)
            | Value::VoltageCriticalAlarm(v)
            | Value::FanAlarm(v)
            | Value::FanFault(v)
            | Value::FanBeep(v)
            | Value::FanMinimumAlarm(v)
            | Value::FanMaximumAlarm(v)
            | Value::TemperatureAlarm(v)
            | Value::TemperatureMaximumAlarm(v)
            | Value::TemperatureMinimumAlarm(v)
            | Value::TemperatureCriticalAlarm(v)
            | Value::TemperatureFault(v)
            | Value::TemperatureBeep(v)
            | Value::TemperatureEmergencyAlarm(v)
            | Value::TemperatureLCriticalAlarm(v)
            | Value::PowerAlarm(v)
            | Value::PowerCapAlarm(v)
            | Value::PowerMaximumAlarm(v)
            | Value::PowerCriticalAlarm(v)
            | Value::PowerMinimumAlarm(v)
            | Value::PowerLCriticalAlarm(v)
            | Value::CurrentAlarm(v)
            | Value::CurrentMinimumAlarm(v)
            | Value::CurrentMaximumAlarm(v)
            | Value::CurrentBeep(v)
            | Value::CurrentLCriticalAlarm(v)
            | Value::CurrentCriticalAlarm(v)
            | Value::IntrusionAlarm(v)
            | Value::IntrusionBeep(v)
            | Value::BeepEnable(v) => Payload::Flag(v),
            Value::TemperatureType(t) => Payload::SensorKind(t),
        }
    }

    /// The binary64 encoding of the raw value of each value: a flag is `1.0`
    /// when raised and `0.0` otherwise.
    pub open spec fn spec_raw_value(self) -> u64 {
        match self.payload() {
            Payload::Measurement(b) => b,
            Payload::Flag(f) => if f { ONE_BITS } else { ZERO_BITS },
            Payload::SensorKind(t) => t.spec_bits(),
        }
    }

    /// How each value is shown.
    pub open spec fn spec_display_form(self) -> DisplayForm {
        if self is Unknown {
            DisplayForm::Placeholder
        } else {
            match self.payload() {
                Payload::Flag(f) => if f {
                    match self.spec_kind().spec_flag_word() {
                        Some(word) => DisplayForm::Word(word),
                        None => DisplayForm::Empty,
                    }
                } else {
                    DisplayForm::Empty
                },
                Payload::Measurement(b) => DisplayForm::Measurement {
                    bits: b,
                    unit: self.spec_kind().spec_unit(),
                },
                Payload::SensorKind(t) => DisplayForm::SensorKind(t),
            }
        }
    }

    /// Return the value of the given kind and raw value, given by its binary64
    /// encoding. It is missing only for a temperature sensor type whose raw
    /// value names none.
    pub fn new(kind: Kind, value_bits: u64) -> (r: Option<Value>)
        ensures
            r == Value::spec_new(kind, value_bits),
            r is Some <==> (kind != Kind::TemperatureType
                || TemperatureSensorKind::of_bits(value_bits) is Some),
    {
        let flag = nonzero(value_bits);
        match kind {
            Kind::VoltageInput => Some(Value::VoltageInput(value_bits)),
            Kind::VoltageMinimum => Some(Value::VoltageMinimum(value_bits)),
            Kind::VoltageMaximum => Some(Value::VoltageMaximum(value_bits)),
            Kind::VoltageLCritical => Some(Value::VoltageLCritical(value_bits)),
            Kind::VoltageCritical => Some(Value::VoltageCritical(value_bits)),
            Kind::VoltageAverage => Some(Value::VoltageAverage(value_bits)),
            Kind::VoltageLowest => Some(Value::VoltageLowest(value_bits)),
            Kind::VoltageHighest => Some(Value::VoltageHighest(value_bits)),
            Kind::VoltageAlarm => Some(Value::VoltageAlarm(flag)),
            Kind::VoltageMinimumAlarm => Some(Value::VoltageMinimumAlarm(flag)),
            Kind::VoltageMaximumAlarm => Some(Value::VoltageMaximumAlarm(flag)),
            Kind::VoltageBeep => Some(Value::VoltageBeep(flag)),
            Kind::VoltageLCriticalAlarm => Some(Value::VoltageLCriticalAlarm(flag)),
            Kind::VoltageCriticalAlarm => Some(Value::VoltageCriticalAlarm(flag)),
            Kind::FanInput => Some(Value::FanInput(value_bits)),
            Kind::FanMinimum => Some(Value::FanMinimum(value_bits)),
            Kind::FanMaximum => Some(Value::FanMaximum(value_bits)),
            Kind::FanAlarm => Some(Value::FanAlarm(flag)),
            Kind::FanFault => Some(Value::FanFault(flag)),
            Kind::FanDivisor => Some(Value::FanDivisor(value_bits)),
            Kind::FanBeep => Some(Value::FanBeep(flag)),
            Kind::FanPulses => Some(Value::FanPulses(value_bits)),
            Kind::FanMinimumAlarm => Some(Value::FanMinimumAlarm(flag)),
            Kind::FanMaximumAlarm => Some(Value::FanMaximumAlarm(flag)),
            Kind::TemperatureInput => Some(Value::TemperatureInput(value_bits)),
            Kind::TemperatureMaximum => Some(Value::TemperatureMaximum(value_bits)),
            Kind::TemperatureMaximumHysteresis => Some(Value::TemperatureMaximumHysteresis(value_bits)),
            Kind::TemperatureMinimum => Some(Value::TemperatureMinimum(value_bits)),
            Kind::TemperatureCritical => Some(Value::TemperatureCritical(value_bits)),
            Kind::TemperatureCriticalHysteresis => Some(Value::TemperatureCriticalHysteresis(value_bits)),
            Kind::TemperatureLCritical => Some(Value::TemperatureLCritical(value_bits)),
            Kind::TemperatureEmergency => Some(Value::TemperatureEmergency(value_bits)),
            Kind::TemperatureEmergencyHysteresis => Some(Value::TemperatureEmergencyHysteresis(value_bits)),
            Kind::TemperatureLowest => Some(Value::TemperatureLowest(value_bits)),
            Kind::TemperatureHighest => Some(Value::TemperatureHighest(value_bits)),
            Kind::TemperatureMinimumHysteresis => Some(Value::TemperatureMinimumHysteresis(value_bits)),
            Kind::TemperatureLCriticalHysteresis => Some(Value::TemperatureLCriticalHysteresis(value_bits)),
            Kind::TemperatureAlarm => Some(Value::TemperatureAlarm(flag)),
            Kind::TemperatureMaximumAlarm => Some(Value::TemperatureMaximumAlarm(flag)),
            Kind::TemperatureMinimumAlarm => Some(Value::TemperatureMinimumAlarm(flag)),
            Kind::TemperatureCriticalAlarm => Some(Value::TemperatureCriticalAlarm(flag)),
            Kind::TemperatureFault => Some(Value::TemperatureFault(flag)),
            Kind::TemperatureType => match TemperatureSensorKind::from_raw(value_bits) {
                Some(t) => Some(Value::TemperatureType(t)),
                None => None,
            },
            Kind::TemperatureOffset => Some(Value::TemperatureOffset(value_bits)),
            Kind::TemperatureBeep => Some(Value::TemperatureBeep(flag)),
            Kind::TemperatureEmergencyAlarm => Some(Value::TemperatureEmergencyAlarm(flag)),
            Kind::TemperatureLCriticalAlarm => Some(Value::TemperatureLCriticalAlarm(flag)),
            Kind::PowerAverage => Some(Value::PowerAverage(value_bits)),
            Kind::PowerAverageHighest => Some(Value::PowerAverageHighest(value_bits)),
            Kind::PowerAverageLowest => Some(Value::PowerAverageLowest(value_bits)),
            Kind::PowerInput => Some(Value::PowerInput(value_bits)),
            Kind::PowerInputHighest => Some(Value::PowerInputHighest(value_bits)),
            Kind::PowerInputLowest => Some(Value::PowerInputLowest(value_bits)),
            Kind::PowerCap => Some(Value::PowerCap(value_bits)),
            Kind::PowerCapHysteresis => Some(Value::PowerCapHysteresis(value_bits)),
            Kind::PowerMaximum => Some(Value::PowerMaximum(value_bits)),
            Kind::PowerCritical => Some(Value::PowerCritical(value_bits)),
            Kind::PowerMinimum => Some(Value::PowerMinimum(value_bits)),
            Kind::PowerLCritical => Some(Value::PowerLCritical(value_bits)),
            Kind::PowerAverageInterval => Some(Value::PowerAverageInterval(value_bits)),
            Kind::PowerAlarm => Some(Value::PowerAlarm(flag)),
            Kind::PowerCapAlarm => Some(Value::PowerCapAlarm(flag)),
            Kind::PowerMaximumAlarm => Some(Value::PowerMaximumAlarm(flag)),
            Kind::PowerCriticalAlarm => Some(Value::PowerCriticalAlarm(flag)),
            Kind::PowerMinimumAlarm => Some(Value::PowerMinimumAlarm(flag)),
            Kind::PowerLCriticalAlarm => Some(Value::PowerLCriticalAlarm(flag)),
            Kind::EnergyInput => Some(Value::EnergyInput(value_bits)),
            Kind::CurrentInput => Some(Value::CurrentInput(value_bits)),
            Kind::CurrentMinimum => Some(Value::CurrentMinimum(value_bits)),
            Kind::CurrentMaximum => Some(Value::CurrentMaximum(value_bits)),
            Kind::CurrentLCritical => Some(Value::CurrentLCritical(value_bits)),
            Kind::CurrentCritical => Some(Value::CurrentCritical(value_bits)),
            Kind::CurrentAverage => Some(Value::CurrentAverage(value_bits)),
            Kind::CurrentLowest => Some(Value::CurrentLowest(value_bits)),
            Kind::CurrentHighest => Some(Value::CurrentHighest(value_bits)),
            Kind::CurrentAlarm => Some(Value::CurrentAlarm(flag)),
            Kind::CurrentMinimumAlarm => Some(Value::CurrentMinimumAlarm(flag)),
            Kind::CurrentMaximumAlarm => Some(Value::CurrentMaximumAlarm(flag)),
            Kind::CurrentBeep => Some(Value::CurrentBeep(flag)),
            Kind::CurrentLCriticalAlarm => Some(Value::CurrentLCriticalAlarm(flag)),
            Kind::CurrentCriticalAlarm => Some(Value::CurrentCriticalAlarm(flag)),
            Kind::HumidityInput => Some(Value::HumidityInput(value_bits)),
            Kind::VoltageID => Some(Value::VoltageID(value_bits)),
            Kind::IntrusionAlarm => Some(Value::IntrusionAlarm(flag)),
            Kind::IntrusionBeep => Some(Value::IntrusionBeep(flag)),
            Kind::BeepEnable => Some(Value::BeepEnable(flag)),
            Kind::Unknown => Some(Value::Unknown { kind, value: value_bits }),
        }
    }

    /// Return the value of the given kind and flag; a raised flag stands for
    /// the raw value `1.0`, a lowered one for `0.0`.
    pub fn new_bool(kind: Kind, value: bool) -> (r: Option<Value>)
        ensures
            r == Value::spec_new(kind, if value { ONE_BITS } else { ZERO_BITS }),
            kind.spec_representation() == Representation::Flag ==> (r matches Some(v) && v.spec_kind()
                == kind && v.payload() == Payload::Flag(value)),
    {
        proof {
            lemma_one_and_zero();
        }
        Value::new(kind, if value { ONE_BITS } else { ZERO_BITS })
    }

    /// Return the value of the given kind and temperature sensor type; there
    /// is one only for [`Kind::TemperatureType`].
    pub fn new_temperature_sensor_kind(kind: Kind, value: TemperatureSensorKind) -> (r: Option<Value>)
        ensures
            kind == Kind::TemperatureType ==> r == Some(Value::TemperatureType(value)),
            kind != Kind::TemperatureType ==> r is None,
    {
        match kind {
            Kind::TemperatureType => Some(Value::TemperatureType(value)),
            _ => None,
        }
    }

    /// Return the value of the given raw kind code and raw value, if the code
    /// names a kind and the value is valid for it.
    pub fn from_raw(kind: u32, value_bits: u64) -> (r: Option<Value>)
        ensures
            r == match Kind::of_code(kind) {
                Some(k) => Value::spec_new(k, value_bits),
                None => None,
            },
    {
        match Kind::from_raw(kind) {
            Some(k) => Value::new(k, value_bits),
            None => None,
        }
    }

    /// Return the kind of this value.
    pub fn kind(&self) -> (r: Kind)
        ensures
            r == self.spec_kind(),
    {
        match *self {
            Value::VoltageInput(_) => Kind::VoltageInput,
            Value::VoltageMinimum(_) => Kind::VoltageMinimum,
            Value::VoltageMaximum(_) => Kind::VoltageMaximum,
            Value::VoltageLCritical(_) => Kind::VoltageLCritical,
            Value::VoltageCritical(_) => Kind::VoltageCritical,
            Value::VoltageAverage(_) => Kind::VoltageAverage,
            Value::VoltageLowest(_) => Kind::VoltageLowest,
            Value::VoltageHighest(_) => Kind::VoltageHighest,
            Value::VoltageAlarm(_) => Kind::VoltageAlarm,
            Value::VoltageMinimumAlarm(_) => Kind::VoltageMinimumAlarm,
            Value::VoltageMaximumAlarm(_) => Kind::VoltageMaximumAlarm,
            Value::VoltageBeep(_) => Kind::VoltageBeep,
            Value::VoltageLCriticalAlarm(_) => Kind::VoltageLCriticalAlarm,
            Value::VoltageCriticalAlarm(_) => Kind::VoltageCriticalAlarm,
            Value::FanInput(_) => Kind::FanInput,
            Value::FanMinimum(_) => Kind::FanMinimum,
            Value::FanMaximum(_) => Kind::FanMaximum,
            Value::FanAlarm(_) => Kind::FanAlarm,
            Value::FanFault(_) => Kind::FanFault,
            Value::FanDivisor(_) => Kind::FanDivisor,
            Value::FanBeep(_) => Kind::FanBeep,
            Value::FanPulses(_) => Kind::FanPulses,
            Value::FanMinimumAlarm(_) => Kind::FanMinimumAlarm,
            Value::FanMaximumAlarm(_) => Kind::FanMaximumAlarm,
            Value::TemperatureInput(_) => Kind::TemperatureInput,
            Value::TemperatureMaximum(_) => Kind::TemperatureMaximum,
            Value::TemperatureMaximumHysteresis(_) => Kind::TemperatureMaximumHysteresis,
            Value::TemperatureMinimum(_) => Kind::TemperatureMinimum,
            Value::TemperatureCritical(_) => Kind::TemperatureCritical,
            Value::TemperatureCriticalHysteresis(_) => Kind::TemperatureCriticalHysteresis,
            Value::TemperatureLCritical(_) => Kind::TemperatureLCritical,
            Value::TemperatureEmergency(_) => Kind::TemperatureEmergency,
            Value::TemperatureEmergencyHysteresis(_) => Kind::TemperatureEmergencyHysteresis,
            Value::TemperatureLowest(_) => Kind::TemperatureLowest,
            Value::TemperatureHighest(_) => Kind::TemperatureHighest,
            Value::TemperatureMinimumHysteresis(_) => Kind::TemperatureMinimumHysteresis,
            Value::TemperatureLCriticalHysteresis(_) => Kind::TemperatureLCriticalHysteresis,
            Value::TemperatureAlarm(_) => Kind::TemperatureAlarm,
            Value::TemperatureMaximumAlarm(_) => Kind::TemperatureMaximumAlarm,
            Value::TemperatureMinimumAlarm(_) => Kind::TemperatureMinimumAlarm,
            Value::TemperatureCriticalAlarm(_) => Kind::TemperatureCriticalAlarm,
            Value::TemperatureFault(_) => Kind::TemperatureFault,
            Value::TemperatureType(_) => Kind::TemperatureType,
            Value::TemperatureOffset(_) => Kind::TemperatureOffset,
            Value::TemperatureBeep(_) => Kind::TemperatureBeep,
            Value::TemperatureEmergencyAlarm(_) => Kind::TemperatureEmergencyAlarm,
            Value::TemperatureLCriticalAlarm(_) => Kind::TemperatureLCriticalAlarm,
            Value::PowerAverage(_) => Kind::PowerAverage,
            Value::PowerAverageHighest(_) => Kind::PowerAverageHighest,
            Value::PowerAverageLowest(_) => Kind::PowerAverageLowest,
            Value::PowerInput(_) => Kind::PowerInput,
            Value::PowerInputHighest(_) => Kind::PowerInputHighest,
            Value::PowerInputLowest(_) => Kind::PowerInputLowest,
            Value::PowerCap(_) => Kind::PowerCap,
            Value::PowerCapHysteresis(_) => Kind::PowerCapHysteresis,
            Value::PowerMaximum(_) => Kind::PowerMaximum,
            Value::PowerCritical(_) => Kind::PowerCritical,
            Value::PowerMinimum(_) => Kind::PowerMinimum,
            Value::PowerLCritical(_) => Kind::PowerLCritical,
            Value::PowerAverageInterval(_) => Kind::PowerAverageInterval,
            Value::PowerAlarm(_) => Kind::PowerAlarm,
            Value::PowerCapAlarm(_) => Kind::PowerCapAlarm,
            Value::PowerMaximumAlarm(_) => Kind::PowerMaximumAlarm,
            Value::PowerCriticalAlarm(_) => Kind::PowerCriticalAlarm,
            Value::PowerMinimumAlarm(_) => Kind::PowerMinimumAlarm,
            Value::PowerLCriticalAlarm(_) => Kind::PowerLCriticalAlarm,
            Value::EnergyInput(_) => Kind::EnergyInput,
            Value::CurrentInput(_) => Kind::CurrentInput,
            Value::CurrentMinimum(_) => Kind::CurrentMinimum,
            Value::CurrentMaximum(_) => Kind::CurrentMaximum,
            Value::CurrentLCritical(_) => Kind::CurrentLCritical,
            Value::CurrentCritical(_) => Kind::CurrentCritical,
            Value::CurrentAverage(_) => Kind::CurrentAverage,
            Value::CurrentLowest(_) => Kind::CurrentLowest,
            Value::CurrentHighest(_) => Kind::CurrentHighest,
            Value::CurrentAlarm(_) => Kind::CurrentAlarm,
            Value::CurrentMinimumAlarm(_) => Kind::CurrentMinimumAlarm,
            Value::CurrentMaximumAlarm(_) => Kind::CurrentMaximumAlarm,
            Value::CurrentBeep(_) => Kind::CurrentBeep,
            Value::CurrentLCriticalAlarm(_) => Kind::CurrentLCriticalAlarm,
            Value::CurrentCriticalAlarm(_) => Kind::CurrentCriticalAlarm,
            Value::HumidityInput(_) => Kind::HumidityInput,
            Value::VoltageID(_) => Kind::VoltageID,
            Value::IntrusionAlarm(_) => Kind::IntrusionAlarm,
            Value::IntrusionBeep(_) => Kind::IntrusionBeep,
            Value::BeepEnable(_) => Kind::BeepEnable,
            Value::Unknown { .. } => Kind::Unknown,
        }
    }

    /// Return the binary64 encoding of the raw value of this value.
    pub fn raw_value(&self) -> (r: u64)
        ensures
            r == self.spec_raw_value(),
    {
        match *self {
            Value::VoltageInput(v)
            | Value::VoltageMinimum(v)
            | Value::VoltageMaximum(v)
            | Value::VoltageLCritical(v)
            | Value::VoltageCritical(v)
            | Value::VoltageAverage(v)
            | Value::VoltageLowest(v)
            | Value::VoltageHighest(v)
            | Value::FanInput(v)
            | Value::FanMinimum(v)
            | Value::FanMaximum(v)
            | Value::FanDivisor(v)
            | Value::FanPulses(v)
            | Value::TemperatureInput(v)
            | Value::TemperatureMaximum(v)
            | Value::TemperatureMaximumHysteresis(v)
            | Value::TemperatureMinimum(v)
            | Value::TemperatureCritical(v)
            | Value::TemperatureCriticalHysteresis(v)
            | Value::TemperatureLCritical(v)
            | Value::TemperatureEmergency(v)
            | Value::TemperatureEmergencyHysteresis(v)
            | Value::TemperatureLowest(v)
            | Value::TemperatureHighest(v)
            | Value::TemperatureMinimumHysteresis(v)
            | Value::TemperatureLCriticalHysteresis(v)
            | Value::TemperatureOffset(v)
            | Value::PowerAverage(v)
            | Value::PowerAverageHighest(v)
            | Value::PowerAverageLowest(v)
            | Value::PowerInput(v)
            | Value::PowerInputHighest(v)
            | Value::PowerInputLowest(v)
            | Value::PowerCap(v)
            | Value::PowerCapHysteresis(v)
            | Value::PowerMaximum(v)
            | Value::PowerCritical(v)
            | Value::PowerMinimum(v)
            | Value::PowerLCritical(v)
            | Value::PowerAverageInterval(v)
            | Value::EnergyInput(v)
            | Value::CurrentInput(v)
            | Value::CurrentMinimum(v)
            | Value::CurrentMaximum(v)
            | Value::CurrentLCritical(v)
            | Value::CurrentCritical(v)
            | Value::CurrentAverage(v)
            | Value::CurrentLowest(v)
            | Value::CurrentHighest(v)
            | Value::HumidityInput(v)
            | Value::VoltageID(v)
            | Value::Unknown { value: v, .. } => v,
            Value::VoltageAlarm(v)
            | Value::VoltageMinimumAlarm(v)
            | Value::VoltageMaximumAlarm(v)
            | Value::VoltageBeep(v)
            | Value::VoltageLCriticalAlarm(v)
            | Value::VoltageCriticalAlarm(v)
            | Value::FanAlarm(v)
            | Value::FanFault(v)
            | Value::FanBeep(v)
            | Value::FanMinimumAlarm(v)
            | Value::FanMaximumAlarm(v)
            | Value::TemperatureAlarm(v)
            | Value::TemperatureMaximumAlarm(v)
            | Value::TemperatureMinimumAlarm(v)
            | Value::TemperatureCriticalAlarm(v)
            | Value::TemperatureFault(v)
            | Value::TemperatureBeep(v)
            | Value::TemperatureEmergencyAlarm(v)
            | Value::TemperatureLCriticalAlarm(v)
            | Value::PowerAlarm(v)
            | Value::PowerCapAlarm(v)
            | Value::PowerMaximumAlarm(v)
            | Value::PowerCriticalAlarm(v)
            | Value::PowerMinimumAlarm(v)
            | Value::PowerLCriticalAlarm(v)
            | Value::CurrentAlarm(v)
            | Value::CurrentMinimumAlarm(v)
            | Value::CurrentMaximumAlarm(v)
            | Value::CurrentBeep(v)
            | Value::CurrentLCriticalAlarm(v)
            | Value::CurrentCriticalAlarm(v)
            | Value::IntrusionAlarm(v)
            | Value::IntrusionBeep(v)
            | Value::BeepEnable(v) => if v { ONE_BITS } else { ZERO_BITS },
            Value::TemperatureType(t) => t.raw_bits(),
        }
    }

    /// Set the raw value of this value, given by its binary64 encoding, and
    /// return the encoding of the previous raw value. The kind is kept. It
    /// fails, leaving the value as it was, for a temperature sensor type
    /// whose new raw value names none.
    pub fn set_raw_value(&mut self, new_value: u64) -> (r: Result<u64, Error>)
        ensures
            match *old(self) {
                Value::Unknown { kind, .. } => r == Ok::<u64, Error>(old(self).spec_raw_value())
                    && *final(self) == (Value::Unknown { kind, value: new_value }),
                _ => match Value::spec_new(old(self).spec_kind(), new_value) {
                    Some(v) => r == Ok::<u64, Error>(old(self).spec_raw_value()) && *final(self) == v,
                    None => r == Err::<u64, Error>(
                        Error::IO {
                            operation: "TemperatureSensorKind::new",
                            kind: IoErrorKind::InvalidData,
                        },
                    ) && *final(self) == *old(self),
                },
            },
    {
        let previous = self.raw_value();
        if let Value::Unknown { kind, .. } = *self {
            *self = Value::Unknown { kind, value: new_value };
            return Ok(previous);
        }
        match Value::new(self.kind(), new_value) {
            Some(v) => {
                *self = v;
                Ok(previous)
            },
            None => Err(Error::from_io("TemperatureSensorKind::new", IoErrorKind::InvalidData)),
        }
    }

    /// Return the measurement unit of this value.
    pub fn unit(&self) -> (r: Unit)
        ensures
            r == self.spec_kind().spec_unit(),
    {
        self.kind().unit()
    }

    /// Return how this value is shown to a person.
    pub fn display_form(&self) -> (r: DisplayForm)
        ensures
            r == self.spec_display_form(),
    {
        let kind = self.kind();
        match *self {
            Value::VoltageInput(v)
            | Value::VoltageMinimum(v)
            | Value::VoltageMaximum(v)
            | Value::VoltageLCritical(v)
            | Value::VoltageCritical(v)
            | Value::VoltageAverage(v)
            | Value::VoltageLowest(v)
            | Value::VoltageHighest(v)
            | Value::FanInput(v)
            | Value::FanMinimum(v)
            | Value::FanMaximum(v)
            | Value::FanDivisor(v)
            | Value::FanPulses(v)
            | Value::TemperatureInput(v)
            | Value::TemperatureMaximum(v)
            | Value::TemperatureMaximumHysteresis(v)
            | Value::TemperatureMinimum(v)
            | Value::TemperatureCritical(v)
            | Value::TemperatureCriticalHysteresis(v)
            | Value::TemperatureLCritical(v)
            | Value::TemperatureEmergency(v)
            | Value::TemperatureEmergencyHysteresis(v)
            | Value::TemperatureLowest(v)
            | Value::TemperatureHighest(v)
            | Value::TemperatureMinimumHysteresis(v)
            | Value::TemperatureLCriticalHysteresis(v)
            | Value::TemperatureOffset(v)
            | Value::PowerAverage(v)
            | Value::PowerAverageHighest(v)
            | Value::PowerAverageLowest(v)
            | Value::PowerInput(v)
            | Value::PowerInputHighest(v)
            | Value::PowerInputLowest(v)
            | Value::PowerCap(v)
            | Value::PowerCapHysteresis(v)
            | Value::PowerMaximum(v)
            | Value::PowerCritical(v)
            | Value::PowerMinimum(v)
            | Value::PowerLCritical(v)
            | Value::PowerAverageInterval(v)
            | Value::EnergyInput(v)
            | Value::CurrentInput(v)
            | Value::CurrentMinimum(v)
            | Value::CurrentMaximum(v)
            | Value::CurrentLCritical(v)
            | Value::CurrentCritical(v)
            | Value::CurrentAverage(v)
            | Value::CurrentLowest(v)
            | Value::CurrentHighest(v)
            | Value::HumidityInput(v)
            | Value::VoltageID(v) => DisplayForm::Measurement { bits: v, unit: kind.unit() },
            Value::VoltageAlarm(v)
            | Value::VoltageMinimumAlarm(v)
            | Value::VoltageMaximumAlarm(v)
            | Value::VoltageBeep(v)
            | Value::VoltageLCriticalAlarm(v)
            | Value::VoltageCriticalAlarm(v)
            | Value::FanAlarm(v)
            | Value::FanFault(v)
            | Value::FanBeep(v)
            | Value::FanMinimumAlarm(v)
            | Value::FanMaximumAlarm(v)
            | Value::TemperatureAlarm(v)
            | Value::TemperatureMaximumAlarm(v)
            | Value::TemperatureMinimumAlarm(v)
            | Value::TemperatureCriticalAlarm(v)
            | Value::TemperatureFault(v)
            | Value::TemperatureBeep(v)
            | Value::TemperatureEmergencyAlarm(v)
            | Value::TemperatureLCriticalAlarm(v)
            | Value::PowerAlarm(v)
            | Value::PowerCapAlarm(v)
            | Value::PowerMaximumAlarm(v)
            | Value::PowerCriticalAlarm(v)
            | Value::PowerMinimumAlarm(v)
            | Value::PowerLCriticalAlarm(v)
            | Value::CurrentAlarm(v)
            | Value::CurrentMinimumAlarm(v)
            | Value::CurrentMaximumAlarm(v)
            | Value::CurrentBeep(v)
            | Value::CurrentLCriticalAlarm(v)
            | Value::CurrentCriticalAlarm(v)
            | Value::IntrusionAlarm(v)
            | Value::IntrusionBeep(v)
            | Value::BeepEnable(v) => Value::flag_form(v, kind.flag_word()),
            Value::TemperatureType(t) => DisplayForm::SensorKind(t),
            Value::Unknown { .. } => DisplayForm::Placeholder,
        }
    }

    fn flag_form(raised: bool, word: Option<FlagWord>) -> (r: DisplayForm)
        ensures
            r == if raised {
                match word {
                    Some(w) => DisplayForm::Word(w),
                    None => DisplayForm::Empty,
                }
            } else {
                DisplayForm::Empty
            },
    {
        if raised {
            match word {
                Some(w) => DisplayForm::Word(w),
                None => DisplayForm::Empty,
            }
        } else {
            DisplayForm::Empty
        }
    }
}

/// For every kind and raw value, the value built from them has that kind.
/// It exists for every kind but a temperature sensor type. Its raw value is
/// the raw value given for measurement and unrecognized kinds, and `1.0` or
/// `0.0` for flag kinds, by whether the given raw value is unequal to zero.
pub proof fn lemma_new_kind_and_raw_value(kind: Kind, bits: u64)
    ensures
        Value::spec_new(kind, bits) matches Some(v) ==> v.spec_kind() == kind,
        kind.spec_representation() != Representation::SensorKind ==> Value::spec_new(kind, bits) is Some,
        kind.spec_representation() == Representation::Measurement
            ==> Value::spec_new(kind, bits).unwrap().spec_raw_value() == bits,
        kind.spec_representation() == Representation::Opaque
            ==> Value::spec_new(kind, bits).unwrap().spec_raw_value() == bits,
        kind.spec_representation() == Representation::Flag
            ==> Value::spec_new(kind, bits).unwrap().spec_raw_value() == if is_nonzero(bits) {
                ONE_BITS
            } else {
                ZERO_BITS
            },
        kind.spec_representation() == Representation::SensorKind ==> (Value::spec_new(kind, bits) matches Some(
            v,
        ) ==> v.spec_raw_value() == TemperatureSensorKind::of_bits(bits).unwrap().spec_bits()),
{
}

/// The raw value of every temperature sensor type decodes to that type, so
/// a temperature sensor type survives the raw form.
pub proof fn lemma_sensor_kind_round_trip(t: TemperatureSensorKind)
    ensures
        TemperatureSensorKind::of_bits(t.spec_bits()) == Some(t),
        Value::spec_new(Kind::TemperatureType, t.spec_bits()) == Some(Value::TemperatureType(t)),
{
    lemma2_to64();
    lemma2_to64_rest();
    match t {
        TemperatureSensorKind::Disabled => {
            assert((0x0000000000000000u64 >> 63u64) == 0u64) by (bit_vector);
            assert(((0x0000000000000000u64 >> 52u64) & 0x7FFu64) == 0u64) by (bit_vector);
            assert((0x0000000000000000u64 & 0x000F_FFFF_FFFF_FFFFu64) == 0u64) by (bit_vector);
            lemma_pow2_pos(1074);
            vstd::arithmetic::div_mod::lemma_basic_div(pow2(1074) as int, 2 * pow2(1074) as int);
            assert(significand(0) == 0);
            assert(rounded_magnitude(0) == (2 * 0 + pow2(1074)) / (2 * pow2(1074)));
            assert(rounded_magnitude(0) == 0);
        },
        TemperatureSensorKind::CPUDiode => {
            assert((0x3FF0000000000000u64 >> 63u64) == 0u64) by (bit_vector);
            assert(((0x3FF0000000000000u64 >> 52u64) & 0x7FFu64) == 1023u64) by (bit_vector);
            assert((0x3FF0000000000000u64 & 0x000F_FFFF_FFFF_FFFFu64) == 0u64) by (bit_vector);
            assert(significand(0x3FF0000000000000u64) == 4503599627370496);
            assert(pow2(52) == 4503599627370496);
            assert(rounded_magnitude(0x3FF0000000000000u64) == (9007199254740992nat + 4503599627370496nat) / 9007199254740992nat);
            assert((9007199254740992nat + 4503599627370496nat) / 9007199254740992nat == 1) by (nonlinear_arith);
        },
        TemperatureSensorKind::Transistor => {
            assert((0x4000000000000000u64 >> 63u64) == 0u64) by (bit_vector);
            assert(((0x4000000000000000u64 >> 52u64) & 0x7FFu64) == 1024u64) by (bit_vector);
            assert((0x4000000000000000u64 & 0x000F_FFFF_FFFF_FFFFu64) == 0u64) by (bit_vector);
            assert(significand(0x4000000000000000u64) == 4503599627370496);
            assert(pow2(51) == 2251799813685248);
            assert(rounded_magnitude(0x4000000000000000u64) == (9007199254740992nat + 2251799813685248nat) / 4503599627370496nat);
            assert((9007199254740992nat + 2251799813685248nat) / 4503599627370496nat == 2) by (nonlinear_arith);
        },
        TemperatureSensorKind::ThermalDiode => {
            assert((0x4008000000000000u64 >> 63u64) == 0u64) by (bit_vector);
            assert(((0x4008000000000000u64 >> 52u64) & 0x7FFu64) == 1024u64) by (bit_vector);
            assert((0x4008000000000000u64 & 0x000F_FFFF_FFFF_FFFFu64) == 2251799813685248u64) by (bit_vector);
            assert(significand(0x4008000000000000u64) == 6755399441055744);
            assert(pow2(51) == 2251799813685248);
            assert(rounded_magnitude(0x4008000000000000u64) == (13510798882111488nat + 2251799813685248nat) / 4503599627370496nat);
            assert((13510798882111488nat + 2251799813685248nat) / 4503599627370496nat == 3) by (nonlinear_arith);
        },
        TemperatureSensorKind::Thermistor => {
            assert((0x4010000000000000u64 >> 63u64) == 0u64) by (bit_vector);
            assert(((0x4010000000000000u64 >> 52u64) & 0x7FFu64) == 1025u64) by (bit_vector);
            assert((0x4010000000000000u64 & 0x000F_FFFF_FFFF_FFFFu64) == 0u64) by (bit_vector);
            assert(significand(0x4010000000000000u64) == 4503599627370496);
            assert(pow2(50) == 1125899906842624);
            assert(rounded_magnitude(0x4010000000000000u64) == (9007199254740992nat + 1125899906842624nat) / 2251799813685248nat);
            assert((9007199254740992nat + 1125899906842624nat) / 2251799813685248nat == 4) by (nonlinear_arith);
        },
        TemperatureSensorKind::AMDAMDSI => {
            assert((0x4014000000000000u64 >> 63u64) == 0u64) by (bit_vector);
            assert(((0x4014000000000000u64 >> 52u64) & 0x7FFu64) == 1025u64) by (bit_vector);
            assert((0x4014000000000000u64 & 0x000F_FFFF_FFFF_FFFFu64) == 1125899906842624u64) by (bit_vector);
            assert(significand(0x4014000000000000u64) == 5629499534213120);
            assert(pow2(50) == 1125899906842624);
            assert(rounded_magnitude(0x4014000000000000u64) == (11258999068426240nat + 1125899906842624nat) / 2251799813685248nat);
            assert((11258999068426240nat + 1125899906842624nat) / 2251799813685248nat == 5) by (nonlinear_arith);
        },
        TemperatureSensorKind::IntelPECI => {
            assert((0x4018000000000000u64 >> 63u64) == 0u64) by (bit_vector);
            assert(((0x4018000000000000u64 >> 52u64) & 0x7FFu64) == 1025u64) by (bit_vector);
            assert((0x4018000000000000u64 & 0x000F_FFFF_FFFF_FFFFu64) == 2251799813685248u64) by (bit_vector);
            assert(significand(0x4018000000000000u64) == 6755399441055744);
            assert(pow2(50) == 1125899906842624);
            assert(rounded_magnitude(0x4018000000000000u64) == (13510798882111488nat + 1125899906842624nat) / 2251799813685248nat);
            assert((13510798882111488nat + 1125899906842624nat) / 2251799813685248nat == 6) by (nonlinear_arith);
        },
    }
}

} // verus!
