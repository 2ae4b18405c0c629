//! Units for event counts, and the power-of-1000 ladder used for decimal byte
//! throughputs.
use vstd::prelude::*;

verus! {

/// How a benchmark's work per iteration is measured, so that an event count
/// can be shown per unit of work.
#[derive(Clone, Copy, Debug, PartialEq, Eq, Structural)]
pub enum Throughput {
    /// Bytes processed per iteration, shown per byte.
    Bytes(u64),
    /// Bytes processed per iteration, shown per byte, kilobyte, megabyte or
    /// gigabyte (powers of 1000).
    BytesDecimal(u64),
    /// Elements processed per iteration, shown per element.
    Elements(u64),
}

/// The label written after a displayed number.
#[derive(Clone, Copy, Debug, PartialEq, Eq, Structural)]
pub enum UnitLabel {
    /// A raw count as shown by single-value formatting.
    Cycles,
    /// A raw count, unscaled.
    Events,
    PerByte,
    PerKilobyte,
    PerMegabyte,
    PerGigabyte,
    PerElement,
}

pub open spec fn label_text(u: UnitLabel) -> Seq<char> {
    match u {
        UnitLabel::Cycles => "cycles"@,
        UnitLabel::Events => "events"@,
        UnitLabel::PerByte => "events/byte"@,
        UnitLabel::PerKilobyte => "events/kilobyte"@,
        UnitLabel::PerMegabyte => "events/megabyte"@,
        UnitLabel::PerGigabyte => "events/gigabyte"@,
        UnitLabel::PerElement => "events/element"@,
    }
}

impl UnitLabel {
    /// The label as text.
    pub fn as_str(&self) -> (r: &'static str)
        ensures
            r@ == label_text(*self),
    {
        match self {
            UnitLabel::Cycles => "cycles",
            UnitLabel::Events => "events",
            UnitLabel::PerByte => "events/byte",
            UnitLabel::PerKilobyte => "events/kilobyte",
            UnitLabel::PerMegabyte => "events/megabyte",
            UnitLabel::PerGigabyte => "events/gigabyte",
            UnitLabel::PerElement => "events/element",
        }
    }
}

pub const KILO: u64 = 1000;

pub const MEGA: u64 = 1_000_000;

pub const GIGA: u64 = 1_000_000_000;

/// The denominator that the decimal ladder picks for a magnitude of `n` bytes:
/// the largest of 1, 10^3, 10^6, 10^9 that does not exceed `n`.
pub open spec fn decimal_denominator(n: int) -> int {
    if n < 1000 {
        1
    } else if n < 1_000_000 {
        1000
    } else if n < 1_000_000_000 {
        1_000_000
    } else {
        1_000_000_000
    }
}

/// The unit that goes with `decimal_denominator(n)`.
pub open spec fn decimal_unit(n: int) -> UnitLabel {
    if n < 1000 {
        UnitLabel::PerByte
    } else if n < 1_000_000 {
        UnitLabel::PerKilobyte
    } else if n < 1_000_000_000 {
        UnitLabel::PerMegabyte
    } else {
        UnitLabel::PerGigabyte
    }
}

/// How to turn an event count into a displayed rate: divide it by `divisor`,
/// then by `denominator`, and write `unit` after it.
#[derive(Clone, Copy, Debug, PartialEq, Eq, Structural)]
pub struct Scale {
    pub divisor: u64,
    pub denominator: u64,
    pub unit: UnitLabel,
}

/// The scale that a throughput calls for.
pub open spec fn scale_of(t: Throughput) -> Scale {
    match t {
        Throughput::Bytes(n) => Scale { divisor: n, denominator: 1, unit: UnitLabel::PerByte },
        Throughput::BytesDecimal(n) => Scale {
            divisor: n,
            denominator: decimal_denominator(n as int) as u64,
            unit: decimal_unit(n as int),
        },
        Throughput::Elements(n) => Scale { divisor: n, denominator: 1, unit: UnitLabel::PerElement },
    }
}

/// Picks the denominator and unit for a decimal byte magnitude. A magnitude
/// exactly on a power of 1000 takes the larger unit.
pub fn decimal_ladder(bytes: u64) -> (r: (u64, UnitLabel))
    ensures
        r.0 == decimal_denominator(bytes as int),
        r.1 == decimal_unit(bytes as int),
{
    if bytes < KILO {
        (1, UnitLabel::PerByte)
    } else if bytes < MEGA {
        (KILO, UnitLabel::PerKilobyte)
    } else if bytes < GIGA {
        (MEGA, UnitLabel::PerMegabyte)
    } else {
        (GIGA, UnitLabel::PerGigabyte)
    }
}

/// The denominator of the decimal ladder is the largest power of 1000, up to
/// 10^9, that does not exceed the magnitude (1 below 1000), and its unit is
/// the one named for that power.
pub proof fn lemma_decimal_ladder_bounds(n: u64)
    ensures
        decimal_denominator(n as int) == 1 || decimal_denominator(n as int) <= n,
        n < 1000 ==> decimal_denominator(n as int) == 1,
        n < 1_000_000_000 ==> n < decimal_denominator(n as int) * 1000,
        decimal_denominator(n as int) == 1 ==> decimal_unit(n as int) == UnitLabel::PerByte,
        decimal_denominator(n as int) == 1000 ==> decimal_unit(n as int) == UnitLabel::PerKilobyte,
        decimal_denominator(n as int) == 1_000_000 ==> decimal_unit(n as int) == UnitLabel::PerMegabyte,
        decimal_denominator(n as int) == 1_000_000_000 ==> decimal_unit(n as int) == UnitLabel::PerGigabyte,
{
}

/// Formats counts and throughputs of hardware events. It holds no state.
#[derive(Clone, Copy, Debug)]
pub struct PerfFormatter;

impl PerfFormatter {
    /// The unit written after a single raw count.
    pub fn value_unit(&self) -> (r: UnitLabel)
        ensures
            r == UnitLabel::Cycles,
    {
        UnitLabel::Cycles
    }

    /// The unit of counts that are left unscaled, for display or for machines.
    pub fn unscaled_unit(&self) -> (r: UnitLabel)
        ensures
            r == UnitLabel::Events,
    {
        UnitLabel::Events
    }

    /// The scale for counts normalized by a throughput: by bytes, by the
    /// decimal ladder, or by elements.
    pub fn throughput_scale(&self, throughput: &Throughput) -> (r: Scale)
        ensures
            r == scale_of(*throughput),
    {
        match throughput {
            Throughput::Bytes(n) => Scale { divisor: *n, denominator: 1, unit: UnitLabel::PerByte },
            Throughput::BytesDecimal(n) => {
                let (denominator, unit) = decimal_ladder(*n);
                Scale { divisor: *n, denominator, unit }
            },
            Throughput::Elements(n) => Scale {
                divisor: *n,
                denominator: 1,
                unit: UnitLabel::PerElement,
            },
        }
    }
}

} // verus!
