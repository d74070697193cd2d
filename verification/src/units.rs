//! Numeric constants, by their bits, and the unit conversions built on them.
use crate::expr::{lit, Expr};
use crate::number::Real;
use crate::signalk::{opt_view, Value, ValueView};
use vstd::prelude::*;

verus! {

/// 0.
pub const ZERO: u64 = 0x0000_0000_0000_0000;

/// 1.
pub const ONE: u64 = 0x3FF0_0000_0000_0000;

/// 2.
pub const TWO: u64 = 0x4000_0000_0000_0000;

/// Metres per second in a knot: 0.514444.
pub const KNOTS_TO_MS: u64 = 0x3FE0_7653_4373_F317;

/// Radians in a degree: pi / 180.
pub const DEG_TO_RAD: u64 = 0x3F91_DF46_A252_9D39;

/// Kelvin at 0 degrees Celsius: 273.15.
pub const KELVIN_OFFSET: u64 = 0x4071_1266_6666_6666;

/// Pascal in a bar: 100000.
pub const BAR_TO_PA: u64 = 0x40F8_6A00_0000_0000;

/// Metres in a nautical mile: 1852.
pub const NM_TO_M: u64 = 0x409C_F000_0000_0000;

/// Metres in a foot: 0.3048.
pub const FEET_TO_M: u64 = 0x3FD3_81D7_DBF4_87FD;

/// Metres in a fathom: 1.8288.
pub const FATHOMS_TO_M: u64 = 0x3FFD_42C3_C9EE_CBFB;

/// 100, to turn a percentage into a ratio.
pub const HUNDRED: u64 = 0x4059_0000_0000_0000;

/// 60, to turn minutes into seconds.
pub const SIXTY: u64 = 0x404E_0000_0000_0000;

/// Kilometres per hour in a metre per second: 3.6.
pub const KMH_PER_MS: u64 = 0x400C_CCCC_CCCC_CCCD;

/// Metres per second in a mile per hour: 0.44704.
pub const MPH_TO_MS: u64 = 0x3FDC_9C4D_A900_3EEA;

/// Knots in a metre per second: 1.943844.
pub const MPS_TO_KNOTS: u64 = 0x3FFF_19FC_2A88_69C6;

/// Feet in a metre: 3.28084.
pub const FEET_PER_METER: u64 = 0x400A_3F29_0ABB_44E5;

/// Fathoms in a metre: 0.546807.
pub const FATHOMS_PER_METER: u64 = 0x3FE1_7F71_64C7_29F6;

/// Half a turn.
pub const PI: u64 = 0x4009_21FB_5444_2D18;

/// A full turn.
pub const TAU: u64 = 0x4019_21FB_5444_2D18;

/// A single precision reading.
#[verifier::allow_in_spec]
pub fn single(reading: Option<u32>) -> (r: Option<Expr>)
    returns
        (match reading {
            Some(bits) => Some(Expr::Single(bits)),
            None => None,
        }),
{
    match reading {
        Some(bits) => Some(Expr::Single(bits)),
        None => None,
    }
}

/// A double precision reading.
#[verifier::allow_in_spec]
pub fn double(reading: Option<Real>) -> (r: Option<Expr>)
    returns
        (match reading {
            Some(x) => Some(Expr::Lit(x)),
            None => None,
        }),
{
    match reading {
        Some(x) => Some(Expr::Lit(x)),
        None => None,
    }
}

/// A reading, multiplied by a constant.
#[verifier::allow_in_spec]
pub fn scaled(reading: Option<Expr>, constant: u64) -> (r: Option<Expr>)
    returns
        (match reading {
            Some(e) => Some(e.times(lit(constant))),
            None => None,
        }),
{
    match reading {
        Some(e) => Some(e.times(lit(constant))),
        None => None,
    }
}

/// A reading, with a constant added.
#[verifier::allow_in_spec]
pub fn shifted(reading: Option<Expr>, constant: u64) -> (r: Option<Expr>)
    returns
        (match reading {
            Some(e) => Some(e.plus(lit(constant))),
            None => None,
        }),
{
    match reading {
        Some(e) => Some(e.plus(lit(constant))),
        None => None,
    }
}

/// A reading, divided by a constant.
#[verifier::allow_in_spec]
pub fn divided(reading: Option<Expr>, constant: u64) -> (r: Option<Expr>)
    returns
        (match reading {
            Some(e) => Some(e.over(lit(constant))),
            None => None,
        }),
{
    match reading {
        Some(e) => Some(e.over(lit(constant))),
        None => None,
    }
}

/// The first reading, or the second where the first is missing.
#[verifier::allow_in_spec]
pub fn first_of(first: Option<Expr>, second: Option<Expr>) -> (r: Option<Expr>)
    returns
        (match first {
            Some(e) => Some(e),
            None => second,
        }),
{
    match first {
        Some(e) => Some(e),
        None => second,
    }
}

/// The view of a number that may be missing.
pub open spec fn number_view(reading: Option<Expr>) -> Option<ValueView> {
    match reading {
        Some(e) => Some(ValueView::Number(e)),
        None => None,
    }
}

/// A reading as a value.
pub fn number(reading: Option<Expr>) -> (r: Option<Value>)
    ensures
        opt_view(r) == number_view(reading),
{
    match reading {
        Some(e) => Some(Value::Number(e)),
        None => None,
    }
}

} // verus!
