//! Typed values that cross every interface of a node: sensor measurements,
//! actuator payloads and actuation outcomes.
//!
//! Doubles are carried as their IEEE-754 binary64 bit pattern (`f64::to_bits`),
//! and every comparison on them follows IEEE-754 ordering: both zeros are
//! equal and any comparison that involves a NaN is false.
use vstd::prelude::*;

verus! {

/// The sign bit of a binary64 bit pattern.
pub const SIGN_BIT: u64 = 0x8000_0000_0000_0000;

/// The bit pattern of positive infinity; larger magnitudes are NaNs.
pub const INFINITY_BITS: u64 = 0x7FF0_0000_0000_0000;

/// The magnitude part of a binary64 bit pattern (everything but the sign).
pub open spec fn magnitude(bits: u64) -> int {
    if bits >= SIGN_BIT {
        bits - SIGN_BIT
    } else {
        bits as int
    }
}

pub open spec fn is_nan(bits: u64) -> bool {
    magnitude(bits) > INFINITY_BITS
}

/// An integer that orders non-NaN doubles exactly as their values do:
/// positive bit patterns grow with the value, negative ones shrink with it,
/// and both zeros land on 0.
pub open spec fn double_rank(bits: u64) -> int {
    if bits >= SIGN_BIT {
        -magnitude(bits)
    } else {
        magnitude(bits)
    }
}

pub open spec fn double_lt(a: u64, b: u64) -> bool {
    !is_nan(a) && !is_nan(b) && double_rank(a) < double_rank(b)
}

pub open spec fn double_le(a: u64, b: u64) -> bool {
    !is_nan(a) && !is_nan(b) && double_rank(a) <= double_rank(b)
}

pub open spec fn double_eq(a: u64, b: u64) -> bool {
    !is_nan(a) && !is_nan(b) && double_rank(a) == double_rank(b)
}

/// Whether the double with this bit pattern is a NaN.
pub fn double_is_nan(bits: u64) -> (r: bool)
    ensures
        r == is_nan(bits),
{
    let mag: u64 = if bits >= SIGN_BIT { bits - SIGN_BIT } else { bits };
    mag > INFINITY_BITS
}

/// The order-preserving rank of a double's bit pattern.
pub fn double_rank_of(bits: u64) -> (r: i128)
    ensures
        r == double_rank(bits),
{
    if bits >= SIGN_BIT {
        -((bits - SIGN_BIT) as i128)
    } else {
        bits as i128
    }
}

/// IEEE-754 `a < b` on two bit patterns.
pub fn double_less(a: u64, b: u64) -> (r: bool)
    ensures
        r == double_lt(a, b),
{
    !double_is_nan(a) && !double_is_nan(b) && double_rank_of(a) < double_rank_of(b)
}

/// IEEE-754 `a <= b` on two bit patterns.
pub fn double_less_eq(a: u64, b: u64) -> (r: bool)
    ensures
        r == double_le(a, b),
{
    !double_is_nan(a) && !double_is_nan(b) && double_rank_of(a) <= double_rank_of(b)
}

/// IEEE-754 `a == b` on two bit patterns.
pub fn double_equal(a: u64, b: u64) -> (r: bool)
    ensures
        r == double_eq(a, b),
{
    !double_is_nan(a) && !double_is_nan(b) && double_rank_of(a) == double_rank_of(b)
}

/// The variant of a [`Measurement`], without its payload.
#[derive(Clone, Copy, Debug, PartialEq, Eq, Structural)]
pub enum MeasurementKind {
    Signal,
    Integer,
    Double,
    String,
}

/// A value reported by one sensor channel.
#[derive(Debug)]
pub enum Measurement {
    /// An event with no payload.
    Signal,
    Integer(i64),
    /// A double, as its IEEE-754 bit pattern.
    Double(u64),
    String(String),
}

impl Clone for Measurement {
    fn clone(&self) -> (r: Self)
        ensures
            r == *self,
    {
        match self {
            Measurement::Signal => Measurement::Signal,
            Measurement::Integer(v) => Measurement::Integer(*v),
            Measurement::Double(v) => Measurement::Double(*v),
            Measurement::String(s) => Measurement::String(s.clone()),
        }
    }
}

pub open spec fn kind_of(m: Measurement) -> MeasurementKind {
    match m {
        Measurement::Signal => MeasurementKind::Signal,
        Measurement::Integer(_) => MeasurementKind::Integer,
        Measurement::Double(_) => MeasurementKind::Double,
        Measurement::String(_) => MeasurementKind::String,
    }
}

/// Structural equality, with doubles compared as IEEE-754 values.
pub open spec fn measurement_eq(a: Measurement, b: Measurement) -> bool {
    match (a, b) {
        (Measurement::Signal, Measurement::Signal) => true,
        (Measurement::Integer(x), Measurement::Integer(y)) => x == y,
        (Measurement::Double(x), Measurement::Double(y)) => double_eq(x, y),
        (Measurement::String(x), Measurement::String(y)) => x@ == y@,
        _ => false,
    }
}

/// `a < b`, defined only for two integers or two doubles.
pub open spec fn measurement_lt(a: Measurement, b: Measurement) -> Option<bool> {
    match (a, b) {
        (Measurement::Integer(x), Measurement::Integer(y)) => Some(x < y),
        (Measurement::Double(x), Measurement::Double(y)) => Some(double_lt(x, y)),
        _ => None,
    }
}

/// `a <= b`, defined only for two integers or two doubles.
pub open spec fn measurement_le(a: Measurement, b: Measurement) -> Option<bool> {
    match (a, b) {
        (Measurement::Integer(x), Measurement::Integer(y)) => Some(x <= y),
        (Measurement::Double(x), Measurement::Double(y)) => Some(double_le(x, y)),
        _ => None,
    }
}

impl Measurement {
    pub fn kind(&self) -> (r: MeasurementKind)
        ensures
            r == kind_of(*self),
    {
        match self {
            Measurement::Signal => MeasurementKind::Signal,
            Measurement::Integer(_) => MeasurementKind::Integer,
            Measurement::Double(_) => MeasurementKind::Double,
            Measurement::String(_) => MeasurementKind::String,
        }
    }

    /// Structural equality; doubles compare as IEEE-754 values.
    pub fn equals(&self, other: &Self) -> (r: bool)
        ensures
            r == measurement_eq(*self, *other),
    {
        match (self, other) {
            (Measurement::Signal, Measurement::Signal) => true,
            (Measurement::Integer(x), Measurement::Integer(y)) => *x == *y,
            (Measurement::Double(x), Measurement::Double(y)) => double_equal(*x, *y),
            (Measurement::String(x), Measurement::String(y)) => *x == *y,
            _ => false,
        }
    }

    /// `self > other`; `None` when the two are not both integers or both doubles.
    pub fn gt(&self, other: &Self) -> (r: Option<bool>)
        ensures
            r == measurement_lt(*other, *self),
    {
        match (self, other) {
            (Measurement::Integer(a), Measurement::Integer(b)) => Some(*a > *b),
            (Measurement::Double(a), Measurement::Double(b)) => Some(double_less(*b, *a)),
            _ => None,
        }
    }

    /// `self < other`; `None` when the two are not both integers or both doubles.
    pub fn lt(&self, other: &Self) -> (r: Option<bool>)
        ensures
            r == measurement_lt(*self, *other),
    {
        match (self, other) {
            (Measurement::Integer(a), Measurement::Integer(b)) => Some(*a < *b),
            (Measurement::Double(a), Measurement::Double(b)) => Some(double_less(*a, *b)),
            _ => None,
        }
    }

    /// `self >= other`; `None` when the two are not both integers or both doubles.
    pub fn geq(&self, other: &Self) -> (r: Option<bool>)
        ensures
            r == measurement_le(*other, *self),
    {
        match (self, other) {
            (Measurement::Integer(a), Measurement::Integer(b)) => Some(*a >= *b),
            (Measurement::Double(a), Measurement::Double(b)) => Some(double_less_eq(*b, *a)),
            _ => None,
        }
    }

    /// `self <= other`; `None` when the two are not both integers or both doubles.
    pub fn leq(&self, other: &Self) -> (r: Option<bool>)
        ensures
            r == measurement_le(*self, *other),
    {
        match (self, other) {
            (Measurement::Integer(a), Measurement::Integer(b)) => Some(*a <= *b),
            (Measurement::Double(a), Measurement::Double(b)) => Some(double_less_eq(*a, *b)),
            _ => None,
        }
    }
}

} // verus!
