//! Fixed-point price representation and feed status.

use vstd::prelude::*;

verus! {

/// Whether a feed is currently usable.
#[derive(Debug, Clone, Copy, PartialEq, Eq)]
pub enum PriceStatus {
    /// No reliable price is available.
    Unknown,
    /// The feed is live and tradeable.
    Trading,
    /// The market is halted; the last price may be stale.
    Halted,
}

/// The stable code of each status.
pub open spec fn status_code(s: PriceStatus) -> Seq<char> {
    match s {
        PriceStatus::Unknown => "unknown"@,
        PriceStatus::Trading => "trading"@,
        PriceStatus::Halted => "halted"@,
    }
}

/// The code literal of each status.
pub open spec fn status_code_str(s: PriceStatus) -> &'static str {
    match s {
        PriceStatus::Unknown => "unknown",
        PriceStatus::Trading => "trading",
        PriceStatus::Halted => "halted",
    }
}

impl PriceStatus {
    /// A stable, machine-readable code (shared across language bindings).
    pub fn code(self) -> (code: &'static str)
        ensures
            code == status_code_str(self),
            code@ == status_code(self),
    {
        match self {
            PriceStatus::Unknown => "unknown",
            PriceStatus::Trading => "trading",
            PriceStatus::Halted => "halted",
        }
    }

    /// Whether reads should be allowed in this status.
    pub fn is_tradeable(self) -> (ok: bool)
        ensures
            ok == (self == PriceStatus::Trading),
    {
        match self {
            PriceStatus::Trading => true,
            _ => false,
        }
    }
}

impl Default for PriceStatus {
    fn default() -> (s: Self)
        ensures
            s == PriceStatus::Unknown,
    {
        PriceStatus::Unknown
    }
}

/// A fixed-point price with an explicit confidence interval.
///
/// The real value is `mantissa × 10^expo`; the confidence half-width is
/// `conf × 10^expo`.
#[derive(Debug, Clone, Copy, PartialEq, Eq)]
pub struct Price {
    /// The price mantissa (signed).
    pub mantissa: i64,
    /// The confidence half-width, in the same `expo` units (unsigned).
    pub conf: u64,
    /// The power-of-ten exponent applied to `mantissa` and `conf`.
    pub expo: i32,
}

impl Price {
    /// Creates a price from its raw parts.
    pub fn new(mantissa: i64, conf: u64, expo: i32) -> (p: Self)
        ensures
            p == (Price { mantissa, conf, expo }),
    {
        Price { mantissa, conf, expo }
    }
}

} // verus!
