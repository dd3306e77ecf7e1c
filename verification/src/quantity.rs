use vstd::prelude::*;

verus! {

/// Number of bytes in one decimal gigabyte.
pub const BYTES_PER_GB: u128 = 1_000_000_000;

/// Number of bytes in one decimal megabyte.
pub const BYTES_PER_MB: u128 = 1_000_000;

/// An exact non-negative rational quantity, `numer / denom`.
///
/// Byte counts converted to decimal units, and utilization percentages,
/// are kept as exact fractions so that no reading loses precision inside
/// the library; rendering a quantity as a machine float is left to the
/// caller that serializes the snapshot.
#[derive(Clone, Copy, Debug, PartialEq, Eq, Structural)]
pub struct Quantity {
    /// Numerator.
    pub numer: u128,
    /// Denominator; positive in every quantity the library builds.
    pub denom: u128,
}

impl Quantity {
    /// A well-formed fraction: the denominator is positive.
    pub open spec fn wf(self) -> bool {
        self.denom > 0
    }

    /// The quantity equals the rational number `n / d`.
    pub open spec fn is_ratio(self, n: int, d: int) -> bool {
        self.numer * d == n * self.denom
    }
}

/// The gigabyte reading of a raw byte count: exactly `bytes / 1_000_000_000`.
pub open spec fn gb_of(bytes: u64) -> Quantity {
    Quantity { numer: bytes as u128, denom: BYTES_PER_GB }
}

/// The megabyte reading of a raw byte count: exactly `bytes / 1_000_000`.
pub open spec fn mb_of(bytes: u64) -> Quantity {
    Quantity { numer: bytes as u128, denom: BYTES_PER_MB }
}

/// The utilization percentage of `used` out of `total`: exactly
/// `used * 100 / total` when `total` is positive, and exactly zero when
/// `total` is zero — never a division by zero.
pub open spec fn percent_of(used: u64, total: u64) -> Quantity {
    if total == 0 {
        Quantity { numer: 0, denom: 1 }
    } else {
        Quantity { numer: (used * 100) as u128, denom: total as u128 }
    }
}

/// Converts a raw byte count to its decimal gigabyte reading.
pub fn gb(bytes: u64) -> (q: Quantity)
    ensures
        q == gb_of(bytes),
{
    Quantity { numer: bytes as u128, denom: BYTES_PER_GB }
}

/// Converts a raw byte count to its decimal megabyte reading.
pub fn mb(bytes: u64) -> (q: Quantity)
    ensures
        q == mb_of(bytes),
{
    Quantity { numer: bytes as u128, denom: BYTES_PER_MB }
}

/// Computes the utilization percentage of `used` out of `total`, with the
/// zero-total guard.
pub fn percent(used: u64, total: u64) -> (q: Quantity)
    ensures
        q == percent_of(used, total),
{
    if total == 0 {
        Quantity { numer: 0, denom: 1 }
    } else {
        Quantity { numer: used as u128 * 100, denom: total as u128 }
    }
}

/// Unit conversion is exact division by a decimal constant: for every raw
/// byte count, the gigabyte reading equals `bytes / 1_000_000_000` and the
/// megabyte reading equals `bytes / 1_000_000` as rational numbers.
pub proof fn lemma_unit_conversion_exact(bytes: u64)
    ensures
        gb_of(bytes).wf(),
        gb_of(bytes).is_ratio(bytes as int, 1_000_000_000),
        mb_of(bytes).wf(),
        mb_of(bytes).is_ratio(bytes as int, 1_000_000),
{
}

/// With a zero total the utilization percentage is exactly zero, for RAM
/// and swap alike: the guard replaces the undefined division by zero.
pub proof fn lemma_percent_zero_total(used: u64)
    ensures
        percent_of(used, 0).wf(),
        percent_of(used, 0).is_ratio(0, 1),
{
}

/// With a positive total the utilization percentage is exactly
/// `used * 100 / total` as a rational number.
pub proof fn lemma_percent_exact(used: u64, total: u64)
    requires
        total > 0,
    ensures
        percent_of(used, total).wf(),
        percent_of(used, total).is_ratio(used as int * 100, total as int),
{
}

} // verus!
