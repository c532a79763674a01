//! Bar resolutions, their total order, and the alignment of instants to bars.
//!
//! An instant is a count of nanoseconds since the Unix epoch, in UTC.

use vstd::prelude::*;
use vstd::arithmetic::div_mod::*;
use vstd::arithmetic::mul::*;

verus! {

pub const NANOS_PER_SECOND: i64 = 1_000_000_000;

pub const NANOS_PER_MINUTE: i64 = 60_000_000_000;

pub const NANOS_PER_HOUR: i64 = 3_600_000_000_000;

pub const NANOS_PER_DAY: i64 = 86_400_000_000_000;

/// The granularity of a data stream.
#[derive(Clone, Copy, Debug, PartialEq, Eq, Structural, PartialOrd, Ord, Hash)]
pub enum Resolution {
    Instant,
    Ticks(u64),
    Seconds(u64),
    Minutes(u64),
    Hours(u64),
    Days(u64),
}

impl Resolution {
    /// Position of the variant in the order
    /// Instant < Ticks < Seconds < Minutes < Hours < Days.
    pub open spec fn category(self) -> int {
        match self {
            Resolution::Instant => 0,
            Resolution::Ticks(_) => 1,
            Resolution::Seconds(_) => 2,
            Resolution::Minutes(_) => 3,
            Resolution::Hours(_) => 4,
            Resolution::Days(_) => 5,
        }
    }

    /// The count carried by the variant; 0 for `Instant`.
    pub open spec fn number(self) -> int {
        match self {
            Resolution::Instant => 0,
            Resolution::Ticks(n) => n as int,
            Resolution::Seconds(n) => n as int,
            Resolution::Minutes(n) => n as int,
            Resolution::Hours(n) => n as int,
            Resolution::Days(n) => n as int,
        }
    }

    /// The strict total order on resolutions: by category first, by count
    /// within a category.
    pub open spec fn precedes(self, other: Resolution) -> bool {
        self.category() < other.category() || (self.category() == other.category()
            && self.number() < other.number())
    }

    /// Length of one bar in nanoseconds; 0 where the resolution is not a span
    /// of time (`Instant`, `Ticks`).
    pub open spec fn spec_duration(self) -> int {
        match self {
            Resolution::Instant => 0,
            Resolution::Ticks(_) => 0,
            Resolution::Seconds(n) => n * NANOS_PER_SECOND,
            Resolution::Minutes(n) => n * NANOS_PER_MINUTE,
            Resolution::Hours(n) => n * NANOS_PER_HOUR,
            Resolution::Days(n) => n * NANOS_PER_DAY,
        }
    }

    pub open spec fn spec_is_ticks(self) -> bool {
        self is Ticks
    }

    fn rank(&self) -> (r: (u8, u64))
        ensures
            r.0 == self.category(),
            r.1 == self.number(),
    {
        match self {
            Resolution::Instant => (0, 0),
            Resolution::Ticks(n) => (1, *n),
            Resolution::Seconds(n) => (2, *n),
            Resolution::Minutes(n) => (3, *n),
            Resolution::Hours(n) => (4, *n),
            Resolution::Days(n) => (5, *n),
        }
    }

    /// Whether `self` comes strictly before `other` in the total order.
    pub fn is_less_than(&self, other: &Resolution) -> (less: bool)
        ensures
            less == self.precedes(*other),
    {
        let a = self.rank();
        let b = other.rank();
        a.0 < b.0 || (a.0 == b.0 && a.1 < b.1)
    }

    /// Whether `self` comes before `other` or equals it.
    pub fn is_at_most(&self, other: &Resolution) -> (at_most: bool)
        ensures
            at_most == (self.precedes(*other) || *self == *other),
    {
        let a = self.rank();
        let b = other.rank();
        proof {
            lemma_same_rank_same_resolution(*self, *other);
        }
        a.0 < b.0 || (a.0 == b.0 && a.1 <= b.1)
    }

    pub fn is_ticks(&self) -> (ticks: bool)
        ensures
            ticks == self.spec_is_ticks(),
    {
        match self {
            Resolution::Ticks(_) => true,
            _ => false,
        }
    }

    /// Length of one bar in nanoseconds. Exact for every resolution: the widest
    /// product, `u64::MAX` days, is below 2^111.
    pub fn duration_nanos(&self) -> (d: i128)
        ensures
            d == self.spec_duration(),
            0 <= d,
    {
        match self {
            Resolution::Instant => 0,
            Resolution::Ticks(_) => 0,
            Resolution::Seconds(n) => scale(*n, NANOS_PER_SECOND),
            Resolution::Minutes(n) => scale(*n, NANOS_PER_MINUTE),
            Resolution::Hours(n) => scale(*n, NANOS_PER_HOUR),
            Resolution::Days(n) => scale(*n, NANOS_PER_DAY),
        }
    }

    /// The bar length as an `i64`, for resolutions that span time and whose
    /// length fits; these are the resolutions a time-driven consolidator can
    /// serve.
    pub fn bar_nanos(&self) -> (d: Option<i64>)
        ensures
            d == spec_bar_nanos(*self),
    {
        let wide = self.duration_nanos();
        if 0 < wide && wide <= i64::MAX as i128 {
            Some(wide as i64)
        } else {
            None
        }
    }
}

/// `Some(d)` exactly when the resolution spans `d > 0` nanoseconds and `d`
/// fits an `i64`.
pub open spec fn spec_bar_nanos(resolution: Resolution) -> Option<i64> {
    let d = resolution.spec_duration();
    if 0 < d <= i64::MAX {
        Some(d as i64)
    } else {
        None
    }
}

fn scale(n: u64, unit: i64) -> (product: i128)
    requires
        0 < unit <= NANOS_PER_DAY,
    ensures
        product == n * unit,
        0 <= product,
{
    proof {
        lemma_mul_inequality(n as int, u64::MAX as int, unit as int);
        lemma_mul_upper_bound(n as int, u64::MAX as int, unit as int, NANOS_PER_DAY as int);
        lemma_mul_nonnegative(n as int, unit as int);
    }
    (n as i128) * (unit as i128)
}

/// Two resolutions of the same category and count are the same resolution.
pub proof fn lemma_same_rank_same_resolution(a: Resolution, b: Resolution)
    ensures
        (a.category() == b.category() && a.number() == b.number()) <==> a == b,
{
}

/// The order on resolutions is a strict total order: irreflexive,
/// transitive, and any two distinct resolutions are comparable.
pub proof fn lemma_resolution_order_total(a: Resolution, b: Resolution, c: Resolution)
    ensures
        !a.precedes(a),
        a.precedes(b) && b.precedes(c) ==> a.precedes(c),
        a.precedes(b) || b.precedes(a) || a == b,
        !(a.precedes(b) && b.precedes(a)),
{
    lemma_same_rank_same_resolution(a, b);
}

/// `Instant` precedes every tick resolution, and every tick resolution
/// precedes every resolution that spans time.
pub proof fn lemma_resolution_order_categories(n: u64, r: Resolution)
    ensures
        Resolution::Instant.precedes(Resolution::Ticks(n)),
        r.category() >= 2 ==> Resolution::Ticks(n).precedes(r),
{
}

/// Start of the bar of length `duration` that holds the instant `t`: the
/// largest multiple of `duration` not after `t`.
pub open spec fn spec_open_time(t: int, duration: int) -> int {
    (t / duration) * duration
}

/// End of the bar that holds `t`; the bar is the half-open span
/// `[open, close)`.
pub open spec fn spec_close_time(t: int, duration: int) -> int {
    spec_open_time(t, duration) + duration
}

/// An instant lies inside its own bar.
pub proof fn lemma_open_time_bounds(t: int, duration: int)
    requires
        duration > 0,
    ensures
        spec_open_time(t, duration) <= t < spec_close_time(t, duration),
        spec_open_time(t, duration) % duration == 0,
{
    lemma_fundamental_div_mod(t, duration);
    lemma_mod_bound(t, duration);
    lemma_mul_is_commutative(t / duration, duration);
    lemma_mod_multiples_basic(t / duration, duration);
}

/// An instant that is a multiple of the bar length opens its own bar.
pub proof fn lemma_open_time_of_aligned(t: int, duration: int)
    requires
        duration > 0,
        t % duration == 0,
    ensures
        spec_open_time(t, duration) == t,
{
    lemma_fundamental_div_mod(t, duration);
    lemma_mul_is_commutative(t / duration, duration);
}

/// Aligning an instant twice is the same as aligning it once.
pub proof fn lemma_open_time_idempotent(t: int, duration: int)
    requires
        duration > 0,
    ensures
        spec_open_time(spec_open_time(t, duration), duration) == spec_open_time(t, duration),
{
    lemma_open_time_bounds(t, duration);
    lemma_open_time_of_aligned(spec_open_time(t, duration), duration);
}

/// Every instant of the half-open span `[open, open + duration)` of an
/// aligned `open` belongs to the bar that opens at `open`.
pub proof fn lemma_open_time_within_bar(open: int, t: int, duration: int)
    requires
        duration > 0,
        open % duration == 0,
        open <= t < open + duration,
    ensures
        spec_open_time(t, duration) == open,
{
    lemma_fundamental_div_mod(open, duration);
    lemma_mul_is_commutative(open / duration, duration);
    let q = open / duration;
    let r = t - open;
    lemma_fundamental_div_mod_converse(t, duration, q, r);
}

/// The instant at which a bar closes is the first instant of the next bar:
/// it opens the bar that starts there.
pub proof fn lemma_close_boundary_opens_next_bar(t: int, duration: int)
    requires
        duration > 0,
    ensures
        spec_open_time(spec_close_time(t, duration), duration) == spec_close_time(t, duration),
        spec_open_time(spec_close_time(t, duration), duration) != spec_open_time(t, duration),
{
    lemma_open_time_bounds(t, duration);
    let open = spec_open_time(t, duration);
    lemma_mod_add_multiples_vanish(open, duration);
    lemma_open_time_of_aligned(open + duration, duration);
}

/// Start of the bar of `resolution` that holds `t`. `None` where the
/// resolution does not span time, its length does not fit an `i64`, or the
/// start would lie before the earliest representable instant.
pub fn open_time(t: i64, resolution: &Resolution) -> (open: Option<i64>)
    ensures
        open == spec_open_time_checked(t, *resolution),
{
    match resolution.bar_nanos() {
        Some(d) => align_down(t, d),
        None => None,
    }
}

pub open spec fn spec_open_time_checked(t: i64, resolution: Resolution) -> Option<i64> {
    match spec_bar_nanos(resolution) {
        Some(d) => spec_align_down(t, d),
        None => None,
    }
}

pub open spec fn spec_align_down(t: i64, duration: i64) -> Option<i64> {
    if duration > 0 && spec_open_time(t as int, duration as int) >= i64::MIN {
        Some(spec_open_time(t as int, duration as int) as i64)
    } else {
        None
    }
}

/// The largest multiple of `duration` not after `t`, where it is
/// representable.
pub fn align_down(t: i64, duration: i64) -> (open: Option<i64>)
    ensures
        open == spec_align_down(t, duration),
{
    if duration <= 0 {
        return None;
    }
    proof {
        lemma_open_time_bounds(t as int, duration as int);
        lemma_fundamental_div_mod(t as int, duration as int);
        lemma_mod_bound(t as int, duration as int);
        lemma_mul_is_commutative(t as int / duration as int, duration as int);
    }
    match t.checked_rem_euclid(duration) {
        Some(r) => t.checked_sub(r),
        None => None,
    }
}

} // verus!
