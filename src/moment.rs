//! Moments in time on the UTC axis, and the actual/365 day count between them.
use vstd::prelude::*;

verus! {

/// Nanoseconds in one second.
pub const NANOS_PER_SEC: u32 = 1_000_000_000;

/// Seconds in one day (days have no leap seconds here).
pub const SECS_PER_DAY: i64 = 86_400;

/// Nanoseconds in one day.
pub const NANOS_PER_DAY: i128 = 86_400_000_000_000;

/// Days in the fixed year of the actual/365 convention.
pub const DAYS_PER_YEAR: i64 = 365;

/// Largest distance from the Unix epoch, in seconds, that a moment may have
/// (about 253,000 years either way).
pub const SECS_LIMIT: i64 = 8_000_000_000_000;

/// A moment: whole seconds since 1970-01-01T00:00:00 UTC and the nanoseconds
/// into that second. Timezone-aware date-times are normalised to this form
/// before any day count, so daylight-saving shifts cannot skew it.
#[derive(Clone, Copy, Debug, PartialEq, Eq, Structural)]
pub struct Moment {
    pub secs: i64,
    pub nanos: u32,
}

/// Division of `a` by a positive `d`, rounded toward zero.
pub open spec fn trunc_div(a: int, d: int) -> int {
    if a >= 0 {
        a / d
    } else {
        -((-a) / d)
    }
}

/// The number of whole days from `earlier` to `later`; fractions of a day are
/// dropped (toward zero), and the count is negative when `later` comes first.
pub open spec fn whole_days(later: Moment, earlier: Moment) -> int {
    trunc_div(later@ - earlier@, NANOS_PER_DAY as int)
}

impl Moment {
    /// Nanoseconds since the Unix epoch.
    pub open spec fn view(self) -> int {
        self.secs as int * NANOS_PER_SEC as int + self.nanos as int
    }

    pub open spec fn wf(self) -> bool {
        -SECS_LIMIT <= self.secs <= SECS_LIMIT && self.nanos < NANOS_PER_SEC
    }

    /// The moment `secs` seconds and `nanos` nanoseconds after the epoch, or
    /// `None` when `nanos` is not below one second (a leap second) or the
    /// moment lies beyond the supported range.
    pub fn new(secs: i64, nanos: u32) -> (r: Option<Moment>)
        ensures
            r is Some <==> (-SECS_LIMIT <= secs <= SECS_LIMIT && nanos < NANOS_PER_SEC),
            r matches Some(m) ==> m.secs == secs && m.nanos == nanos && m.wf(),
    {
        if -SECS_LIMIT <= secs && secs <= SECS_LIMIT && nanos < NANOS_PER_SEC {
            Some(Moment { secs, nanos })
        } else {
            None
        }
    }
}

/// The whole days from `earlier` to `later`, truncated toward zero.
pub fn days_between(later: &Moment, earlier: &Moment) -> (r: i64)
    requires
        later.wf(),
        earlier.wf(),
    ensures
        r == whole_days(*later, *earlier),
{
    let secs: i128 = later.secs as i128 - earlier.secs as i128;
    let nanos: i128 = later.nanos as i128 - earlier.nanos as i128;
    assert(-2 * SECS_LIMIT <= secs <= 2 * SECS_LIMIT);
    assert(-2 * SECS_LIMIT * 1_000_000_000 <= secs * 1_000_000_000 <= 2 * SECS_LIMIT
        * 1_000_000_000) by (nonlinear_arith)
        requires
            -2 * SECS_LIMIT <= secs <= 2 * SECS_LIMIT,
    ;
    let total: i128 = secs * (NANOS_PER_SEC as i128) + nanos;
    assert(total == later@ - earlier@);
    let days: i128 = if total >= 0 {
        total / NANOS_PER_DAY
    } else {
        -((-total) / NANOS_PER_DAY)
    };
    assert(-1_000_000_000 <= days <= 1_000_000_000) by {
        assert(-20_000_000_000_000_000_000_000 <= total <= 20_000_000_000_000_000_000_000);
    }
    days as i64
}

/// A maturity exactly 365 days after the current moment lies exactly one
/// actual/365 year ahead: the whole-day count is the length of the year.
pub proof fn lemma_one_year_ahead(maturity: Moment, current: Moment)
    requires
        maturity.wf(),
        current.wf(),
        maturity@ == current@ + DAYS_PER_YEAR * NANOS_PER_DAY,
    ensures
        whole_days(maturity, current) == DAYS_PER_YEAR,
{
}

} // verus!
