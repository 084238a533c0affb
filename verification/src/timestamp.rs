//! Points in time, held as whole seconds since the Unix epoch plus the
//! sub-second nanoseconds, and the clock that stamps the models.
use vstd::prelude::*;

verus! {

/// Nanoseconds in one second.
pub const NANOS_PER_SEC: u32 = 1_000_000_000;

/// An instant in UTC: `secs` whole seconds after 1970-01-01T00:00:00Z and
/// `nanos` further nanoseconds (always below one second).
#[derive(Debug, Clone, Copy, PartialEq, Eq, PartialOrd, Ord, Hash)]
pub struct Timestamp {
    secs: i64,
    nanos: u32,
}

/// Truncating division (toward zero) of an integer by a positive divisor,
/// the way Rust's `/` rounds.
pub open spec fn div_toward_zero(n: int, d: int) -> int
    recommends
        d > 0,
{
    if n >= 0 {
        n / d
    } else {
        -((-n) / d)
    }
}

impl Timestamp {
    #[verifier::type_invariant]
    spec fn inv(self) -> bool {
        self.nanos < NANOS_PER_SEC
    }

    /// Whole seconds since the epoch.
    pub closed spec fn spec_secs(self) -> int {
        self.secs as int
    }

    /// Nanoseconds past the whole second.
    pub closed spec fn spec_nanos(self) -> int {
        self.nanos as int
    }

    /// The instant as a count of nanoseconds since the epoch.
    pub open spec fn total_nanos(self) -> int {
        self.spec_secs() * NANOS_PER_SEC + self.spec_nanos()
    }

    /// Builds a timestamp from seconds and nanoseconds since the epoch;
    /// `None` when `nanos` is a second or more.
    pub fn from_parts(secs: i64, nanos: u32) -> (r: Option<Timestamp>)
        ensures
            nanos < NANOS_PER_SEC <==> r is Some,
            r matches Some(t) ==> t.spec_secs() == secs && t.spec_nanos() == nanos,
    {
        if nanos < NANOS_PER_SEC {
            Some(Timestamp { secs, nanos })
        } else {
            None
        }
    }

    /// Whole seconds since the epoch.
    pub fn secs(&self) -> (r: i64)
        ensures
            r == self.spec_secs(),
    {
        self.secs
    }

    /// Nanoseconds past the whole second.
    pub fn nanos(&self) -> (r: u32)
        ensures
            r == self.spec_nanos(),
            r < NANOS_PER_SEC,
    {
        proof {
            use_type_invariant(self);
        }
        self.nanos
    }

    /// Strictly earlier than `other`.
    pub fn is_before(&self, other: &Timestamp) -> (r: bool)
        ensures
            r == (self.total_nanos() < other.total_nanos()),
    {
        proof {
            use_type_invariant(self);
            use_type_invariant(other);
        }
        self.secs < other.secs || (self.secs == other.secs && self.nanos < other.nanos)
    }
}

/// The signed count of nanoseconds from `from` to `to`.
pub open spec fn nanos_between(from: Timestamp, to: Timestamp) -> int {
    to.total_nanos() - from.total_nanos()
}

/// Nanoseconds in one minute.
pub const NANOS_PER_MINUTE: i128 = 60_000_000_000;

/// Nanoseconds in one day.
pub const NANOS_PER_DAY: i128 = 86_400_000_000_000;

impl Timestamp {
    /// Whole minutes from `self` to `later` (negative when `later` is
    /// earlier), rounded toward zero as chrono's `TimeDelta::num_minutes`
    /// does.
    pub fn minutes_until(&self, later: &Timestamp) -> (r: i64)
        ensures
            r == div_toward_zero(nanos_between(*self, *later), NANOS_PER_MINUTE as int),
    {
        let d = self.nanos_until(later);
        Self::whole_units(d, NANOS_PER_MINUTE)
    }

    /// Whole days from `self` to `later`, rounded toward zero as chrono's
    /// `TimeDelta::num_days` does.
    pub fn whole_days_until(&self, later: &Timestamp) -> (r: i64)
        ensures
            r == div_toward_zero(nanos_between(*self, *later), NANOS_PER_DAY as int),
    {
        let d = self.nanos_until(later);
        Self::whole_units(d, NANOS_PER_DAY)
    }

    fn nanos_until(&self, later: &Timestamp) -> (r: i128)
        ensures
            r == nanos_between(*self, *later),
            -0x8000_0000_0000_0000_0000_0000 < r < 0x8000_0000_0000_0000_0000_0000,
    {
        proof {
            use_type_invariant(self);
            use_type_invariant(later);
        }
        let ds: i128 = later.secs as i128 - self.secs as i128;
        let dn: i128 = later.nanos as i128 - self.nanos as i128;
        assert(-0x1_0000_0000_0000_0000 <= ds <= 0x1_0000_0000_0000_0000);
        assert(-0x8000_0000_0000_0000_0000_0000 < ds * 1_000_000_000 < 0x8000_0000_0000_0000_0000_0000) by (nonlinear_arith)
            requires -0x1_0000_0000_0000_0000 <= ds <= 0x1_0000_0000_0000_0000;
        ds * 1_000_000_000 + dn
    }

    fn whole_units(d: i128, unit: i128) -> (r: i64)
        requires
            unit >= NANOS_PER_MINUTE,
            -0x8000_0000_0000_0000_0000_0000 < d < 0x8000_0000_0000_0000_0000_0000,
        ensures
            r == div_toward_zero(d as int, unit as int),
    {
        if d >= 0 {
            assert(d / unit <= d / NANOS_PER_MINUTE) by (nonlinear_arith)
                requires d >= 0, unit >= NANOS_PER_MINUTE;
            assert(d / NANOS_PER_MINUTE < 0x8000_0000_0000_0000) by (nonlinear_arith)
                requires 0 <= d < 0x8000_0000_0000_0000_0000_0000;
            (d / unit) as i64
        } else {
            let m: i128 = -d;
            assert(m / unit <= m / NANOS_PER_MINUTE) by (nonlinear_arith)
                requires m >= 0, unit >= NANOS_PER_MINUTE;
            assert(m / NANOS_PER_MINUTE < 0x8000_0000_0000_0000) by (nonlinear_arith)
                requires 0 <= m < 0x8000_0000_0000_0000_0000_0000;
            -((m / unit) as i64)
        }
    }
}

/// An instant the system clock can report: never before the Unix epoch.
pub open spec fn is_clock_reading(t: Timestamp) -> bool {
    t.spec_secs() >= 0
}

/// Reads the system clock through chrono's `Utc::now`, which takes the
/// time since the Unix epoch from `SystemTime::now().duration_since(UNIX_EPOCH)`
/// and panics (`expect`) when the clock reads before the epoch, so a reading
/// that comes back has whole seconds of at least zero. (The variant chrono
/// builds for `wasm32` with its `wasmbind` feature asks JavaScript's `Date`
/// instead; this crate is not built for that target.) What comes back
/// depends on the moment of the call; the contract claims only that it is
/// not before the epoch and that the sub-second part is below one second,
/// which chrono's construction from `Duration::subsec_nanos` keeps.
#[verifier::external_body]
pub(crate) fn clock_now() -> (r: Timestamp)
    ensures
        is_clock_reading(r),
        r.spec_nanos() < NANOS_PER_SEC,
{
    let t = chrono::Utc::now();
    Timestamp { secs: t.timestamp(), nanos: t.timestamp_subsec_nanos() }
}

impl Timestamp {
    /// The current time, read from the system clock: never before the Unix
    /// epoch.
    pub fn now() -> (r: Timestamp)
        ensures
            is_clock_reading(r),
    {
        clock_now()
    }
}

} // verus!
