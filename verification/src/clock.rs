//! Time as the domain sees it: nanoseconds since the Unix epoch (UTC) within the range the
//! `time` crate can represent, and the clocks that read it.
use vstd::prelude::*;

verus! {

/// Nanoseconds since the Unix epoch of the earliest representable instant, -9999-01-01T00:00:00Z.
pub const TIME_MIN_NS: i128 = -377_705_116_800_000_000_000i128;

/// Nanoseconds since the Unix epoch of the latest representable instant,
/// 9999-12-31T23:59:59.999999999Z.
pub const TIME_MAX_NS: i128 = 253_402_300_799_999_999_999i128;

/// The length of the representable range, in nanoseconds.
pub const TIME_SPAN_NS: u128 = 631_107_417_599_999_999_999u128;

/// Whether `instant` (nanoseconds since the epoch) is representable.
pub open spec fn valid_time(instant: int) -> bool {
    TIME_MIN_NS <= instant <= TIME_MAX_NS
}

/// Boundary: the current time.
pub trait Clock {
    /// The instant this clock always reads, when it is frozen; `None` when it moves on its own.
    spec fn fixed_reading(&self) -> Option<i128>;

    /// Reads the clock.
    fn now(&self) -> (now: i128)
        ensures
            valid_time(now as int),
            self.fixed_reading() matches Some(at) ==> now == at,
    ;
}

/// Reads the system clock in UTC.
#[derive(Debug, Clone, Copy, Default)]
pub struct SystemClock;

/// The current UTC time in nanoseconds since the epoch.
///
/// Calls `time::OffsetDateTime::now_utc` and `unix_timestamp_nanos`. The time crate only
/// produces instants within its representable range; which instant depends on the moment of
/// the call and is not stated.
#[verifier::external_body]
fn system_now() -> (now: i128)
    ensures
        valid_time(now as int),
{
    time::OffsetDateTime::now_utc().unix_timestamp_nanos()
}

impl Clock for SystemClock {
    open spec fn fixed_reading(&self) -> Option<i128> {
        None
    }

    fn now(&self) -> (now: i128) {
        system_now()
    }
}

/// A clock that starts at a fixed instant and advances only when told to.
#[derive(Debug)]
pub struct FakeClock {
    now: i128,
}

impl View for FakeClock {
    type V = i128;

    closed spec fn view(&self) -> i128 {
        self.now
    }
}

impl FakeClock {
    #[verifier::type_invariant]
    spec fn representable(self) -> bool {
        valid_time(self.now as int)
    }

    /// A clock frozen at `start`.
    pub fn new(start: i128) -> (clock: FakeClock)
        requires
            valid_time(start as int),
        ensures
            clock@ == start,
    {
        FakeClock { now: start }
    }

    /// A clock frozen at the Unix epoch.
    pub fn at_epoch() -> (clock: FakeClock)
        ensures
            clock@ == 0,
    {
        FakeClock::new(0)
    }

    /// Moves time forward by `by_ns` nanoseconds.
    pub fn advance(&mut self, by_ns: u128)
        requires
            old(self)@ + by_ns <= TIME_MAX_NS,
        ensures
            final(self)@ == old(self)@ + by_ns,
    {
        proof {
            use_type_invariant(&*self);
        }
        self.now = self.now + by_ns as i128;
    }

    /// Sets the time.
    pub fn set(&mut self, to: i128)
        requires
            valid_time(to as int),
        ensures
            final(self)@ == to,
    {
        self.now = to;
    }
}

impl Clock for FakeClock {
    open spec fn fixed_reading(&self) -> Option<i128> {
        Some(self@)
    }

    fn now(&self) -> (now: i128)
        ensures
            now == self@,
    {
        proof {
            use_type_invariant(self);
        }
        self.now
    }
}

} // verus!
