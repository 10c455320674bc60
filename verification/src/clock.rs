//! Time as plain nanoseconds.
use vstd::prelude::*;

verus! {

/// A point of the monotonic clock that the runtime's timers follow.
#[verifier::external_type_specification]
#[verifier::external_body]
pub struct ExInstant(tokio::time::Instant);

/// `tokio::time::Instant::now`: what it returns depends on the time alone.
#[verifier::external_body]
fn instant_now() -> tokio::time::Instant {
    tokio::time::Instant::now()
}

/// Receipt of a clock that was read.
pub struct Tick {
    origin: Ghost<tokio::time::Instant>,
    nanos: u64,
}

/// `tokio::time::Instant::elapsed`, in nanoseconds: reads the time since
/// `origin`, which depends on the time of the call.
#[verifier::external_body]
fn elapsed(origin: &tokio::time::Instant) -> (tick: Tick)
    ensures
        tick.origin@ == *origin,
{
    Tick { origin: Ghost(arbitrary()), nanos: origin.elapsed().as_nanos() as u64 }
}

/// The runtime's clock, read in nanoseconds since its creation.
pub struct Clock {
    origin: tokio::time::Instant,
}

impl Tick {
    /// The clock.
    pub closed spec fn clock(&self) -> Clock {
        Clock { origin: self.origin@ }
    }

    /// What it read.
    pub closed spec fn time(&self) -> u64 {
        self.nanos
    }

    /// Returns what it read.
    pub fn nanos(&self) -> (nanos: u64)
        ensures
            nanos == self.time(),
    {
        self.nanos
    }
}

impl Clock {
    /// Starts a clock.
    pub fn start() -> Self {
        Clock { origin: instant_now() }
    }

    /// Reads the clock, with a receipt.
    pub fn read(&self) -> (tick: Tick)
        ensures
            tick.clock() == *self,
    {
        elapsed(&self.origin)
    }

    /// Reads the clock.
    pub fn now(&self) -> u64 {
        self.read().nanos()
    }
}

/// Far-future cap for deadlines that no instant can hold: thirty years.
pub const FAR_FUTURE: u64 = 946_080_000_000_000_000;

/// The delay that stands for those that end at no instant of the runtime's
/// clock, such as the longest duration.
pub const BEYOND_TIME: u64 = u64::MAX;

/// The instant `delay` after `now`. A delay that no instant can hold stands for
/// "never" and is cut to the far future. The last nanosecond that can be
/// counted, some centuries on, stands for whatever comes after it.
pub open spec fn deadline(now: u64, delay: u64) -> u64 {
    let shown = if delay == BEYOND_TIME {
        now + FAR_FUTURE
    } else {
        now + delay
    };
    if shown <= u64::MAX {
        shown as u64
    } else {
        u64::MAX
    }
}

/// Returns the instant `delay` after `now`, saturating instead of
/// overflowing.
pub fn deadline_after(now: u64, delay: u64) -> (result: u64)
    ensures
        result == deadline(now, delay),
        result >= now,
        delay > 0 && now < u64::MAX ==> result > now,
{
    if delay == BEYOND_TIME {
        now.saturating_add(FAR_FUTURE)
    } else {
        now.saturating_add(delay)
    }
}

/// Whether `deadline` has been reached at `now`.
pub fn reached(now: u64, deadline: u64) -> (reached: bool)
    ensures
        reached == (now >= deadline),
{
    now >= deadline
}

} // verus!
