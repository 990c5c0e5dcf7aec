use vstd::prelude::*;

verus! {

/// An instant, as the time that has passed since 1970-01-01 00:00:00 UTC.
#[derive(Clone, Copy, Debug, PartialEq, Eq, Structural)]
pub struct Timestamp {
    /// Whole seconds.
    pub seconds: i64,
    /// Nanoseconds since the last whole second.
    pub nanos: u32,
}

impl Timestamp {
    /// The instant is not before the epoch, and its fraction is less than a second.
    pub open spec fn valid(self) -> bool {
        &&& 0 <= self.seconds
        &&& self.nanos < 1_000_000_000
    }

    /// Whether the clock showed this time when it was read.
    pub closed spec fn was_shown(self) -> bool {
        call_ensures(utc_now, (), self)
    }
}

/// Reads the clock.
///
/// Calls `chrono::Utc::now` and takes the instant apart into seconds and nanoseconds. The contract
/// claims no more than that the clock shows a time at or after the epoch, with a fraction
/// below one second: which time it shows depends on the machine. Where the system clock is set
/// before the epoch the outside function panics, and no argument could rule that out.
#[verifier::external_body]
pub(crate) fn utc_now() -> (now: Timestamp)
    ensures
        now.valid(),
{
    let now = chrono::Utc::now();
    Timestamp { seconds: now.timestamp(), nanos: now.timestamp_subsec_nanos() }
}

/// Whatever time a clock shows.
fn ask<C: Fn() -> Timestamp>(clock: C) -> (now: Timestamp)
    requires
        call_requires(clock, ()),
    ensures
        call_ensures(clock, (), now),
{
    clock()
}

/// Reads the clock. The time is the one that it shows, and no other.
pub(crate) fn current_time() -> (now: Timestamp)
    ensures
        now.was_shown(),
        now.valid(),
{
    ask(utc_now)
}

/// A time was shown by the clock only if reading the clock can return it. It is then a time at or
/// after the epoch.
pub(crate) proof fn shown_times_are_read(now: Timestamp)
    requires
        now.was_shown(),
    ensures
        call_ensures(utc_now, (), now),
        0 <= now.seconds,
        now.nanos < 1_000_000_000,
{
}

} // verus!
