//! The gap between two requests.
//!
//! Times are readings of a clock that does not run backwards, in
//! milliseconds.

use vstd::prelude::*;

verus! {

/// The time from `last` to `now`; nothing where the clock reads less than it
/// did.
pub open spec fn elapsed(last: u64, now: u64) -> u64 {
    if now >= last {
        (now - last) as u64
    } else {
        0
    }
}

/// How long to wait at `now` before the next request: not at all before the
/// first one, else what is missing of `delay` since the last request
/// returned.
pub open spec fn wait_of(delay: u64, last_return: Option<u64>, now: u64) -> u64 {
    match last_return {
        None => 0,
        Some(last) => if delay > elapsed(last, now) {
            (delay - elapsed(last, now)) as u64
        } else {
            0
        },
    }
}

/// The least gap to keep between the return of one request and the start of
/// the next, and when the last request returned.
#[derive(Clone, Copy, Debug, PartialEq, Eq)]
pub struct Pacer {
    pub delay: u64,
    pub last_return: Option<u64>,
}

impl Pacer {
    /// A pacer before the first request. A `delay` of zero never waits.
    pub fn new(delay: u64) -> (r: Pacer)
        ensures
            r.delay == delay,
            r.last_return is None,
    {
        Pacer { delay, last_return: None }
    }

    /// How long to wait at `now` before the next request may start.
    pub fn wait(&self, now: u64) -> (r: u64)
        ensures
            r == wait_of(self.delay, self.last_return, now),
    {
        match self.last_return {
            None => 0,
            Some(last) => {
                let gone: u64 = if now >= last {
                    now - last
                } else {
                    0
                };
                if self.delay > gone {
                    self.delay - gone
                } else {
                    0
                }
            },
        }
    }

    /// Notes that a request returned at `now`.
    pub fn mark_return(&mut self, now: u64)
        ensures
            final(self).delay == old(self).delay,
            final(self).last_return == Some(now),
    {
        self.last_return = Some(now);
    }
}

/// A request that starts once the wait is over starts no earlier than `delay`
/// after the last one returned, and no later than it must: without a wait it
/// starts at once, with one exactly `delay` after that return.
pub proof fn lemma_wait_keeps_the_gap(delay: u64, last: u64, now: u64)
    requires
        last <= now,
    ensures
        now + wait_of(delay, Some(last), now) >= last + delay,
        wait_of(delay, Some(last), now) > 0 ==> now + wait_of(delay, Some(last), now) == last
            + delay,
        wait_of(delay, Some(last), now) <= delay,
{
}

/// Nothing holds up the first request, nor any request for a delay of zero.
pub proof fn lemma_no_wait(delay: u64, last_return: Option<u64>, now: u64)
    ensures
        wait_of(delay, None, now) == 0,
        wait_of(0, last_return, now) == 0,
{
}

} // verus!
