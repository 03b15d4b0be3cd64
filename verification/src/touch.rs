//! Long-press detection for touch input.
use std::collections::HashSet;
use std::time::SystemTime;
use vstd::prelude::*;

verus! {

#[verifier::external_type_specification]
#[verifier::external_body]
pub struct ExSystemTime(SystemTime);

/// How long a touch must be held to count as a long press: one second, in nanoseconds.
pub const LONG_PRESS_NANOS: u128 = 1_000_000_000;

/// `SystemTime::now`. Nothing is promised of the result: it is the clock's reading.
#[verifier::external_body]
fn now() -> SystemTime {
    SystemTime::now()
}

/// `SystemTime::duration_since`, in nanoseconds; `None` where the standard library
/// reports an error (`earlier` lies after `now`). Nothing more is promised: the
/// result depends on clock readings.
#[verifier::external_body]
fn nanos_since(now: &SystemTime, earlier: &SystemTime) -> Option<u128> {
    now.duration_since(*earlier).ok().map(|d| d.as_nanos())
}

/// A long press is due once the touch has been held for the long-press duration.
pub fn long_press_due(elapsed_nanos: Option<u128>) -> (r: bool)
    ensures
        r == (elapsed_nanos matches Some(n) && n >= LONG_PRESS_NANOS),
{
    match elapsed_nanos {
        Some(n) => n >= LONG_PRESS_NANOS,
        None => false,
    }
}

/// Whether a touch that started at `time` has been held long enough for a long
/// press; never without a touch.
pub fn check_time(time: Option<SystemTime>) -> (r: bool)
    ensures
        time is None ==> !r,
{
    match time {
        Some(start) => {
            let current = now();
            long_press_due(nanos_since(&current, &start))
        },
        None => false,
    }
}

/// Stages of a touch.
pub enum TouchPhase {
    Start,
    Move,
    End,
    Cancel,
}

/// What the long-press timer is told.
pub enum Request {
    /// Time a long press from this moment.
    Refresh(SystemTime),
    /// Stop timing.
    Cancel,
}

/// Long-press detection: the touches that are down, and the touch being timed
/// (when it started and where, `P` being a screen position).
pub struct LongPressTracker<P> {
    pub ids: HashSet<u64>,
    pub info: Option<(SystemTime, P)>,
}

/// What checking the timed touch `info` after `elapsed_nanos` gives: the
/// long press's position, if one is due, and the timing left.
pub open spec fn spec_check_elapsed<P>(info: Option<(SystemTime, P)>, elapsed_nanos: Option<u128>) -> (
    Option<P>,
    Option<(SystemTime, P)>,
) {
    match info {
        None => (None, None),
        Some((_, p)) => match elapsed_nanos {
            Some(n) => if n >= LONG_PRESS_NANOS {
                (Some(p), None)
            } else {
                (None, info)
            },
            None => (None, None),
        },
    }
}

/// A long press is reported once: after a check reports one, no later check
/// reports another until a new touch starts.
pub proof fn lemma_long_press_reported_once<P>(
    info: Option<(SystemTime, P)>,
    first: Option<u128>,
    second: Option<u128>,
)
    requires
        spec_check_elapsed(info, first).0 is Some,
    ensures
        spec_check_elapsed(spec_check_elapsed(info, first).1, second).0 is None,
{
}

impl<P> LongPressTracker<P> {
    /// No touch down.
    pub fn new() -> (r: Self)
        ensures
            r.ids@ == Set::<u64>::empty(),
            r.info is None,
    {
        LongPressTracker { ids: HashSet::new(), info: None }
    }

    /// Stop timing; the timer is told to cancel when a touch was being timed.
    fn remove_info(&mut self) -> (r: Option<Request>)
        ensures
            final(self).info is None,
            final(self).ids@ == old(self).ids@,
            r is Some <==> old(self).info is Some,
            r matches Some(q) ==> q is Cancel,
    {
        if self.info.is_some() {
            self.info = None;
            Some(Request::Cancel)
        } else {
            None
        }
    }

    /// Record a touch event of touch `id` at `pos`. A touch that starts while
    /// no other is down is timed from now; any other event, or a second touch,
    /// stops the timing. Returns what the timer is to be told.
    pub fn initiate(&mut self, id: u64, phase: TouchPhase, pos: P) -> (r: Option<Request>)
        ensures
            match phase {
                TouchPhase::Start => final(self).ids@ == old(self).ids@.insert(id),
                TouchPhase::Move => final(self).ids@ == old(self).ids@,
                _ => final(self).ids@ == old(self).ids@.remove(id),
            },
            phase is Start && old(self).ids@.is_empty() ==> (final(self).info matches Some((t, p))
                && p == pos && r == Some(Request::Refresh(t))),
            !(phase is Start && old(self).ids@.is_empty()) ==> {
                &&& final(self).info is None
                &&& (r is Some <==> old(self).info is Some)
                &&& r matches Some(q) ==> q is Cancel
            },
    {
        broadcast use vstd::std_specs::hash::group_hash_axioms;
        match phase {
            TouchPhase::Start => {
                let r = if self.ids.is_empty() {
                    let time = now();
                    self.info = Some((time, pos));
                    Some(Request::Refresh(time))
                } else {
                    self.remove_info()
                };
                self.ids.insert(id);
                r
            },
            TouchPhase::Move => self.remove_info(),
            _ => {
                self.ids.remove(&id);
                self.remove_info()
            },
        }
    }

    /// Decide on the timed touch given the time `elapsed_nanos` since it started
    /// (`None` when the clock cannot tell): once the long-press duration has
    /// passed, its position is returned and the timing ends; before that the
    /// timing goes on; without an elapsed time it ends without a long press.
    pub fn check_elapsed(&mut self, elapsed_nanos: Option<u128>) -> (r: Option<P>)
        ensures
            final(self).ids@ == old(self).ids@,
            (r, final(self).info) == spec_check_elapsed(old(self).info, elapsed_nanos),
    {
        let info = self.info.take();
        if let Some((time, pos)) = info {
            if let Some(n) = elapsed_nanos {
                if n >= LONG_PRESS_NANOS {
                    return Some(pos);
                }
                self.info = Some((time, pos));
            }
        }
        None
    }

    /// Check the timed touch against the clock: it is `check_elapsed` with the
    /// time the clock gives since the touch started. What the clock reads is not
    /// known here, so the outcome is the one of some elapsed time.
    pub fn check(&mut self) -> (r: Option<P>)
        ensures
            final(self).ids@ == old(self).ids@,
            exists|e: Option<u128>| (r, final(self).info) == spec_check_elapsed(old(self).info, e),
    {
        let elapsed = match &self.info {
            Some((time, _)) => {
                let current = now();
                nanos_since(&current, time)
            },
            None => None,
        };
        let r = self.check_elapsed(elapsed);
        assert((r, self.info) == spec_check_elapsed(old(self).info, elapsed));
        r
    }
}

} // verus!
