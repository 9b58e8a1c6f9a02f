//! The opening scene's timing: the picture that covers the window while the
//! editor behind it lays itself out, holds long enough to be read, and then
//! dissolves into the editor.
//!
//! The scene is drawn over the real interface, which is being laid out and
//! rendered underneath the whole time. What is decided here is when it
//! covers the window, when it dissolves, when it is gone for good, and what a
//! click does to it. Times are readings of a monotonic clock in nanoseconds,
//! taken by the caller.

use vstd::prelude::*;

verus! {

/// How long the scene holds at full strength: long enough to be read, short
/// enough that nobody waits for it.
pub const HOLD_NANOS: u64 = 800_000_000;

/// How long it takes to dissolve into the editor.
pub const FADE_NANOS: u64 = 420_000_000;

/// The opening scene's run.
#[derive(Debug, Clone, Copy, PartialEq, Eq, Hash, Structural)]
pub struct SplashState {
    /// When the first frame was drawn. `None` until then, which is what makes
    /// the timing start from the first picture rather than from process
    /// start: the seconds spent creating a device are not seconds anybody saw.
    pub shown_at: Option<u64>,
    /// Once this is set the scene never draws again for the life of the app.
    pub finished: bool,
}

impl Default for SplashState {
    fn default() -> (s: Self)
        ensures
            s.shown_at is None,
            !s.finished,
    {
        SplashState { shown_at: None, finished: false }
    }
}

/// How long ago `at` was, at `now`; nothing if `now` is earlier.
pub open spec fn since(now: u64, at: u64) -> nat {
    if now >= at {
        (now - at) as nat
    } else {
        0
    }
}

/// Is the scene covering the interface at `now`? Until it is first drawn and
/// through the hold; not from the moment it starts to dissolve.
pub open spec fn covering(s: SplashState, now: u64) -> bool {
    !s.finished && match s.shown_at {
        None => true,
        Some(at) => since(now, at) < HOLD_NANOS,
    }
}

/// When the scene is taken to have been shown after a skip at `now`: far
/// enough back that the hold is over, unless it already is.
pub open spec fn skipped(shown_at: Option<u64>, now: u64) -> Option<u64> {
    match shown_at {
        Some(at) if since(now, at) >= HOLD_NANOS => shown_at,
        _ => if now >= HOLD_NANOS {
            Some((now - HOLD_NANOS) as u64)
        } else {
            Some(now)
        },
    }
}

impl SplashState {
    /// Is the scene still owed frames?
    pub fn is_open(&self) -> (r: bool)
        ensures
            r == !self.finished,
    {
        !self.finished
    }

    /// Is the scene still covering the interface completely? True through the
    /// hold, false from the moment it starts to dissolve — which is when the
    /// editor underneath becomes visible and has to take input again.
    pub fn is_covering(&self, now: u64) -> (r: bool)
        ensures
            r == covering(*self, now),
    {
        if self.finished {
            return false;
        }
        match self.shown_at {
            None => true,
            Some(at) => now.saturating_sub(at) < HOLD_NANOS,
        }
    }

    /// Skip the rest of the hold: dissolve from here. A click, a key, or
    /// anything else that says the user is already trying to work. Once it
    /// is dissolving, or done, it is left alone, so a second click cannot
    /// restart the fade.
    pub fn skip(&mut self, now: u64)
        ensures
            final(self).shown_at == skipped(old(self).shown_at, now),
            final(self).finished == old(self).finished,
    {
        match self.shown_at {
            Some(at) if now.saturating_sub(at) >= HOLD_NANOS => {},
            _ => {
                self.shown_at = match now.checked_sub(HOLD_NANOS) {
                    Some(back) => Some(back),
                    None => Some(now),
                };
            },
        }
    }

    /// End it now, with no dissolve at all: for a run that has no business
    /// showing one — a script, a test.
    pub fn dismiss(&mut self)
        ensures
            final(self).finished,
            final(self).shown_at == old(self).shown_at,
    {
        self.finished = true;
    }

    /// Start a frame at `now`: how long the scene has been showing, if it is
    /// still to be drawn, or `None` once it has finished. The first frame
    /// starts the clock; the frame after the fade ends it for good.
    pub fn begin_frame(&mut self, now: u64) -> (elapsed: Option<u64>)
        ensures
            old(self).finished ==> elapsed is None && *final(self) == *old(self),
            !old(self).finished ==> ({
                let started = match old(self).shown_at {
                    Some(at) => at,
                    None => now,
                };
                let gone = since(now, started) >= HOLD_NANOS + FADE_NANOS;
                &&& final(self).shown_at == Some(started)
                &&& final(self).finished == gone
                &&& elapsed == if gone {
                    None
                } else {
                    Some(since(now, started) as u64)
                }
            }),
    {
        if self.finished {
            return None;
        }
        let started = match self.shown_at {
            Some(at) => at,
            None => now,
        };
        self.shown_at = Some(started);
        let elapsed = now.saturating_sub(started);
        if elapsed >= HOLD_NANOS + FADE_NANOS {
            self.finished = true;
            return None;
        }
        Some(elapsed)
    }
}

/// **A second click does not undo the first**: once a skip has started the
/// dissolve, skipping again later leaves the start of the dissolve where it
/// was. (On a clock read less than a hold after its zero the first skip
/// cannot move the start back by a whole hold, and a later skip can then
/// still move it; the clock is read from well before that.)
pub proof fn a_second_skip_changes_nothing(shown_at: Option<u64>, first: u64, second: u64)
    requires
        HOLD_NANOS <= first <= second,
    ensures
        skipped(skipped(shown_at, first), second) == skipped(shown_at, first),
{
}

/// **A skip uncovers the editor**: from the moment of a skip on, the scene
/// no longer covers the interface.
pub proof fn a_skip_uncovers_the_editor(s: SplashState, at: u64, later: u64)
    requires
        HOLD_NANOS <= at <= later,
    ensures
        !covering(SplashState { shown_at: skipped(s.shown_at, at), finished: s.finished }, later),
{
}

} // verus!
