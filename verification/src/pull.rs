//! Pull-to-refresh: a single-pointer gesture state machine over touch
//! input, active only when the scrollable container sits at its top.
//! Displacement is measured in integer units of the viewport's
//! coordinate space.

use vstd::prelude::*;

verus! {

/// Pull distance at and beyond which releasing the gesture triggers a
/// refresh.
pub const PULL_THRESHOLD: u32 = 80;

/// Cap on the damped pull distance.
pub const MAX_PULL: u32 = 120;

/// Where the pull gesture stands.
#[derive(Clone, Copy, PartialEq, Eq, Structural, Debug)]
pub enum PullPhase {
    /// No gesture in progress.
    Idle,
    /// A touch started at scroll-top and is being followed.
    Tracking,
    /// A refresh is running; gesture input is ignored.
    Refreshing,
}

/// Downward displacement `diff`, damped at half rate and capped, as the
/// distance the content is pulled.
pub open spec fn damped_pull(diff: int) -> int {
    if diff / 2 > MAX_PULL as int {
        MAX_PULL as int
    } else {
        diff / 2
    }
}

/// The gesture state machine.
pub struct PullToRefresh {
    /// Where the gesture stands.
    pub phase: PullPhase,
    /// Pointer position at touch-start; meaningful while `Tracking`.
    pub start_y: i32,
    /// Current damped pull distance, the content's visual displacement.
    pub pull_y: u32,
}

impl PullToRefresh {
    /// The pull distance stays within the cap, is zero at rest, and
    /// sits snapped to the threshold while a refresh runs.
    pub open spec fn inv(self) -> bool {
        &&& self.pull_y <= MAX_PULL
        &&& (self.phase is Idle ==> self.pull_y == 0)
        &&& (self.phase is Refreshing ==> self.pull_y == PULL_THRESHOLD)
    }

    /// At rest.
    pub fn new() -> (g: Self)
        ensures
            g.phase is Idle,
            g.pull_y == 0,
            g.inv(),
    {
        PullToRefresh { phase: PullPhase::Idle, start_y: 0, pull_y: 0 }
    }

    /// Touch-start: when the container is at scroll-top and no refresh
    /// is running, record the start position and begin tracking;
    /// anywhere else the touch is not a pull.
    pub fn touch_start(&mut self, at_top: bool, y: i32)
        requires
            old(self).inv(),
        ensures
            final(self).inv(),
            final(self).phase == if old(self).phase is Refreshing {
                old(self).phase
            } else if at_top {
                PullPhase::Tracking
            } else {
                old(self).phase
            },
            final(self).start_y == if !(old(self).phase is Refreshing) && at_top {
                y
            } else {
                old(self).start_y
            },
            final(self).pull_y == old(self).pull_y,
    {
        if matches!(self.phase, PullPhase::Refreshing) {
            return ;
        }
        if at_top {
            self.phase = PullPhase::Tracking;
            self.start_y = y;
        }
    }

    /// Touch-move: while tracking, a positive downward displacement
    /// moves the content by the damped distance; other input changes
    /// nothing. Never acts while refreshing.
    pub fn touch_move(&mut self, y: i32)
        requires
            old(self).inv(),
        ensures
            final(self).inv(),
            final(self).phase == old(self).phase,
            final(self).start_y == old(self).start_y,
            final(self).pull_y as int == if old(self).phase is Tracking && y - old(self).start_y
                > 0 {
                damped_pull(y - old(self).start_y)
            } else {
                old(self).pull_y as int
            },
    {
        if !matches!(self.phase, PullPhase::Tracking) {
            return ;
        }
        let diff: i64 = y as i64 - self.start_y as i64;
        if diff > 0 {
            let damped: i64 = diff / 2;
            if damped > MAX_PULL as i64 {
                self.pull_y = MAX_PULL;
            } else {
                self.pull_y = damped as u32;
            }
        }
    }

    /// Touch-end: released at or past the threshold, the gesture enters
    /// `Refreshing` — the content snaps to the threshold position — and
    /// the caller must run the refresh (then report back through
    /// `finish_refresh`). Released below the threshold, everything
    /// resets. Ignored while a refresh runs.
    pub fn touch_end(&mut self) -> (start_refresh: bool)
        requires
            old(self).inv(),
        ensures
            final(self).inv(),
            start_refresh == (!(old(self).phase is Refreshing) && old(self).pull_y
                >= PULL_THRESHOLD),
            final(self).phase == if old(self).phase is Refreshing {
                PullPhase::Refreshing
            } else if old(self).pull_y >= PULL_THRESHOLD {
                PullPhase::Refreshing
            } else {
                PullPhase::Idle
            },
            final(self).pull_y == if old(self).phase is Refreshing {
                old(self).pull_y
            } else if old(self).pull_y >= PULL_THRESHOLD {
                PULL_THRESHOLD
            } else {
                0u32
            },
    {
        if matches!(self.phase, PullPhase::Refreshing) {
            return false;
        }
        if self.pull_y >= PULL_THRESHOLD {
            self.phase = PullPhase::Refreshing;
            self.pull_y = PULL_THRESHOLD;
            true
        } else {
            self.phase = PullPhase::Idle;
            self.pull_y = 0;
            false
        }
    }

    /// The refresh ran to completion (including any completion hold the
    /// caller shows): back to rest.
    pub fn finish_refresh(&mut self)
        requires
            old(self).inv(),
        ensures
            final(self).inv(),
            final(self).phase is Idle,
            final(self).pull_y == 0,
    {
        self.phase = PullPhase::Idle;
        self.pull_y = 0;
    }
}

} // verus!
