//! Input decoding for the preview modal: horizontal swipe gestures and
//! the global keyboard shortcuts, turned into navigation commands for
//! the gallery's controllers.

use vstd::prelude::*;

verus! {

/// Horizontal drag distance past which releasing a swipe navigates.
pub const SWIPE_THRESHOLD: i64 = 50;

/// What a decoded input asks the preview to do.
#[derive(Clone, Copy, PartialEq, Eq, Structural, Debug)]
pub enum PreviewCommand {
    /// Move to the previous photo.
    GoPrev,
    /// Move to the next photo (may start a lookahead fetch).
    GoNext,
    /// Close the preview by back-navigation.
    Close,
    /// Nothing to do.
    Ignore,
}

/// A released drag of `drag_x` units navigates: positive past the
/// threshold to the previous photo, negative past it to the next;
/// anything else snaps back.
pub open spec fn swipe_command(drag_x: int) -> PreviewCommand {
    if drag_x > SWIPE_THRESHOLD as int {
        PreviewCommand::GoPrev
    } else if drag_x < -(SWIPE_THRESHOLD as int) {
        PreviewCommand::GoNext
    } else {
        PreviewCommand::Ignore
    }
}

/// The keyboard mapping of the preview: left and right arrows navigate,
/// escape closes.
pub open spec fn key_command(key: Seq<char>) -> PreviewCommand {
    if key == "ArrowLeft"@ {
        PreviewCommand::GoPrev
    } else if key == "ArrowRight"@ {
        PreviewCommand::GoNext
    } else if key == "Escape"@ {
        PreviewCommand::Close
    } else {
        PreviewCommand::Ignore
    }
}

/// Decodes one key of a keyboard event into a preview command.
pub fn decode_key(key: &str) -> (cmd: PreviewCommand)
    ensures
        cmd == key_command(key@),
{
    let owned = key.to_owned();
    if owned == "ArrowLeft".to_owned() {
        PreviewCommand::GoPrev
    } else if owned == "ArrowRight".to_owned() {
        PreviewCommand::GoNext
    } else if owned == "Escape".to_owned() {
        PreviewCommand::Close
    } else {
        PreviewCommand::Ignore
    }
}

/// Follows one horizontal drag on the preview surface. The drag
/// distance is purely presentational until release decides the outcome.
pub struct SwipeTracker {
    /// A touch is being followed.
    pub active: bool,
    /// Pointer position at touch-start; meaningful while `active`.
    pub start_x: i32,
    /// Current horizontal displacement since touch-start.
    pub drag_x: i64,
}

impl SwipeTracker {
    /// At rest.
    pub fn new() -> (t: Self)
        ensures
            !t.active,
            t.drag_x == 0,
    {
        SwipeTracker { active: false, start_x: 0, drag_x: 0 }
    }

    /// Touch-start: record the start position and begin following.
    pub fn touch_start(&mut self, x: i32)
        ensures
            final(self).active,
            final(self).start_x == x,
            final(self).drag_x == old(self).drag_x,
    {
        self.active = true;
        self.start_x = x;
    }

    /// Touch-move: while following, the displacement is the distance
    /// from the start position; ignored otherwise.
    pub fn touch_move(&mut self, x: i32)
        ensures
            final(self).active == old(self).active,
            final(self).start_x == old(self).start_x,
            final(self).drag_x as int == if old(self).active {
                x - old(self).start_x
            } else {
                old(self).drag_x as int
            },
    {
        if self.active {
            self.drag_x = x as i64 - self.start_x as i64;
        }
    }

    /// Touch-end: release decides the outcome from the displacement,
    /// and the tracker snaps back to rest. A release that never started
    /// does nothing.
    pub fn touch_end(&mut self) -> (cmd: PreviewCommand)
        ensures
            !final(self).active,
            final(self).drag_x == 0,
            cmd == if old(self).active {
                swipe_command(old(self).drag_x as int)
            } else {
                PreviewCommand::Ignore
            },
    {
        let cmd = if !self.active {
            PreviewCommand::Ignore
        } else if self.drag_x > SWIPE_THRESHOLD {
            PreviewCommand::GoPrev
        } else if self.drag_x < -SWIPE_THRESHOLD {
            PreviewCommand::GoNext
        } else {
            PreviewCommand::Ignore
        };
        self.active = false;
        self.drag_x = 0;
        cmd
    }
}

} // verus!
