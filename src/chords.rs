use vstd::prelude::*;

use crate::buttons::ChordState;

verus! {

/// The external display-configuration program that switches modes.
pub const DISPLAY_TOOL: &'static str = "kscreen-doctor";

/// Summary line of every notification.
pub const NOTIFICATION_SUMMARY: &'static str = "CRT-Deck";

/// Application name attached to every notification.
pub const NOTIFICATION_APP_NAME: &'static str = "CRT-Deck";

/// Icon shown with every notification.
pub const NOTIFICATION_ICON: &'static str = "steamdeck-gaming-return";

/// A display mode that a chord switches to.
#[derive(Clone, Copy, Debug, PartialEq, Eq, Structural)]
pub enum Resolution {
    /// The panel's native mode, 800x1280 (shown as 1280x800) at 60 Hz:
    /// Right-Shoulder + Start.
    High,
    /// 640x480 at 60 Hz: Left-Shoulder + Start.
    Low,
}

/// The modes that an evaluation of `s` fires, in priority order: the
/// high-resolution chord first, then the low-resolution one; both where both
/// chords are held.
pub open spec fn chords_fired(s: ChordState) -> Seq<Resolution> {
    let high: Seq<Resolution> = if s.right_shoulder && s.start {
        seq![Resolution::High]
    } else {
        Seq::empty()
    };
    let low: Seq<Resolution> = if s.left_shoulder && s.start {
        seq![Resolution::Low]
    } else {
        Seq::empty()
    };
    high + low
}

/// Evaluates the held buttons against both chords and returns the modes to
/// switch to, each once, in priority order.
pub fn maybe_fire(s: &ChordState) -> (r: Vec<Resolution>)
    ensures
        r@ == chords_fired(*s),
{
    let mut r: Vec<Resolution> = Vec::new();
    if s.right_shoulder && s.start {
        r.push(Resolution::High);
    }
    if s.left_shoulder && s.start {
        r.push(Resolution::Low);
    }
    r
}

/// With all three buttons held, one evaluation fires both modes.
pub proof fn lemma_both_chords_fire(s: ChordState)
    requires
        s.right_shoulder,
        s.start,
        s.left_shoulder,
    ensures
        chords_fired(s) == seq![Resolution::High, Resolution::Low],
{
    assert(chords_fired(s) == seq![Resolution::High, Resolution::Low]);
}

impl Resolution {
    /// Body of the notification shown when switching to this mode.
    pub fn notification_body(&self) -> (r: &'static str)
        ensures
            r@ == (match self {
                Resolution::High => "Changing resolution to 1280x800@60"@,
                Resolution::Low => "Changing resolution to 640x480@60"@,
            }),
    {
        match self {
            Resolution::High => "Changing resolution to 1280x800@60",
            Resolution::Low => "Changing resolution to 640x480@60",
        }
    }

    /// The single argument handed to the display tool to select this mode.
    pub fn mode_argument(&self) -> (r: &'static str)
        ensures
            r@ == (match self {
                Resolution::High => "output.eDP.mode.800x1280@60"@,
                Resolution::Low => "output.eDP.mode.640x480@60"@,
            }),
    {
        match self {
            Resolution::High => "output.eDP.mode.800x1280@60",
            Resolution::Low => "output.eDP.mode.640x480@60",
        }
    }
}

} // verus!
