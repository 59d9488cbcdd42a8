use vstd::prelude::*;

verus! {

/// A controller button, as far as chord detection cares.
#[derive(Clone, Copy, Debug, PartialEq, Eq, Structural)]
pub enum Button {
    RightShoulder,
    Start,
    LeftShoulder,
    /// Any button that takes part in no chord.
    Other,
}

/// Whether each of the three tracked buttons is currently held down.
///
/// One value is shared by every attached controller: a chord may be
/// completed by buttons of different controllers.
#[derive(Clone, Copy, Debug, PartialEq, Eq, Structural)]
pub struct ChordState {
    pub right_shoulder: bool,
    pub start: bool,
    pub left_shoulder: bool,
}

pub open spec fn is_tracked(b: Button) -> bool {
    b != Button::Other
}

/// The held flag of `b` in `s` (an untracked button is never held).
pub open spec fn is_held(s: ChordState, b: Button) -> bool {
    match b {
        Button::RightShoulder => s.right_shoulder,
        Button::Start => s.start,
        Button::LeftShoulder => s.left_shoulder,
        Button::Other => false,
    }
}

/// `s` with the flag of `b` set to `down`; unchanged for an untracked button.
pub open spec fn with_flag(s: ChordState, b: Button, down: bool) -> ChordState {
    match b {
        Button::RightShoulder => ChordState { right_shoulder: down, ..s },
        Button::Start => ChordState { start: down, ..s },
        Button::LeftShoulder => ChordState { left_shoulder: down, ..s },
        Button::Other => s,
    }
}

/// The state after applying each transition `(button, pressed)` in order.
pub open spec fn replay(s: ChordState, events: Seq<(Button, bool)>) -> ChordState
    decreases events.len(),
{
    if events.len() == 0 {
        s
    } else {
        let last = events.last();
        with_flag(replay(s, events.drop_last()), last.0, last.1)
    }
}

/// The last transition on `b` in `events`, or `initial` where there is none.
pub open spec fn last_transition(initial: bool, b: Button, events: Seq<(Button, bool)>) -> bool
    decreases events.len(),
{
    if events.len() == 0 {
        initial
    } else if events.last().0 == b {
        events.last().1
    } else {
        last_transition(initial, b, events.drop_last())
    }
}

/// After any sequence of transitions, each tracked button is held exactly
/// when its last transition was a press (its initial flag where it had none),
/// and transitions of untracked buttons change nothing.
pub proof fn lemma_replay_last_wins(s: ChordState, events: Seq<(Button, bool)>)
    ensures
        forall|b: Button|
            is_tracked(b) ==> #[trigger] is_held(replay(s, events), b) == last_transition(
                is_held(s, b),
                b,
                events,
            ),
        replay(s, events) == replay(s, events.filter(|e: (Button, bool)| is_tracked(e.0))),
    decreases events.len(),
{
    if events.len() > 0 {
        let rest = events.drop_last();
        lemma_replay_last_wins(s, rest);
        assert forall|b: Button| is_tracked(b) implies #[trigger] is_held(replay(s, events), b)
            == last_transition(is_held(s, b), b, events) by {
            assert(is_held(replay(s, rest), b) == last_transition(is_held(s, b), b, rest));
        }
        let counts = |e: (Button, bool)| is_tracked(e.0);
        reveal(Seq::filter);
        assert(events.drop_last() == rest);
        assert(events.filter(counts) == if counts(events.last()) {
            rest.filter(counts).push(events.last())
        } else {
            rest.filter(counts)
        });
        if counts(events.last()) {
            assert(events.filter(counts).drop_last() == rest.filter(counts));
        }
    }
}

impl ChordState {
    /// All three buttons released.
    pub open spec fn released() -> ChordState {
        ChordState { right_shoulder: false, start: false, left_shoulder: false }
    }

    pub fn new() -> (r: ChordState)
        ensures
            r == ChordState::released(),
    {
        ChordState { right_shoulder: false, start: false, left_shoulder: false }
    }

    /// Records a press of `button`. For a tracked button, returns the whole
    /// state after the press, to be evaluated against the chords; an
    /// untracked button changes nothing and returns `None`.
    pub fn on_button_down(&mut self, button: Button) -> (r: Option<ChordState>)
        ensures
            *final(self) == with_flag(*old(self), button, true),
            r == (if is_tracked(button) {
                Some(*final(self))
            } else {
                None::<ChordState>
            }),
    {
        match button {
            Button::RightShoulder => self.right_shoulder = true,
            Button::Start => self.start = true,
            Button::LeftShoulder => self.left_shoulder = true,
            Button::Other => return None,
        }
        Some(*self)
    }

    /// Records a release of `button`; an untracked button changes nothing.
    pub fn on_button_up(&mut self, button: Button)
        ensures
            *final(self) == with_flag(*old(self), button, false),
    {
        match button {
            Button::RightShoulder => self.right_shoulder = false,
            Button::Start => self.start = false,
            Button::LeftShoulder => self.left_shoulder = false,
            Button::Other => {},
        }
    }

    pub fn is_held(&self, button: Button) -> (r: bool)
        ensures
            r == is_held(*self, button),
    {
        match button {
            Button::RightShoulder => self.right_shoulder,
            Button::Start => self.start,
            Button::LeftShoulder => self.left_shoulder,
            Button::Other => false,
        }
    }
}

} // verus!
