use vstd::prelude::*;

use crate::buttons::{is_tracked, with_flag, Button, ChordState};
use crate::chords::{chords_fired, lemma_both_chords_fire, maybe_fire, Resolution};
use crate::registry::DeviceRegistry;

verus! {

/// A key of the keyboard, as far as the dispatcher cares.
#[derive(Clone, Copy, Debug, PartialEq, Eq, Structural)]
pub enum Key {
    Escape,
    Other,
}

/// One input event, as delivered by the input subsystem.
#[derive(Clone, Copy, Debug, PartialEq, Eq, Structural)]
pub enum InputEvent {
    Quit,
    KeyDown(Key),
    /// A controller was attached at this device index.
    ControllerAdded(u32),
    /// The controller at this device index was detached.
    ControllerRemoved(u32),
    /// A button went down on the controller at this device index.
    ButtonDown(u32, Button),
    /// A button went up on the controller at this device index.
    ButtonUp(u32, Button),
    /// Any event that the dispatcher ignores.
    Other,
}

/// What the dispatcher asks of its caller after one event.
#[derive(Clone, Debug, PartialEq, Eq)]
pub enum Reaction {
    /// Leave the event loop: the dispatcher has terminated.
    Stop,
    /// Open the controller at this index and hand its handle to `attach`.
    OpenDevice(u32),
    /// Switch to each of these modes in order (notify, then launch the
    /// display tool); an empty list fires nothing.
    Fire(Vec<Resolution>),
    /// Nothing to do.
    Idle,
}

/// The mathematical value of a `Reaction`.
pub enum ReactionView {
    Stop,
    OpenDevice(u32),
    Fire(Seq<Resolution>),
    Idle,
}

impl View for Reaction {
    type V = ReactionView;

    open spec fn view(&self) -> ReactionView {
        match self {
            Reaction::Stop => ReactionView::Stop,
            Reaction::OpenDevice(i) => ReactionView::OpenDevice(*i),
            Reaction::Fire(modes) => ReactionView::Fire(modes@),
            Reaction::Idle => ReactionView::Idle,
        }
    }
}

/// The mathematical value of a `Dispatcher`.
pub struct DispatcherView<H> {
    pub running: bool,
    pub chords: ChordState,
    pub devices: Map<u32, H>,
}

/// The state after handling `ev` in `v`.
pub open spec fn next_state<H>(v: DispatcherView<H>, ev: InputEvent) -> DispatcherView<H> {
    if !v.running {
        v
    } else {
        match ev {
            InputEvent::Quit | InputEvent::KeyDown(Key::Escape) => DispatcherView {
                running: false,
                ..v
            },
            InputEvent::ControllerRemoved(i) => DispatcherView {
                devices: v.devices.remove(i),
                ..v
            },
            InputEvent::ButtonDown(_, b) => DispatcherView {
                chords: with_flag(v.chords, b, true),
                ..v
            },
            InputEvent::ButtonUp(_, b) => DispatcherView {
                chords: with_flag(v.chords, b, false),
                ..v
            },
            _ => v,
        }
    }
}

/// What handling `ev` in `v` asks of the caller.
pub open spec fn reaction<H>(v: DispatcherView<H>, ev: InputEvent) -> ReactionView {
    if !v.running {
        ReactionView::Stop
    } else {
        match ev {
            InputEvent::Quit | InputEvent::KeyDown(Key::Escape) => ReactionView::Stop,
            InputEvent::ControllerAdded(i) => ReactionView::OpenDevice(i),
            InputEvent::ButtonDown(_, b) => if is_tracked(b) {
                ReactionView::Fire(chords_fired(with_flag(v.chords, b, true)))
            } else {
                ReactionView::Idle
            },
            _ => ReactionView::Idle,
        }
    }
}

/// The modes that handling `ev` in `v` fires.
pub open spec fn fired<H>(v: DispatcherView<H>, ev: InputEvent) -> Seq<Resolution> {
    match reaction(v, ev) {
        ReactionView::Fire(modes) => modes,
        _ => Seq::empty(),
    }
}

/// The event loop's state: whether it still runs, the shared chord state of
/// all controllers, and the open controller handles.
pub struct Dispatcher<H> {
    running: bool,
    chords: ChordState,
    registry: DeviceRegistry<H>,
}

impl<H> View for Dispatcher<H> {
    type V = DispatcherView<H>;

    closed spec fn view(&self) -> DispatcherView<H> {
        DispatcherView { running: self.running, chords: self.chords, devices: self.registry@ }
    }
}

impl<H> Dispatcher<H> {
    /// Running, all buttons released, no controller open.
    pub fn new() -> (r: Dispatcher<H>)
        ensures
            r@.running,
            r@.chords == ChordState::released(),
            r@.devices == Map::<u32, H>::empty(),
    {
        Dispatcher { running: true, chords: ChordState::new(), registry: DeviceRegistry::new() }
    }

    /// Handles one event. Once terminated, every event answers `Stop` and
    /// changes nothing.
    pub fn handle(&mut self, ev: InputEvent) -> (r: Reaction)
        ensures
            final(self)@ == next_state(old(self)@, ev),
            r@ == reaction(old(self)@, ev),
    {
        if !self.running {
            return Reaction::Stop;
        }
        match ev {
            InputEvent::Quit | InputEvent::KeyDown(Key::Escape) => {
                self.running = false;
                Reaction::Stop
            },
            InputEvent::KeyDown(Key::Other) => Reaction::Idle,
            InputEvent::ControllerAdded(i) => Reaction::OpenDevice(i),
            InputEvent::ControllerRemoved(i) => {
                let _released = self.registry.on_device_removed(i);
                Reaction::Idle
            },
            InputEvent::ButtonDown(_, b) => match self.chords.on_button_down(b) {
                Some(s) => Reaction::Fire(maybe_fire(&s)),
                None => Reaction::Idle,
            },
            InputEvent::ButtonUp(_, b) => {
                self.chords.on_button_up(b);
                Reaction::Idle
            },
            InputEvent::Other => Reaction::Idle,
        }
    }

    /// Stores the handle that the caller opened for `index` after an
    /// `OpenDevice` reaction; a handle already stored there is handed back.
    pub fn attach(&mut self, index: u32, handle: H) -> (replaced: Option<H>)
        ensures
            final(self)@ == (DispatcherView {
                devices: old(self)@.devices.insert(index, handle),
                ..old(self)@
            }),
            replaced == (if old(self)@.devices.contains_key(index) {
                Some(old(self)@.devices[index])
            } else {
                None::<H>
            }),
    {
        self.registry.on_device_added(index, handle)
    }

    pub fn is_running(&self) -> (r: bool)
        ensures
            r == self@.running,
    {
        self.running
    }

    pub fn chord_state(&self) -> (r: ChordState)
        ensures
            r == self@.chords,
    {
        self.chords
    }

    pub fn has_device(&self, index: u32) -> (r: bool)
        ensures
            r == self@.devices.contains_key(index),
    {
        self.registry.contains(index)
    }

    /// The number of open controller handles.
    pub fn device_count(&self) -> (r: usize)
        ensures
            r == self@.devices.len(),
    {
        self.registry.len()
    }
}

/// From all buttons released, pressing Right-Shoulder and then Start fires
/// the high-resolution mode exactly once over the two presses, and so does
/// pressing them in the other order; the controllers that send the presses
/// do not matter.
pub proof fn lemma_chord_order_independent<H>(v: DispatcherView<H>, i: u32, j: u32)
    requires
        v.running,
        v.chords == ChordState::released(),
    ensures
        ({
            let first = InputEvent::ButtonDown(i, Button::RightShoulder);
            let second = InputEvent::ButtonDown(j, Button::Start);
            fired(v, first) + fired(next_state(v, first), second) == seq![Resolution::High]
        }),
        ({
            let first = InputEvent::ButtonDown(i, Button::Start);
            let second = InputEvent::ButtonDown(j, Button::RightShoulder);
            fired(v, first) + fired(next_state(v, first), second) == seq![Resolution::High]
        }),
{
    let e: Seq<Resolution> = Seq::empty();
    assert(e + seq![Resolution::High] == seq![Resolution::High]);
    assert(seq![Resolution::High] + e == seq![Resolution::High]);
    assert(e + e == e);
}

/// After a chord has fired, releasing Start and pressing it again while
/// Right-Shoulder is still held fires the high-resolution mode again; with
/// Left-Shoulder released it fires that mode alone.
pub proof fn lemma_refire_after_release<H>(v: DispatcherView<H>, i: u32, j: u32)
    requires
        v.running,
        v.chords.right_shoulder,
        v.chords.start,
    ensures
        ({
            let up = InputEvent::ButtonUp(i, Button::Start);
            let down = InputEvent::ButtonDown(j, Button::Start);
            let again = fired(next_state(v, up), down);
            &&& again.len() >= 1
            &&& again[0] == Resolution::High
            &&& !v.chords.left_shoulder ==> again == seq![Resolution::High]
        }),
{
    let e: Seq<Resolution> = Seq::empty();
    assert(seq![Resolution::High] + e == seq![Resolution::High]);
}

/// Removing a device index that holds no handle changes nothing: not the
/// open handles, not the chord state, not whether the loop runs.
pub proof fn lemma_remove_unknown_device<H>(v: DispatcherView<H>, i: u32)
    requires
        !v.devices.contains_key(i),
    ensures
        next_state(v, InputEvent::ControllerRemoved(i)) == v,
        fired(v, InputEvent::ControllerRemoved(i)) == Seq::<Resolution>::empty(),
{
    assert(v.devices.remove(i) == v.devices);
}

/// A tracked press that leaves all three buttons held fires both modes in
/// one evaluation, the high-resolution one first.
pub proof fn lemma_all_held_fires_both<H>(v: DispatcherView<H>, i: u32, b: Button)
    requires
        v.running,
        is_tracked(b),
        ({
            let s = with_flag(v.chords, b, true);
            s.right_shoulder && s.start && s.left_shoulder
        }),
    ensures
        fired(v, InputEvent::ButtonDown(i, b)) == seq![Resolution::High, Resolution::Low],
{
    lemma_both_chords_fire(with_flag(v.chords, b, true));
}

} // verus!
