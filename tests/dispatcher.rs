use crt_deck::buttons::{Button, ChordState};
use crt_deck::chords::{
    maybe_fire, Resolution, DISPLAY_TOOL, NOTIFICATION_APP_NAME, NOTIFICATION_ICON,
    NOTIFICATION_SUMMARY,
};
use crt_deck::dispatch::{Dispatcher, InputEvent, Key, Reaction};
use crt_deck::failure::Failure;
use crt_deck::registry::DeviceRegistry;

fn fired(r: Reaction) -> Vec<Resolution> {
    match r {
        Reaction::Fire(modes) => modes,
        _ => Vec::new(),
    }
}

#[test]
fn replay_keeps_last_transition_per_button() {
    let mut s = ChordState::new();
    s.on_button_down(Button::RightShoulder);
    s.on_button_down(Button::Start);
    s.on_button_up(Button::RightShoulder);
    s.on_button_down(Button::LeftShoulder);
    s.on_button_down(Button::Other);
    s.on_button_up(Button::Other);
    s.on_button_up(Button::LeftShoulder);
    s.on_button_down(Button::LeftShoulder);
    assert_eq!(
        s,
        ChordState { right_shoulder: false, start: true, left_shoulder: true }
    );
    assert!(!s.is_held(Button::RightShoulder));
    assert!(s.is_held(Button::Start));
    assert!(s.is_held(Button::LeftShoulder));
    assert!(!s.is_held(Button::Other));
}

#[test]
fn untracked_press_is_ignored() {
    let mut s = ChordState { right_shoulder: true, start: true, left_shoulder: false };
    assert_eq!(s.on_button_down(Button::Other), None);
    assert_eq!(
        s,
        ChordState { right_shoulder: true, start: true, left_shoulder: false }
    );
    let mut d: Dispatcher<u32> = Dispatcher::new();
    d.handle(InputEvent::ButtonDown(0, Button::RightShoulder));
    d.handle(InputEvent::ButtonDown(0, Button::Start));
    assert_eq!(d.handle(InputEvent::ButtonDown(0, Button::Other)), Reaction::Idle);
}

#[test]
fn tracked_press_returns_new_state() {
    let mut s = ChordState::new();
    let r = s.on_button_down(Button::Start);
    assert_eq!(
        r,
        Some(ChordState { right_shoulder: false, start: true, left_shoulder: false })
    );
}

#[test]
fn right_shoulder_then_start_fires_once() {
    let mut d: Dispatcher<u32> = Dispatcher::new();
    let a = fired(d.handle(InputEvent::ButtonDown(0, Button::RightShoulder)));
    let b = fired(d.handle(InputEvent::ButtonDown(0, Button::Start)));
    assert!(a.is_empty());
    assert_eq!(b, vec![Resolution::High]);
}

#[test]
fn start_then_right_shoulder_fires_once() {
    let mut d: Dispatcher<u32> = Dispatcher::new();
    let a = fired(d.handle(InputEvent::ButtonDown(0, Button::Start)));
    let b = fired(d.handle(InputEvent::ButtonDown(1, Button::RightShoulder)));
    assert!(a.is_empty());
    assert_eq!(b, vec![Resolution::High]);
}

#[test]
fn left_shoulder_and_start_fire_low() {
    let mut d: Dispatcher<u32> = Dispatcher::new();
    assert_eq!(d.handle(InputEvent::ButtonDown(0, Button::LeftShoulder)), Reaction::Fire(vec![]));
    assert_eq!(
        d.handle(InputEvent::ButtonDown(0, Button::Start)),
        Reaction::Fire(vec![Resolution::Low])
    );
    assert_eq!(Resolution::Low.notification_body(), "Changing resolution to 640x480@60");
    assert_eq!(Resolution::Low.mode_argument(), "output.eDP.mode.640x480@60");
}

#[test]
fn release_then_press_start_fires_again() {
    let mut d: Dispatcher<u32> = Dispatcher::new();
    d.handle(InputEvent::ButtonDown(0, Button::RightShoulder));
    assert_eq!(fired(d.handle(InputEvent::ButtonDown(0, Button::Start))), vec![Resolution::High]);
    assert_eq!(d.handle(InputEvent::ButtonUp(0, Button::Start)), Reaction::Idle);
    assert_eq!(fired(d.handle(InputEvent::ButtonDown(0, Button::Start))), vec![Resolution::High]);
}

#[test]
fn release_never_fires() {
    let mut d: Dispatcher<u32> = Dispatcher::new();
    d.handle(InputEvent::ButtonDown(0, Button::RightShoulder));
    d.handle(InputEvent::ButtonDown(0, Button::Start));
    d.handle(InputEvent::ButtonDown(0, Button::LeftShoulder));
    assert_eq!(d.handle(InputEvent::ButtonUp(0, Button::LeftShoulder)), Reaction::Idle);
    assert_eq!(
        d.chord_state(),
        ChordState { right_shoulder: true, start: true, left_shoulder: false }
    );
}

#[test]
fn remove_unknown_device_is_noop() {
    let mut d: Dispatcher<u32> = Dispatcher::new();
    assert_eq!(d.handle(InputEvent::ControllerAdded(0)), Reaction::OpenDevice(0));
    assert_eq!(d.attach(0, 70), None);
    d.handle(InputEvent::ButtonDown(0, Button::Start));
    let before = d.chord_state();
    assert_eq!(d.handle(InputEvent::ControllerRemoved(5)), Reaction::Idle);
    assert_eq!(d.chord_state(), before);
    assert_eq!(d.device_count(), 1);
    assert!(d.has_device(0));
    assert!(!d.has_device(5));
    assert!(d.is_running());
}

#[test]
fn all_three_held_fires_both() {
    let mut d: Dispatcher<u32> = Dispatcher::new();
    d.handle(InputEvent::ButtonDown(0, Button::RightShoulder));
    d.handle(InputEvent::ButtonDown(1, Button::LeftShoulder));
    assert_eq!(
        fired(d.handle(InputEvent::ButtonDown(0, Button::Start))),
        vec![Resolution::High, Resolution::Low]
    );
    let all = ChordState { right_shoulder: true, start: true, left_shoulder: true };
    assert_eq!(maybe_fire(&all), vec![Resolution::High, Resolution::Low]);
    assert!(maybe_fire(&ChordState::new()).is_empty());
}

#[test]
fn end_to_end_high_resolution() {
    let mut d: Dispatcher<u32> = Dispatcher::new();
    let mut notifications: Vec<String> = Vec::new();
    let mut commands: Vec<(String, String)> = Vec::new();
    let events = vec![
        InputEvent::ControllerAdded(0),
        InputEvent::ButtonDown(0, Button::RightShoulder),
        InputEvent::ButtonDown(0, Button::Start),
    ];
    for ev in events {
        match d.handle(ev) {
            Reaction::OpenDevice(i) => {
                d.attach(i, i);
            }
            Reaction::Fire(modes) => {
                for m in modes {
                    notifications.push(m.notification_body().to_string());
                    commands.push((DISPLAY_TOOL.to_string(), m.mode_argument().to_string()));
                }
            }
            _ => {}
        }
    }
    assert_eq!(notifications, vec!["Changing resolution to 1280x800@60".to_string()]);
    assert_eq!(
        commands,
        vec![("kscreen-doctor".to_string(), "output.eDP.mode.800x1280@60".to_string())]
    );
    assert_eq!(d.device_count(), 1);
}

#[test]
fn notification_fields() {
    assert_eq!(NOTIFICATION_SUMMARY, "CRT-Deck");
    assert_eq!(NOTIFICATION_APP_NAME, "CRT-Deck");
    assert_eq!(NOTIFICATION_ICON, "steamdeck-gaming-return");
}

#[test]
fn quit_and_escape_terminate() {
    let mut d: Dispatcher<u32> = Dispatcher::new();
    assert_eq!(d.handle(InputEvent::KeyDown(Key::Other)), Reaction::Idle);
    assert_eq!(d.handle(InputEvent::Other), Reaction::Idle);
    assert!(d.is_running());
    assert_eq!(d.handle(InputEvent::KeyDown(Key::Escape)), Reaction::Stop);
    assert!(!d.is_running());
    assert_eq!(d.handle(InputEvent::ButtonDown(0, Button::Start)), Reaction::Stop);
    assert_eq!(d.chord_state(), ChordState::new());

    let mut q: Dispatcher<u32> = Dispatcher::new();
    assert_eq!(q.handle(InputEvent::Quit), Reaction::Stop);
    assert!(!q.is_running());
    assert_eq!(q.handle(InputEvent::ControllerAdded(2)), Reaction::Stop);
}

#[test]
fn removing_a_device_releases_its_handle() {
    let mut r: DeviceRegistry<u32> = DeviceRegistry::new();
    assert_eq!(r.on_device_added(3, 30), None);
    assert_eq!(r.on_device_added(3, 31), Some(30));
    assert_eq!(r.len(), 1);
    assert!(r.contains(3));
    assert_eq!(r.on_device_removed(3), Some(31));
    assert_eq!(r.on_device_removed(3), None);
    assert_eq!(r.len(), 0);

    let mut d: Dispatcher<u32> = Dispatcher::new();
    d.attach(1, 10);
    d.attach(2, 20);
    assert_eq!(d.handle(InputEvent::ControllerRemoved(1)), Reaction::Idle);
    assert!(!d.has_device(1));
    assert_eq!(d.device_count(), 1);
}

#[test]
fn only_subsystem_failure_is_fatal() {
    assert!(Failure::SubsystemInit.is_fatal());
    assert!(!Failure::DeviceOpen.is_fatal());
    assert!(!Failure::Notification.is_fatal());
    assert!(!Failure::ProcessSpawn.is_fatal());
    assert_eq!(Failure::DeviceOpen.describe(), "failed to open controller");
}
