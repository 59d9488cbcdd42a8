//! Controller chord dispatcher: tracks attached game controllers and the held
//! state of three buttons, and decides which display-mode change a button
//! press asks for.

pub mod buttons;
pub mod chords;
pub mod registry;
pub mod dispatch;
pub mod failure;
