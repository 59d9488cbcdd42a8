use vstd::prelude::*;

verus! {

/// What can go wrong around the dispatcher.
#[derive(Clone, Copy, Debug, PartialEq, Eq, Structural)]
pub enum Failure {
    /// The input subsystem or its event pump is unavailable.
    SubsystemInit,
    /// One controller could not be opened.
    DeviceOpen,
    /// A notification could not be shown.
    Notification,
    /// The display tool could not be launched.
    ProcessSpawn,
}

impl Failure {
    /// Only a failure to start the input subsystem ends the program; every
    /// other failure concerns one event, is logged, and the loop goes on.
    pub fn is_fatal(&self) -> (r: bool)
        ensures
            r == (*self == Failure::SubsystemInit),
    {
        match self {
            Failure::SubsystemInit => true,
            _ => false,
        }
    }

    /// A short description for the log.
    pub fn describe(&self) -> (r: &'static str)
        ensures
            r@ == (match self {
                Failure::SubsystemInit => "input subsystem unavailable"@,
                Failure::DeviceOpen => "failed to open controller"@,
                Failure::Notification => "failed to show notification"@,
                Failure::ProcessSpawn => "failed to launch display tool"@,
            }),
    {
        match self {
            Failure::SubsystemInit => "input subsystem unavailable",
            Failure::DeviceOpen => "failed to open controller",
            Failure::Notification => "failed to show notification",
            Failure::ProcessSpawn => "failed to launch display tool",
        }
    }
}

} // verus!
