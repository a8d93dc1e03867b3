use vstd::prelude::*;

verus! {

/// The phase the application is in.
#[derive(Clone, Copy, Debug, PartialEq, Eq, Structural)]
pub enum AppStatus {
    Init,
    Initialized,
    KeyBindMode,
    UserInput,
}

impl Default for AppStatus {
    fn default() -> (r: AppStatus)
        ensures
            r == AppStatus::Init,
    {
        AppStatus::Init
    }
}

impl AppStatus {
    /// The status of an application that has finished starting up.
    pub fn initialized() -> (r: AppStatus)
        ensures
            r == AppStatus::Initialized,
    {
        AppStatus::Initialized
    }

    /// Whether the application has finished starting up.
    pub fn is_initialized(&self) -> (r: bool)
        ensures
            r == (*self == AppStatus::Initialized),
    {
        match self {
            AppStatus::Initialized => true,
            _ => false,
        }
    }
}

} // verus!
