//! The operating-system capability that selects each command's behaviour.

use vstd::prelude::*;

verus! {

/// The family of operating system the shell runs on.
#[derive(Clone, Copy, Debug, PartialEq, Eq, Structural)]
pub enum Platform {
    /// The system that offers scripted keystrokes, the accessibility permission
    /// and deep links into its privacy settings.
    MacOs,
    /// Any other system.
    Other,
}

impl Platform {
    /// Whether a paste keystroke can be synthesised through OS scripting.
    pub open spec fn automation_capable(self) -> bool {
        self == Platform::MacOs
    }

    /// Whether a paste keystroke can be synthesised through OS scripting.
    #[verifier::when_used_as_spec(automation_capable)]
    pub fn supports_automation(self) -> (capable: bool)
        ensures
            capable == self.automation_capable(),
    {
        match self {
            Platform::MacOs => true,
            Platform::Other => false,
        }
    }
}

} // verus!
