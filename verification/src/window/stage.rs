//! The lifecycle stage of one window: the single source of truth for what
//! the window handle may legally do.
use vstd::prelude::*;

verus! {

/// Lifecycle phase of one window. Stages move strictly forward: no
/// transition ever re-enters an earlier stage.
///
/// `Setup` and `Ready` precede the first message consumption; `Looping` is
/// the only stage in which native messages are delivered; `Closing` is
/// entered through a close request; `Destroyed` follows the native
/// resource's own teardown; `ExitLoop` is terminal.
#[derive(Clone, Copy, Debug, PartialEq, Eq, Structural)]
pub enum Stage {
    Setup,
    Ready,
    Looping,
    Closing,
    Destroyed,
    ExitLoop,
}

impl Stage {
    /// Position of a stage in the forward-only lifecycle order.
    pub open spec fn index(self) -> int {
        match self {
            Stage::Setup => 0,
            Stage::Ready => 1,
            Stage::Looping => 2,
            Stage::Closing => 3,
            Stage::Destroyed => 4,
            Stage::ExitLoop => 5,
        }
    }

    /// A close request has already been taken: the window is closing, or the
    /// native resource is already gone.
    pub open spec fn spec_is_closing(self) -> bool {
        self.index() >= Stage::Closing.index()
    }

    /// The native resource still exists, so commands may still be queued.
    pub open spec fn accepts_commands(self) -> bool {
        self.index() < Stage::Destroyed.index()
    }

    /// Executable test for [`Stage::accepts_commands`].
    pub fn commands_accepted(self) -> (r: bool)
        ensures
            r == self.accepts_commands(),
    {
        matches!(self, Stage::Setup | Stage::Ready | Stage::Looping | Stage::Closing)
    }

    /// Executable test for [`Stage::spec_is_closing`].
    #[verifier::when_used_as_spec(spec_is_closing)]
    pub fn is_closing(self) -> (r: bool)
        ensures
            r == self.spec_is_closing(),
    {
        matches!(self, Stage::Closing | Stage::Destroyed | Stage::ExitLoop)
    }
}

} // verus!
