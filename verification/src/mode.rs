//! The two input modes of a session.

use vstd::prelude::*;

verus! {

/// What the keyboard is for at the moment. The mode decides which keys are
/// listened to and which of the two panes is drawn highlighted.
#[derive(Clone, Copy, Debug, PartialEq, Eq, Structural)]
pub enum Mode {
    /// The keys edit the query.
    Query,
    /// The keys move about the results; the query is safe from them.
    Browse,
}

impl Mode {
    /// The other mode.
    pub open spec fn toggled(self) -> Mode {
        match self {
            Mode::Query => Mode::Browse,
            Mode::Browse => Mode::Query,
        }
    }

    /// The other mode.
    #[verifier::when_used_as_spec(toggled)]
    pub fn toggle(self) -> (other: Mode)
        ensures
            other == self.toggled(),
    {
        match self {
            Mode::Query => Mode::Browse,
            Mode::Browse => Mode::Query,
        }
    }
}

/// Switching twice leads back: the other mode of the other mode is the mode itself.
pub proof fn lemma_toggle_involutive(mode: Mode)
    ensures
        mode.toggled().toggled() == mode,
        mode.toggled() != mode,
{
}

} // verus!
