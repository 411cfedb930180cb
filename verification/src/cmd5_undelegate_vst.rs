use vstd::prelude::*;

verus! {

/// A placeholder step between claiming and unrestaking: it does nothing and
/// hands over to unrestaking.
#[derive(Clone, Copy, PartialEq, Eq, Structural, Debug)]
pub struct UndelegateVSTCommand {}

impl Default for UndelegateVSTCommand {
    fn default() -> (r: Self)
        ensures
            r == (UndelegateVSTCommand {}),
    {
        UndelegateVSTCommand {}
    }
}

/// The (empty) result of the placeholder step.
#[derive(Clone, Copy, PartialEq, Eq, Structural, Debug)]
pub struct UndelegateVSTCommandResult {}

} // verus!
