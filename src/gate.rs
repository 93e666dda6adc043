//! The interactive confirmation gate that stands before every destructive
//! action: the decision is a function of the option the user picked.
use vstd::prelude::*;

verus! {

/// Position of the option that declines; it is also the preselected one.
pub const DECLINE_OPTION: usize = 0;

/// Position of the option that agrees to the destructive action.
pub const CONFIRM_OPTION: usize = 1;

/// A destructive action proceeds when the prompt is skipped, or on the option that agrees.
pub open spec fn proceeds(skip_confirmation: bool, choice: usize) -> bool {
    skip_confirmation || choice == CONFIRM_OPTION
}

/// Decides whether a destructive action may go ahead, given the waiver flag
/// and the index of the option that was chosen.
pub fn confirmed(skip_confirmation: bool, choice: usize) -> (r: bool)
    ensures
        r == proceeds(skip_confirmation, choice),
        !skip_confirmation && choice == DECLINE_OPTION ==> !r,
{
    skip_confirmation || choice == CONFIRM_OPTION
}

} // verus!
