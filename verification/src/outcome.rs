//! The tri-state result of checking one candidate path, and the reduction of
//! many such results to a process exit status.

use vstd::prelude::*;

verus! {

/// What checking one candidate path concluded.
///
/// `Pass`: the path is not a symlink, or is a symlink whose target exists.
/// `Fail`: the path is a symlink whose target could not be resolved.
/// `Error`: the path's own metadata could not be read at all.
#[derive(Clone, Copy, Debug, PartialEq, Eq, Structural)]
pub enum CheckOutcome {
    Pass,
    Fail,
    Error,
}

/// All outcomes in the sequence are `Pass`.
pub open spec fn all_pass(s: Seq<CheckOutcome>) -> bool {
    forall|i: int| 0 <= i < s.len() ==> s[i] is Pass
}

/// The process exit status owed for a complete set of outcomes: zero exactly
/// when every path passed, one as soon as any check failed or errored.
pub open spec fn spec_exit_status(s: Seq<CheckOutcome>) -> u8 {
    if all_pass(s) {
        0
    } else {
        1
    }
}

/// Reduce a complete set of per-path outcomes to the process exit status.
///
/// The reduction is a fold of "is any outcome not `Pass`"; the order of the
/// outcomes is irrelevant to the result.
pub fn exit_status(outcomes: &Vec<CheckOutcome>) -> (r: u8)
    ensures
        r == spec_exit_status(outcomes@),
        r == 0 <==> all_pass(outcomes@),
{
    let mut i: usize = 0;
    while i < outcomes.len()
        invariant
            i <= outcomes@.len(),
            forall|j: int| 0 <= j < i ==> outcomes@[j] is Pass,
        decreases outcomes@.len() - i,
    {
        let o = outcomes[i];
        if !(o == CheckOutcome::Pass) {
            return 1;
        }
        i += 1;
    }
    0
}

} // verus!
