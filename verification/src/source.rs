//! The path source: which candidate paths a run checks.

use vstd::prelude::*;

verus! {

/// Choose the set of candidate paths for a run.  Explicit arguments, when
/// any were given, are checked exactly as listed and the walked entries are
/// ignored entirely; only with no arguments does the tree walk supply the
/// candidates.
pub fn select_paths(args: Vec<String>, walked: Vec<String>) -> (r: Vec<String>)
    ensures
        args@.len() > 0 ==> r == args,
        args@.len() == 0 ==> r == walked,
{
    if args.len() > 0 {
        args
    } else {
        walked
    }
}

} // verus!
