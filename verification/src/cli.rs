use vstd::prelude::*;

verus! {

/// The two orphan-management operations.
#[derive(Clone, Copy, Debug, PartialEq, Eq, Structural)]
pub enum Orphans {
    List,
    Remove,
}

impl Default for Orphans {
    /// Removing orphans is what `orphans` does when neither operation is
    /// named.
    fn default() -> (r: Self)
        ensures
            r == Orphans::Remove,
    {
        Orphans::Remove
    }
}

/// The stderr log verbosity for the chosen flag: informational messages by
/// default, debug messages as well when verbose output was requested.
pub fn verbosity(verbose: bool) -> (r: usize)
    ensures
        r == if verbose {
            3usize
        } else {
            2usize
        },
{
    if verbose {
        3
    } else {
        2
    }
}

} // verus!
