//! Log-level selection from the command line's verbosity count.

use vstd::prelude::*;

verus! {

/// The log filter for a verbosity count: `info`, then `debug`, then `trace`.
pub open spec fn level_name(verbosity: u8) -> Seq<char> {
    if verbosity == 0 {
        "info"@
    } else if verbosity == 1 {
        "debug"@
    } else {
        "trace"@
    }
}

/// The log filter for `verbosity` repetitions of `-v`.
pub fn level_from_verbosity(verbosity: u8) -> (r: &'static str)
    ensures
        r@ == level_name(verbosity),
{
    if verbosity == 0 {
        "info"
    } else if verbosity == 1 {
        "debug"
    } else {
        "trace"
    }
}

} // verus!
