//! Virtual-terminal queries. Opening `/dev/ttyN` and the kernel state ioctl
//! are the caller's business; the policy around their results is here.

use vstd::prelude::*;

verus! {

/// What the active-terminal query reports when the console device cannot be
/// opened: a conservative fallback rather than a failure, since the query is
/// advisory.
pub const ACTIVE_TTY_FALLBACK: u16 = 2;

/// The active terminal number from the kernel query's result: the reported
/// number, or the fallback when the console device yielded no answer.
pub fn active_tty_or_fallback(query: Option<u16>) -> (r: u16)
    ensures
        match query {
            Some(v) => r == v,
            None => r == ACTIVE_TTY_FALLBACK,
        },
{
    match query {
        Some(v) => v,
        None => ACTIVE_TTY_FALLBACK,
    }
}

} // verus!
