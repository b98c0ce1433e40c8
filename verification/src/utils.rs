//! Locating the target window.

use vstd::prelude::*;

verus! {

/// Makes sense of the answer to a window lookup by class and title.
///
/// The window system answers a lookup with the handle of a matching
/// top-level window, or with the null handle if no window matches. This
/// turns the null handle into `None`: "not found" is an outcome for the
/// host to deal with, not a handle to build an overlay on.
pub fn find_window(handle: usize) -> (target: Option<usize>)
    ensures
        target == (if handle == 0 {
            None
        } else {
            Some(handle)
        }),
{
    if handle == 0 {
        None
    } else {
        Some(handle)
    }
}

} // verus!
