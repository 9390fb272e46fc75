//! Plain-value forms of what the Windows API hands back, and the checks that
//! the capture and input code applies to them.

use vstd::prelude::*;

verus! {

/// A failed Windows API call, carried by its `HRESULT` code.
#[derive(Clone, Copy, Debug, PartialEq, Eq, Structural)]
pub struct WindowsError {
    pub code: i32,
}

/// A raw handle value that the API returns as zero when nothing was found:
/// `None` for zero, the handle itself otherwise.
pub fn nonzero_handle(raw: isize) -> (h: Option<isize>)
    ensures
        h == (if raw == 0 { None } else { Some(raw) }),
{
    if raw == 0 {
        None
    } else {
        Some(raw)
    }
}

/// Both outputs of a call that fills two out-parameters, or `missing` when
/// either was left empty.
pub fn both_or<A, B, E>(first: Option<A>, second: Option<B>, missing: E) -> (r: Result<(A, B), E>)
    ensures
        r == (match (first, second) {
            (Some(a), Some(b)) => Ok((a, b)),
            _ => Err(missing),
        }),
{
    match first {
        Some(a) => match second {
            Some(b) => Ok((a, b)),
            None => Err(missing),
        },
        None => Err(missing),
    }
}

} // verus!
