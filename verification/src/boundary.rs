//! The boundary adapter's decisions: input validation order and the
//! mapping from a call's outcome to a status code and the error channel.
//!
//! The exported entry point itself handles raw references and crash
//! containment and lives outside this crate; it asks these functions
//! what to reject, in which order, and what to report.

use vstd::prelude::*;
use vstd::string::StringExecFns;

use crate::channel::{spec_sanitize, ErrorChannel};
use crate::errors::PlotError;

verus! {

/// Status code of a successful render call.
pub const STATUS_OK: i32 = 0;

/// Status code of a failed render call.
pub const STATUS_FAILURE: i32 = 1;

/// What the boundary rejects before any data is read, in this order: a
/// null path reference, a null X array, a null Y array, a zero count.
pub open spec fn spec_validate_pointers(
    path_null: bool,
    xs_null: bool,
    ys_null: bool,
    n: usize,
) -> Result<(), PlotError> {
    if path_null {
        Err(PlotError::NullPath)
    } else if xs_null {
        Err(PlotError::NullXs)
    } else if ys_null {
        Err(PlotError::NullYs)
    } else if n == 0 {
        Err(PlotError::ZeroCount)
    } else {
        Ok(())
    }
}

/// Validates the raw references and the declared point count, reporting
/// the first violation in boundary order; succeeds if and only if all
/// references are present and the count is at least one.
pub fn validate_pointers(path_null: bool, xs_null: bool, ys_null: bool, n: usize) -> (r: Result<
    (),
    PlotError,
>)
    ensures
        r == spec_validate_pointers(path_null, xs_null, ys_null, n),
{
    if path_null {
        Err(PlotError::NullPath)
    } else if xs_null {
        Err(PlotError::NullXs)
    } else if ys_null {
        Err(PlotError::NullYs)
    } else if n == 0 {
        Err(PlotError::ZeroCount)
    } else {
        Ok(())
    }
}

/// Law: a null path, a null X array or a null Y array is always
/// rejected, so no data is read and no engine work can follow.
pub proof fn lemma_null_inputs_rejected(path_null: bool, xs_null: bool, ys_null: bool, n: usize)
    requires
        path_null || xs_null || ys_null,
    ensures
        spec_validate_pointers(path_null, xs_null, ys_null, n) is Err,
{
}

/// Law: a zero point count with all references present is always
/// rejected, and its message (which names the count) is not empty.
pub proof fn lemma_zero_count_rejected(path_null: bool, xs_null: bool, ys_null: bool)
    requires
        !path_null,
        !xs_null,
        !ys_null,
    ensures
        spec_validate_pointers(path_null, xs_null, ys_null, 0) == Err::<(), PlotError>(
            PlotError::ZeroCount,
        ),
        crate::errors::spec_message(PlotError::ZeroCount).len() > 0,
{
    crate::errors::lemma_message_nonempty(PlotError::ZeroCount);
}

/// Maps a call's outcome to its status code and updates the error
/// channel: success returns zero and leaves the channel as it was
/// (empty, since the call cleared it on entry); failure stores the
/// sanitized message and returns one.
pub fn finish_call(ch: &mut ErrorChannel, outcome: Result<(), String>) -> (code: i32)
    ensures
        outcome is Ok ==> code == STATUS_OK && final(ch)@ == old(ch)@,
        outcome matches Err(msg) ==> code == STATUS_FAILURE && final(ch)@ == Some(
            spec_sanitize(msg@),
        ),
{
    match outcome {
        Ok(()) => STATUS_OK,
        Err(msg) => {
            ch.set(msg.as_str());
            STATUS_FAILURE
        },
    }
}

/// The message reported for a contained internal fault, with the fault's
/// own text attached when it carried any.
pub fn panic_message(detail: Option<&str>) -> (r: String)
    ensures
        match detail {
            Some(d) => r@ == "Internal panic: "@ + d@,
            None => r@ == "Internal panic (unknown cause)"@,
        },
{
    match detail {
        Some(d) => {
            let mut s = String::from_str("Internal panic: ");
            s.append(d);
            s
        },
        None => String::from_str("Internal panic (unknown cause)"),
    }
}

} // verus!
