//! Validation errors of the plotting boundary, with their messages.

use vstd::prelude::*;

verus! {

/// The validation failures that the boundary detects before any
/// rendering work is attempted.
#[derive(Clone, Copy, Debug, PartialEq, Eq, Structural)]
pub enum PlotError {
    /// The output-path reference was null.
    NullPath,
    /// The reference to the X coordinate array was null.
    NullXs,
    /// The reference to the Y coordinate array was null.
    NullYs,
    /// The declared point count was zero.
    ZeroCount,
    /// The output path was not valid UTF-8 text.
    PathNotUtf8,
    /// The requested raster width or height was zero.
    InvalidDimensions,
    /// An explicit X range with its lower bound not below its upper bound.
    InvalidXRange,
    /// An explicit Y range with its lower bound not below its upper bound.
    InvalidYRange,
}

/// The message text of each validation failure.
pub open spec fn spec_message(e: PlotError) -> Seq<char> {
    match e {
        PlotError::NullPath => "Path pointer is NULL"@,
        PlotError::NullXs => "X data pointer is NULL"@,
        PlotError::NullYs => "Y data pointer is NULL"@,
        PlotError::ZeroCount => "Point count (n) must be greater than zero"@,
        PlotError::PathNotUtf8 => "Path is not valid UTF-8"@,
        PlotError::InvalidDimensions => "Width and height must be greater than zero"@,
        PlotError::InvalidXRange => "Invalid X range: x_min must be less than x_max"@,
        PlotError::InvalidYRange => "Invalid Y range: y_min must be less than y_max"@,
    }
}

impl PlotError {
    /// The descriptive text reported for this failure.
    pub fn message(&self) -> (r: String)
        ensures
            r@ == spec_message(*self),
    {
        match self {
            PlotError::NullPath => String::from_str("Path pointer is NULL"),
            PlotError::NullXs => String::from_str("X data pointer is NULL"),
            PlotError::NullYs => String::from_str("Y data pointer is NULL"),
            PlotError::ZeroCount => String::from_str("Point count (n) must be greater than zero"),
            PlotError::PathNotUtf8 => String::from_str("Path is not valid UTF-8"),
            PlotError::InvalidDimensions => String::from_str(
                "Width and height must be greater than zero",
            ),
            PlotError::InvalidXRange => String::from_str(
                "Invalid X range: x_min must be less than x_max",
            ),
            PlotError::InvalidYRange => String::from_str(
                "Invalid Y range: y_min must be less than y_max",
            ),
        }
    }
}

/// Law: every validation failure carries a non-empty message, so a failing
/// call always leaves readable text behind.
pub proof fn lemma_message_nonempty(e: PlotError)
    ensures
        spec_message(e).len() > 0,
{
    reveal_strlit("Path pointer is NULL");
    reveal_strlit("X data pointer is NULL");
    reveal_strlit("Y data pointer is NULL");
    reveal_strlit("Point count (n) must be greater than zero");
    reveal_strlit("Path is not valid UTF-8");
    reveal_strlit("Width and height must be greater than zero");
    reveal_strlit("Invalid X range: x_min must be less than x_max");
    reveal_strlit("Invalid Y range: y_min must be less than y_max");
}

} // verus!
