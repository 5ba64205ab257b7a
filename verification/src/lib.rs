//! Verified core of a C-callable scatter-plot boundary.
//!
//! The library validates untrusted inputs, resolves the axis range of a
//! scatter plot, and keeps the single-slot error channel that a foreign
//! caller reads after a failing call. Pixel rendering itself belongs to
//! an external charting engine and stays outside this crate; the crate
//! states and proves the boundary's decisions: which inputs are rejected
//! and in which order, what range the plot uses, and what the error
//! channel holds after each call.

pub mod bits;
pub mod channel;
pub mod boundary;
pub mod errors;
pub mod pipeline;
pub mod range;
