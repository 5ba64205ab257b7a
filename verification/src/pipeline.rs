//! The render pipeline's fixed steps and their failure messages.
//!
//! The external charting engine performs the pixel work; this module
//! fixes the order of the engine steps, the layout constants handed to
//! the engine, and the exact text reported when a step fails. A step's
//! failure aborts the remaining steps.

use vstd::prelude::*;
use vstd::string::StringExecFns;

verus! {

/// Outer margin of the plot area, in pixels.
pub const MARGIN_PX: u32 = 10;

/// Height of the bottom label area, in pixels.
pub const X_LABEL_AREA_PX: u32 = 40;

/// Width of the left label area, in pixels.
pub const Y_LABEL_AREA_PX: u32 = 50;

/// Point size of the tick labels.
pub const TICK_LABEL_PT: u32 = 14;

/// Point size of the axis titles.
pub const AXIS_LABEL_PT: u32 = 16;

/// The engine steps of one render, in the order they run.
#[derive(Clone, Copy, Debug, PartialEq, Eq, Structural)]
pub enum RenderStage {
    /// Fill the freshly opened raster with the white background.
    FillBackground,
    /// Build the 2-D Cartesian coordinate system over the resolved range.
    BuildChart,
    /// Draw ticks, gridlines and axis labels.
    DrawMesh,
    /// Draw one filled circular marker per point, in input order.
    DrawPoints,
    /// Encode and write the raster to the output path.
    Present,
}

/// The text a failing step's report starts with.
pub open spec fn spec_stage_prefix(s: RenderStage) -> Seq<char> {
    match s {
        RenderStage::FillBackground => "Failed to fill background: "@,
        RenderStage::BuildChart => "Failed to build chart: "@,
        RenderStage::DrawMesh => "Failed to draw mesh: "@,
        RenderStage::DrawPoints => "Failed to draw points: "@,
        RenderStage::Present => "Failed to write PNG: "@,
    }
}

/// The message reported when an engine step fails: the step's prefix
/// with the engine's own diagnostic text attached.
pub fn stage_error(s: RenderStage, detail: &str) -> (r: String)
    ensures
        r@ == spec_stage_prefix(s) + detail@,
{
    let mut out = match s {
        RenderStage::FillBackground => String::from_str("Failed to fill background: "),
        RenderStage::BuildChart => String::from_str("Failed to build chart: "),
        RenderStage::DrawMesh => String::from_str("Failed to draw mesh: "),
        RenderStage::DrawPoints => String::from_str("Failed to draw points: "),
        RenderStage::Present => String::from_str("Failed to write PNG: "),
    };
    out.append(detail);
    out
}

} // verus!
