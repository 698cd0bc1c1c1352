//! Rasterization planning.
//!
//! Turning a composed SVG document into a bitmap is the rasterizer's job,
//! outside this crate; what belongs here are its decisions. Given the
//! document's own size and the requested pixel width, the plan keeps the
//! source aspect ratio when deriving the target height, and rejects a
//! zero-size document as a typed, recoverable failure instead of a crash.
//! The caller maps whatever its rasterizer reports onto the same typed
//! failures.

use vstd::prelude::*;

verus! {

/// The typed failures of rasterization: a document the rasterizer cannot
/// parse, a document with zero width or height, and a bitmap buffer that
/// could not be allocated.
#[derive(Clone, Copy, Debug, PartialEq, Eq, Structural)]
pub enum RasterError {
    InvalidSvg,
    ZeroSize,
    Allocation,
}

impl RasterError {
    /// A short description of the failure.
    pub fn message(&self) -> (r: &'static str)
        ensures
            self is InvalidSvg ==> r@ == "failed to parse SVG"@,
            self is ZeroSize ==> r@ == "SVG has zero width or height"@,
            self is Allocation ==> r@ == "failed to allocate pixmap"@,
    {
        match self {
            RasterError::InvalidSvg => "failed to parse SVG",
            RasterError::ZeroSize => "SVG has zero width or height",
            RasterError::Allocation => "failed to allocate pixmap",
        }
    }
}

/// The target height that keeps the source aspect ratio: the target width
/// divided by the source's width-to-height ratio, in whole pixels,
/// saturated at the largest pixel count.
pub open spec fn plan_height(svg_w: int, svg_h: int, target_width: int) -> int {
    let th = target_width * svg_h / svg_w;
    if th > u32::MAX {
        u32::MAX as int
    } else {
        th
    }
}

/// Plans a rasterization: the source document measures `svg_w_milli` by
/// `svg_h_milli` milli-pixels and the bitmap is to be `target_width`
/// pixels wide. A zero-size source is rejected as `ZeroSize`; otherwise
/// the plan is the target width paired with the aspect-preserving target
/// height.
pub fn pixmap_plan(svg_w_milli: u64, svg_h_milli: u64, target_width: u32) -> (r: Result<
    (u32, u32),
    RasterError,
>)
    ensures
        r is Err <==> svg_w_milli == 0 || svg_h_milli == 0,
        r is Err ==> r == Result::<(u32, u32), RasterError>::Err(RasterError::ZeroSize),
        r is Ok ==> r->Ok_0.0 == target_width && r->Ok_0.1 as int == plan_height(
            svg_w_milli as int,
            svg_h_milli as int,
            target_width as int,
        ),
{
    if svg_w_milli == 0 || svg_h_milli == 0 {
        return Err(RasterError::ZeroSize);
    }
    proof {
        assert((target_width as int) * (svg_h_milli as int) <= 0xFFFF_FFFF * 0xFFFF_FFFF_FFFF_FFFF)
            by (nonlinear_arith)
            requires
                0 <= target_width as int <= 0xFFFF_FFFF,
                0 <= svg_h_milli as int <= 0xFFFF_FFFF_FFFF_FFFF,
        ;
    }
    let th: u128 = (target_width as u128) * (svg_h_milli as u128) / (svg_w_milli as u128);
    let target_height: u32 = if th > 0xFFFF_FFFF {
        0xFFFF_FFFF
    } else {
        th as u32
    };
    Ok((target_width, target_height))
}

} // verus!
