use vstd::prelude::*;

verus! {

/// A rectangle in device coordinates, as the operating system reports window
/// and display bounds: `(left, top)` is the origin, `(right, bottom)` the
/// opposite corner.
#[derive(Clone, Copy, Debug, PartialEq, Eq, Structural)]
pub struct PixelRect {
    pub left: i32,
    pub top: i32,
    pub right: i32,
    pub bottom: i32,
}

/// Width of a rectangle in pixels.
pub open spec fn rect_width(r: PixelRect) -> int {
    r.right - r.left
}

/// Height of a rectangle in pixels.
pub open spec fn rect_height(r: PixelRect) -> int {
    r.bottom - r.top
}

/// A rectangle is well formed when both sides are non-negative; a degenerate
/// (zero-area) rectangle is allowed and yields a zero-length pixel buffer.
pub open spec fn rect_wf(r: PixelRect) -> bool {
    rect_width(r) >= 0 && rect_height(r) >= 0
}

/// The rectangle can back a 32-bit-per-pixel bitmap file: both sides are
/// non-negative and the total file size `54 + 4*w*h` fits the 32-bit size
/// field of the file header.
pub open spec fn geom_ok(r: PixelRect) -> bool {
    rect_wf(r) && 54 + 4 * rect_width(r) * rect_height(r) <= u32::MAX
}

/// Decide `geom_ok` for a rectangle handed back by the operating system.
pub fn check_geom(r: &PixelRect) -> (b: bool)
    ensures
        b == geom_ok(*r),
{
    let w: i64 = r.right as i64 - r.left as i64;
    let h: i64 = r.bottom as i64 - r.top as i64;
    if w < 0 || h < 0 {
        return false;
    }
    let wu: u64 = w as u64;
    let hu: u64 = h as u64;
    proof {
        assert(wu * hu <= 0xFFFF_FFFFu64 * 0xFFFF_FFFFu64) by (nonlinear_arith)
            requires
                wu <= 0xFFFF_FFFFu64,
                hu <= 0xFFFF_FFFFu64,
        ;
    }
    let area: u64 = wu * hu;
    proof {
        assert(4 * rect_width(*r) * rect_height(*r) == 4 * (wu * hu)) by (nonlinear_arith)
            requires
                wu == rect_width(*r),
                hu == rect_height(*r),
        ;
    }
    area <= 1073741810
}

/// Width and height of a well-formed rectangle; each side of a device
/// rectangle always fits in 32 unsigned bits.
pub fn rect_size(r: &PixelRect) -> (wh: (u32, u32))
    requires
        rect_wf(*r),
    ensures
        wh.0 == rect_width(*r),
        wh.1 == rect_height(*r),
{
    let w: i64 = r.right as i64 - r.left as i64;
    let h: i64 = r.bottom as i64 - r.top as i64;
    (w as u32, h as u32)
}

/// The display's bounding rectangle, built from its metrics in pixels; this
/// is the measurement used when no window bounds the capture.
pub fn display_rect(width: i32, height: i32) -> (r: PixelRect)
    ensures
        r == (PixelRect { left: 0, top: 0, right: width, bottom: height }),
{
    PixelRect { left: 0, top: 0, right: width, bottom: height }
}

} // verus!
