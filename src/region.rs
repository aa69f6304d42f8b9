use vstd::prelude::*;

verus! {

/// A crop window in raster coordinates: top-left corner `(x, y)`, size `w` by `h`.
#[derive(Debug, Clone, Copy, PartialEq, Eq, Structural)]
pub struct CropRect {
    pub x: u32,
    pub y: u32,
    pub w: u32,
    pub h: u32,
}

/// `v`, raised to `lo` where it lies below.
pub open spec fn at_least(v: i32, lo: i32) -> i32 {
    if v < lo { lo } else { v }
}

/// Left edge of the default strip: the floor of 80% of the width.
pub open spec fn default_strip_left(width: u32) -> nat {
    (width as nat) * 4 / 5
}

/// The window that a request selects on a `width` by `height` raster.
/// An explicit region `[x, y, w, h]` has its corner raised to 0 and its size
/// raised to 1; no region selects the full-height strip over the rightmost
/// fifth of the width.
pub open spec fn selected_rect(width: u32, height: u32, region: Option<[i32; 4]>) -> CropRect {
    match region {
        Some(a) => CropRect {
            x: at_least(a@[0], 0) as u32,
            y: at_least(a@[1], 0) as u32,
            w: at_least(a@[2], 1) as u32,
            h: at_least(a@[3], 1) as u32,
        },
        None => CropRect {
            x: default_strip_left(width) as u32,
            y: 0,
            w: (width - default_strip_left(width)) as u32,
            h: height,
        },
    }
}

/// Computes the crop window for a request on a `width` by `height` raster.
pub fn crop_rect(width: u32, height: u32, region: Option<[i32; 4]>) -> (r: CropRect)
    ensures
        r == selected_rect(width, height, region),
        region matches Some(a) ==> r.x == at_least(a@[0], 0) && r.y == at_least(a@[1], 0)
            && r.w == at_least(a@[2], 1) && r.h == at_least(a@[3], 1),
        region is None ==> r.x == default_strip_left(width) && r.y == 0
            && r.x + r.w == width && r.h == height,
{
    match region {
        Some(a) => {
            let x: i32 = if a[0] < 0 { 0 } else { a[0] };
            let y: i32 = if a[1] < 0 { 0 } else { a[1] };
            let w: i32 = if a[2] < 1 { 1 } else { a[2] };
            let h: i32 = if a[3] < 1 { 1 } else { a[3] };
            CropRect { x: x as u32, y: y as u32, w: w as u32, h: h as u32 }
        },
        None => {
            let left: u32 = ((width as u64) * 4 / 5) as u32;
            CropRect { x: left, y: 0, w: width - left, h: height }
        },
    }
}

} // verus!
