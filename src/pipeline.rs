use vstd::prelude::*;
use crate::codec::{base64_standard, encodable, encode_raster, is_base64_text, png_rgba8};
use crate::error::CaptureError;
use crate::raster::{crop_bytes, window_fits, Raster};
use crate::region::{crop_rect, selected_rect, CropRect};

verus! {

/// Whether the window that `region` selects lies inside a `width` by `height` raster.
pub open spec fn selection_fits(width: u32, height: u32, region: Option<[i32; 4]>) -> bool {
    let c = selected_rect(width, height, region);
    window_fits(width as nat, height as nat, c.x as nat, c.y as nat, c.w as nat, c.h as nat)
}

/// The RGBA bytes that `region` selects from a `width` pixels wide buffer.
pub open spec fn selected_bytes(width: u32, height: u32, pixels: Seq<u8>, region: Option<[i32; 4]>) -> Seq<u8> {
    let c = selected_rect(width, height, region);
    crop_bytes(pixels, width as nat, c.x as nat, c.y as nat, c.w as nat, c.h as nat)
}

/// The text that a successful capture of `region` returns for a frame.
pub open spec fn encoded_selection(width: u32, height: u32, pixels: Seq<u8>, region: Option<[i32; 4]>) -> Seq<char> {
    let c = selected_rect(width, height, region);
    base64_standard(png_rgba8(c.w, c.h, selected_bytes(width, height, pixels, region)))
}

/// The PNG stream that a successful capture of `region` encodes for a frame.
pub open spec fn selected_png(width: u32, height: u32, pixels: Seq<u8>, region: Option<[i32; 4]>) -> Seq<u8> {
    let c = selected_rect(width, height, region);
    png_rgba8(c.w, c.h, selected_bytes(width, height, pixels, region))
}

/// A capture of `region` from a `width` by `height` frame succeeds: the
/// selected window lies inside the frame and can be encoded.
pub open spec fn capture_succeeds(width: u32, height: u32, pixels: Seq<u8>, region: Option<[i32; 4]>) -> bool {
    let c = selected_rect(width, height, region);
    selection_fits(width, height, region) && encodable(c.w, c.h, selected_bytes(width, height, pixels, region))
}

/// Picks the capture source from the list of displays: the first one listed.
/// A failed listing is a capture failure; an empty list is `NoScreens`.
pub fn select_primary<T>(listed: Result<Vec<T>, String>) -> (r: Result<T, CaptureError>)
    ensures
        listed matches Err(m) ==> (r matches Err(CaptureError::CaptureFailed(d)) && d@ == m@),
        listed matches Ok(v) ==> (v@.len() == 0 ==> (r matches Err(e) && e is NoScreens)),
        listed matches Ok(v) ==> (v@.len() > 0 ==> (r matches Ok(t) && t == v@[0])),
{
    match listed {
        Err(m) => Err(CaptureError::CaptureFailed(m)),
        Ok(mut screens) => {
            if screens.len() == 0 {
                Err(CaptureError::NoScreens)
            } else {
                Ok(screens.remove(0))
            }
        },
    }
}

/// Cuts the requested region out of a raster and encodes it as base64 PNG
/// text, with the width and height of the cut.
pub fn capture_region_base64(src: &Raster, region: Option<[i32; 4]>) -> (r: Result<(String, u32, u32), CaptureError>)
    ensures
        !selection_fits(src.spec_width(), src.spec_height(), region) ==> (r matches Err(e) && e is CaptureFailed),
        selection_fits(src.spec_width(), src.spec_height(), region) ==> (r is Ok || (r matches Err(e) && e is EncodeFailed)),
        r is Ok <==> capture_succeeds(src.spec_width(), src.spec_height(), src.spec_pixels(), region),
        r matches Ok((s, w, h)) ==> w == selected_rect(src.spec_width(), src.spec_height(), region).w
            && h == selected_rect(src.spec_width(), src.spec_height(), region).h
            && s@ == encoded_selection(src.spec_width(), src.spec_height(), src.spec_pixels(), region)
            && is_base64_text(s@, selected_png(src.spec_width(), src.spec_height(), src.spec_pixels(), region).len()),
{
    let rect: CropRect = crop_rect(src.width(), src.height(), region);
    match src.crop(rect.x, rect.y, rect.w, rect.h) {
        Err(e) => Err(e),
        Ok(cut) => encode_raster(&cut),
    }
}

/// Runs the pipeline on the outcome of capturing a frame: a failed capture
/// or a buffer of the wrong length is a capture failure; otherwise the
/// requested region is cut out and encoded.
pub fn process_frame(frame: Result<(u32, u32, Vec<u8>), String>, region: Option<[i32; 4]>) -> (r: Result<(String, u32, u32), CaptureError>)
    ensures
        frame matches Err(m) ==> (r matches Err(CaptureError::CaptureFailed(d)) && d@ == m@),
        frame matches Ok((fw, fh, p)) ==> (p@.len() != (fw as nat) * (fh as nat) * 4
            ==> (r matches Err(e) && e is CaptureFailed)),
        frame matches Ok((fw, fh, p)) ==> (p@.len() == (fw as nat) * (fh as nat) * 4
            ==> (!selection_fits(fw, fh, region) ==> (r matches Err(e) && e is CaptureFailed))
            && (selection_fits(fw, fh, region) ==> (r is Ok || (r matches Err(e) && e is EncodeFailed)))
            && (r is Ok <==> capture_succeeds(fw, fh, p@, region))
            && (r matches Ok((s, w, h)) ==> w == selected_rect(fw, fh, region).w
                && h == selected_rect(fw, fh, region).h
                && s@ == encoded_selection(fw, fh, p@, region)
                && is_base64_text(s@, selected_png(fw, fh, p@, region).len()))),
{
    match frame {
        Err(m) => Err(CaptureError::CaptureFailed(m)),
        Ok((width, height, pixels)) => {
            match Raster::from_raw(width, height, pixels) {
                Err(e) => Err(e),
                Ok(img) => capture_region_base64(&img, region),
            }
        },
    }
}

} // verus!
