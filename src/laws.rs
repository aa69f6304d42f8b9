use vstd::prelude::*;
use vstd::arithmetic::div_mod::lemma_fundamental_div_mod_converse;
use crate::codec::{base64_standard, png_rgba8};
use crate::pipeline::{capture_succeeds, encoded_selection, selected_bytes, selection_fits};
use crate::raster::{crop_bytes, window_fits, window_index};
use crate::region::{at_least, default_strip_left, selected_rect};

verus! {

/// A crop depends only on the bytes inside its window: two equally sized
/// buffers that agree there give the same cut, and so the same PNG stream.
/// In particular the same raster and window always give identical PNG bytes.
pub proof fn lemma_crop_reads_only_window(
    a: Seq<u8>,
    b: Seq<u8>,
    src_w: nat,
    src_h: nat,
    x: u32,
    y: u32,
    w: u32,
    h: u32,
)
    requires
        a.len() == src_w * src_h * 4,
        b.len() == src_w * src_h * 4,
        window_fits(src_w, src_h, x as nat, y as nat, w as nat, h as nat),
        forall|row: nat, c: nat| row < h && c < (w as nat) * 4
            ==> a[window_index(src_w, x as nat, y as nat, row, c) as int]
                == b[#[trigger] window_index(src_w, x as nat, y as nat, row, c) as int],
    ensures
        crop_bytes(a, src_w, x as nat, y as nat, w as nat, h as nat)
            == crop_bytes(b, src_w, x as nat, y as nat, w as nat, h as nat),
        png_rgba8(w, h, crop_bytes(a, src_w, x as nat, y as nat, w as nat, h as nat))
            == png_rgba8(w, h, crop_bytes(b, src_w, x as nat, y as nat, w as nat, h as nat)),
{
    let ca = crop_bytes(a, src_w, x as nat, y as nat, w as nat, h as nat);
    let cb = crop_bytes(b, src_w, x as nat, y as nat, w as nat, h as nat);
    assert forall|k: int| 0 <= k < ca.len() implies ca[k] == cb[k] by {
        let rl: int = (w as int) * 4;
        assert(k < (w as int) * (h as int) * 4);
        assert(w > 0) by (nonlinear_arith)
            requires 0 <= k < (w as int) * (h as int) * 4;
        assert(k / rl < h as int) by (nonlinear_arith)
            requires 0 <= k < (w as int) * (h as int) * 4, rl == (w as int) * 4;
        assert(0 <= k % rl < rl) by (nonlinear_arith)
            requires rl > 0;
        assert(k / rl >= 0) by (nonlinear_arith)
            requires k >= 0, rl > 0;
        let row = (k / rl) as nat;
        let c = (k % rl) as nat;
        assert(a[window_index(src_w, x as nat, y as nat, row, c) as int]
            == b[window_index(src_w, x as nat, y as nat, row, c) as int]);
    }
    assert(ca =~= cb);
}

/// Each pixel of a crop is the source pixel at the same offset from the
/// window's corner: channel `ch` of pixel `(i, j)` of the cut equals channel
/// `ch` of pixel `(x + i, y + j)` of the source.
pub proof fn lemma_crop_pixel(src: Seq<u8>, src_w: nat, src_h: nat, x: nat, y: nat, w: nat, h: nat, i: nat, j: nat, ch: nat)
    requires
        src.len() == src_w * src_h * 4,
        window_fits(src_w, src_h, x, y, w, h),
        i < w,
        j < h,
        ch < 4,
    ensures
        crop_bytes(src, src_w, x, y, w, h).len() == w * h * 4,
        crop_bytes(src, src_w, x, y, w, h)[((j * w + i) * 4 + ch) as int]
            == src[(((y + j) * src_w + (x + i)) * 4 + ch) as int],
{
    let k: int = ((j * w + i) * 4 + ch) as int;
    let rl: int = (w * 4) as int;
    assert(k == (j as int) * rl + ((i * 4 + ch) as int)) by (nonlinear_arith)
        requires k == ((j * w + i) * 4 + ch) as int, rl == (w * 4) as int;
    assert(i * 4 + ch < rl) by (nonlinear_arith)
        requires i < w, ch < 4, rl == (w * 4) as int;
    lemma_fundamental_div_mod_converse(k, rl, j as int, (i * 4 + ch) as int);
    assert(k < w * h * 4) by (nonlinear_arith)
        requires k == (j as int) * rl + ((i * 4 + ch) as int), i * 4 + ch < rl, j < h, rl == (w * 4) as int;
    assert(((y + j) * src_w + x) * 4 + (i * 4 + ch) == ((y + j) * src_w + (x + i)) * 4 + ch) by (nonlinear_arith);
}

/// Capturing the same region twice from an unchanged display gives the same
/// outcome: the second capture succeeds exactly when the first does, with the
/// same text, since both depend only on the frame's pixels inside the
/// selected window.
pub proof fn lemma_static_frame_same_text(
    width: u32,
    height: u32,
    first: Seq<u8>,
    second: Seq<u8>,
    region: Option<[i32; 4]>,
)
    requires
        first.len() == (width as nat) * (height as nat) * 4,
        second.len() == (width as nat) * (height as nat) * 4,
        selection_fits(width, height, region),
        ({
            let c = selected_rect(width, height, region);
            forall|row: nat, col: nat| row < c.h && col < (c.w as nat) * 4
                ==> first[window_index(width as nat, c.x as nat, c.y as nat, row, col) as int]
                    == second[#[trigger] window_index(width as nat, c.x as nat, c.y as nat, row, col) as int]
        }),
    ensures
        selected_bytes(width, height, first, region) == selected_bytes(width, height, second, region),
        encoded_selection(width, height, first, region) == encoded_selection(width, height, second, region),
        capture_succeeds(width, height, first, region) == capture_succeeds(width, height, second, region),
{
    let c = selected_rect(width, height, region);
    lemma_crop_reads_only_window(first, second, width as nat, height as nat, c.x, c.y, c.w, c.h);
}

/// An explicit region is never empty: after clamping its width and height
/// are at least 1, and its corner is the region's corner raised to 0.
pub proof fn lemma_clamped_region_nonempty(width: u32, height: u32, a: [i32; 4])
    ensures
        selected_rect(width, height, Some(a)).x as int == at_least(a@[0], 0),
        selected_rect(width, height, Some(a)).y as int == at_least(a@[1], 0),
        selected_rect(width, height, Some(a)).w as int == at_least(a@[2], 1) >= 1,
        selected_rect(width, height, Some(a)).h as int == at_least(a@[3], 1) >= 1,
{
}

/// The default strip always lies inside the frame, spans its full height,
/// and is non-empty whenever the frame is.
pub proof fn lemma_default_strip_fits(width: u32, height: u32)
    ensures
        selection_fits(width, height, None),
        selected_rect(width, height, None).x == default_strip_left(width),
        selected_rect(width, height, None).x + selected_rect(width, height, None).w == width,
        selected_rect(width, height, None).h == height,
        width > 0 && height > 0 ==> selected_rect(width, height, None).w > 0
            && selected_rect(width, height, None).h > 0,
{
}

} // verus!
