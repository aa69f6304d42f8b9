use vstd::prelude::*;
use vstd::arithmetic::div_mod::lemma_fundamental_div_mod_converse;
use crate::error::CaptureError;

verus! {

/// Byte `c` of row `row` of a `w`-pixel-wide window whose top-left corner sits
/// at `(x, y)` of an RGBA buffer that is `src_w` pixels wide.
pub open spec fn window_index(src_w: nat, x: nat, y: nat, row: nat, c: nat) -> nat {
    ((y + row) * src_w + x) * 4 + c
}

/// The RGBA bytes of the `w` by `h` window at `(x, y)` of a row-major RGBA
/// buffer that is `src_w` pixels wide, in row-major order.
pub open spec fn crop_bytes(src: Seq<u8>, src_w: nat, x: nat, y: nat, w: nat, h: nat) -> Seq<u8> {
    Seq::new(
        w * h * 4,
        |k: int| src[window_index(src_w, x, y, (k / (w * 4) as int) as nat, (k % (w * 4) as int) as nat) as int],
    )
}

/// Whether the `w` by `h` window at `(x, y)` lies inside a `src_w` by `src_h` raster.
pub open spec fn window_fits(src_w: nat, src_h: nat, x: nat, y: nat, w: nat, h: nat) -> bool {
    x + w <= src_w && y + h <= src_h
}

/// A width by height image held as row-major RGBA bytes, four per pixel.
pub struct Raster {
    width: u32,
    height: u32,
    pixels: Vec<u8>,
}

impl Raster {
    #[verifier::type_invariant]
    spec fn inv(&self) -> bool {
        self.pixels@.len() == (self.width as nat) * (self.height as nat) * 4
    }

    pub closed spec fn spec_width(&self) -> u32 {
        self.width
    }

    pub closed spec fn spec_height(&self) -> u32 {
        self.height
    }

    pub closed spec fn spec_pixels(&self) -> Seq<u8> {
        self.pixels@
    }

    /// The buffer holds exactly four bytes for each pixel.
    pub open spec fn wf(&self) -> bool {
        self.spec_pixels().len() == (self.spec_width() as nat) * (self.spec_height() as nat) * 4
    }

    /// Builds a raster from a raw RGBA buffer; a buffer of any length other
    /// than `width * height * 4` is refused as malformed capture data.
    pub fn from_raw(width: u32, height: u32, pixels: Vec<u8>) -> (r: Result<Raster, CaptureError>)
        ensures
            r is Ok <==> pixels@.len() == (width as nat) * (height as nat) * 4,
            r matches Ok(img) ==> img.spec_width() == width && img.spec_height() == height
                && img.spec_pixels() == pixels@ && img.wf(),
            r is Err ==> r->Err_0 is CaptureFailed,
    {
        let n: usize = pixels.len();
        proof {
            assert((width as nat) * (height as nat) <= (u32::MAX as nat) * (u32::MAX as nat)) by (nonlinear_arith)
                requires width <= u32::MAX, height <= u32::MAX;
        }
        let expected: u64 = (width as u64) * (height as u64);
        if expected <= (usize::MAX as u64) / 4 && pixels.len() == (expected as usize) * 4 {
            Ok(Raster { width, height, pixels })
        } else {
            proof {
                if pixels@.len() == (width as nat) * (height as nat) * 4 {
                    assert(n <= usize::MAX);
                }
            }
            Err(CaptureError::CaptureFailed("Failed to create image".to_owned()))
        }
    }

    pub fn width(&self) -> (r: u32)
        ensures
            r == self.spec_width(),
    {
        self.width
    }

    pub fn height(&self) -> (r: u32)
        ensures
            r == self.spec_height(),
    {
        self.height
    }

    pub fn pixels(&self) -> (r: &Vec<u8>)
        ensures
            r@ == self.spec_pixels(),
            self.wf(),
    {
        proof { use_type_invariant(self); }
        &self.pixels
    }

    /// Cuts out the `w` by `h` window whose top-left corner is `(x, y)`.
    /// A window that reaches past the raster's right or bottom edge is
    /// refused, never truncated.
    pub fn crop(&self, x: u32, y: u32, w: u32, h: u32) -> (r: Result<Raster, CaptureError>)
        ensures
            r is Ok <==> window_fits(self.spec_width() as nat, self.spec_height() as nat,
                x as nat, y as nat, w as nat, h as nat),
            r matches Ok(img) ==> img.spec_width() == w && img.spec_height() == h && img.wf()
                && img.spec_pixels() == crop_bytes(self.spec_pixels(), self.spec_width() as nat,
                    x as nat, y as nat, w as nat, h as nat),
            r is Err ==> r->Err_0 is CaptureFailed,
    {
        proof { use_type_invariant(self); }
        if x > self.width || w > self.width - x || y > self.height || h > self.height - y {
            return Err(CaptureError::CaptureFailed("Crop region exceeds image bounds".to_owned()));
        }
        if w == 0 || h == 0 {
            proof {
                assert(crop_bytes(self.pixels@, self.width as nat, x as nat, y as nat, w as nat, h as nat)
                    =~= Seq::<u8>::empty()) by (nonlinear_arith)
                    requires w == 0 || h == 0;
            }
            return Ok(Raster { width: w, height: h, pixels: Vec::new() });
        }
        let n: usize = self.pixels.len();
        let ghost sw = self.width as nat;
        let ghost sh = self.height as nat;
        let ghost src = self.pixels@;
        proof {
            assert((w as nat) * (h as nat) <= sw * sh) by (nonlinear_arith)
                requires w as nat <= sw, h as nat <= sh;
            assert((w as nat) <= (w as nat) * (h as nat)) by (nonlinear_arith)
                requires h >= 1;
        }
        let row_len: usize = (w as usize) * 4;
        proof {
            assert(row_len * (h as nat) <= sw * sh * 4) by (nonlinear_arith)
                requires row_len == (w as nat) * 4, (w as nat) * (h as nat) <= sw * sh;
        }
        let mut out: Vec<u8> = Vec::new();
        let mut row: usize = 0;
        while row < h as usize
            invariant
                row <= h,
                row_len == (w as nat) * 4,
                row_len > 0,
                n == src.len(),
                row_len * (h as nat) <= sw * sh * 4,
                src.len() == sw * sh * 4,
                self.pixels@ == src,
                self.width as nat == sw,
                self.height as nat == sh,
                x + w <= sw,
                y + h <= sh,
                out@.len() == row * row_len,
                forall|k: int| 0 <= k < out@.len() ==> #[trigger] out@[k] == src[window_index(
                    sw, x as nat, y as nat, (k / row_len as int) as nat, (k % row_len as int) as nat) as int],
            decreases h - row,
        {
            let src_row: usize = (y as usize) + row;
            proof {
                assert(src_row * sw + x + w <= sw * sh) by (nonlinear_arith)
                    requires src_row < sh, x + w <= sw;
                assert(sw * sh * 4 == n);
            }
            let start: usize = src_row * (self.width as usize) + (x as usize);
            let base: usize = start * 4;
            let mut c: usize = 0;
            while c < row_len
                invariant
                    row < h,
                    c <= row_len,
                    row_len == (w as nat) * 4,
                    row_len > 0,
                    base == window_index(sw, x as nat, y as nat, row as nat, 0),
                    base + row_len <= src.len(),
                    n == src.len(),
                    src.len() == sw * sh * 4,
                    self.pixels@ == src,
                    out@.len() == row * row_len + c,
                    forall|k: int| 0 <= k < out@.len() ==> #[trigger] out@[k] == src[window_index(
                        sw, x as nat, y as nat, (k / row_len as int) as nat, (k % row_len as int) as nat) as int],
                decreases row_len - c,
            {
                let ghost k = out@.len() as int;
                out.push(self.pixels[base + c]);
                proof {
                    lemma_fundamental_div_mod_converse(k, row_len as int, row as int, c as int);
                }
                c = c + 1;
            }
            proof {
                assert(out@.len() == (row + 1) * row_len) by (nonlinear_arith)
                    requires out@.len() == row * row_len + row_len;
            }
            row = row + 1;
        }
        proof {
            assert(out@.len() == (w as nat) * (h as nat) * 4) by (nonlinear_arith)
                requires out@.len() == (h as nat) * row_len, row_len == (w as nat) * 4;
            assert(out@ =~= crop_bytes(src, sw, x as nat, y as nat, w as nat, h as nat));
        }
        Ok(Raster { width: w, height: h, pixels: out })
    }
}

} // verus!
