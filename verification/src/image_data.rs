//! An owned RGB image: dimensions and a row-major pixel buffer.
//!
//! Artwork bytes are decoded into this type through the `image` crate; all
//! further pixel work (cropping, filtering, averaging) is done here on plain
//! values.

use vstd::prelude::*;

use crate::events::Rgb;

verus! {

/// What decoding a byte buffer as an RGB image yields: `None` when the bytes
/// are not a decodable image, otherwise the width, height and row-major
/// pixels. Decoding is a function of the bytes alone.
pub uninterp spec fn decoded_image(bytes: Seq<u8>) -> Option<(nat, nat, Seq<Rgb>)>;

/// `min(origin, bound)`: where a crop rectangle's edge lands once clamped
/// into an image of extent `bound`.
pub open spec fn clamped_origin(origin: nat, bound: nat) -> nat {
    if origin <= bound {
        origin
    } else {
        bound
    }
}

/// How much of a requested crop extent remains once the origin is clamped
/// into an image of extent `bound`.
pub open spec fn clamped_extent(extent: nat, origin: nat, bound: nat) -> nat {
    if extent <= bound - clamped_origin(origin, bound) {
        extent
    } else {
        (bound - clamped_origin(origin, bound)) as nat
    }
}

/// The row-major pixels of the rectangle at `(cx, cy)` of size `cw` by `ch`
/// inside a row-major buffer of row length `w`.
pub open spec fn crop_region(
    pixels: Seq<Rgb>,
    w: nat,
    cx: nat,
    cy: nat,
    cw: nat,
    ch: nat,
) -> Seq<Rgb> {
    Seq::new(cw * ch, |k: int| pixels[(cy + k / cw as int) * w + cx + (k % cw as int)])
}

/// A decoded image: `width * height` pixels in row-major order.
pub struct Image {
    width: usize,
    height: usize,
    pixels: Vec<Rgb>,
}

impl Image {
    /// The width in pixels.
    pub closed spec fn width(self) -> nat {
        self.width as nat
    }

    /// The height in pixels.
    pub closed spec fn height(self) -> nat {
        self.height as nat
    }

    /// The pixels, row by row.
    pub closed spec fn pixels(self) -> Seq<Rgb> {
        self.pixels@
    }

    /// The pixel in column `x` of row `y`.
    pub open spec fn pixel(self, x: int, y: int) -> Rgb {
        self.pixels()[y * self.width() + x]
    }

    #[verifier::type_invariant]
    spec fn inv(self) -> bool {
        self.pixels@.len() == self.width * self.height
    }

    /// Builds an image from its dimensions and row-major pixels.
    pub fn new(width: usize, height: usize, pixels: Vec<Rgb>) -> (img: Image)
        requires
            pixels@.len() == width * height,
        ensures
            img.width() == width,
            img.height() == height,
            img.pixels() == pixels@,
    {
        Image { width, height, pixels }
    }

    /// The width in pixels.
    pub fn get_width(&self) -> (w: usize)
        ensures
            w == self.width(),
    {
        self.width
    }

    /// The height in pixels.
    pub fn get_height(&self) -> (h: usize)
        ensures
            h == self.height(),
    {
        self.height
    }

    /// The row-major pixel buffer, together with the public fact that it
    /// holds exactly `width * height` pixels.
    pub fn pixel_data(&self) -> (v: &Vec<Rgb>)
        ensures
            v@ == self.pixels(),
            self.pixels().len() == self.width() * self.height(),
    {
        proof {
            use_type_invariant(self);
        }
        &self.pixels
    }

    /// The pixel in column `x` of row `y`.
    pub fn pixel_at(&self, x: usize, y: usize) -> (p: Rgb)
        requires
            x < self.width(),
            y < self.height(),
        ensures
            p == self.pixel(x as int, y as int),
    {
        proof {
            use_type_invariant(self);
        }
        let total = self.pixels.len();
        proof {
            assert(y * self.width + x < self.width * self.height) by (nonlinear_arith)
                requires
                    x < self.width,
                    y < self.height,
            ;
        }
        self.pixels[y * self.width + x]
    }

    /// A cut-out of this image delimited by the given rectangle, whose origin
    /// and extents are first clamped into the image's bounds (so a rectangle
    /// reaching past the edge is trimmed, and one starting outside the image
    /// is empty).
    pub fn crop(&self, x: usize, y: usize, width: usize, height: usize) -> (r: Image)
        ensures
            r.width() == clamped_extent(width as nat, x as nat, self.width()),
            r.height() == clamped_extent(height as nat, y as nat, self.height()),
            forall|i: int, j: int|
                0 <= i < r.width() && 0 <= j < r.height() ==> r.pixel(i, j) == self.pixel(
                    clamped_origin(x as nat, self.width()) + i,
                    clamped_origin(y as nat, self.height()) + j,
                ),
            r.pixels() == crop_region(
                self.pixels(),
                self.width(),
                clamped_origin(x as nat, self.width()),
                clamped_origin(y as nat, self.height()),
                r.width(),
                r.height(),
            ),
    {
        proof {
            use_type_invariant(self);
        }
        let total = self.pixels.len();
        let cx = if x <= self.width {
            x
        } else {
            self.width
        };
        let cy = if y <= self.height {
            y
        } else {
            self.height
        };
        let cw = if width <= self.width - cx {
            width
        } else {
            self.width - cx
        };
        let ch = if height <= self.height - cy {
            height
        } else {
            self.height - cy
        };
        let mut out: Vec<Rgb> = Vec::new();
        let mut j: usize = 0;
        while j < ch
            invariant
                self.pixels@.len() == self.width * self.height,
                self.width * self.height <= usize::MAX,
                cx + cw <= self.width,
                cy + ch <= self.height,
                j <= ch,
                out@.len() == j * cw,
                forall|jj: int, ii: int|
                    0 <= jj < j && 0 <= ii < cw ==> #[trigger] out@[jj * cw + ii]
                        == self.pixels@[(cy + jj) * (self.width as int) + cx + ii],
            decreases ch - j,
        {
            let mut i: usize = 0;
            proof {
                assert((j + 1) * cw == j * cw + cw) by (nonlinear_arith);
            }
            while i < cw
                invariant
                    self.pixels@.len() == self.width * self.height,
                    self.width * self.height <= usize::MAX,
                    cx + cw <= self.width,
                    cy + ch <= self.height,
                    j < ch,
                    i <= cw,
                    out@.len() == j * cw + i,
                    forall|jj: int, ii: int|
                        0 <= jj < j && 0 <= ii < cw ==> #[trigger] out@[jj * cw + ii]
                            == self.pixels@[(cy + jj) * (self.width as int) + cx + ii],
                    forall|ii: int|
                        0 <= ii < i ==> #[trigger] out@[j * cw + ii]
                            == self.pixels@[(cy + j) * (self.width as int) + cx + ii],
                decreases cw - i,
            {
                proof {
                    assert((cy + j) * self.width + cx + i < self.width * self.height)
                        by (nonlinear_arith)
                        requires
                            cy + j < self.height,
                            cx + i < self.width,
                    ;
                }
                out.push(self.pixels[(cy + j) * self.width + cx + i]);
                proof {
                    assert forall|jj: int, ii: int| 0 <= jj < j && 0 <= ii < cw implies #[trigger] out@[jj
                        * cw + ii] == self.pixels@[(cy + jj) * (self.width as int) + cx + ii] by {
                        assert(0 <= jj * cw + ii < j * cw) by (nonlinear_arith)
                            requires
                                0 <= jj < j,
                                0 <= ii < cw,
                        ;
                    }
                }
                i = i + 1;
            }
            j = j + 1;
        }
        proof {
            assert(out@.len() == cw * ch) by (nonlinear_arith)
                requires
                    out@.len() == (ch as int) * cw,
            ;
        }
        let r = Image { width: cw, height: ch, pixels: out };
        proof {
            assert forall|i: int, j2: int| 0 <= i < r.width() && 0 <= j2 < r.height() implies r.pixel(
                i,
                j2,
            ) == self.pixel(
                clamped_origin(x as nat, self.width()) + i,
                clamped_origin(y as nat, self.height()) + j2,
            ) by {
                assert(0 <= j2 * cw + i < (cw as int) * ch) by (nonlinear_arith)
                    requires
                        0 <= i < cw,
                        0 <= j2 < ch,
                ;
                assert(r.pixels()[j2 * cw + i] == self.pixels@[(cy + j2) * (self.width as int) + cx
                    + i]);
            }
            let region = crop_region(
                self.pixels(),
                self.width(),
                cx as nat,
                cy as nat,
                cw as nat,
                ch as nat,
            );
            assert forall|k: int| 0 <= k < region.len() implies r.pixels()[k] == region[k] by {
                let jj = k / cw as int;
                let ii = k % cw as int;
                assert(0 <= ii < cw && 0 <= jj < ch && k == jj * cw + ii) by (nonlinear_arith)
                    requires
                        cw > 0,
                        0 <= k < cw * ch,
                        jj == k / cw as int,
                        ii == k % cw as int,
                ;
                assert(out@[jj * cw + ii] == self.pixels@[(cy + jj) * (self.width as int) + cx
                    + ii]);
            }
            assert(r.pixels() =~= region);
        }
        r
    }
}

/// Relies on `image::load_from_memory` and `DynamicImage::to_rgb8`: decoding
/// is deterministic in the input bytes, and a decoded RGB8 buffer holds
/// exactly `width * height` pixels in row-major order, three bytes each.
#[verifier::external_body]
pub(crate) fn decode_rgb_image(bytes: &Vec<u8>) -> (r: Option<Image>)
    ensures
        r matches Some(img) ==> decoded_image(bytes@) == Some(
            (img.width(), img.height(), img.pixels()),
        ),
        r is None <==> decoded_image(bytes@) is None,
{
    match image::load_from_memory(bytes.as_slice()) {
        Ok(decoded) => {
            let rgb = decoded.to_rgb8();
            let (width, height) = rgb.dimensions();
            let pixels = rgb.pixels().map(|p| Rgb { r: p[0], g: p[1], b: p[2] }).collect();
            Some(Image { width: width as usize, height: height as usize, pixels })
        },
        Err(_) => None,
    }
}

} // verus!
