//! Color work on artwork pixels: the lightness-based exclusion filter, the
//! prominent-color extraction, the average color, and the named-swatch
//! classification used for UI theming.
//!
//! A pixel's HSL lightness is `(max + min) / 510` of its channels. The
//! filter excludes near-black pixels (lightness at most 2/100) and
//! near-white pixels (lightness at least 90/100); only the remaining pixels
//! feed the prominent-color extraction and the average.

use vstd::prelude::*;

use crate::events::NamedSwatch;
use crate::events::Rgb;

verus! {

/// The color used when no artwork is available or extraction yields nothing.
pub open spec fn default_color() -> Rgb {
    Rgb { r: 245, g: 245, b: 245 }
}

/// The largest of a pixel's three channels.
pub open spec fn channel_max(p: Rgb) -> int {
    if p.r >= p.g && p.r >= p.b {
        p.r as int
    } else if p.g >= p.b {
        p.g as int
    } else {
        p.b as int
    }
}

/// The smallest of a pixel's three channels.
pub open spec fn channel_min(p: Rgb) -> int {
    if p.r <= p.g && p.r <= p.b {
        p.r as int
    } else if p.g <= p.b {
        p.g as int
    } else {
        p.b as int
    }
}

/// HSL lightness times 510: lightness is `(max + min) / 510` exactly.
pub open spec fn lightness_numerator(p: Rgb) -> int {
    channel_max(p) + channel_min(p)
}

/// Lightness at most 2/100: `(max + min) / 510 <= 2 / 100`, cleared of
/// denominators.
pub open spec fn spec_is_black(p: Rgb) -> bool {
    100 * lightness_numerator(p) <= 2 * 510
}

/// Lightness at least 90/100: `(max + min) / 510 >= 90 / 100`, cleared of
/// denominators.
pub open spec fn spec_is_white(p: Rgb) -> bool {
    100 * lightness_numerator(p) >= 90 * 510
}

/// A pixel feeds the palette computation iff it is neither near-black nor
/// near-white.
pub open spec fn spec_pixel_allowed(p: Rgb) -> bool {
    !spec_is_black(p) && !spec_is_white(p)
}

/// The subsequence of pixels the exclusion filter lets through, in order.
pub open spec fn allowed_pixels(s: Seq<Rgb>) -> Seq<Rgb>
    decreases s.len(),
{
    if s.len() == 0 {
        Seq::empty()
    } else {
        let rest = allowed_pixels(s.drop_last());
        if spec_pixel_allowed(s.last()) {
            rest.push(s.last())
        } else {
            rest
        }
    }
}

/// Sum of the red channels.
pub open spec fn sum_red(s: Seq<Rgb>) -> int
    decreases s.len(),
{
    if s.len() == 0 {
        0
    } else {
        sum_red(s.drop_last()) + s.last().r
    }
}

/// Sum of the green channels.
pub open spec fn sum_green(s: Seq<Rgb>) -> int
    decreases s.len(),
{
    if s.len() == 0 {
        0
    } else {
        sum_green(s.drop_last()) + s.last().g
    }
}

/// Sum of the blue channels.
pub open spec fn sum_blue(s: Seq<Rgb>) -> int
    decreases s.len(),
{
    if s.len() == 0 {
        0
    } else {
        sum_blue(s.drop_last()) + s.last().b
    }
}

/// The channel-wise average color of a non-empty pixel sequence.
pub open spec fn spec_average(s: Seq<Rgb>) -> Rgb {
    Rgb {
        r: (sum_red(s) / s.len() as int) as u8,
        g: (sum_green(s) / s.len() as int) as u8,
        b: (sum_blue(s) / s.len() as int) as u8,
    }
}

/// What the prominent-color extraction returns on a pixel sequence: `None`
/// exactly when it yields no swatch. A deterministic function of the pixels.
pub uninterp spec fn prominent_color(pixels: Seq<Rgb>) -> Option<Rgb>;

/// A pixel as the extractor's histogram sees it: each channel reduced to the
/// quantizer's five-bit width.
pub open spec fn quantized(p: Rgb) -> Rgb {
    Rgb { r: p.r / 8, g: p.g / 8, b: p.b / 8 }
}

/// The distinct quantized colors of a pixel sequence, in order of first
/// appearance.
pub open spec fn distinct_quantized(s: Seq<Rgb>) -> Seq<Rgb>
    decreases s.len(),
{
    if s.len() == 0 {
        Seq::empty()
    } else {
        let rest = distinct_quantized(s.drop_last());
        if rest.contains(quantized(s.last())) {
            rest
        } else {
            rest.push(quantized(s.last()))
        }
    }
}

/// Whether the extractor can run safely on these pixels. With at most 16
/// distinct quantized colors its quantizer takes the histogram path (one
/// swatch per color); with more it splits color boxes, and the boxes'
/// min/max bookkeeping subtracts channel bounds backwards, which panics
/// under overflow checks. Those inputs are kept away from the call.
pub open spec fn extractor_safe(s: Seq<Rgb>) -> bool {
    distinct_quantized(s).len() <= 16
}

/// What the extraction step of the pipeline yields: the extractor's most
/// prominent color where it can run safely, and nothing otherwise (the
/// caller then falls back to the default color).
pub open spec fn extracted_prominent(s: Seq<Rgb>) -> Option<Rgb> {
    if extractor_safe(s) {
        prominent_color(s)
    } else {
        None
    }
}

/// Whether a pixel is near-black under the exclusion filter.
pub fn is_black(p: &Rgb) -> (b: bool)
    ensures
        b == spec_is_black(*p),
{
    let mx = if p.r >= p.g && p.r >= p.b {
        p.r
    } else if p.g >= p.b {
        p.g
    } else {
        p.b
    };
    let mn = if p.r <= p.g && p.r <= p.b {
        p.r
    } else if p.g <= p.b {
        p.g
    } else {
        p.b
    };
    100 * (mx as u32 + mn as u32) <= 1020
}

/// Whether a pixel is near-white under the exclusion filter.
pub fn is_white(p: &Rgb) -> (b: bool)
    ensures
        b == spec_is_white(*p),
{
    let mx = if p.r >= p.g && p.r >= p.b {
        p.r
    } else if p.g >= p.b {
        p.g
    } else {
        p.b
    };
    let mn = if p.r <= p.g && p.r <= p.b {
        p.r
    } else if p.g <= p.b {
        p.g
    } else {
        p.b
    };
    100 * (mx as u32 + mn as u32) >= 45900
}

/// Whether a pixel passes the exclusion filter.
pub fn is_allowed(p: &Rgb) -> (b: bool)
    ensures
        b == spec_pixel_allowed(*p),
{
    !is_black(p) && !is_white(p)
}

/// The filtered subsequence is never longer than its source.
pub proof fn lemma_allowed_pixels_len(s: Seq<Rgb>)
    ensures
        allowed_pixels(s).len() <= s.len(),
    decreases s.len(),
{
    if s.len() > 0 {
        lemma_allowed_pixels_len(s.drop_last());
    }
}

/// Law: the exclusion filter is sound and complete — what it keeps is
/// exactly the allowed pixels, in order, and no near-black or near-white
/// pixel survives into the palette computation.
pub proof fn lemma_allowed_pixels_exclude(s: Seq<Rgb>)
    ensures
        forall|i: int|
            0 <= i < allowed_pixels(s).len() ==> spec_pixel_allowed(
                #[trigger] allowed_pixels(s)[i],
            ),
    decreases s.len(),
{
    if s.len() > 0 {
        lemma_allowed_pixels_exclude(s.drop_last());
        let rest = allowed_pixels(s.drop_last());
        assert forall|i: int| 0 <= i < allowed_pixels(s).len() implies spec_pixel_allowed(
            #[trigger] allowed_pixels(s)[i],
        ) by {
            if spec_pixel_allowed(s.last()) && i == rest.len() {
                assert(allowed_pixels(s)[i] == s.last());
            } else {
                assert(allowed_pixels(s)[i] == rest[i]);
            }
        }
    }
}

/// Applies the exclusion filter: keeps exactly the pixels that are neither
/// near-black nor near-white, in order.
pub fn filter_allowed_pixels(pixels: &Vec<Rgb>) -> (r: Vec<Rgb>)
    ensures
        r@ == allowed_pixels(pixels@),
        r@.len() <= pixels@.len(),
{
    let mut out: Vec<Rgb> = Vec::new();
    let mut i: usize = 0;
    proof {
        assert(pixels@.take(0) =~= Seq::<Rgb>::empty());
    }
    while i < pixels.len()
        invariant
            i <= pixels@.len(),
            out@ == allowed_pixels(pixels@.take(i as int)),
        decreases pixels@.len() - i,
    {
        let p = pixels[i];
        proof {
            assert(pixels@.take(i + 1).drop_last() =~= pixels@.take(i as int));
            assert(pixels@.take(i + 1).last() == p);
            lemma_allowed_pixels_len(pixels@.take(i + 1));
        }
        if is_allowed(&p) {
            out.push(p);
        }
        i = i + 1;
    }
    proof {
        assert(pixels@.take(pixels@.len() as int) =~= pixels@);
        lemma_allowed_pixels_len(pixels@);
    }
    out
}

/// The channel-wise average of the pixels, or `None` when there are none.
pub fn average_color(pixels: &Vec<Rgb>) -> (avg: Option<Rgb>)
    ensures
        avg is Some <==> pixels@.len() > 0,
        pixels@.len() > 0 ==> avg == Some(spec_average(pixels@)),
{
    if pixels.len() == 0 {
        return None;
    }
    let mut rs: u128 = 0;
    let mut gs: u128 = 0;
    let mut bs: u128 = 0;
    let mut i: usize = 0;
    proof {
        assert(pixels@.take(0) =~= Seq::<Rgb>::empty());
    }
    while i < pixels.len()
        invariant
            i <= pixels@.len(),
            rs == sum_red(pixels@.take(i as int)),
            gs == sum_green(pixels@.take(i as int)),
            bs == sum_blue(pixels@.take(i as int)),
            rs <= 255 * i,
            gs <= 255 * i,
            bs <= 255 * i,
        decreases pixels@.len() - i,
    {
        let p = pixels[i];
        proof {
            assert(pixels@.take(i + 1).drop_last() =~= pixels@.take(i as int));
            assert(pixels@.take(i + 1).last() == p);
        }
        rs = rs + p.r as u128;
        gs = gs + p.g as u128;
        bs = bs + p.b as u128;
        i = i + 1;
    }
    proof {
        assert(pixels@.take(pixels@.len() as int) =~= pixels@);
    }
    let count = pixels.len() as u128;
    proof {
        assert(rs / count <= 255 && gs / count <= 255 && bs / count <= 255) by (nonlinear_arith)
            requires
                count > 0,
                rs <= 255 * count,
                gs <= 255 * count,
                bs <= 255 * count,
        ;
    }
    Some(Rgb { r: (rs / count) as u8, g: (gs / count) as u8, b: (bs / count) as u8 })
}

/// The number of reference swatches.
pub open spec fn swatch_count() -> int {
    14
}

/// The reference swatch at a list position.
pub open spec fn swatch_at(i: int) -> NamedSwatch {
    if i == 0 {
        NamedSwatch::Slate
    } else if i == 1 {
        NamedSwatch::Gray
    } else if i == 2 {
        NamedSwatch::Red
    } else if i == 3 {
        NamedSwatch::Orange
    } else if i == 4 {
        NamedSwatch::Amber
    } else if i == 5 {
        NamedSwatch::Yellow
    } else if i == 6 {
        NamedSwatch::Lime
    } else if i == 7 {
        NamedSwatch::Green
    } else if i == 8 {
        NamedSwatch::Teal
    } else if i == 9 {
        NamedSwatch::Sky
    } else if i == 10 {
        NamedSwatch::Blue
    } else if i == 11 {
        NamedSwatch::Violet
    } else if i == 12 {
        NamedSwatch::Fuchsia
    } else {
        NamedSwatch::Rose
    }
}

/// The representative color of each named swatch.
pub open spec fn swatch_color(s: NamedSwatch) -> Rgb {
    match s {
        NamedSwatch::Slate => Rgb { r: 100, g: 116, b: 139 },
        NamedSwatch::Gray => Rgb { r: 107, g: 114, b: 128 },
        NamedSwatch::Red => Rgb { r: 239, g: 68, b: 68 },
        NamedSwatch::Orange => Rgb { r: 249, g: 115, b: 22 },
        NamedSwatch::Amber => Rgb { r: 245, g: 158, b: 11 },
        NamedSwatch::Yellow => Rgb { r: 234, g: 179, b: 8 },
        NamedSwatch::Lime => Rgb { r: 132, g: 204, b: 22 },
        NamedSwatch::Green => Rgb { r: 34, g: 197, b: 94 },
        NamedSwatch::Teal => Rgb { r: 20, g: 184, b: 166 },
        NamedSwatch::Sky => Rgb { r: 14, g: 165, b: 233 },
        NamedSwatch::Blue => Rgb { r: 59, g: 130, b: 246 },
        NamedSwatch::Violet => Rgb { r: 139, g: 92, b: 246 },
        NamedSwatch::Fuchsia => Rgb { r: 217, g: 70, b: 239 },
        NamedSwatch::Rose => Rgb { r: 244, g: 63, b: 94 },
    }
}

/// Squared Euclidean distance between two colors in RGB space.
pub open spec fn color_distance2(a: Rgb, b: Rgb) -> int {
    (a.r - b.r) * (a.r - b.r) + (a.g - b.g) * (a.g - b.g) + (a.b - b.b) * (a.b - b.b)
}

/// The best swatch among the first `n` of the reference list: smallest
/// squared distance to `c`, earliest position winning ties.
pub open spec fn best_swatch_upto(c: Rgb, n: int) -> NamedSwatch
    decreases n,
{
    if n <= 1 {
        swatch_at(0)
    } else {
        let prev = best_swatch_upto(c, n - 1);
        if color_distance2(c, swatch_color(swatch_at(n - 1))) < color_distance2(
            c,
            swatch_color(prev),
        ) {
            swatch_at(n - 1)
        } else {
            prev
        }
    }
}

/// The named swatch a color is classified into.
pub open spec fn classify_spec(c: Rgb) -> NamedSwatch {
    best_swatch_upto(c, swatch_count())
}

/// The reference swatch at a list position.
fn swatch_of_index(i: usize) -> (s: NamedSwatch)
    requires
        i < swatch_count(),
    ensures
        s == swatch_at(i as int),
{
    if i == 0 {
        NamedSwatch::Slate
    } else if i == 1 {
        NamedSwatch::Gray
    } else if i == 2 {
        NamedSwatch::Red
    } else if i == 3 {
        NamedSwatch::Orange
    } else if i == 4 {
        NamedSwatch::Amber
    } else if i == 5 {
        NamedSwatch::Yellow
    } else if i == 6 {
        NamedSwatch::Lime
    } else if i == 7 {
        NamedSwatch::Green
    } else if i == 8 {
        NamedSwatch::Teal
    } else if i == 9 {
        NamedSwatch::Sky
    } else if i == 10 {
        NamedSwatch::Blue
    } else if i == 11 {
        NamedSwatch::Violet
    } else if i == 12 {
        NamedSwatch::Fuchsia
    } else {
        NamedSwatch::Rose
    }
}

/// The representative color of a named swatch.
pub fn reference_color(s: NamedSwatch) -> (c: Rgb)
    ensures
        c == swatch_color(s),
{
    match s {
        NamedSwatch::Slate => Rgb { r: 100, g: 116, b: 139 },
        NamedSwatch::Gray => Rgb { r: 107, g: 114, b: 128 },
        NamedSwatch::Red => Rgb { r: 239, g: 68, b: 68 },
        NamedSwatch::Orange => Rgb { r: 249, g: 115, b: 22 },
        NamedSwatch::Amber => Rgb { r: 245, g: 158, b: 11 },
        NamedSwatch::Yellow => Rgb { r: 234, g: 179, b: 8 },
        NamedSwatch::Lime => Rgb { r: 132, g: 204, b: 22 },
        NamedSwatch::Green => Rgb { r: 34, g: 197, b: 94 },
        NamedSwatch::Teal => Rgb { r: 20, g: 184, b: 166 },
        NamedSwatch::Sky => Rgb { r: 14, g: 165, b: 233 },
        NamedSwatch::Blue => Rgb { r: 59, g: 130, b: 246 },
        NamedSwatch::Violet => Rgb { r: 139, g: 92, b: 246 },
        NamedSwatch::Fuchsia => Rgb { r: 217, g: 70, b: 239 },
        NamedSwatch::Rose => Rgb { r: 244, g: 63, b: 94 },
    }
}

/// Squared Euclidean distance between two colors.
fn color_distance(a: &Rgb, b: &Rgb) -> (d: u32)
    ensures
        d == color_distance2(*a, *b),
{
    let dr = a.r as i32 - b.r as i32;
    let dg = a.g as i32 - b.g as i32;
    let db = a.b as i32 - b.b as i32;
    proof {
        assert(0 <= dr * dr <= 65025 && 0 <= dg * dg <= 65025 && 0 <= db * db <= 65025)
            by (nonlinear_arith)
            requires
                -255 <= dr <= 255,
                -255 <= dg <= 255,
                -255 <= db <= 255,
        ;
    }
    (dr * dr + dg * dg + db * db) as u32
}

/// Classifies a color into the named swatch whose representative color is
/// nearest in RGB space (earliest in the reference list on ties).
pub fn classify_color(c: &Rgb) -> (s: NamedSwatch)
    ensures
        s == classify_spec(*c),
{
    let mut best = swatch_of_index(0);
    let mut best_distance = color_distance(c, &reference_color(best));
    let mut i: usize = 1;
    while i < 14
        invariant
            1 <= i <= 14,
            best == best_swatch_upto(*c, i as int),
            best_distance == color_distance2(*c, swatch_color(best)),
        decreases 14 - i,
    {
        let candidate = swatch_of_index(i);
        let d = color_distance(c, &reference_color(candidate));
        if d < best_distance {
            best = candidate;
            best_distance = d;
        }
        i = i + 1;
    }
    best
}

/// Relies on prominence's color-cut quantizer (`PaletteBuilder::generate`
/// followed by `Palette::most_prominent_color`), with its built-in filter and
/// its image resizing both disabled, so that exactly the given pixels are
/// quantized. The quantizer histograms the pixels and sorts the quantized
/// colors, so its swatches — and hence the most prominent color — are a
/// deterministic function of the pixel sequence; on no pixels it yields no
/// swatch at all. Swatch colors come back in the quantizer's reduced
/// five-bit-per-channel space, as the extractor reports them.
///
/// The call is admitted only for inputs whose distinct quantized colors fit
/// the quantizer's color budget of 16: exactly then it takes its histogram
/// path and never constructs a split box, whose min/max bookkeeping can
/// subtract channel bounds backwards and abort.
#[verifier::external_body]
fn most_prominent_of_pixels(pixels: &Vec<Rgb>) -> (r: Option<Rgb>)
    requires
        pixels@.len() <= u32::MAX,
        extractor_safe(pixels@),
    ensures
        r == prominent_color(pixels@),
        pixels@.len() == 0 ==> r is None,
{
    let data: Vec<u8> = pixels.iter().flat_map(|p| [p.r, p.g, p.b]).collect();
    let Some(strip) = prominence::image::RgbImage::from_raw(pixels.len() as u32, 1, data) else {
        return None;
    };
    let palette = prominence::PaletteBuilder::from_image(strip)
        .resize_image_area(None)
        .clear_filters()
        .generate();
    palette.most_prominent_color().map(|(r, g, b)| Rgb { r, g, b })
}

/// The prominent color of an image under the exclusion filter: the pixels
/// that are neither near-black nor near-white feed the extraction, and
/// `None` comes back when it yields no swatch — because every pixel was
/// excluded, or because the pixels exceed the extractor's safe color budget
/// (see `extractor_safe`).
pub fn get_color_palette(img: &crate::image_data::Image) -> (r: Option<Rgb>)
    requires
        img.width() * img.height() <= u32::MAX,
    ensures
        r == extracted_prominent(allowed_pixels(img.pixels())),
{
    let pixels = img.pixel_data();
    let filtered = filter_allowed_pixels(pixels);
    if extractor_is_safe(&filtered) {
        most_prominent_of_pixels(&filtered)
    } else {
        None
    }
}

/// Whether a color is among those seen so far.
fn contains_rgb(seen: &Vec<Rgb>, color: &Rgb) -> (b: bool)
    ensures
        b == seen@.contains(*color),
{
    let mut i: usize = 0;
    while i < seen.len()
        invariant
            i <= seen@.len(),
            forall|j: int| 0 <= j < i ==> #[trigger] seen@[j] != *color,
        decreases seen@.len() - i,
    {
        if seen[i] == *color {
            return true;
        }
        i = i + 1;
    }
    false
}

/// A pixel reduced to the extractor's quantized color space.
fn quantize_pixel(p: &Rgb) -> (q: Rgb)
    ensures
        q == quantized(*p),
{
    Rgb { r: p.r / 8, g: p.g / 8, b: p.b / 8 }
}

/// A longer prefix never has fewer distinct quantized colors.
proof fn lemma_distinct_quantized_monotonic(s: Seq<Rgb>, i: int, j: int)
    requires
        0 <= i <= j <= s.len(),
    ensures
        distinct_quantized(s.take(i)).len() <= distinct_quantized(s.take(j)).len(),
    decreases j - i,
{
    if i < j {
        lemma_distinct_quantized_monotonic(s, i, j - 1);
        assert(s.take(j).drop_last() =~= s.take(j - 1));
    }
}

/// Decides whether the extractor can run safely on these pixels: counts the
/// distinct quantized colors, stopping as soon as the budget of 16 is
/// exceeded.
pub fn extractor_is_safe(pixels: &Vec<Rgb>) -> (b: bool)
    ensures
        b == extractor_safe(pixels@),
{
    let mut seen: Vec<Rgb> = Vec::new();
    let mut i: usize = 0;
    proof {
        assert(pixels@.take(0) =~= Seq::<Rgb>::empty());
    }
    while i < pixels.len()
        invariant
            i <= pixels@.len(),
            seen@ == distinct_quantized(pixels@.take(i as int)),
            seen@.len() <= 17,
        decreases pixels@.len() - i,
    {
        if seen.len() > 16 {
            proof {
                lemma_distinct_quantized_monotonic(pixels@, i as int, pixels@.len() as int);
                assert(pixels@.take(pixels@.len() as int) =~= pixels@);
            }
            return false;
        }
        let q = quantize_pixel(&pixels[i]);
        proof {
            assert(pixels@.take(i + 1).drop_last() =~= pixels@.take(i as int));
            assert(pixels@.take(i + 1).last() == pixels@[i as int]);
        }
        if !contains_rgb(&seen, &q) {
            seen.push(q);
        }
        i = i + 1;
    }
    proof {
        assert(pixels@.take(pixels@.len() as int) =~= pixels@);
    }
    seen.len() <= 16
}

/// The list position of each named swatch.
spec fn swatch_index(s: NamedSwatch) -> int {
    match s {
        NamedSwatch::Slate => 0,
        NamedSwatch::Gray => 1,
        NamedSwatch::Red => 2,
        NamedSwatch::Orange => 3,
        NamedSwatch::Amber => 4,
        NamedSwatch::Yellow => 5,
        NamedSwatch::Lime => 6,
        NamedSwatch::Green => 7,
        NamedSwatch::Teal => 8,
        NamedSwatch::Sky => 9,
        NamedSwatch::Blue => 10,
        NamedSwatch::Violet => 11,
        NamedSwatch::Fuchsia => 12,
        NamedSwatch::Rose => 13,
    }
}

/// The best swatch among the first `n` is at least as close as any of them.
proof fn lemma_best_upto_minimal(c: Rgb, n: int, i: int)
    requires
        0 <= i < n,
        n <= swatch_count(),
    ensures
        color_distance2(c, swatch_color(best_swatch_upto(c, n))) <= color_distance2(
            c,
            swatch_color(swatch_at(i)),
        ),
    decreases n,
{
    if n > 1 && i < n - 1 {
        lemma_best_upto_minimal(c, n - 1, i);
    }
}

/// Law: the classification picks a nearest swatch — no named swatch's
/// representative color is strictly closer to the input color than the
/// chosen one's.
pub proof fn lemma_classify_minimal(c: Rgb, s: NamedSwatch)
    ensures
        color_distance2(c, swatch_color(classify_spec(c))) <= color_distance2(
            c,
            swatch_color(s),
        ),
{
    lemma_best_upto_minimal(c, swatch_count(), swatch_index(s));
    assert(swatch_at(swatch_index(s)) == s);
}

} // verus!
