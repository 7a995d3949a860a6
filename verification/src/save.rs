use vstd::prelude::*;

use crate::geometry::fits_i32;

verus! {

/// Lower-case mapping of a string, as `str::to_lowercase` computes it.
pub uninterp spec fn lowercase(s: Seq<char>) -> Seq<char>;

/// The ASCII lower-case form of `c`: `A` to `Z` mapped to `a` to `z`, every
/// other character kept.
pub open spec fn ascii_lower(c: char) -> char {
    if 'A' <= c <= 'Z' {
        ((c as u32) + 32) as char
    } else {
        c
    }
}

/// Every character of `s` in its ASCII lower-case form.
pub open spec fn ascii_lowercase(s: Seq<char>) -> Seq<char> {
    s.map_values(|c: char| ascii_lower(c))
}

/// `str::to_lowercase`: the contract claims that the result is the
/// lower-case mapping of the argument, a function of the argument alone,
/// and that on an all-ASCII argument this mapping lower-cases `A` to `Z`
/// one character for one and keeps every other character; which mapping
/// Unicode defines for other characters is left unsaid.
#[verifier::external_body]
fn to_lowercase(s: &str) -> (r: String)
    ensures
        r@ == lowercase(s@),
        vstd::utf8::is_ascii_chars(s@) ==> r@ == ascii_lowercase(s@),
{
    s.to_lowercase()
}

/// `s` ends with `suffix`.
pub open spec fn ends_with_spec(s: Seq<char>, suffix: Seq<char>) -> bool {
    suffix.len() <= s.len() && s.subrange(s.len() - suffix.len(), s.len() as int) == suffix
}

/// Whether `s` ends with `suffix`.
pub fn ends_with(s: &str, suffix: &str) -> (b: bool)
    ensures
        b == ends_with_spec(s@, suffix@),
{
    let n = s.unicode_len();
    let m = suffix.unicode_len();
    if m > n {
        return false;
    }
    let mut i: usize = 0;
    while i < m
        invariant
            n == s@.len(),
            m == suffix@.len(),
            m <= n,
            0 <= i <= m,
            forall|j: int| 0 <= j < i ==> s@[n - m + j] == suffix@[j],
        decreases m - i,
    {
        if s.get_char(n - m + i) != suffix.get_char(i) {
            assert(s@.subrange(n - m, n as int)[i as int] != suffix@[i as int]);
            return false;
        }
        i = i + 1;
    }
    assert(s@.subrange(n - m, n as int) =~= suffix@);
    true
}

/// The path names a JPEG file: its lower-cased form ends in `.jpg` or
/// `.jpeg`.
pub open spec fn jpeg_path(path: Seq<char>) -> bool {
    ends_with_spec(lowercase(path), ".jpg"@) || ends_with_spec(lowercase(path), ".jpeg"@)
}

/// Whether the path names a JPEG file.
pub fn is_jpeg_path(path: &str) -> (b: bool)
    ensures
        b == jpeg_path(path@),
        vstd::utf8::is_ascii_chars(path@) ==> b == (ends_with_spec(ascii_lowercase(path@), ".jpg"@)
            || ends_with_spec(ascii_lowercase(path@), ".jpeg"@)),
{
    let lower = to_lowercase(path);
    ends_with(lower.as_str(), ".jpg") || ends_with(lower.as_str(), ".jpeg")
}

/// BGRA pixels as RGBA: the first and third byte of each whole four-byte
/// pixel swapped; a trailing partial pixel is dropped.
pub open spec fn bgra_to_rgba_spec(p: Seq<u8>, r: Seq<u8>) -> bool {
    &&& r.len() == (p.len() / 4) * 4
    &&& forall|i: int|
        0 <= i < p.len() / 4 ==> {
            &&& #[trigger] r[4 * i] == p[4 * i + 2]
            &&& r[4 * i + 1] == p[4 * i + 1]
            &&& r[4 * i + 2] == p[4 * i]
            &&& r[4 * i + 3] == p[4 * i + 3]
        }
}

/// Swapping the first and third byte twice gives the pixels back: converting
/// BGRA to RGBA and then converting the result the same way again yields the
/// starting whole pixels.
pub proof fn lemma_swap_twice(p: Seq<u8>, r: Seq<u8>, q: Seq<u8>)
    requires
        bgra_to_rgba_spec(p, r),
        bgra_to_rgba_spec(r, q),
    ensures
        q == p.subrange(0, ((p.len() / 4) * 4) as int),
{
    let n = (p.len() / 4) as int;
    assert(r.len() / 4 == n);
    assert forall|k: int| 0 <= k < q.len() implies q[k] == p.subrange(0, n * 4)[k] by {
        let i = k / 4;
        assert(0 <= i < n);
        assert(k == 4 * i || k == 4 * i + 1 || k == 4 * i + 2 || k == 4 * i + 3);
        assert(r[4 * i] == p[4 * i + 2]);
        assert(q[4 * i] == r[4 * i + 2]);
    }
    assert(q =~= p.subrange(0, n * 4));
}

/// Convert BGRA pixel data to RGBA.
pub fn bgra_to_rgba(pixels: &[u8]) -> (r: Vec<u8>)
    ensures
        bgra_to_rgba_spec(pixels@, r@),
{
    let mut out: Vec<u8> = Vec::with_capacity(pixels.len());
    let n = pixels.len() / 4;
    assert(4 * n <= pixels@.len());
    assert(pixels@.len() == pixels.len());
    let mut i: usize = 0;
    while i < n
        invariant
            n == pixels@.len() / 4,
            4 * n <= pixels@.len(),
            pixels@.len() <= usize::MAX,
            0 <= i <= n,
            out@.len() == 4 * i,
            forall|j: int|
                0 <= j < i ==> {
                    &&& #[trigger] out@[4 * j] == pixels@[4 * j + 2]
                    &&& out@[4 * j + 1] == pixels@[4 * j + 1]
                    &&& out@[4 * j + 2] == pixels@[4 * j]
                    &&& out@[4 * j + 3] == pixels@[4 * j + 3]
                },
        decreases n - i,
    {
        let ghost prev = out@;
        let b = 4 * i;
        out.push(pixels[b + 2]);
        out.push(pixels[b + 1]);
        out.push(pixels[b]);
        out.push(pixels[b + 3]);
        assert(out@ == prev + seq![pixels@[b + 2], pixels@[b + 1], pixels@[b as int], pixels@[b + 3]]);
        assert forall|j: int| 0 <= j < i + 1 implies {
            &&& #[trigger] out@[4 * j] == pixels@[4 * j + 2]
            &&& out@[4 * j + 1] == pixels@[4 * j + 1]
            &&& out@[4 * j + 2] == pixels@[4 * j]
            &&& out@[4 * j + 3] == pixels@[4 * j + 3]
        } by {
            if j < i {
                assert(out@[4 * j] == prev[4 * j]);
                assert(out@[4 * j + 1] == prev[4 * j + 1]);
                assert(out@[4 * j + 2] == prev[4 * j + 2]);
                assert(out@[4 * j + 3] == prev[4 * j + 3]);
            }
        }
        i = i + 1;
    }
    out
}

/// RGBA pixels as RGB: the alpha byte of each whole four-byte pixel dropped.
pub open spec fn rgba_to_rgb_spec(p: Seq<u8>, r: Seq<u8>) -> bool {
    &&& r.len() == (p.len() / 4) * 3
    &&& forall|i: int|
        0 <= i < p.len() / 4 ==> {
            &&& #[trigger] r[3 * i] == p[4 * i]
            &&& r[3 * i + 1] == p[4 * i + 1]
            &&& r[3 * i + 2] == p[4 * i + 2]
        }
}

/// Convert RGBA pixel data to RGB (JPEG has no alpha).
pub fn rgba_to_rgb(rgba: &[u8]) -> (r: Vec<u8>)
    ensures
        rgba_to_rgb_spec(rgba@, r@),
{
    let mut out: Vec<u8> = Vec::new();
    let n = rgba.len() / 4;
    assert(4 * n <= rgba@.len());
    assert(rgba@.len() == rgba.len());
    let mut i: usize = 0;
    while i < n
        invariant
            n == rgba@.len() / 4,
            4 * n <= rgba@.len(),
            rgba@.len() <= usize::MAX,
            0 <= i <= n,
            out@.len() == 3 * i,
            forall|j: int|
                0 <= j < i ==> {
                    &&& #[trigger] out@[3 * j] == rgba@[4 * j]
                    &&& out@[3 * j + 1] == rgba@[4 * j + 1]
                    &&& out@[3 * j + 2] == rgba@[4 * j + 2]
                },
        decreases n - i,
    {
        let ghost prev = out@;
        let b = 4 * i;
        out.push(rgba[b]);
        out.push(rgba[b + 1]);
        out.push(rgba[b + 2]);
        assert(out@ == prev + seq![rgba@[b as int], rgba@[b + 1], rgba@[b + 2]]);
        assert forall|j: int| 0 <= j < i + 1 implies {
            &&& #[trigger] out@[3 * j] == rgba@[4 * j]
            &&& out@[3 * j + 1] == rgba@[4 * j + 1]
            &&& out@[3 * j + 2] == rgba@[4 * j + 2]
        } by {
            if j < i {
                assert(out@[3 * j] == prev[3 * j]);
                assert(out@[3 * j + 1] == prev[3 * j + 1]);
                assert(out@[3 * j + 2] == prev[3 * j + 2]);
            }
        }
        i = i + 1;
    }
    out
}

/// BGRA pixels as RGB: of each whole four-byte pixel, the third, second and
/// first byte.
pub open spec fn bgra_to_rgb_spec(p: Seq<u8>, r: Seq<u8>) -> bool {
    &&& r.len() == (p.len() / 4) * 3
    &&& forall|i: int|
        0 <= i < p.len() / 4 ==> {
            &&& #[trigger] r[3 * i] == p[4 * i + 2]
            &&& r[3 * i + 1] == p[4 * i + 1]
            &&& r[3 * i + 2] == p[4 * i]
        }
}

/// Pixel layout of the buffer handed to the image encoder.
#[derive(Clone, Copy, Debug, PartialEq, Eq, Structural)]
pub enum PixelLayout {
    Rgb8,
    Rgba8,
}

/// What to hand to the image encoder to save an image.
pub struct SavePlan {
    pub pixels: Vec<u8>,
    pub width: u32,
    pub height: u32,
    pub layout: PixelLayout,
}

/// Prepare BGRA pixels for saving to `path`: RGB for a JPEG path, RGBA
/// otherwise (the encoder then picks the format from the path's extension).
pub fn plan_save(path: &str, pixels: &[u8], width: i32, height: i32) -> (p: SavePlan)
    requires
        jpeg_path(path@) ==> fits_i32(width * height * 3),
    ensures
        p.width == width as u32,
        p.height == height as u32,
        jpeg_path(path@) ==> p.layout == PixelLayout::Rgb8 && bgra_to_rgb_spec(pixels@, p.pixels@),
        !jpeg_path(path@) ==> p.layout == PixelLayout::Rgba8 && bgra_to_rgba_spec(pixels@, p.pixels@),
{
    let rgba = bgra_to_rgba(pixels);
    if is_jpeg_path(path) {
        let rgb = rgba_to_rgb(rgba.as_slice());
        proof {
            let n = pixels@.len() / 4;
            assert(rgba@.len() / 4 == n);
            assert forall|i: int| 0 <= i < n implies {
                &&& #[trigger] rgb@[3 * i] == pixels@[4 * i + 2]
                &&& rgb@[3 * i + 1] == pixels@[4 * i + 1]
                &&& rgb@[3 * i + 2] == pixels@[4 * i]
            } by {
                assert(rgb@[3 * i] == rgba@[4 * i]);
                assert(rgba@[4 * i] == pixels@[4 * i + 2]);
            }
        }
        SavePlan { pixels: rgb, width: width as u32, height: height as u32, layout: PixelLayout::Rgb8 }
    } else {
        SavePlan { pixels: rgba, width: width as u32, height: height as u32, layout: PixelLayout::Rgba8 }
    }
}

/// `plan_save` with its precondition tested first: `None` exactly when the
/// path names a JPEG file and `width * height * 3` leaves the range of
/// `i32`, where the buffer size cannot be computed; otherwise the plan that
/// `plan_save` makes.
pub fn checked_plan_save(path: &str, pixels: &[u8], width: i32, height: i32) -> (r: Option<SavePlan>)
    ensures
        r is None <==> jpeg_path(path@) && !fits_i32(width * height * 3),
        r matches Some(p) ==> {
            &&& p.width == width as u32
            &&& p.height == height as u32
            &&& jpeg_path(path@) ==> p.layout == PixelLayout::Rgb8 && bgra_to_rgb_spec(pixels@, p.pixels@)
            &&& !jpeg_path(path@) ==> p.layout == PixelLayout::Rgba8 && bgra_to_rgba_spec(pixels@, p.pixels@)
        },
{
    let w: i128 = width as i128;
    let h: i128 = height as i128;
    assert(-0x4000_0000_0000_0000 <= w * h <= 0x4000_0000_0000_0000) by (nonlinear_arith)
        requires
            -0x8000_0000 <= w <= 0x7fff_ffff,
            -0x8000_0000 <= h <= 0x7fff_ffff,
    ;
    let bytes: i128 = w * h * 3;
    if is_jpeg_path(path) && (bytes < i32::MIN as i128 || bytes > i32::MAX as i128) {
        return None;
    }
    Some(plan_save(path, pixels, width, height))
}

/// The length of a NUL-terminated UTF-16 buffer: the position of the first
/// zero, or the whole buffer when there is none.
pub fn wide_len(buf: &[u16]) -> (n: usize)
    ensures
        n <= buf@.len(),
        forall|i: int| 0 <= i < n ==> buf@[i] != 0,
        n < buf@.len() ==> buf@[n as int] == 0,
{
    let mut i: usize = 0;
    while i < buf.len()
        invariant
            0 <= i <= buf@.len(),
            forall|j: int| 0 <= j < i ==> buf@[j] != 0,
        decreases buf@.len() - i,
    {
        if buf[i] == 0 {
            return i;
        }
        i = i + 1;
    }
    i
}

} // verus!
