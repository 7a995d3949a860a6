use vstd::prelude::*;

verus! {

/// Captured screen data: the bitmap pixels and their placement.
#[derive(Clone)]
pub struct ScreenCapture {
    /// Raw BGRA pixel data, row after row, top row first
    pub pixels: Vec<u8>,
    /// Total width of the captured area
    pub width: i32,
    /// Total height of the captured area
    pub height: i32,
    /// X offset of the virtual screen (can be negative for multi-monitor)
    pub offset_x: i32,
    /// Y offset of the virtual screen (can be negative for multi-monitor)
    pub offset_y: i32,
}

impl ScreenCapture {
    /// When the capture has an area, `width * height * 4` fits an `i32` and
    /// the pixel buffer holds at least that many bytes (`width * height`
    /// BGRA pixels, row after row); a capture without area reads no pixel.
    pub open spec fn wf(&self) -> bool {
        (self.width > 0 && self.height > 0) ==> {
            &&& self.width * self.height * 4 <= i32::MAX
            &&& self.pixels@.len() >= self.width * self.height * 4
        }
    }
}

/// Assemble a capture from a bitmap read back from the screen: a virtual
/// screen with no area gives none, and so does a read that copied no line;
/// otherwise the pixels, size and offset make the capture.
pub fn capture_from_bitmap(
    pixels: Vec<u8>,
    width: i32,
    height: i32,
    offset_x: i32,
    offset_y: i32,
    lines_copied: i32,
) -> (c: Option<ScreenCapture>)
    ensures
        c is Some <==> (width > 0 && height > 0 && lines_copied != 0),
        c matches Some(cap) ==> cap.pixels@ == pixels@ && cap.width == width && cap.height == height
            && cap.offset_x == offset_x && cap.offset_y == offset_y,
{
    if width <= 0 || height <= 0 {
        return None;
    }
    if lines_copied == 0 {
        return None;
    }
    Some(ScreenCapture { pixels, width, height, offset_x, offset_y })
}

/// Byte length of the pixel buffer of a `width` x `height` capture, or none
/// when the virtual screen has no area.
pub fn capture_buffer_len(width: i32, height: i32) -> (n: Option<usize>)
    requires
        (width > 0 && height > 0) ==> width * height * 4 <= i32::MAX,
    ensures
        n is Some <==> (width > 0 && height > 0),
        n matches Some(len) ==> len == width * height * 4,
{
    if width <= 0 || height <= 0 {
        return None;
    }
    proof {
        assert(0 < width * height) by (nonlinear_arith)
            requires
                width > 0,
                height > 0,
        ;
    }
    Some((width * height * 4) as usize)
}

/// Four zero bytes per pixel of a row of `w` pixels.
pub open spec fn blank_row(w: int) -> Seq<u8> {
    Seq::new((w * 4) as nat, |i: int| 0u8)
}

/// The four bytes that the crop takes for column `col` of an in-bounds row:
/// the capture's BGRA pixel, or opaque black outside the capture.
pub open spec fn crop_pixel(pixels: Seq<u8>, width: int, row: int, col: int) -> Seq<u8> {
    if col < 0 || col >= width {
        seq![0u8, 0u8, 0u8, 255u8]
    } else {
        pixels.subrange((row * width + col) * 4, (row * width + col) * 4 + 4)
    }
}

/// The bytes of the first `n` columns from column `x` of row `row`.
pub open spec fn crop_cols(pixels: Seq<u8>, width: int, row: int, x: int, n: nat) -> Seq<u8>
    decreases n,
{
    if n == 0 {
        Seq::empty()
    } else {
        crop_cols(pixels, width, row, x, (n - 1) as nat) + crop_pixel(pixels, width, row, x + n - 1)
    }
}

/// The bytes of one cropped row: all zero for a row outside the capture.
pub open spec fn crop_row(pixels: Seq<u8>, width: int, height: int, row: int, x: int, w: int) -> Seq<u8> {
    if row < 0 || row >= height {
        blank_row(w)
    } else {
        crop_cols(pixels, width, row, x, w as nat)
    }
}

/// The bytes of the first `n` cropped rows from row `y`.
pub open spec fn crop_rows(pixels: Seq<u8>, width: int, height: int, x: int, y: int, w: int, n: nat) -> Seq<u8>
    decreases n,
{
    if n == 0 {
        Seq::empty()
    } else {
        crop_rows(pixels, width, height, x, y, w, (n - 1) as nat) + crop_row(pixels, width, height, y + n - 1, x, w)
    }
}

/// The crop of the `w` x `h` region at `(x, y)`: rows top to bottom, BGRA
/// pixels left to right; nothing when `h` is not positive.
pub open spec fn crop_spec(c: ScreenCapture, x: int, y: int, w: int, h: int) -> Seq<u8> {
    if h <= 0 {
        Seq::empty()
    } else {
        crop_rows(c.pixels@, c.width as int, c.height as int, x, y, w, h as nat)
    }
}

/// What `crop_region` needs of its inputs so that its `i32` arithmetic cannot
/// overflow and its reads stay in the buffer.
pub open spec fn crop_fits(c: ScreenCapture, x: int, y: int, w: int, h: int) -> bool {
    &&& c.wf()
    &&& 0 <= w * h * 4 <= i32::MAX
    &&& i32::MIN <= x + w <= i32::MAX
    &&& i32::MIN <= y + h <= i32::MAX
}

proof fn lemma_crop_cols_len(pixels: Seq<u8>, width: int, row: int, x: int, n: nat)
    requires
        0 <= row,
        width > 0 ==> pixels.len() >= (row + 1) * width * 4,
    ensures
        crop_cols(pixels, width, row, x, n).len() == 4 * n,
    decreases n,
{
    if n > 0 {
        lemma_crop_cols_len(pixels, width, row, x, (n - 1) as nat);
        let col = x + n - 1;
        if 0 <= col < width {
            assert((row * width + col) * 4 + 4 <= (row + 1) * width * 4) by (nonlinear_arith)
                requires
                    0 <= col < width,
                    0 <= row,
            ;
            assert(0 <= (row * width + col) * 4) by (nonlinear_arith)
                requires
                    0 <= col,
                    0 <= row,
                    0 <= width,
            ;
        }
    }
}

/// The byte of channel `k` (0 = B, 1 = G, 2 = R, 3 = A) that the crop shows
/// for the capture position `(col, row)`.
pub open spec fn source_byte(c: ScreenCapture, col: int, row: int, k: int) -> u8 {
    if row < 0 || row >= c.height {
        0u8
    } else if col < 0 || col >= c.width {
        if k == 3 {
            255u8
        } else {
            0u8
        }
    } else {
        c.pixels@[(row * c.width + col) * 4 + k]
    }
}

proof fn lemma_cols_blocks(pixels: Seq<u8>, width: int, row: int, x: int, n: nat)
    requires
        0 <= row,
        width > 0 ==> pixels.len() >= (row + 1) * width * 4,
    ensures
        crop_cols(pixels, width, row, x, n).len() == 4 * n,
        forall|c: int|
            0 <= c < n ==> #[trigger] crop_cols(pixels, width, row, x, n).subrange(4 * c, 4 * c + 4)
                == crop_pixel(pixels, width, row, x + c),
    decreases n,
{
    lemma_crop_cols_len(pixels, width, row, x, n);
    if n > 0 {
        let m = (n - 1) as nat;
        lemma_cols_blocks(pixels, width, row, x, m);
        lemma_crop_cols_len(pixels, width, row, x, m);
        let prev = crop_cols(pixels, width, row, x, m);
        let last = crop_pixel(pixels, width, row, x + m);
        let all = crop_cols(pixels, width, row, x, n);
        assert(all == prev + last);
        assert forall|c: int| 0 <= c < n implies #[trigger] all.subrange(4 * c, 4 * c + 4)
            == crop_pixel(pixels, width, row, x + c) by {
            if c < m {
                assert(all.subrange(4 * c, 4 * c + 4) =~= prev.subrange(4 * c, 4 * c + 4));
            } else {
                assert(all.subrange(4 * c, 4 * c + 4) =~= last);
            }
        }
    }
}

proof fn lemma_rows_blocks(c: ScreenCapture, x: int, y: int, w: int, n: nat)
    requires
        c.wf(),
        w >= 0,
    ensures
        crop_rows(c.pixels@, c.width as int, c.height as int, x, y, w, n).len() == 4 * w * n,
        forall|r: int|
            0 <= r < n ==> #[trigger] crop_rows(c.pixels@, c.width as int, c.height as int, x, y, w, n).subrange(
                4 * w * r,
                4 * w * r + 4 * w,
            ) == crop_row(c.pixels@, c.width as int, c.height as int, y + r, x, w),
    decreases n,
{
    let p = c.pixels@;
    let cw = c.width as int;
    let ch = c.height as int;
    if n > 0 {
        let m = (n - 1) as nat;
        lemma_rows_blocks(c, x, y, w, m);
        let prev = crop_rows(p, cw, ch, x, y, w, m);
        let last = crop_row(p, cw, ch, y + m, x, w);
        let all = crop_rows(p, cw, ch, x, y, w, n);
        let row = y + m;
        if row < 0 || row >= ch {
            assert(last.len() == w * 4);
        } else {
            if cw > 0 {
                if cw > 0 {
                    assert((row + 1) * cw * 4 <= cw * ch * 4) by (nonlinear_arith)
                        requires
                            row < ch,
                            0 <= cw,
                    ;
                }
            }
            lemma_crop_cols_len(p, cw, row, x, w as nat);
        }
        assert(4 * w * n == 4 * w * m + 4 * w) by (nonlinear_arith)
            requires
                n == m + 1,
        ;
        assert forall|r: int| 0 <= r < n implies #[trigger] all.subrange(4 * w * r, 4 * w * r + 4 * w)
            == crop_row(p, cw, ch, y + r, x, w) by {
            if r < m {
                assert(4 * w * r + 4 * w <= 4 * w * m) by (nonlinear_arith)
                    requires
                        r + 1 <= m,
                        w >= 0,
                ;
                assert(0 <= 4 * w * r) by (nonlinear_arith)
                    requires
                        r >= 0,
                        w >= 0,
                ;
                assert(all.subrange(4 * w * r, 4 * w * r + 4 * w) =~= prev.subrange(4 * w * r, 4 * w * r + 4 * w));
            } else {
                assert(all.subrange(4 * w * r, 4 * w * r + 4 * w) =~= last);
            }
        }
    }
}

/// Each pixel of the crop shows the capture's pixel at the same place: the
/// crop holds `w * h` four-byte pixels, and channel `k` of the pixel in row
/// `r`, column `col` of the crop is that of capture position
/// `(x + col, y + r)` (zero outside the capture's rows, opaque black outside
/// its columns).
#[verifier::spinoff_prover]
#[verifier::rlimit(40)]
pub proof fn lemma_crop_pixel(c: ScreenCapture, x: int, y: int, w: int, h: int, r: int, col: int, k: int)
    requires
        crop_fits(c, x, y, w, h),
        0 <= r < h,
        0 <= col < w,
        0 <= k < 4,
    ensures
        crop_spec(c, x, y, w, h).len() == w * h * 4,
        crop_spec(c, x, y, w, h)[(r * w + col) * 4 + k] == source_byte(c, x + col, y + r, k),
{
    let p = c.pixels@;
    let cw = c.width as int;
    let ch = c.height as int;
    lemma_rows_blocks(c, x, y, w, h as nat);
    let all = crop_rows(p, cw, ch, x, y, w, h as nat);
    assert(all.len() == w * h * 4) by (nonlinear_arith)
        requires
            all.len() == 4 * w * h,
    ;
    let blk = all.subrange(4 * w * r, 4 * w * r + 4 * w);
    assert(blk == crop_row(p, cw, ch, y + r, x, w));
    assert((r * w + col) * 4 + k == 4 * w * r + (4 * col + k)) by (nonlinear_arith);
    assert(0 <= 4 * w * r) by (nonlinear_arith)
        requires
            r >= 0,
            w >= 0,
    ;
    assert(4 * w * r + 4 * w <= 4 * w * h) by (nonlinear_arith)
        requires
            r + 1 <= h,
            w >= 0,
    ;
    assert(all[(r * w + col) * 4 + k] == blk[4 * col + k]);
    let row = y + r;
    assert(crop_spec(c, x, y, w, h) == all);
    if row < 0 || row >= ch {
        assert(blk == blank_row(w));
        assert(blk[4 * col + k] == 0u8);
    } else {
        if cw > 0 {
            assert((row + 1) * cw * 4 <= cw * ch * 4) by (nonlinear_arith)
                requires
                    row < ch,
                    0 <= cw,
            ;
        }
        lemma_cols_blocks(p, cw, row, x, w as nat);
        let px = blk.subrange(4 * col, 4 * col + 4);
        assert(px == crop_pixel(p, cw, row, x + col));
        assert(blk[4 * col + k] == px[k]);
        if 0 <= x + col < cw {
            assert(0 <= (row * cw + x + col) * 4) by (nonlinear_arith)
                requires
                    0 <= x + col,
                    0 <= row,
                    0 <= cw,
            ;
            assert((row * cw + (x + col)) * 4 + 4 <= (row + 1) * cw * 4) by (nonlinear_arith)
                requires
                    0 <= x + col < cw,
                    0 <= row,
            ;
            assert(px[k] == p[(row * cw + (x + col)) * 4 + k]);
        } else {
            assert(px == seq![0u8, 0u8, 0u8, 255u8]);
        }
    }
}

/// Cropping the whole capture gives back its pixels: the first
/// `width * height` BGRA pixels of its buffer, which is all of it when the
/// buffer holds no more.
pub proof fn lemma_crop_whole(c: ScreenCapture)
    requires
        c.wf(),
        c.width >= 0,
        c.height >= 0,
    ensures
        crop_spec(c, 0, 0, c.width as int, c.height as int) == c.pixels@.subrange(0, c.width * c.height * 4),
        c.pixels@.len() == c.width * c.height * 4 ==> crop_spec(c, 0, 0, c.width as int, c.height as int)
            == c.pixels@,
{
    let w = c.width as int;
    let h = c.height as int;
    let cr = crop_spec(c, 0, 0, w, h);
    let want = c.pixels@.subrange(0, w * h * 4);
    if h == 0 {
        assert(w * h * 4 == 0) by (nonlinear_arith)
            requires
                h == 0,
        ;
        assert(cr =~= want);
    } else if w == 0 {
        lemma_rows_blocks(c, 0, 0, w, h as nat);
        assert(cr.len() == 0) by (nonlinear_arith)
            requires
                cr.len() == 4 * w * h,
                w == 0,
        ;
        assert(w * h * 4 == 0) by (nonlinear_arith)
            requires
                w == 0,
        ;
        assert(cr =~= want);
    } else {
        assert(crop_fits(c, 0, 0, w, h));
        lemma_crop_pixel(c, 0, 0, w, h, 0, 0, 0);
        assert forall|i: int| 0 <= i < cr.len() implies cr[i] == want[i] by {
            let q = i / 4;
            let k = i % 4;
            let r = q / w;
            let col = q % w;
            assert(i == q * 4 + k);
            assert(q == r * w + col) by (nonlinear_arith)
                requires
                    w > 0,
                    r == q / w,
                    col == q % w,
            ;
            assert(0 <= q < w * h) by (nonlinear_arith)
                requires
                    0 <= i < w * h * 4,
                    q == i / 4,
            ;
            assert(0 <= r < h) by (nonlinear_arith)
                requires
                    0 <= q < w * h,
                    w > 0,
                    r == q / w,
            ;
            assert(0 <= col < w) by (nonlinear_arith)
                requires
                    w > 0,
                    col == q % w,
            ;
            lemma_crop_pixel(c, 0, 0, w, h, r, col, k);
            assert((r * w + col) * 4 + k == i);
        }
        assert(cr =~= want);
    }
    assert(c.pixels@.len() == w * h * 4 ==> want =~= c.pixels@);
}

/// Crop a region from the screen capture: `w` x `h` BGRA pixels starting at
/// `(x, y)`. Rows outside the capture come out as zero bytes, columns outside
/// it as opaque black.
pub fn crop_region(capture: &ScreenCapture, x: i32, y: i32, w: i32, h: i32) -> (r: Vec<u8>)
    requires
        crop_fits(*capture, x as int, y as int, w as int, h as int),
    ensures
        r@ == crop_spec(*capture, x as int, y as int, w as int, h as int),
{
    let mut cropped: Vec<u8> = Vec::with_capacity((w * h * 4) as usize);
    let ghost pixels = capture.pixels@;
    let ghost cw = capture.width as int;
    let ghost ch = capture.height as int;
    if h <= 0 {
        return cropped;
    }
    proof {
        assert(w >= 0) by (nonlinear_arith)
            requires
                0 <= w * h * 4,
                h > 0,
        ;
        assert(w * 4 <= w * h * 4) by (nonlinear_arith)
            requires
                w >= 0,
                h >= 1,
        ;
    }
    let mut row: i32 = y;
    while row < y + h
        invariant
            crop_fits(*capture, x as int, y as int, w as int, h as int),
            pixels == capture.pixels@,
            cw == capture.width,
            ch == capture.height,
            h > 0,
            w >= 0,
            w * 4 <= i32::MAX,
            y <= row <= y + h,
            cropped@ == crop_rows(pixels, cw, ch, x as int, y as int, w as int, (row - y) as nat),
        decreases y + h - row,
    {
        let ghost before = cropped@;
        assert(crop_rows(pixels, cw, ch, x as int, y as int, w as int, (row - y + 1) as nat)
            == before + crop_row(pixels, cw, ch, row as int, x as int, w as int));
        if row < 0 || row >= capture.height {
            let mut k: i32 = 0;
            while k < w * 4
                invariant
                    0 <= k <= w * 4,
                    w >= 0,
                    w * 4 <= i32::MAX,
                    cropped@ == before + Seq::new(k as nat, |i: int| 0u8),
                decreases w * 4 - k,
            {
                cropped.push(0u8);
                k = k + 1;
                assert(cropped@ =~= before + Seq::new(k as nat, |i: int| 0u8));
            }
            assert(cropped@ =~= before + blank_row(w as int));
        } else {
            proof {
                assert(row < ch && 0 <= row);
                if cw > 0 {
                    assert((row + 1) * cw * 4 <= cw * ch * 4) by (nonlinear_arith)
                        requires
                            row < ch,
                            0 <= cw,
                    ;
                }
            }
            let mut col: i32 = x;
            while col < x + w
                invariant
                    crop_fits(*capture, x as int, y as int, w as int, h as int),
                    pixels == capture.pixels@,
                    cw == capture.width,
                    ch == capture.height,
                    0 <= row < ch,
                    cw > 0 ==> (row + 1) * cw * 4 <= cw * ch * 4,
                    w >= 0,
                    x <= col <= x + w,
                    cropped@ == before + crop_cols(pixels, cw, row as int, x as int, (col - x) as nat),
                decreases x + w - col,
            {
                let ghost mid = cropped@;
                assert(crop_cols(pixels, cw, row as int, x as int, (col - x + 1) as nat)
                    == crop_cols(pixels, cw, row as int, x as int, (col - x) as nat)
                        + crop_pixel(pixels, cw, row as int, col as int));
                if col < 0 || col >= capture.width {
                    cropped.push(0u8);
                    cropped.push(0u8);
                    cropped.push(0u8);
                    cropped.push(255u8);
                    assert(cropped@ =~= mid + seq![0u8, 0u8, 0u8, 255u8]);
                } else {
                    proof {
                        assert(0 <= (row * cw + col) * 4) by (nonlinear_arith)
                            requires
                                0 <= col,
                                0 <= row,
                                0 <= cw,
                        ;
                        assert((row * cw + col) * 4 + 4 <= (row + 1) * cw * 4) by (nonlinear_arith)
                            requires
                                0 <= col < cw,
                                0 <= row,
                        ;
                    }
                    let idx = ((row * capture.width + col) * 4) as usize;
                    cropped.push(capture.pixels[idx]);
                    cropped.push(capture.pixels[idx + 1]);
                    cropped.push(capture.pixels[idx + 2]);
                    cropped.push(capture.pixels[idx + 3]);
                    assert(cropped@ =~= mid + pixels.subrange(idx as int, idx as int + 4));
                }
                col = col + 1;
                assert(cropped@ =~= before + crop_cols(pixels, cw, row as int, x as int, (col - x) as nat));
            }
            assert(cropped@ =~= before + crop_row(pixels, cw, ch, row as int, x as int, w as int));
        }
        row = row + 1;
    }
    cropped
}

} // verus!
