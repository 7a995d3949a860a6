use vstd::prelude::*;

verus! {

/// Size in bytes of a `BITMAPINFOHEADER`.
pub const DIB_HEADER_SIZE: u32 = 40;

/// The fields of a Win32 `BITMAPINFOHEADER`.
#[derive(Clone, Copy, Debug, PartialEq, Eq, Structural)]
pub struct DibHeader {
    pub size: u32,
    pub width: i32,
    pub height: i32,
    pub planes: u16,
    pub bit_count: u16,
    pub compression: u32,
    pub size_image: u32,
    pub x_pels_per_meter: i32,
    pub y_pels_per_meter: i32,
    pub clr_used: u32,
    pub clr_important: u32,
}

/// The header of a top-down, uncompressed 32-bit bitmap of `width` x
/// `height` pixels (a negative height marks the rows as top-down).
pub open spec fn top_down_spec(width: i32, height: i32, size_image: u32) -> DibHeader {
    DibHeader {
        size: DIB_HEADER_SIZE,
        width,
        height: (-height) as i32,
        planes: 1,
        bit_count: 32,
        compression: 0,
        size_image,
        x_pels_per_meter: 0,
        y_pels_per_meter: 0,
        clr_used: 0,
        clr_important: 0,
    }
}

/// Header of a top-down 32-bit BGRA bitmap.
pub fn top_down_header(width: i32, height: i32, size_image: u32) -> (h: DibHeader)
    requires
        height > i32::MIN,
    ensures
        h == top_down_spec(width, height, size_image),
        h.size == 40 && h.planes == 1 && h.bit_count == 32 && h.compression == 0,
        h.width == width && h.height == -height && h.size_image == size_image,
{
    DibHeader {
        size: DIB_HEADER_SIZE,
        width,
        height: -height,
        planes: 1,
        bit_count: 32,
        compression: 0,
        size_image,
        x_pels_per_meter: 0,
        y_pels_per_meter: 0,
        clr_used: 0,
        clr_important: 0,
    }
}

/// Little-endian bytes of a 16-bit value.
pub open spec fn le16(v: int) -> Seq<u8> {
    seq![(v % 256) as u8, ((v / 256) % 256) as u8]
}

/// Little-endian bytes of a 32-bit value.
pub open spec fn le32(v: int) -> Seq<u8> {
    seq![
        (v % 256) as u8,
        ((v / 256) % 256) as u8,
        ((v / 65536) % 256) as u8,
        ((v / 16777216) % 256) as u8,
    ]
}

/// The 32-bit two's complement pattern of `v`.
pub open spec fn twos32(v: i32) -> int {
    if v >= 0 {
        v as int
    } else {
        v + 0x1_0000_0000
    }
}

/// The header laid out as in memory: its fields in order, little-endian.
pub open spec fn header_bytes_spec(h: DibHeader) -> Seq<u8> {
    le32(h.size as int) + le32(twos32(h.width)) + le32(twos32(h.height)) + le16(h.planes as int) + le16(
        h.bit_count as int,
    ) + le32(h.compression as int) + le32(h.size_image as int) + le32(twos32(h.x_pels_per_meter)) + le32(
        twos32(h.y_pels_per_meter),
    ) + le32(h.clr_used as int) + le32(h.clr_important as int)
}

fn push_le32(out: &mut Vec<u8>, v: u32)
    ensures
        final(out)@ == old(out)@ + le32(v as int),
{
    out.push((v % 256) as u8);
    out.push(((v / 256) % 256) as u8);
    out.push(((v / 65536) % 256) as u8);
    out.push(((v / 16777216) % 256) as u8);
    assert(final(out)@ =~= old(out)@ + le32(v as int));
}

fn push_le16(out: &mut Vec<u8>, v: u16)
    ensures
        final(out)@ == old(out)@ + le16(v as int),
{
    out.push((v % 256) as u8);
    out.push(((v / 256) % 256) as u8);
    assert(final(out)@ =~= old(out)@ + le16(v as int));
}

fn twos(v: i32) -> (u: u32)
    ensures
        u as int == twos32(v),
{
    if v >= 0 {
        v as u32
    } else {
        (v as i64 + 0x1_0000_0000i64) as u32
    }
}

/// The bytes of a bitmap header, as laid out in memory.
pub fn header_bytes(h: &DibHeader) -> (b: Vec<u8>)
    ensures
        b@ == header_bytes_spec(*h),
        b@.len() == DIB_HEADER_SIZE,
{
    let mut out: Vec<u8> = Vec::new();
    push_le32(&mut out, h.size);
    push_le32(&mut out, twos(h.width));
    push_le32(&mut out, twos(h.height));
    push_le16(&mut out, h.planes);
    push_le16(&mut out, h.bit_count);
    push_le32(&mut out, h.compression);
    push_le32(&mut out, h.size_image);
    push_le32(&mut out, twos(h.x_pels_per_meter));
    push_le32(&mut out, twos(h.y_pels_per_meter));
    push_le32(&mut out, h.clr_used);
    push_le32(&mut out, h.clr_important);
    assert(out@ =~= header_bytes_spec(*h));
    out
}

/// The clipboard's device-independent bitmap of BGRA pixels: the header of a
/// top-down 32-bit bitmap of `width` x `height`, then the first
/// `width * height * 4` pixel bytes.
pub open spec fn clipboard_dib_spec(pixels: Seq<u8>, width: i32, height: i32) -> Seq<u8> {
    let n = width * height * 4;
    header_bytes_spec(top_down_spec(width, height, n as u32)) + pixels.subrange(0, n)
}

/// Frame BGRA pixel data as a device-independent bitmap for the clipboard.
pub fn clipboard_dib(pixels: &[u8], width: i32, height: i32) -> (b: Vec<u8>)
    requires
        0 <= width * height * 4 <= i32::MAX,
        pixels@.len() >= width * height * 4,
        height > i32::MIN,
    ensures
        b@ == clipboard_dib_spec(pixels@, width, height),
{
    let pixel_data_size = (width * height * 4) as usize;
    let header = top_down_header(width, height, pixel_data_size as u32);
    let mut out = header_bytes(&header);
    let ghost head = out@;
    let mut i: usize = 0;
    while i < pixel_data_size
        invariant
            pixel_data_size == width * height * 4,
            pixel_data_size <= pixels@.len(),
            0 <= i <= pixel_data_size,
            out@ == head + pixels@.subrange(0, i as int),
        decreases pixel_data_size - i,
    {
        out.push(pixels[i]);
        i = i + 1;
        assert(out@ =~= head + pixels@.subrange(0, i as int));
    }
    out
}

/// The clipboard bitmap is a 40-byte header of an uncompressed (`BI_RGB`),
/// top-down, single-plane 32-bit bitmap of the given width, with the pixel
/// byte count as its image size and no resolution or palette, followed by the
/// pixel bytes themselves.
pub proof fn lemma_clipboard_layout(pixels: Seq<u8>, width: i32, height: i32)
    requires
        0 <= width * height * 4 <= i32::MAX,
        pixels.len() >= width * height * 4,
        height > i32::MIN,
    ensures
        ({
            let b = clipboard_dib_spec(pixels, width, height);
            let n = width * height * 4;
            &&& b.len() == 40 + n
            &&& b.subrange(0, 4) == seq![40u8, 0u8, 0u8, 0u8]
            &&& b.subrange(4, 8) == le32(if width >= 0 { width as int } else { width + 0x1_0000_0000 })
            &&& b.subrange(8, 12) == le32(if height <= 0 { -height } else { 0x1_0000_0000 - height })
            &&& b.subrange(12, 16) == seq![1u8, 0u8, 32u8, 0u8]
            &&& b.subrange(16, 20) == seq![0u8, 0u8, 0u8, 0u8]
            &&& b.subrange(20, 24) == le32(n)
            &&& forall|i: int| 24 <= i < 40 ==> b[i] == 0u8
            &&& b.subrange(40, 40 + n) == pixels.subrange(0, n)
        }),
{
    let n = width * height * 4;
    let h = top_down_spec(width, height, n as u32);
    let hb = header_bytes_spec(h);
    let b = clipboard_dib_spec(pixels, width, height);
    assert(hb.len() == 40);
    assert(b == hb + pixels.subrange(0, n));
    assert(b.subrange(0, 40) =~= hb);
    assert(b.subrange(40, 40 + n) =~= pixels.subrange(0, n));
    assert(hb.subrange(0, 4) =~= le32(40));
    assert(hb.subrange(4, 8) =~= le32(twos32(width)));
    assert(hb.subrange(8, 12) =~= le32(twos32((-height) as i32)));
    assert(hb.subrange(12, 16) =~= le16(1) + le16(32));
    assert(hb.subrange(16, 20) =~= le32(0));
    assert(hb.subrange(20, 24) =~= le32(n));
    assert(hb.subrange(24, 40) =~= le32(0) + le32(0) + le32(0) + le32(0));
    assert(b.subrange(0, 4) =~= hb.subrange(0, 4));
    assert(b.subrange(4, 8) =~= hb.subrange(4, 8));
    assert(b.subrange(8, 12) =~= hb.subrange(8, 12));
    assert(b.subrange(12, 16) =~= hb.subrange(12, 16));
    assert(b.subrange(16, 20) =~= hb.subrange(16, 20));
    assert(b.subrange(20, 24) =~= hb.subrange(20, 24));
    assert forall|i: int| 24 <= i < 40 implies b[i] == 0u8 by {
        assert(b[i] == hb.subrange(24, 40)[i - 24]);
    }
}

} // verus!
