//! Screen captures: the size that is captured, the file a capture is saved
//! under, and the BMP file that holds it.
use vstd::prelude::*;
use crate::icon::{le32, push_le32};
use crate::text::{decimal, push_decimal, push_str, string_from_chars};

verus! {

/// The size of the BMP headers: 14 bytes of file header, 40 of info header.
pub const BMP_HEADER_SIZE: u32 = 54;

/// The BMP file of a top-down 32-bit image of `w` by `h` pixels: the file
/// header (`BM`, file size, reserved, data offset 54), the info header
/// (size 40, width, height negated for top-down, 1 plane, 32 bits, no
/// compression, image size, then zeros for resolution and palette), then
/// the pixels. Sizes are written as their low 32 bits.
pub open spec fn bmp_bytes(pixels: Seq<u8>, w: i32, h: i32) -> Seq<u8> {
    seq![0x42u8, 0x4D] + le32((54 + pixels.len()) as u32) + seq![0u8, 0, 0, 0, 54, 0, 0, 0, 40, 0, 0, 0]
        + le32(w as u32) + le32((-h) as u32) + seq![1u8, 0, 32, 0, 0, 0, 0, 0] + le32(
        pixels.len() as u32,
    ) + Seq::new(16, |i: int| 0u8) + pixels
}

fn push_zeros(buf: &mut Vec<u8>, n: usize)
    ensures
        final(buf)@ == old(buf)@ + Seq::new(n as nat, |i: int| 0u8),
{
    let ghost start = buf@;
    let mut i: usize = 0;
    while i < n
        invariant
            i <= n,
            buf@ == start + Seq::new(i as nat, |k: int| 0u8),
        decreases n - i,
    {
        buf.push(0);
        i += 1;
        assert(buf@ =~= start + Seq::new(i as nat, |k: int| 0u8));
    }
}

/// The BMP file holding the pixels (4 bytes each, top row first) of a
/// capture of `w` by `h` pixels.
pub fn bmp_file(pixels: &[u8], w: i32, h: i32) -> (r: Vec<u8>)
    requires
        54 + pixels@.len() <= u32::MAX,
        h != i32::MIN,
    ensures
        r@ == bmp_bytes(pixels@, w, h),
{
    let mut out: Vec<u8> = Vec::new();
    out.push(0x42);
    out.push(0x4D);
    let file_size: u32 = BMP_HEADER_SIZE + pixels.len() as u32;
    push_le32(&mut out, file_size);
    push_le32(&mut out, 0);
    push_le32(&mut out, BMP_HEADER_SIZE);
    push_le32(&mut out, 40);
    push_le32(&mut out, w as u32);
    let nh: i32 = -h;
    push_le32(&mut out, nh as u32);
    out.push(1);
    out.push(0);
    out.push(32);
    out.push(0);
    push_le32(&mut out, 0);
    push_le32(&mut out, pixels.len() as u32);
    push_zeros(&mut out, 16);
    let ghost before = out@;
    let mut i: usize = 0;
    while i < pixels.len()
        invariant
            i <= pixels@.len(),
            out@ == before + pixels@.take(i as int),
        decreases pixels@.len() - i,
    {
        out.push(pixels[i]);
        i += 1;
        assert(out@ =~= before + pixels@.take(i as int));
    }
    assert(pixels@.take(i as int) =~= pixels@);
    assert(le32(0) =~= seq![0u8, 0, 0, 0]);
    assert(le32(54) =~= seq![54u8, 0, 0, 0]);
    assert(le32(40) =~= seq![40u8, 0, 0, 0]);
    assert(out@ =~= bmp_bytes(pixels@, w, h));
    out
}

/// The size that is captured: each side at least one pixel.
pub fn capture_size(w: i32, h: i32) -> (r: (i32, i32))
    ensures
        r.0 == (if w < 1 { 1 } else { w }),
        r.1 == (if h < 1 { 1 } else { h }),
{
    (if w < 1 { 1 } else { w }, if h < 1 { 1 } else { h })
}

/// The file name of a capture taken at `millis` since the Unix epoch.
pub open spec fn screenshot_name_text(millis: u64) -> Seq<char> {
    "screenshot_"@ + decimal(millis as nat) + ".bmp"@
}

/// The file name of a capture taken at `millis` since the Unix epoch:
/// `screenshot_<millis>.bmp`.
pub fn screenshot_name(millis: u64) -> (r: String)
    ensures
        r@ == screenshot_name_text(millis),
{
    let mut buf: Vec<char> = Vec::new();
    push_str(&mut buf, "screenshot_");
    push_decimal(&mut buf, millis);
    push_str(&mut buf, ".bmp");
    string_from_chars(&buf)
}

} // verus!
