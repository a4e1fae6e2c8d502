//! Wrapping a PNG image into a single-image ICO file.
use vstd::prelude::*;

verus! {

/// The little-endian bytes of a 32-bit value.
pub open spec fn le32(v: u32) -> Seq<u8> {
    seq![
        (v % 256) as u8,
        ((v / 256) % 256) as u8,
        ((v / 65536) % 256) as u8,
        ((v / 16777216) % 256) as u8,
    ]
}

/// The ICO file holding one 32-bit image of `png_size` bytes whose data (the
/// PNG itself) follows the 22-byte header: the 6-byte file header (type 1,
/// one image), the 16-byte directory entry (size 0 x 0 meaning 256, planes 1,
/// 32 bits per pixel, data size, data offset 22), then the data.
pub open spec fn ico_bytes(png: Seq<u8>, png_size: u32) -> Seq<u8> {
    seq![0u8, 0, 1, 0, 1, 0, 0, 0, 0, 0, 1, 0, 32, 0] + le32(png_size) + le32(22) + png
}

pub(crate) fn push_le32(buf: &mut Vec<u8>, v: u32)
    ensures
        final(buf)@ == old(buf)@ + le32(v),
{
    buf.push((v % 256) as u8);
    buf.push(((v / 256) % 256) as u8);
    buf.push(((v / 65536) % 256) as u8);
    buf.push(((v / 16777216) % 256) as u8);
    assert(final(buf)@ =~= old(buf)@ + le32(v));
}

/// Builds the ICO file that holds `png_data`, recording `png_size` as its size.
pub fn build_ico_with_png(png_data: &[u8], png_size: u32) -> (ico: Vec<u8>)
    ensures
        ico@ == ico_bytes(png_data@, png_size),
{
    let mut ico: Vec<u8> = Vec::new();
    ico.push(0);
    ico.push(0);
    ico.push(1);
    ico.push(0);
    ico.push(1);
    ico.push(0);
    ico.push(0);
    ico.push(0);
    ico.push(0);
    ico.push(0);
    ico.push(1);
    ico.push(0);
    ico.push(32);
    ico.push(0);
    push_le32(&mut ico, png_size);
    let offset: u32 = 6 + 16;
    push_le32(&mut ico, offset);
    let ghost before = ico@;
    let mut i: usize = 0;
    while i < png_data.len()
        invariant
            i <= png_data@.len(),
            ico@ == before + png_data@.take(i as int),
        decreases png_data@.len() - i,
    {
        ico.push(png_data[i]);
        i += 1;
        assert(ico@ =~= before + png_data@.take(i as int));
    }
    assert(png_data@.take(i as int) =~= png_data@);
    assert(ico@ =~= ico_bytes(png_data@, png_size));
    ico
}

/// The ICO file for a PNG image, or nothing when the image is too large for
/// the 32-bit size field.
pub fn ico_for_png(png_data: &[u8]) -> (r: Option<Vec<u8>>)
    ensures
        (match r {
            Some(ico) => png_data@.len() <= 0xffff_ffff && ico@ == ico_bytes(png_data@, png_data@.len() as u32),
            None => png_data@.len() > 0xffff_ffff,
        }),
{
    if png_data.len() > 0xffff_ffff {
        return None;
    }
    let png_size = png_data.len() as u32;
    Some(build_ico_with_png(png_data, png_size))
}

} // verus!
