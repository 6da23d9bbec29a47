//! The BMP file of the schedule image: 24-bit rows padded to four bytes, a
//! file header and an info header in front of the pixels.

use vstd::prelude::*;
use crate::password::{le_bytes, push_le_bytes};

verus! {

/// The info header of a bitmap (`BITMAPINFOHEADER`), field by field.
#[derive(Clone, Copy, Debug, PartialEq, Eq)]
pub struct BmpInfoHeader {
    pub size: u32,
    pub width: i32,
    pub height: i32,
    pub planes: u16,
    pub bit_count: u16,
    pub compression: u32,
    pub size_image: u32,
    pub x_pels_per_meter: i32,
    pub y_pels_per_meter: i32,
    pub clr_used: u32,
    pub clr_important: u32,
}

/// Bytes of a pixel row of a 24-bit image `width` pixels wide: three bytes
/// a pixel, padded to a multiple of four.
pub open spec fn row_stride_spec(width: int) -> int {
    ((width * 24 + 31) / 32) * 4
}

/// Bytes of a pixel row of a 24-bit image `width` pixels wide.
pub fn row_stride(width: i32) -> (r: usize)
    requires
        0 <= width <= 89_478_484,
    ensures
        r == row_stride_spec(width as int),
{
    let bits: i32 = width * 24 + 31;
    let words: i32 = bits / 32;
    assert(words * 4 <= i32::MAX) by (nonlinear_arith)
        requires
            words == bits / 32,
            bits <= 89_478_484 * 24 + 31;
    (words * 4) as usize
}

/// Little-endian bytes of a 16-bit field.
pub open spec fn u16_le(v: u16) -> Seq<u8> {
    le_bytes(v as nat, 2)
}

/// Little-endian bytes of a 32-bit field.
pub open spec fn u32_le(v: u32) -> Seq<u8> {
    le_bytes(v as nat, 4)
}

/// Little-endian two's complement bytes of a signed 32-bit field.
pub open spec fn i32_le(v: i32) -> Seq<u8> {
    le_bytes((v as u32) as nat, 4)
}

/// The file header (`BITMAPFILEHEADER`): `BM`, the file size, two reserved
/// zeros and the offset of the pixels (54, right after both headers).
pub open spec fn file_header_spec(file_size: u32) -> Seq<u8> {
    u16_le(0x4D42) + u32_le(file_size) + u16_le(0) + u16_le(0) + u32_le(54)
}

/// The info header's bytes, in field order.
pub open spec fn info_header_spec(h: BmpInfoHeader) -> Seq<u8> {
    u32_le(h.size) + i32_le(h.width) + i32_le(h.height) + u16_le(h.planes) + u16_le(h.bit_count)
        + u32_le(h.compression) + u32_le(h.size_image) + i32_le(h.x_pels_per_meter)
        + i32_le(h.y_pels_per_meter) + u32_le(h.clr_used) + u32_le(h.clr_important)
}

/// The BMP file of `pixels` described by `info`: the file header (with the
/// file size, 54 header bytes plus the pixels), the info header, then the
/// pixels. The file size must fit the header's 32-bit field.
pub fn bmp_file(info: &BmpInfoHeader, pixels: &[u8]) -> (out: Vec<u8>)
    requires
        54 + pixels@.len() <= u32::MAX,
    ensures
        out@ == file_header_spec((54 + pixels@.len()) as u32) + info_header_spec(*info) + pixels@,
{
    let file_size: u32 = 54 + pixels.len() as u32;
    let mut out: Vec<u8> = Vec::new();
    push_le_bytes(&mut out, 0x4D42, 2);
    push_le_bytes(&mut out, file_size as u128, 4);
    push_le_bytes(&mut out, 0, 2);
    push_le_bytes(&mut out, 0, 2);
    push_le_bytes(&mut out, 54, 4);
    proof {
        assert(out@ =~= file_header_spec(file_size));
    }
    let ghost head = out@;
    push_le_bytes(&mut out, info.size as u128, 4);
    push_le_bytes(&mut out, #[verifier::truncate] (info.width as u32) as u128, 4);
    push_le_bytes(&mut out, #[verifier::truncate] (info.height as u32) as u128, 4);
    push_le_bytes(&mut out, info.planes as u128, 2);
    push_le_bytes(&mut out, info.bit_count as u128, 2);
    push_le_bytes(&mut out, info.compression as u128, 4);
    push_le_bytes(&mut out, info.size_image as u128, 4);
    push_le_bytes(&mut out, #[verifier::truncate] (info.x_pels_per_meter as u32) as u128, 4);
    push_le_bytes(&mut out, #[verifier::truncate] (info.y_pels_per_meter as u32) as u128, 4);
    push_le_bytes(&mut out, info.clr_used as u128, 4);
    push_le_bytes(&mut out, info.clr_important as u128, 4);
    proof {
        assert(out@ =~= head + info_header_spec(*info));
    }
    let ghost headers = out@;
    let mut i: usize = 0;
    while i < pixels.len()
        invariant
            i <= pixels@.len(),
            out@ == headers + pixels@.take(i as int),
        decreases pixels@.len() - i,
    {
        out.push(pixels[i]);
        i = i + 1;
        proof {
            assert(out@ =~= headers + pixels@.take(i as int));
        }
    }
    proof {
        assert(pixels@.take(pixels@.len() as int) =~= pixels@);
        assert(file_size == (54 + pixels@.len()) as u32);
    }
    out
}

} // verus!
