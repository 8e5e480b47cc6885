//! The on-disk layout of a BMP file, written down as specification functions.
//!
//! Everything here is ghost: these functions give the meaning of a byte
//! sequence, and the decoder and encoder are proved against them.  All
//! multi-byte fields are little-endian.

use vstd::prelude::*;

use crate::decoder::BmpErrorKind;
use crate::BmpDibHeader;
use crate::BmpHeader;
use crate::BmpVersion;
use crate::CompressionType;
use crate::Image;
use crate::Pixel;

verus! {

// ---------------------------------------------------------------------------
// Little-endian integers
// ---------------------------------------------------------------------------
/// The value of two little-endian bytes.
pub open spec fn le2(b0: u8, b1: u8) -> int {
    b0 + 0x100 * b1
}

/// The value of four little-endian bytes.
pub open spec fn le4(b0: u8, b1: u8, b2: u8, b3: u8) -> int {
    b0 + 0x100 * b1 + 0x10000 * b2 + 0x1000000 * b3
}

/// A 32-bit value reinterpreted as a signed two's-complement number.
pub open spec fn as_signed_32(v: int) -> int {
    if v < 0x8000_0000 {
        v
    } else {
        v - 0x1_0000_0000
    }
}

/// A signed 32-bit value reinterpreted as its unsigned bit pattern.
pub open spec fn as_unsigned_32(v: int) -> int {
    if v >= 0 {
        v
    } else {
        v + 0x1_0000_0000
    }
}

/// Byte `k` (counting from the least significant) of a nonnegative value.
pub open spec fn le_byte(v: int, k: int) -> u8 {
    let divisor = if k == 0 {
        1int
    } else if k == 1 {
        0x100int
    } else if k == 2 {
        0x10000int
    } else {
        0x1000000int
    };
    ((v / divisor) % 0x100) as u8
}

/// The unsigned 16-bit field at byte offset `i`.
pub open spec fn spec_u16_at(s: Seq<u8>, i: int) -> u16 {
    le2(s[i], s[i + 1]) as u16
}

/// The unsigned 32-bit field at byte offset `i`.
pub open spec fn spec_u32_at(s: Seq<u8>, i: int) -> u32 {
    le4(s[i], s[i + 1], s[i + 2], s[i + 3]) as u32
}

/// The signed 32-bit field at byte offset `i`.
pub open spec fn spec_i32_at(s: Seq<u8>, i: int) -> i32 {
    as_signed_32(le4(s[i], s[i + 1], s[i + 2], s[i + 3])) as i32
}

// ---------------------------------------------------------------------------
// Headers
// ---------------------------------------------------------------------------
/// The first two bytes are the ASCII codes of `B` and `M`.
pub open spec fn spec_has_magic(s: Seq<u8>) -> bool {
    s.len() >= 2 && s[0] == 66u8 && s[1] == 77u8
}

/// The file header, read from bytes 2..14.
pub open spec fn spec_file_header(s: Seq<u8>) -> BmpHeader {
    BmpHeader {
        file_size: spec_u32_at(s, 2),
        creator1: spec_u16_at(s, 6),
        creator2: spec_u16_at(s, 8),
        pixel_offset: spec_u32_at(s, 10),
    }
}

/// The DIB header, read from bytes 14..54.
pub open spec fn spec_dib_header(s: Seq<u8>) -> BmpDibHeader {
    BmpDibHeader {
        header_size: spec_u32_at(s, 14),
        width: spec_i32_at(s, 18),
        height: spec_i32_at(s, 22),
        num_planes: spec_u16_at(s, 26),
        bits_per_pixel: spec_u16_at(s, 28),
        compress_type: spec_u32_at(s, 30),
        data_size: spec_u32_at(s, 34),
        hres: spec_i32_at(s, 38),
        vres: spec_i32_at(s, 42),
        num_colors: spec_u32_at(s, 46),
        num_imp_colors: spec_u32_at(s, 50),
    }
}

/// The header names a version that the decoder accepts: 3, 4 or 5.
pub open spec fn spec_version_supported(d: BmpDibHeader) -> bool {
    ||| BmpVersion::spec_of(d) == Some(BmpVersion::Three)
    ||| BmpVersion::spec_of(d) == Some(BmpVersion::Four)
    ||| BmpVersion::spec_of(d) == Some(BmpVersion::Five)
}

/// The header names a supported colour depth.
pub open spec fn spec_bpp_supported(d: BmpDibHeader) -> bool {
    ||| d.bits_per_pixel == 1
    ||| d.bits_per_pixel == 4
    ||| d.bits_per_pixel == 8
    ||| d.bits_per_pixel == 24
}

/// The header's compression code resolves to uncompressed data.
pub open spec fn spec_compression_supported(d: BmpDibHeader) -> bool {
    CompressionType::spec_of(d.compress_type) == CompressionType::Uncompressed
}

/// The magic bytes and all three DIB header checks pass.
pub open spec fn spec_headers_ok(s: Seq<u8>) -> bool {
    &&& spec_has_magic(s)
    &&& s.len() >= 54
    &&& spec_version_supported(spec_dib_header(s))
    &&& spec_bpp_supported(spec_dib_header(s))
    &&& spec_compression_supported(spec_dib_header(s))
}

/// The absolute value of a signed 32-bit dimension.
pub open spec fn spec_abs_32(v: i32) -> int {
    if v >= 0 {
        v as int
    } else {
        -(v as int)
    }
}

/// The decoded width: the absolute value of the header's width field.
pub open spec fn spec_width(s: Seq<u8>) -> int {
    spec_abs_32(spec_dib_header(s).width)
}

/// The decoded height: the absolute value of the header's height field.
pub open spec fn spec_height(s: Seq<u8>) -> int {
    spec_abs_32(spec_dib_header(s).height)
}

// ---------------------------------------------------------------------------
// Colour palette
// ---------------------------------------------------------------------------
/// A palette is present for the indexed depths, and whenever the header
/// declares a nonzero colour count.
pub open spec fn spec_has_palette(d: BmpDibHeader) -> bool {
    ||| d.num_colors != 0
    ||| d.bits_per_pixel == 1
    ||| d.bits_per_pixel == 4
    ||| d.bits_per_pixel == 8
}

/// How many palette entries are read: the declared count if nonzero,
/// else one entry for each representable index.
pub open spec fn spec_palette_entries(d: BmpDibHeader) -> int {
    if d.num_colors != 0 {
        d.num_colors as int
    } else if d.bits_per_pixel == 1 {
        2
    } else if d.bits_per_pixel == 4 {
        16
    } else if d.bits_per_pixel == 8 {
        256
    } else {
        0
    }
}

/// The palette starts directly after the file header and the DIB header.
pub open spec fn spec_palette_start(d: BmpDibHeader) -> int {
    14 + d.header_size
}

/// All palette entries lie inside the data.
pub open spec fn spec_palette_ok(s: Seq<u8>, d: BmpDibHeader) -> bool {
    spec_has_palette(d) ==> spec_palette_start(d) + 4 * spec_palette_entries(d) <= s.len()
}

/// The palette entries: four bytes each, stored blue, green, red, reserved.
pub open spec fn spec_palette(s: Seq<u8>, d: BmpDibHeader) -> Seq<Pixel> {
    Seq::new(
        spec_palette_entries(d) as nat,
        |i: int|
            (Pixel {
                r: s[spec_palette_start(d) + 4 * i + 2],
                g: s[spec_palette_start(d) + 4 * i + 1],
                b: s[spec_palette_start(d) + 4 * i],
            }),
    )
}

// ---------------------------------------------------------------------------
// Indexed pixel data (1, 4 and 8 bits per pixel)
// ---------------------------------------------------------------------------
/// The depth stores palette indices rather than direct colour values.
pub open spec fn spec_indexed_format(d: BmpDibHeader) -> bool {
    d.bits_per_pixel == 1 || d.bits_per_pixel == 4 || d.bits_per_pixel == 8
}

/// Bytes occupied by one row of packed indices, before padding.
pub open spec fn spec_bytes_per_row(w: int, bpp: int) -> int {
    (w * bpp + 7) / 8
}

/// Padding bytes that bring a row up to a multiple of four bytes.
pub open spec fn spec_row_pad(bytes_per_row: int) -> int {
    if bytes_per_row % 4 == 0 {
        0
    } else {
        4 - bytes_per_row % 4
    }
}

/// Distance in bytes between the starts of consecutive packed rows.
pub open spec fn spec_indexed_stride(w: int, bpp: int) -> int {
    spec_bytes_per_row(w, bpp) + spec_row_pad(spec_bytes_per_row(w, bpp))
}

/// Every packed row lies inside the data.
pub open spec fn spec_indexed_ok(s: Seq<u8>, off: int, w: int, h: int, bpp: int) -> bool {
    h == 0 || off + (h - 1) * spec_indexed_stride(w, bpp) + spec_bytes_per_row(w, bpp) <= s.len()
}

/// The mask that keeps the low `bpp` bits of a byte.
pub open spec fn spec_mask_of(bpp: int) -> u8 {
    if bpp == 1 {
        1u8
    } else if bpp == 4 {
        0xfu8
    } else {
        0xffu8
    }
}

/// The field of `bpp` bits that starts `within` bits into byte `b`,
/// counting from the most significant bit.
pub open spec fn spec_bit_value(b: u8, bpp: int, within: int) -> u8 {
    let sh = ((8 - bpp) - within) as u64;
    (b & (spec_mask_of(bpp) << sh)) >> sh
}

/// The palette index of pixel `x` in packed row `row`.
pub open spec fn spec_index_at(s: Seq<u8>, off: int, w: int, bpp: int, row: int, x: int) -> u8 {
    spec_bit_value(
        s[off + row * spec_indexed_stride(w, bpp) + (x * bpp) / 8],
        bpp,
        (x * bpp) % 8,
    )
}

/// Every packed index falls inside a palette of `entries` entries.
pub open spec fn spec_indexed_covered(
    s: Seq<u8>,
    off: int,
    w: int,
    h: int,
    bpp: int,
    entries: int,
) -> bool {
    forall|row: int, x: int|
        0 <= row < h && 0 <= x < w ==> spec_index_at(s, off, w, bpp, row, x) < entries
}

/// The decoded pixels of an indexed image, in the order the rows are stored.
pub open spec fn spec_indexed_data(
    s: Seq<u8>,
    off: int,
    w: int,
    h: int,
    bpp: int,
    palette: Seq<Pixel>,
) -> Seq<Pixel> {
    Seq::new((w * h) as nat, |k: int| palette[spec_index_at(s, off, w, bpp, k / w, k % w) as int])
}

// ---------------------------------------------------------------------------
// Direct pixel data (24 bits per pixel)
// ---------------------------------------------------------------------------
/// Distance in bytes between the starts of consecutive 24-bit rows.
pub open spec fn spec_direct_stride(w: int) -> int {
    3 * w + w % 4
}

/// Every 24-bit row lies inside the data.
pub open spec fn spec_direct_ok(s: Seq<u8>, off: int, w: int, h: int) -> bool {
    h == 0 || w == 0 || off + (h - 1) * spec_direct_stride(w) + 3 * w <= s.len()
}

/// Pixel `x` of stored row `row`: three bytes, stored blue, green, red.
pub open spec fn spec_direct_pixel(s: Seq<u8>, off: int, w: int, row: int, x: int) -> Pixel {
    let p = off + row * spec_direct_stride(w) + 3 * x;
    Pixel { r: s[p + 2], g: s[p + 1], b: s[p] }
}

/// The decoded pixels of a 24-bit image, in the order the rows are stored.
pub open spec fn spec_direct_data(s: Seq<u8>, off: int, w: int, h: int) -> Seq<Pixel> {
    Seq::new((w * h) as nat, |k: int| spec_direct_pixel(s, off, w, k / w, k % w))
}

// ---------------------------------------------------------------------------
// The whole decode
// ---------------------------------------------------------------------------
/// The pixel plane named by the headers lies inside the data, and for the
/// indexed depths every index falls inside the palette that was read.
pub open spec fn spec_pixels_ok(s: Seq<u8>) -> bool {
    let d = spec_dib_header(s);
    let off = spec_file_header(s).pixel_offset as int;
    let w = spec_width(s);
    let h = spec_height(s);
    if spec_indexed_format(d) {
        &&& spec_indexed_ok(s, off, w, h, d.bits_per_pixel as int)
        &&& spec_indexed_covered(s, off, w, h, d.bits_per_pixel as int, spec_palette_entries(d))
    } else {
        spec_direct_ok(s, off, w, h)
    }
}

/// Decoding succeeds exactly on these byte sequences.
pub open spec fn spec_can_decode(s: Seq<u8>) -> bool {
    &&& spec_headers_ok(s)
    &&& spec_palette_ok(s, spec_dib_header(s))
    &&& spec_pixels_ok(s)
}

/// The palette stored in a decoded image.
pub open spec fn spec_decoded_palette(s: Seq<u8>) -> Option<Seq<Pixel>> {
    if spec_has_palette(spec_dib_header(s)) {
        Some(spec_palette(s, spec_dib_header(s)))
    } else {
        None
    }
}

/// The pixel buffer of a decoded image.
pub open spec fn spec_decoded_data(s: Seq<u8>) -> Seq<Pixel> {
    let d = spec_dib_header(s);
    let off = spec_file_header(s).pixel_offset as int;
    let w = spec_width(s);
    let h = spec_height(s);
    if spec_indexed_format(d) {
        spec_indexed_data(s, off, w, h, d.bits_per_pixel as int, spec_palette(s, d))
    } else {
        spec_direct_data(s, off, w, h)
    }
}

/// The error kind reported for the first check that fails, in decoding order.
pub open spec fn spec_dib_error_kind(s: Seq<u8>) -> BmpErrorKind {
    if s.len() < 54 {
        BmpErrorKind::BmpIoError
    } else if BmpVersion::spec_of(spec_dib_header(s)) is None {
        BmpErrorKind::UnsupportedHeader
    } else if !spec_version_supported(spec_dib_header(s)) {
        BmpErrorKind::UnsupportedBmpVersion
    } else if !spec_bpp_supported(spec_dib_header(s)) {
        BmpErrorKind::UnsupportedBitsPerPixel
    } else if !spec_compression_supported(spec_dib_header(s)) {
        BmpErrorKind::UnsupportedCompressionType
    } else {
        BmpErrorKind::BmpIoError
    }
}

/// The error kind that a failed decode reports.
pub open spec fn spec_error_kind(s: Seq<u8>) -> BmpErrorKind {
    if s.len() < 2 {
        BmpErrorKind::BmpIoError
    } else if !spec_has_magic(s) {
        BmpErrorKind::WrongMagicNumbers
    } else {
        spec_dib_error_kind(s)
    }
}

// ---------------------------------------------------------------------------
// Encoding
// ---------------------------------------------------------------------------
/// Bytes occupied by one padded row of an encoded 24-bit image.
pub open spec fn spec_row_size(w: int) -> int {
    ((24 * w + 31) / 32) * 4
}

/// Bytes occupied by the pixel plane of an encoded image.
pub open spec fn spec_data_size(img: Image) -> int {
    img.height * spec_row_size(img.width as int)
}

/// Total length of an encoded image: 54 header bytes plus the pixel plane.
pub open spec fn spec_file_size(img: Image) -> int {
    54 + spec_data_size(img)
}

/// A value reduced to 32 bits, as a u32 store of it would wrap.
pub open spec fn spec_wrap_u32(v: int) -> u32 {
    (v % 0x1_0000_0000) as u32
}

/// A value reduced to 32 bits and read back as signed.
pub open spec fn spec_wrap_i32(v: int) -> i32 {
    as_signed_32(v % 0x1_0000_0000) as i32
}

/// The fresh DIB header that both decoding and encoding give an image:
/// a 40-byte header describing uncompressed 24-bit data of the same size.
pub open spec fn spec_normalized_dib(w: u32, h: u32) -> BmpDibHeader {
    BmpDibHeader {
        header_size: 40,
        width: spec_wrap_i32(w as int),
        height: spec_wrap_i32(h as int),
        num_planes: 1,
        bits_per_pixel: 24,
        compress_type: 0,
        data_size: spec_wrap_u32(h * spec_row_size(w as int)),
        hres: 1000,
        vres: 1000,
        num_colors: 0,
        num_imp_colors: 0,
    }
}

/// Byte `i` of the encoded form of an image.
pub open spec fn spec_encode_byte(img: Image, i: int) -> u8 {
    if i == 0 {
        66u8
    } else if i == 1 {
        77u8
    } else if i < 6 {
        le_byte(spec_file_size(img), i - 2)
    } else if i < 10 {
        0u8
    } else if i < 14 {
        le_byte(54, i - 10)
    } else if i < 18 {
        le_byte(40, i - 14)
    } else if i < 22 {
        le_byte(img.width as int, i - 18)
    } else if i < 26 {
        le_byte(img.height as int, i - 22)
    } else if i < 28 {
        le_byte(1, i - 26)
    } else if i < 30 {
        le_byte(24, i - 28)
    } else if i < 34 {
        0u8
    } else if i < 38 {
        le_byte(spec_data_size(img), i - 34)
    } else if i < 46 {
        le_byte(1000, (i - 38) % 4)
    } else if i < 54 {
        0u8
    } else {
        let j = i - 54;
        let rs = spec_row_size(img.width as int);
        let row = j / rs;
        let k = j % rs;
        if k < 3 * img.width {
            let p = img.data@[row * img.width + k / 3];
            if k % 3 == 0 {
                p.b
            } else if k % 3 == 1 {
                p.g
            } else {
                p.r
            }
        } else {
            0u8
        }
    }
}

/// The encoded form of an image: always an uncompressed 24-bit file.
pub open spec fn spec_encode(img: Image) -> Seq<u8> {
    Seq::new(spec_file_size(img) as nat, |i: int| spec_encode_byte(img, i))
}

// ---------------------------------------------------------------------------
// Facts about the layout
// ---------------------------------------------------------------------------
/// A padded 24-bit row is the three bytes per pixel plus `w % 4` padding
/// bytes, and its length is a multiple of four.
pub proof fn lemma_row_size(w: int)
    requires
        0 <= w,
    ensures
        spec_row_size(w) == 3 * w + w % 4,
        spec_row_size(w) == spec_direct_stride(w),
        spec_row_size(w) % 4 == 0,
{
    let q = w / 4;
    let r = w % 4;
    vstd::arithmetic::div_mod::lemma_fundamental_div_mod(w, 4);
    assert(0 <= r < 4);
    assert(24 * w + 31 == (24 * r + 31) + (3 * q) * 32);
    vstd::arithmetic::div_mod::lemma_hoist_over_denominator(24 * r + 31, 3 * q, 32nat);
    assert((24 * w + 31) / 32 == (24 * r + 31) / 32 + 3 * q);
    if r == 0 {
        assert(31int / 32 == 0);
    } else if r == 1 {
        assert(55int / 32 == 1);
    } else if r == 2 {
        assert(79int / 32 == 2);
    } else {
        assert(103int / 32 == 3);
    }
    assert((24 * r + 31) / 32 == r);
    assert(spec_row_size(w) == (r + 3 * q) * 4);
    vstd::arithmetic::div_mod::lemma_mod_multiples_basic(r + 3 * q, 4);
}

/// Four little-endian bytes taken from a 32-bit value give that value back.
pub proof fn lemma_le4_of_bytes(v: int)
    requires
        0 <= v < 0x1_0000_0000,
    ensures
        le4(le_byte(v, 0), le_byte(v, 1), le_byte(v, 2), le_byte(v, 3)) == v,
{
    let r1 = v / 0x100;
    let r2 = v / 0x10000;
    let r3 = v / 0x1000000;
    vstd::arithmetic::div_mod::lemma_fundamental_div_mod(v, 0x100);
    vstd::arithmetic::div_mod::lemma_fundamental_div_mod(r1, 0x100);
    vstd::arithmetic::div_mod::lemma_fundamental_div_mod(r2, 0x100);
    vstd::arithmetic::div_mod::lemma_div_denominator(v, 0x100, 0x100);
    vstd::arithmetic::div_mod::lemma_div_denominator(v, 0x10000, 0x100);
    assert(r1 / 0x100 == r2);
    assert(r2 / 0x100 == r3);
    vstd::arithmetic::div_mod::lemma_div_is_ordered(v, 0xffff_ffff, 0x1000000);
    assert(0 <= r3 < 0x100) by {
        vstd::arithmetic::div_mod::lemma_div_pos_is_pos(v, 0x1000000);
    }
    vstd::arithmetic::div_mod::lemma_small_mod(r3 as nat, 0x100nat);
}

} // verus!
