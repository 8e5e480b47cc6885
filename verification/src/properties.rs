//! Laws that hold across the decoder and the encoder.

use vstd::prelude::*;

use crate::decoder::BmpErrorKind;
use crate::encoder;
use crate::layout;
use crate::BmpVersion;
use crate::Image;

verus! {

/// Encoding and then decoding gives the image back: any well-formed image
/// that fits an encoded file decodes from its own encoding, with the same
/// width, height, padding and pixel buffer — so every coordinate reads the
/// same pixel — and with no palette.
pub proof fn lemma_encode_decode_round_trip(img: Image)
    requires
        img.well_formed(),
        img.encodable(),
    ensures
        layout::spec_can_decode(layout::spec_encode(img)),
        layout::spec_width(layout::spec_encode(img)) == img.width,
        layout::spec_height(layout::spec_encode(img)) == img.height,
        layout::spec_width(layout::spec_encode(img)) % 4 == img.width % 4,
        layout::spec_decoded_data(layout::spec_encode(img)) == img.data@,
        layout::spec_decoded_palette(layout::spec_encode(img)) is None,
        forall|x: u32, y: u32|
            x < img.width && y < img.height ==> layout::spec_decoded_data(
                layout::spec_encode(img),
            )[img.spec_index_of(x, y)] == img.spec_pixel(x, y),
{
    let s = layout::spec_encode(img);
    let w = img.width as int;
    let h = img.height as int;
    let rs = layout::spec_row_size(w);
    layout::lemma_row_size(w);
    vstd::arithmetic::mul::lemma_mul_nonnegative(h, rs);
    lemma_encoded_headers(img);
    assert forall|k: int| 0 <= k < w * h implies layout::spec_direct_data(s, 54, w, h)[k]
        == img.data@[k] by {
        lemma_encoded_pixel(img, k);
    }
    assert(layout::spec_direct_data(s, 54, w, h) =~= img.data@);
    assert forall|x: u32, y: u32| x < img.width && y < img.height implies layout::spec_decoded_data(
        s,
    )[img.spec_index_of(x, y)] == img.spec_pixel(x, y) by {
        crate::lemma_index_bound(w, h, x as int, y as int);
    }
}

/// Entry `k` of the pixel plane read back from an encoded image is pixel
/// `k` of the image's own buffer.
proof fn lemma_encoded_pixel(img: Image, k: int)
    requires
        img.well_formed(),
        img.encodable(),
        0 <= k < img.width * img.height,
    ensures
        layout::spec_direct_data(
            layout::spec_encode(img),
            54,
            img.width as int,
            img.height as int,
        )[k] == img.data@[k],
{
    let s = layout::spec_encode(img);
    let w = img.width as int;
    let h = img.height as int;
    let rs = layout::spec_row_size(w);
    layout::lemma_row_size(w);
    vstd::arithmetic::mul::lemma_mul_nonnegative(h, rs);
    vstd::arithmetic::mul::lemma_mul_nonnegative(w, h);
    let row = k / w;
    let x = k % w;
    vstd::arithmetic::div_mod::lemma_fundamental_div_mod(k, w);
    vstd::arithmetic::mul::lemma_mul_is_commutative(w, h);
    vstd::arithmetic::div_mod::lemma_multiply_divide_lt(k, w, h);
    vstd::arithmetic::mul::lemma_mul_nonnegative(row, w);
    encoder::lemma_pixel_byte(img, row, x, 0);
    encoder::lemma_pixel_byte(img, row, x, 1);
    encoder::lemma_pixel_byte(img, row, x, 2);
    vstd::arithmetic::mul::lemma_mul_is_commutative(row, w);
    vstd::arithmetic::mul::lemma_mul_inequality(row, h - 1, rs);
    vstd::arithmetic::mul::lemma_mul_is_distributive_sub_other_way(rs, h, 1);
    vstd::arithmetic::mul::lemma_mul_nonnegative(row, rs);
    assert(54 + row * rs + 3 * x + 2 < s.len());
    assert(layout::spec_direct_pixel(s, 54, w, row, x) == img.data@[k]);
}

/// The header bytes of an encoded image read back as the values the
/// encoder wrote, and they pass every check the decoder makes.
proof fn lemma_encoded_headers(img: Image)
    requires
        img.well_formed(),
        img.encodable(),
    ensures
        layout::spec_can_decode(layout::spec_encode(img)),
        layout::spec_width(layout::spec_encode(img)) == img.width,
        layout::spec_height(layout::spec_encode(img)) == img.height,
        !layout::spec_has_palette(layout::spec_dib_header(layout::spec_encode(img))),
        !layout::spec_indexed_format(layout::spec_dib_header(layout::spec_encode(img))),
        layout::spec_file_header(layout::spec_encode(img)).pixel_offset == 54,
{
    let s = layout::spec_encode(img);
    let w = img.width as int;
    let h = img.height as int;
    let rs = layout::spec_row_size(w);
    layout::lemma_row_size(w);
    vstd::arithmetic::mul::lemma_mul_nonnegative(h, rs);
    let fs = 54 + h * rs;
    assert(s.len() == fs);
    layout::lemma_le4_of_bytes(fs);
    assert(layout::spec_u32_at(s, 2) == fs);
    layout::lemma_le4_of_bytes(54);
    assert(layout::spec_u32_at(s, 10) == 54);
    layout::lemma_le4_of_bytes(40);
    assert(layout::spec_u32_at(s, 14) == 40);
    layout::lemma_le4_of_bytes(w);
    assert(layout::spec_i32_at(s, 18) == w);
    layout::lemma_le4_of_bytes(h);
    assert(layout::spec_i32_at(s, 22) == h);
    assert(layout::spec_u16_at(s, 28) == 24);
    assert(layout::spec_u32_at(s, 30) == 0);
    assert(layout::spec_u32_at(s, 46) == 0);
    let d = layout::spec_dib_header(s);
    assert(BmpVersion::spec_of(d) == Some(BmpVersion::Three));
    assert(layout::spec_headers_ok(s));
    assert(!layout::spec_has_palette(d));
    assert(layout::spec_palette_ok(s, d));
    assert(layout::spec_width(s) == w);
    assert(layout::spec_height(s) == h);
    let off = layout::spec_file_header(s).pixel_offset as int;
    assert(off == 54);
    assert(layout::spec_direct_stride(w) == rs);
    if w > 0 && h > 0 {
        vstd::arithmetic::mul::lemma_mul_is_distributive_sub_other_way(rs, h, 1);
        assert(54 + (h - 1) * rs + 3 * w <= s.len());
    }
    assert(layout::spec_direct_ok(s, 54, w, h));
    assert(!layout::spec_indexed_format(d));
    assert(layout::spec_pixels_ok(s));
    assert(layout::spec_can_decode(s));
}

/// A byte sequence whose first two bytes are not the ASCII codes of `B`
/// and `M` never decodes, and fails with the wrong-magic-numbers kind.
pub proof fn lemma_wrong_magic_rejected(s: Seq<u8>)
    requires
        s.len() >= 2,
        !(s[0] == 66u8 && s[1] == 77u8),
    ensures
        !layout::spec_can_decode(s),
        layout::spec_error_kind(s) == BmpErrorKind::WrongMagicNumbers,
{
}

/// A DIB header size of 12 — the legacy version-2 layout — never decodes,
/// and fails with the unsupported-version kind.
pub proof fn lemma_legacy_version_rejected(s: Seq<u8>)
    requires
        s.len() >= 54,
        layout::spec_has_magic(s),
        layout::spec_dib_header(s).header_size == 12,
    ensures
        !layout::spec_can_decode(s),
        layout::spec_error_kind(s) == BmpErrorKind::UnsupportedBmpVersion,
{
}

/// On a header of a supported version, any colour depth other than
/// 1, 4, 8 or 24 — for instance 2, 16 or 32 — never decodes, and fails
/// with the unsupported-depth kind.
pub proof fn lemma_bad_depth_rejected(s: Seq<u8>)
    requires
        s.len() >= 54,
        layout::spec_has_magic(s),
        layout::spec_version_supported(layout::spec_dib_header(s)),
        !layout::spec_bpp_supported(layout::spec_dib_header(s)),
    ensures
        !layout::spec_can_decode(s),
        layout::spec_error_kind(s) == BmpErrorKind::UnsupportedBitsPerPixel,
{
}

/// On an otherwise valid version-4 or version-5 header, a compression code
/// naming RLE-8, RLE-4 or bitfields never decodes, and fails with the
/// unsupported-compression kind.
pub proof fn lemma_compression_rejected(s: Seq<u8>)
    requires
        s.len() >= 54,
        layout::spec_has_magic(s),
        layout::spec_dib_header(s).header_size == 108 || layout::spec_dib_header(s).header_size
            == 124,
        layout::spec_bpp_supported(layout::spec_dib_header(s)),
        layout::spec_dib_header(s).compress_type == 1 || layout::spec_dib_header(s).compress_type
            == 2 || layout::spec_dib_header(s).compress_type == 3,
    ensures
        !layout::spec_can_decode(s),
        layout::spec_error_kind(s) == BmpErrorKind::UnsupportedCompressionType,
{
}

/// An 8-bit image whose header declares no colour count reads a palette of
/// exactly 256 entries.
pub proof fn lemma_default_palette_size(s: Seq<u8>)
    requires
        layout::spec_can_decode(s),
        layout::spec_dib_header(s).bits_per_pixel == 8,
        layout::spec_dib_header(s).num_colors == 0,
    ensures
        layout::spec_decoded_palette(s) matches Some(p) && p.len() == 256,
{
}

/// A header that declares a nonzero colour count reads exactly that many
/// palette entries, whatever the colour depth.
pub proof fn lemma_declared_palette_size(s: Seq<u8>)
    requires
        layout::spec_can_decode(s),
        layout::spec_dib_header(s).num_colors != 0,
    ensures
        layout::spec_decoded_palette(s) matches Some(p) && p.len() == layout::spec_dib_header(
            s,
        ).num_colors,
{
}

} // verus!
