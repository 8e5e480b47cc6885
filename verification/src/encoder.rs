//! The encoder: from an [`Image`] to the bytes of an uncompressed 24-bit file.
//!
//! Whatever depth the image was decoded from, its encoded form is always a
//! 40-byte DIB header, no palette, and 24-bit pixel rows padded to four
//! bytes, written bottom row first.

use vstd::prelude::*;

use crate::bytes::le_write_i32;
use crate::bytes::le_write_u16;
use crate::bytes::le_write_u32;
use crate::layout;
use crate::Image;
use crate::Pixel;

verus! {

/// The first `n` bytes of the encoded form of an image.
pub open spec fn spec_encode_prefix(img: Image, n: int) -> Seq<u8> {
    Seq::new(n as nat, |i: int| layout::spec_encode_byte(img, i))
}

/// Appends the next byte of the encoded form.
fn push_byte(out: &mut Vec<u8>, b: u8, Ghost(img): Ghost<Image>)
    requires
        old(out)@ == spec_encode_prefix(img, old(out)@.len() as int),
        b == layout::spec_encode_byte(img, old(out)@.len() as int),
    ensures
        final(out)@ == spec_encode_prefix(img, old(out)@.len() + 1int),
        final(out)@.len() == old(out)@.len() + 1,
{
    out.push(b);
    proof {
        assert(out@ =~= spec_encode_prefix(img, old(out)@.len() + 1int));
    }
}

/// Byte `c` of pixel `x` in encoded row `y` is the matching channel of the
/// pixel the buffer holds for that position.
pub proof fn lemma_pixel_byte(img: Image, y: int, x: int, c: int)
    requires
        img.well_formed(),
        0 <= y < img.height,
        0 <= x < img.width,
        0 <= c < 3,
    ensures
        layout::spec_encode_byte(img, 54 + y * layout::spec_row_size(img.width as int) + 3 * x + c)
            == (if c == 0 {
            img.data@[y * img.width + x].b
        } else if c == 1 {
            img.data@[y * img.width + x].g
        } else {
            img.data@[y * img.width + x].r
        }),
{
    let rs = layout::spec_row_size(img.width as int);
    layout::lemma_row_size(img.width as int);
    let j = y * rs + 3 * x + c;
    vstd::arithmetic::mul::lemma_mul_nonnegative(y, rs);
    assert(0 <= 3 * x + c < rs);
    vstd::arithmetic::div_mod::lemma_fundamental_div_mod_converse(j, rs, y, 3 * x + c);
    vstd::arithmetic::div_mod::lemma_fundamental_div_mod_converse(3 * x + c, 3, x, c);
}

/// Every byte of an encoded row past the pixel data is a zero padding byte.
pub proof fn lemma_pad_byte(img: Image, y: int, k: int)
    requires
        img.well_formed(),
        0 <= y < img.height,
        3 * img.width <= k < layout::spec_row_size(img.width as int),
    ensures
        layout::spec_encode_byte(img, 54 + y * layout::spec_row_size(img.width as int) + k)
            == 0u8,
{
    let rs = layout::spec_row_size(img.width as int);
    layout::lemma_row_size(img.width as int);
    let j = y * rs + k;
    vstd::arithmetic::mul::lemma_mul_nonnegative(y, rs);
    vstd::arithmetic::div_mod::lemma_fundamental_div_mod_converse(j, rs, y, k);
}

/// Encodes an image as an uncompressed 24-bit file: 54 bytes of headers,
/// then the pixel rows, bottom row first, each padded to four bytes.
pub fn encode_image(image: &Image) -> (r: Vec<u8>)
    requires
        image.well_formed(),
        image.encodable(),
    ensures
        r@ == layout::spec_encode(*image),
{
    let ghost img = *image;
    proof {
        layout::lemma_row_size(image.width as int);
        vstd::arithmetic::mul::lemma_mul_nonnegative(
            image.height as int,
            layout::spec_row_size(image.width as int),
        );
    }
    let row_size: u64 = ((24 * (image.width as u64) + 31) / 32) * 4;
    let data_size: u32 = ((image.height as u64) * row_size) as u32;
    let file_size: u32 = 54 + data_size;
    let mut out: Vec<u8> = Vec::new();
    proof {
        assert(out@ =~= spec_encode_prefix(img, 0));
    }
    push_byte(&mut out, 66, Ghost(img));
    push_byte(&mut out, 77, Ghost(img));
    let fs = le_write_u32(file_size);
    push_byte(&mut out, fs.0, Ghost(img));
    push_byte(&mut out, fs.1, Ghost(img));
    push_byte(&mut out, fs.2, Ghost(img));
    push_byte(&mut out, fs.3, Ghost(img));
    let creator = le_write_u16(0);
    push_byte(&mut out, creator.0, Ghost(img));
    push_byte(&mut out, creator.1, Ghost(img));
    push_byte(&mut out, creator.0, Ghost(img));
    push_byte(&mut out, creator.1, Ghost(img));
    let offset = le_write_u32(54);
    push_byte(&mut out, offset.0, Ghost(img));
    push_byte(&mut out, offset.1, Ghost(img));
    push_byte(&mut out, offset.2, Ghost(img));
    push_byte(&mut out, offset.3, Ghost(img));
    let header_size = le_write_u32(40);
    push_byte(&mut out, header_size.0, Ghost(img));
    push_byte(&mut out, header_size.1, Ghost(img));
    push_byte(&mut out, header_size.2, Ghost(img));
    push_byte(&mut out, header_size.3, Ghost(img));
    let width_bytes = le_write_i32(image.width as i32);
    push_byte(&mut out, width_bytes.0, Ghost(img));
    push_byte(&mut out, width_bytes.1, Ghost(img));
    push_byte(&mut out, width_bytes.2, Ghost(img));
    push_byte(&mut out, width_bytes.3, Ghost(img));
    let height_bytes = le_write_i32(image.height as i32);
    push_byte(&mut out, height_bytes.0, Ghost(img));
    push_byte(&mut out, height_bytes.1, Ghost(img));
    push_byte(&mut out, height_bytes.2, Ghost(img));
    push_byte(&mut out, height_bytes.3, Ghost(img));
    let planes = le_write_u16(1);
    push_byte(&mut out, planes.0, Ghost(img));
    push_byte(&mut out, planes.1, Ghost(img));
    let depth = le_write_u16(24);
    push_byte(&mut out, depth.0, Ghost(img));
    push_byte(&mut out, depth.1, Ghost(img));
    let compress = le_write_u32(0);
    push_byte(&mut out, compress.0, Ghost(img));
    push_byte(&mut out, compress.1, Ghost(img));
    push_byte(&mut out, compress.2, Ghost(img));
    push_byte(&mut out, compress.3, Ghost(img));
    let ds_bytes = le_write_u32(data_size);
    push_byte(&mut out, ds_bytes.0, Ghost(img));
    push_byte(&mut out, ds_bytes.1, Ghost(img));
    push_byte(&mut out, ds_bytes.2, Ghost(img));
    push_byte(&mut out, ds_bytes.3, Ghost(img));
    let res = le_write_i32(1000);
    push_byte(&mut out, res.0, Ghost(img));
    push_byte(&mut out, res.1, Ghost(img));
    push_byte(&mut out, res.2, Ghost(img));
    push_byte(&mut out, res.3, Ghost(img));
    push_byte(&mut out, res.0, Ghost(img));
    push_byte(&mut out, res.1, Ghost(img));
    push_byte(&mut out, res.2, Ghost(img));
    push_byte(&mut out, res.3, Ghost(img));
    let colors = le_write_u32(0);
    push_byte(&mut out, colors.0, Ghost(img));
    push_byte(&mut out, colors.1, Ghost(img));
    push_byte(&mut out, colors.2, Ghost(img));
    push_byte(&mut out, colors.3, Ghost(img));
    push_byte(&mut out, colors.0, Ghost(img));
    push_byte(&mut out, colors.1, Ghost(img));
    push_byte(&mut out, colors.2, Ghost(img));
    push_byte(&mut out, colors.3, Ghost(img));
    let pad: u32 = image.width % 4;
    let mut y: u32 = 0;
    while y < image.height
        invariant
            y <= image.height,
            img == *image,
            image.well_formed(),
            image.encodable(),
            row_size == layout::spec_row_size(image.width as int),
            row_size == 3 * image.width + image.width % 4,
            pad == image.width % 4,
            out@.len() == 54 + y * row_size,
            out@ == spec_encode_prefix(img, 54 + y * row_size),
        decreases image.height - y,
    {
        proof {
            vstd::arithmetic::mul::lemma_mul_nonnegative(y as int, row_size as int);
        }
        let mut x: u32 = 0;
        while x < image.width
            invariant
                x <= image.width,
                y < image.height,
                img == *image,
                image.well_formed(),
                image.encodable(),
                row_size == layout::spec_row_size(image.width as int),
                row_size == 3 * image.width + image.width % 4,
                out@.len() == 54 + y * row_size + 3 * x,
                out@ == spec_encode_prefix(img, 54 + y * row_size + 3 * x),
                0 <= y * row_size,
            decreases image.width - x,
        {
            proof {
                vstd::arithmetic::mul::lemma_mul_inequality(
                    y as int,
                    image.height - 1,
                    image.width as int,
                );
                vstd::arithmetic::mul::lemma_mul_is_distributive_sub_other_way(
                    image.width as int,
                    image.height as int,
                    1,
                );
                vstd::arithmetic::mul::lemma_mul_is_commutative(
                    image.width as int,
                    image.height as int,
                );
                vstd::arithmetic::mul::lemma_mul_nonnegative(y as int, image.width as int);
                vstd::arithmetic::mul::lemma_mul_upper_bound(
                    y as int,
                    0x7fff_ffff,
                    image.width as int,
                    0x7fff_ffff,
                );
            }
            let data_len: usize = image.data.len();
            proof {
                assert(data_len <= usize::MAX);
            }
            let idx: u64 = (y as u64) * (image.width as u64) + (x as u64);
            let px: Pixel = image.data[idx as usize];
            proof {
                lemma_pixel_byte(img, y as int, x as int, 0);
                lemma_pixel_byte(img, y as int, x as int, 1);
                lemma_pixel_byte(img, y as int, x as int, 2);
            }
            push_byte(&mut out, px.b, Ghost(img));
            push_byte(&mut out, px.g, Ghost(img));
            push_byte(&mut out, px.r, Ghost(img));
            x = x + 1;
        }
        let mut k: u32 = 0;
        while k < pad
            invariant
                k <= pad,
                y < image.height,
                img == *image,
                image.well_formed(),
                image.encodable(),
                row_size == layout::spec_row_size(image.width as int),
                row_size == 3 * image.width + image.width % 4,
                pad == image.width % 4,
                out@.len() == 54 + y * row_size + 3 * image.width + k,
                out@ == spec_encode_prefix(img, 54 + y * row_size + 3 * image.width + k),
                0 <= y * row_size,
            decreases pad - k,
        {
            proof {
                lemma_pad_byte(img, y as int, 3 * image.width + k);
            }
            push_byte(&mut out, 0, Ghost(img));
            k = k + 1;
        }
        proof {
            vstd::arithmetic::mul::lemma_mul_is_distributive_add_other_way(
                row_size as int,
                y as int,
                1,
            );
        }
        y = y + 1;
    }
    proof {
        assert(out@ =~= layout::spec_encode(img));
    }
    out
}

} // verus!
