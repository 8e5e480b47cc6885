//! The decoder: from a byte buffer to an [`Image`], with the errors it reports.

use vstd::prelude::*;
use vstd::string::StringExecFns;

use crate::bytes::le_read_i32;
use crate::bytes::le_read_u16;
use crate::bytes::le_read_u32;
use crate::layout;
use crate::BmpDibHeader;
use crate::BmpHeader;
use crate::BmpVersion;
use crate::CompressionType;
use crate::Image;
use crate::Pixel;

verus! {

pub type BmpResult<T> = Result<T, BmpError>;

/// Why a decode failed.
#[derive(Clone, Debug)]
pub enum BmpErrorKind {
    WrongMagicNumbers,
    UnsupportedBitsPerPixel,
    UnsupportedCompressionType,
    UnsupportedBmpVersion,
    UnsupportedHeader,
    BmpIoError,
}

impl BmpErrorKind {
    /// A short name for the kind, for diagnostics.
    pub open spec fn spec_str(self) -> Seq<char> {
        match self {
            BmpErrorKind::WrongMagicNumbers => "Wrong magic numbers"@,
            BmpErrorKind::UnsupportedBitsPerPixel => "Unsupported bits per pixel"@,
            BmpErrorKind::UnsupportedCompressionType => "Unsupported compression type"@,
            BmpErrorKind::UnsupportedBmpVersion => "Unsupported bmp version"@,
            BmpErrorKind::UnsupportedHeader => "Unsupported header"@,
            BmpErrorKind::BmpIoError => "BMP Error"@,
        }
    }

    pub fn as_ref(&self) -> (s: &'static str)
        ensures
            s@ == self.spec_str(),
    {
        match *self {
            BmpErrorKind::WrongMagicNumbers => "Wrong magic numbers",
            BmpErrorKind::UnsupportedBitsPerPixel => "Unsupported bits per pixel",
            BmpErrorKind::UnsupportedCompressionType => "Unsupported compression type",
            BmpErrorKind::UnsupportedBmpVersion => "Unsupported bmp version",
            BmpErrorKind::UnsupportedHeader => "Unsupported header",
            BmpErrorKind::BmpIoError => "BMP Error",
        }
    }
}

/// A decode failure: its kind, and a detail string with the observed values.
#[derive(Debug)]
pub struct BmpError {
    pub kind: BmpErrorKind,
    pub details: String,
}

impl BmpError {
    pub fn new(kind: BmpErrorKind, details: &str) -> (e: BmpError)
        ensures
            e.kind == kind,
            e.details@ == details@,
    {
        BmpError { kind, details: String::from_str(details) }
    }

    /// The kind's name and the details, joined for display.
    pub fn message(&self) -> (s: String)
        ensures
            s@ == self.kind.spec_str() + ":"@ + self.details@,
    {
        let mut s = String::from_str(self.kind.as_ref());
        s.append(":");
        s.append(self.details.as_str());
        s
    }
}

/// The digits of a nonnegative number, most significant first.
pub open spec fn spec_decimal(n: int) -> Seq<char>
    decreases n,
{
    let digit = seq![spec_digit(n % 10)];
    if n < 10 {
        digit
    } else {
        spec_decimal(n / 10) + digit
    }
}

/// The character for one decimal digit.
pub open spec fn spec_digit(d: int) -> char {
    if d == 0 {
        '0'
    } else if d == 1 {
        '1'
    } else if d == 2 {
        '2'
    } else if d == 3 {
        '3'
    } else if d == 4 {
        '4'
    } else if d == 5 {
        '5'
    } else if d == 6 {
        '6'
    } else if d == 7 {
        '7'
    } else if d == 8 {
        '8'
    } else {
        '9'
    }
}

fn digit_str(d: u32) -> (s: &'static str)
    requires
        d < 10,
    ensures
        s@ == seq![spec_digit(d as int)],
{
    let s = if d == 0 {
        "0"
    } else if d == 1 {
        "1"
    } else if d == 2 {
        "2"
    } else if d == 3 {
        "3"
    } else if d == 4 {
        "4"
    } else if d == 5 {
        "5"
    } else if d == 6 {
        "6"
    } else if d == 7 {
        "7"
    } else if d == 8 {
        "8"
    } else {
        "9"
    };
    proof {
        reveal_strlit("0");
        reveal_strlit("1");
        reveal_strlit("2");
        reveal_strlit("3");
        reveal_strlit("4");
        reveal_strlit("5");
        reveal_strlit("6");
        reveal_strlit("7");
        reveal_strlit("8");
        reveal_strlit("9");
    }
    s
}

/// The decimal rendering of a number, for detail strings.
fn decimal_string(n: u32) -> (s: String)
    ensures
        s@ == spec_decimal(n as int),
    decreases n,
{
    if n < 10 {
        String::from_str(digit_str(n))
    } else {
        let mut s = decimal_string(n / 10);
        s.append(digit_str(n % 10));
        s
    }
}

/// Checks the two magic bytes at the start of the data.
pub fn read_bmp_id(bmp_data: &Vec<u8>) -> (r: BmpResult<()>)
    ensures
        r is Ok <==> layout::spec_has_magic(bmp_data@),
        r matches Err(e) ==> e.kind == (if bmp_data@.len() < 2 {
            BmpErrorKind::BmpIoError
        } else {
            BmpErrorKind::WrongMagicNumbers
        }),
{
    if bmp_data.len() < 2 {
        return Err(
            BmpError::new(BmpErrorKind::BmpIoError, "unexpected end of data in the signature"),
        );
    }
    let b0 = bmp_data[0];
    let b1 = bmp_data[1];
    if b0 == 66 && b1 == 77 {
        Ok(())
    } else {
        let mut details = String::from_str("Expected [66, 77], but was [");
        details.append(decimal_string(b0 as u32).as_str());
        details.append(", ");
        details.append(decimal_string(b1 as u32).as_str());
        details.append("]");
        Err(BmpError { kind: BmpErrorKind::WrongMagicNumbers, details })
    }
}

/// Reads the four file header fields at bytes 2..14.
fn read_bmp_header(bmp_data: &Vec<u8>) -> (r: BmpResult<BmpHeader>)
    ensures
        r is Ok <==> bmp_data@.len() >= 14,
        r matches Ok(h) ==> h == layout::spec_file_header(bmp_data@),
        r matches Err(e) ==> e.kind == BmpErrorKind::BmpIoError,
{
    if bmp_data.len() < 14 {
        return Err(
            BmpError::new(BmpErrorKind::BmpIoError, "unexpected end of data in the file header"),
        );
    }
    let header = BmpHeader {
        file_size: le_read_u32(bmp_data[2], bmp_data[3], bmp_data[4], bmp_data[5]),
        creator1: le_read_u16(bmp_data[6], bmp_data[7]),
        creator2: le_read_u16(bmp_data[8], bmp_data[9]),
        pixel_offset: le_read_u32(bmp_data[10], bmp_data[11], bmp_data[12], bmp_data[13]),
    };
    Ok(header)
}

/// Reads the DIB header at bytes 14..54 and validates, in order, the
/// format version, the colour depth, and the compression code.
fn read_bmp_dib_header(bmp_data: &Vec<u8>) -> (r: BmpResult<BmpDibHeader>)
    ensures
        r is Ok <==> (bmp_data@.len() >= 54
            && layout::spec_version_supported(layout::spec_dib_header(bmp_data@))
            && layout::spec_bpp_supported(layout::spec_dib_header(bmp_data@))
            && layout::spec_compression_supported(layout::spec_dib_header(bmp_data@))),
        r matches Ok(d) ==> d == layout::spec_dib_header(bmp_data@),
        r matches Err(e) ==> e.kind == layout::spec_dib_error_kind(bmp_data@),
{
    if bmp_data.len() < 54 {
        return Err(
            BmpError::new(BmpErrorKind::BmpIoError, "unexpected end of data in the DIB header"),
        );
    }
    let dib_header = BmpDibHeader {
        header_size: le_read_u32(bmp_data[14], bmp_data[15], bmp_data[16], bmp_data[17]),
        width: le_read_i32(bmp_data[18], bmp_data[19], bmp_data[20], bmp_data[21]),
        height: le_read_i32(bmp_data[22], bmp_data[23], bmp_data[24], bmp_data[25]),
        num_planes: le_read_u16(bmp_data[26], bmp_data[27]),
        bits_per_pixel: le_read_u16(bmp_data[28], bmp_data[29]),
        compress_type: le_read_u32(bmp_data[30], bmp_data[31], bmp_data[32], bmp_data[33]),
        data_size: le_read_u32(bmp_data[34], bmp_data[35], bmp_data[36], bmp_data[37]),
        hres: le_read_i32(bmp_data[38], bmp_data[39], bmp_data[40], bmp_data[41]),
        vres: le_read_i32(bmp_data[42], bmp_data[43], bmp_data[44], bmp_data[45]),
        num_colors: le_read_u32(bmp_data[46], bmp_data[47], bmp_data[48], bmp_data[49]),
        num_imp_colors: le_read_u32(bmp_data[50], bmp_data[51], bmp_data[52], bmp_data[53]),
    };
    assert(dib_header == layout::spec_dib_header(bmp_data@));
    match BmpVersion::from_dib_header(&dib_header) {
        Some(BmpVersion::Three) => {},
        Some(BmpVersion::Four) => {},
        Some(BmpVersion::Five) => {},
        Some(other) => {
            return Err(BmpError::new(BmpErrorKind::UnsupportedBmpVersion, other.as_ref()));
        },
        None => {
            return Err(
                BmpError::new(
                    BmpErrorKind::UnsupportedHeader,
                    "only BMP versions 3, 4, and 5 are currently supported",
                ),
            );
        },
    }
    match dib_header.bits_per_pixel {
        1 | 4 | 8 | 24 => {},
        other => {
            let mut details = String::from_str(
                "Only 1, 4, 8, and 24 bits per pixel are currently supported, was: ",
            );
            details.append(decimal_string(other as u32).as_str());
            return Err(BmpError { kind: BmpErrorKind::UnsupportedBitsPerPixel, details });
        },
    }
    match CompressionType::from_u32(dib_header.compress_type) {
        CompressionType::Uncompressed => {},
        other => {
            return Err(BmpError::new(BmpErrorKind::UnsupportedCompressionType, other.as_ref()));
        },
    }
    Ok(dib_header)
}

/// A cursor that unpacks fixed-width bit fields from a row of bytes,
/// most significant bit first.
#[derive(Debug)]
pub struct BitIndex {
    pub size: u64,
    pub nbits: u64,
    pub bits_left: u64,
    pub mask: u8,
    pub bytes: Vec<u8>,
    pub index: u64,
}

/// The exec mask-and-shift computation equals the specification's bit field.
proof fn lemma_bit_value_eq(b: u8, m: u8, off: u64, nbits: int, within: int)
    requires
        nbits == 1 || nbits == 4 || nbits == 8,
        m == layout::spec_mask_of(nbits),
        0 <= within,
        within + nbits <= 8,
        off == (8 - nbits) - within,
    ensures
        ((b & (m << off)) >> off) == layout::spec_bit_value(b, nbits, within),
{
}

impl BitIndex {
    /// The cursor's fields agree: a supported field width, the mask that
    /// keeps that many bits, and a bit position that is a whole number of
    /// fields and leaves room to advance by every remaining field.
    pub open spec fn wf(self) -> bool {
        &&& (self.nbits == 1 || self.nbits == 4 || self.nbits == 8)
        &&& self.bits_left == 8 - self.nbits
        &&& self.mask == layout::spec_mask_of(self.nbits as int)
        &&& self.index as int % (self.nbits as int) == 0
        &&& self.index + self.nbits * self.size <= u64::MAX
    }

    /// No further field will ever be yielded: either the requested count is
    /// used up, or the cursor has run off the end of the bytes.
    pub open spec fn exhausted(self) -> bool {
        self.size == 0 || self.index as int / 8 >= self.bytes@.len()
    }

    /// The next field, if the remaining count and the bytes allow one.
    ///
    /// Once the cursor is exhausted it stays exhausted, so every call after
    /// the first `None` yields `None` again — also when the bytes ran out
    /// before the requested count was used up.
    pub fn next(&mut self) -> (r: Option<usize>)
        requires
            old(self).wf(),
        ensures
            final(self).wf(),
            final(self).bytes@ == old(self).bytes@,
            final(self).nbits == old(self).nbits,
            final(self).bits_left == old(self).bits_left,
            final(self).mask == old(self).mask,
            old(self).exhausted() ==> r is None && final(self).exhausted(),
            old(self).size == 0 ==> *final(self) == *old(self),
            old(self).size > 0 ==> final(self).size == old(self).size - 1 && final(self).index
                == old(self).index + old(self).nbits,
            r is Some <==> (old(self).size > 0 && old(self).index as int / 8 < old(
                self,
            ).bytes@.len()),
            old(self).size > 0 && old(self).index as int / 8 < old(self).bytes@.len() ==> r
                == Some(
                layout::spec_bit_value(
                    old(self).bytes@[old(self).index as int / 8],
                    old(self).nbits as int,
                    old(self).index as int % 8,
                ) as usize,
            ),
    {
        if self.size == 0 {
            return None;
        }
        let n: u64 = self.index / 8;
        proof {
            if self.nbits == 4 {
                vstd::arithmetic::div_mod::lemma_mod_mod(self.index as int, 4, 2);
            }
            vstd::arithmetic::mul::lemma_mul_is_distributive_sub(
                self.nbits as int,
                self.size as int,
                1,
            );
        }
        let offset: u64 = self.bits_left - self.index % 8;
        self.size = self.size - 1;
        self.index = self.index + self.nbits;
        proof {
            vstd::arithmetic::div_mod::lemma_div_is_ordered(
                old(self).index as int,
                self.index as int,
                8,
            );
        }
        if n < self.bytes.len() as u64 {
            let block: u8 = self.bytes[n as usize];
            let v: u8 = (block & (self.mask << offset)) >> offset;
            proof {
                lemma_bit_value_eq(
                    block,
                    old(self).mask,
                    offset,
                    old(self).nbits as int,
                    old(self).index as int % 8,
                );
            }
            Some(v as usize)
        } else {
            None
        }
    }
}

/// A cursor over `bytes` that yields up to `size` fields of `nbits` bits,
/// packed most significant bit first.
pub fn bit_index(bytes: &[u8], nbits: usize, size: usize) -> (bi: BitIndex)
    requires
        nbits == 1 || nbits == 4 || nbits == 8,
        size * nbits <= u64::MAX,
    ensures
        bi.wf(),
        bi.bytes@ == bytes@,
        bi.nbits == nbits,
        bi.size == size,
        bi.index == 0,
{
    let bits_left: usize = 8 - nbits;
    let mask: u8 = !0u8 >> bits_left;
    proof {
        if nbits == 1 {
            assert(!0u8 >> 7usize == 1u8) by (bit_vector);
        } else if nbits == 4 {
            assert(!0u8 >> 4usize == 0xfu8) by (bit_vector);
        } else {
            assert(!0u8 >> 0usize == 0xffu8) by (bit_vector);
        }
    }
    BitIndex {
        size: size as u64,
        nbits: nbits as u64,
        bits_left: bits_left as u64,
        mask,
        bytes: vstd::slice::slice_to_vec(bytes),
        index: 0,
    }
}

/// Reads the palette that the DIB header declares, if any.
///
/// Every entry is four bytes, stored blue, green, red, reserved; the
/// reserved byte is discarded.  (The three-byte entries of version 2 never
/// reach this reader: that version is rejected during header validation.)
fn read_color_palette(bmp_data: &Vec<u8>, dh: &BmpDibHeader) -> (r: BmpResult<Option<Vec<Pixel>>>)
    ensures
        r is Ok <==> layout::spec_palette_ok(bmp_data@, *dh),
        r matches Ok(p) ==> (match p {
            Some(v) => layout::spec_has_palette(*dh) && v@ == layout::spec_palette(bmp_data@, *dh),
            None => !layout::spec_has_palette(*dh),
        }),
        r matches Err(e) ==> e.kind == BmpErrorKind::BmpIoError,
{
    let num_entries: u64 = if dh.num_colors != 0 {
        dh.num_colors as u64
    } else if dh.bits_per_pixel == 1 {
        2
    } else if dh.bits_per_pixel == 4 {
        16
    } else if dh.bits_per_pixel == 8 {
        256
    } else {
        return Ok(None);
    };
    let len: u64 = bmp_data.len() as u64;
    let start: u64 = 14 + dh.header_size as u64;
    if !(start <= len && 4 * num_entries <= len - start) {
        return Err(
            BmpError::new(
                BmpErrorKind::BmpIoError,
                "unexpected end of data in the colour palette",
            ),
        );
    }
    let mut color_palette: Vec<Pixel> = Vec::new();
    let mut i: u64 = 0;
    while i < num_entries
        invariant
            i <= num_entries,
            num_entries == layout::spec_palette_entries(*dh),
            start == layout::spec_palette_start(*dh),
            start + 4 * num_entries <= len,
            len == bmp_data@.len(),
            bmp_data@.len() <= usize::MAX,
            color_palette@.len() == i,
            forall|j: int|
                0 <= j < i ==> color_palette@[j] == layout::spec_palette(bmp_data@, *dh)[j],
        decreases num_entries - i,
    {
        let p: u64 = start + 4 * i;
        let b = bmp_data[p as usize];
        let g = bmp_data[(p + 1) as usize];
        let red = bmp_data[(p + 2) as usize];
        color_palette.push(Pixel { r: red, g, b });
        proof {
            assert(color_palette@[i as int] == layout::spec_palette(bmp_data@, *dh)[i as int]);
        }
        i = i + 1;
    }
    proof {
        assert(color_palette@ =~= layout::spec_palette(bmp_data@, *dh));
    }
    Ok(Some(color_palette))
}

/// Reads the 24-bit pixel rows named by the header, bottom row first,
/// each pixel three bytes stored blue, green, red, each row followed by
/// `padding` bytes that are skipped.
fn read_pixels(bmp_data: &Vec<u8>, width: u32, height: u32, offset: u32, padding: u32) -> (r:
    BmpResult<Vec<Pixel>>)
    requires
        padding == width % 4,
        bmp_data@.len() < 0x8000_0000_0000_0000,
    ensures
        r is Ok <==> layout::spec_direct_ok(bmp_data@, offset as int, width as int, height as int),
        r matches Ok(v) ==> v@ == layout::spec_direct_data(
            bmp_data@,
            offset as int,
            width as int,
            height as int,
        ),
        r matches Err(e) ==> e.kind == BmpErrorKind::BmpIoError,
{
    let ghost s = bmp_data@;
    let ghost w = width as int;
    let ghost h = height as int;
    let ghost st = layout::spec_direct_stride(w);
    let len: u64 = bmp_data.len() as u64;
    let stride: u64 = 3 * (width as u64) + (padding as u64);
    if width > 0 && height > 0 {
        proof {
            vstd::arithmetic::mul::lemma_mul_upper_bound(
                height - 1,
                0xffff_ffff,
                stride as int,
                0x4_0000_0000,
            );
        }
        let need: u128 = (offset as u128) + (((height - 1) as u128) * (stride as u128)) + 3 * (
        width as u128);
        if need > len as u128 {
            return Err(
                BmpError::new(BmpErrorKind::BmpIoError, "unexpected end of data in the pixel rows"),
            );
        }
    }
    let mut data: Vec<Pixel> = Vec::new();
    let mut y: u32 = 0;
    while y < height
        invariant
            y <= height,
            s == bmp_data@,
            w == width as int,
            h == height as int,
            st == layout::spec_direct_stride(w),
            stride == st,
            padding == width % 4,
            len == s.len(),
            s.len() < 0x8000_0000_0000_0000,
            s.len() <= usize::MAX,
            data@.len() == y * w,
            forall|k: int|
                0 <= k < y * w ==> data@[k] == layout::spec_direct_pixel(
                    s,
                    offset as int,
                    w,
                    k / w,
                    k % w,
                ),
            width > 0 && height > 0 ==> offset + (h - 1) * st + 3 * w <= len,
        decreases h - y,
    {
        proof {
            vstd::arithmetic::mul::lemma_mul_inequality(y as int, h - 1, st);
            vstd::arithmetic::mul::lemma_mul_nonnegative(y as int, st);
        }
        let mut x: u32 = 0;
        while x < width
            invariant
                x <= width,
                y < height,
                s == bmp_data@,
                w == width as int,
                h == height as int,
                st == layout::spec_direct_stride(w),
                stride == st,
                len == s.len(),
                s.len() < 0x8000_0000_0000_0000,
                s.len() <= usize::MAX,
                data@.len() == y * w + x,
                forall|k: int|
                    0 <= k < y * w + x ==> data@[k] == layout::spec_direct_pixel(
                        s,
                        offset as int,
                        w,
                        k / w,
                        k % w,
                    ),
                width > 0 && height > 0 ==> offset + (h - 1) * st + 3 * w <= len,
                y * st <= (h - 1) * st,
                0 <= y * st,
            decreases w - x,
        {
            let p: u64 = (offset as u64) + (y as u64) * stride + 3 * (x as u64);
            let b = bmp_data[p as usize];
            let g = bmp_data[(p + 1) as usize];
            let red = bmp_data[(p + 2) as usize];
            data.push(Pixel { r: red, g, b });
            proof {
                vstd::arithmetic::div_mod::lemma_fundamental_div_mod_converse(
                    y * w + x,
                    w,
                    y as int,
                    x as int,
                );
                assert(data@[y * w + x] == layout::spec_direct_pixel(
                    s,
                    offset as int,
                    w,
                    y as int,
                    x as int,
                ));
            }
            x = x + 1;
        }
        proof {
            vstd::arithmetic::mul::lemma_mul_is_distributive_add_other_way(w, y as int, 1);
            vstd::arithmetic::mul::lemma_mul_is_distributive_add_other_way(st, y as int, 1);
        }
        y = y + 1;
    }
    proof {
        vstd::arithmetic::mul::lemma_mul_is_commutative(w, h);
        assert(data@ =~= layout::spec_direct_data(s, offset as int, w, h));
    }
    Ok(data)
}

/// Reads the bit-packed pixel rows named by the header, bottom row first,
/// and translates every packed index through the palette.
///
/// A packed index that falls outside the palette (possible only when the
/// header declares fewer colours than the depth can address) is reported
/// as a failure of the byte source rather than a panic.
pub fn read_indexes(
    bmp_data: &Vec<u8>,
    palette: &Vec<Pixel>,
    width: usize,
    height: usize,
    bpp: u16,
    offset: usize,
) -> (r: BmpResult<Vec<Pixel>>)
    requires
        bpp == 1 || bpp == 4 || bpp == 8,
        width * bpp + 7 <= u64::MAX,
        bmp_data@.len() < 0x8000_0000_0000_0000,
    ensures
        r is Ok <==> (layout::spec_indexed_ok(
            bmp_data@,
            offset as int,
            width as int,
            height as int,
            bpp as int,
        ) && layout::spec_indexed_covered(
            bmp_data@,
            offset as int,
            width as int,
            height as int,
            bpp as int,
            palette@.len() as int,
        )),
        r matches Ok(v) ==> v@ == layout::spec_indexed_data(
            bmp_data@,
            offset as int,
            width as int,
            height as int,
            bpp as int,
            palette@,
        ),
        r matches Err(e) ==> e.kind == BmpErrorKind::BmpIoError,
{
    let ghost s = bmp_data@;
    let ghost w = width as int;
    let ghost h = height as int;
    let ghost st = layout::spec_indexed_stride(w, bpp as int);
    let len: u64 = bmp_data.len() as u64;
    let bytes_per_row: u64 = ((width as u64) * (bpp as u64) + 7) / 8;
    let row_padding: u64 = if bytes_per_row % 4 == 0 {
        0
    } else {
        4 - bytes_per_row % 4
    };
    let stride: u64 = bytes_per_row + row_padding;
    if height > 0 {
        proof {
            vstd::arithmetic::div_mod::lemma_div_is_ordered(
                width * bpp + 7,
                0xffff_ffff_ffff_ffffint + 7,
                8,
            );
            vstd::arithmetic::mul::lemma_mul_upper_bound(
                height - 1,
                0xffff_ffff_ffff_ffffint,
                stride as int,
                0x2000_0000_0000_0010,
            );
        }
        let need: u128 = (offset as u128) + (((height - 1) as u128) * (stride as u128))
            + bytes_per_row as u128;
        if need > len as u128 {
            return Err(
                BmpError::new(BmpErrorKind::BmpIoError, "unexpected end of data in the pixel rows"),
            );
        }
    }
    let mut data: Vec<Pixel> = Vec::new();
    let mut y: usize = 0;
    while y < height
        invariant
            y <= height,
            s == bmp_data@,
            w == width as int,
            h == height as int,
            bpp == 1 || bpp == 4 || bpp == 8,
            width * bpp + 7 <= u64::MAX,
            bytes_per_row == layout::spec_bytes_per_row(w, bpp as int),
            st == layout::spec_indexed_stride(w, bpp as int),
            stride == st,
            len == s.len(),
            s.len() < 0x8000_0000_0000_0000,
            s.len() <= usize::MAX,
            data@.len() == y * w,
            height > 0 ==> offset + (h - 1) * st + bytes_per_row <= len,
            forall|row: int, x: int|
                0 <= row < y && 0 <= x < w ==> layout::spec_index_at(
                    s,
                    offset as int,
                    w,
                    bpp as int,
                    row,
                    x,
                ) < palette@.len(),
            forall|k: int|
                0 <= k < y * w ==> data@[k] == palette@[layout::spec_index_at(
                    s,
                    offset as int,
                    w,
                    bpp as int,
                    k / w,
                    k % w,
                ) as int],
        decreases h - y,
    {
        proof {
            vstd::arithmetic::mul::lemma_mul_inequality(y as int, h - 1, st);
            vstd::arithmetic::mul::lemma_mul_nonnegative(y as int, st);
        }
        let row_start: u64 = (offset as u64) + (y as u64) * stride;
        let mut rowbytes: Vec<u8> = Vec::new();
        let mut k: u64 = 0;
        while k < bytes_per_row
            invariant
                k <= bytes_per_row,
                s == bmp_data@,
                len == s.len(),
                s.len() <= usize::MAX,
                row_start + bytes_per_row <= len,
                rowbytes@.len() == k,
                forall|j: int| 0 <= j < k ==> rowbytes@[j] == s[row_start + j],
            decreases bytes_per_row - k,
        {
            rowbytes.push(bmp_data[(row_start + k) as usize]);
            k = k + 1;
        }
        let mut bi = bit_index(rowbytes.as_slice(), bpp as usize, width);
        let mut x: usize = 0;
        while x < width
            invariant
                x <= width,
                y < height,
                s == bmp_data@,
                w == width as int,
                h == height as int,
                bpp == 1 || bpp == 4 || bpp == 8,
                bytes_per_row == layout::spec_bytes_per_row(w, bpp as int),
                st == layout::spec_indexed_stride(w, bpp as int),
                stride == st,
                len == s.len(),
                s.len() <= usize::MAX,
                row_start == offset + y * st,
                row_start + bytes_per_row <= len,
                rowbytes@.len() == bytes_per_row,
                forall|j: int| 0 <= j < bytes_per_row ==> rowbytes@[j] == s[row_start + j],
                bi.wf(),
                bi.bytes@ == rowbytes@,
                bi.nbits == bpp,
                bi.size == width - x,
                bi.index == x * bpp,
                data@.len() == y * w + x,
                forall|row: int, xx: int|
                    0 <= row < y && 0 <= xx < w ==> layout::spec_index_at(
                        s,
                        offset as int,
                        w,
                        bpp as int,
                        row,
                        xx,
                    ) < palette@.len(),
                forall|xx: int|
                    0 <= xx < x ==> layout::spec_index_at(
                        s,
                        offset as int,
                        w,
                        bpp as int,
                        y as int,
                        xx,
                    ) < palette@.len(),
                forall|k: int|
                    0 <= k < y * w + x ==> data@[k] == palette@[layout::spec_index_at(
                        s,
                        offset as int,
                        w,
                        bpp as int,
                        k / w,
                        k % w,
                    ) as int],
            decreases w - x,
        {
            proof {
                vstd::arithmetic::mul::lemma_mul_inequality(x as int, w - 1, bpp as int);
                vstd::arithmetic::mul::lemma_mul_is_distributive_sub_other_way(
                    bpp as int,
                    w,
                    1,
                );
                vstd::arithmetic::div_mod::lemma_div_is_ordered(
                    x as int * bpp,
                    w * bpp - 1,
                    8,
                );
                vstd::arithmetic::div_mod::lemma_div_plus_one(w * bpp - 1, 8);
                assert(bi.index as int / 8 < bi.bytes@.len());
            }
            let idx_opt = bi.next();
            let idx: usize = match idx_opt {
                Some(i) => i,
                None => {
                    proof {
                        assert(false);
                    }
                    0
                },
            };
            proof {
                assert(idx == layout::spec_index_at(
                    s,
                    offset as int,
                    w,
                    bpp as int,
                    y as int,
                    x as int,
                ));
            }
            if idx < palette.len() {
                data.push(palette[idx]);
            } else {
                return Err(
                    BmpError::new(
                        BmpErrorKind::BmpIoError,
                        "a packed palette index lies outside the palette",
                    ),
                );
            }
            proof {
                vstd::arithmetic::div_mod::lemma_fundamental_div_mod_converse(
                    y * w + x,
                    w,
                    y as int,
                    x as int,
                );
                vstd::arithmetic::mul::lemma_mul_is_distributive_add_other_way(
                    bpp as int,
                    x as int,
                    1,
                );
            }
            x = x + 1;
        }
        proof {
            vstd::arithmetic::mul::lemma_mul_is_distributive_add_other_way(w, y as int, 1);
            vstd::arithmetic::mul::lemma_mul_is_distributive_add_other_way(st, y as int, 1);
        }
        y = y + 1;
    }
    proof {
        vstd::arithmetic::mul::lemma_mul_is_commutative(w, h);
        assert(data@ =~= layout::spec_indexed_data(s, offset as int, w, h, bpp as int, palette@));
    }
    Ok(data)
}

/// The absolute value of a signed header dimension.
fn abs_i32(v: i32) -> (r: u32)
    ensures
        r as int == layout::spec_abs_32(v),
{
    if v >= 0 {
        v as u32
    } else {
        let wide: i64 = -(v as i64);
        wide as u32
    }
}

/// The fresh DIB header stored in a decoded image: a 40-byte header for
/// uncompressed 24-bit data of the decoded size, its 32-bit fields wrapping
/// as a store into them would.
fn normalized_dib(width: u32, height: u32) -> (d: BmpDibHeader)
    ensures
        d == layout::spec_normalized_dib(width, height),
{
    let row_size: u64 = ((24 * (width as u64) + 31) / 32) * 4;
    proof {
        vstd::arithmetic::mul::lemma_mul_nonnegative(height as int, row_size as int);
        vstd::arithmetic::mul::lemma_mul_upper_bound(
            height as int,
            0xffff_ffff,
            row_size as int,
            0x4_0000_0000,
        );
    }
    let wrapped: u128 = ((height as u128) * (row_size as u128)) % 0x1_0000_0000;
    let mut w_signed: i64 = width as i64;
    if w_signed >= 0x8000_0000 {
        w_signed = w_signed - 0x1_0000_0000;
    }
    let mut h_signed: i64 = height as i64;
    if h_signed >= 0x8000_0000 {
        h_signed = h_signed - 0x1_0000_0000;
    }
    BmpDibHeader {
        header_size: 40,
        width: w_signed as i32,
        height: h_signed as i32,
        num_planes: 1,
        bits_per_pixel: 24,
        compress_type: 0,
        data_size: wrapped as u32,
        hres: 1000,
        vres: 1000,
        num_colors: 0,
        num_imp_colors: 0,
    }
}

/// Decodes the bytes of a BMP file into an image.
///
/// The data is read in this order, each step failing the whole decode:
/// the two magic bytes, the file header, the DIB header with its three
/// validations, the palette if one is declared, then the pixel rows at
/// the offset the file header names.  The pixel plane is dispatched on
/// the colour depth: the indexed depths go through the palette, 24-bit
/// rows are read directly.  No partial image is ever returned.
pub fn decode_image(bmp_data: &Vec<u8>) -> (r: BmpResult<Image>)
    requires
        bmp_data@.len() < 0x8000_0000_0000_0000,
    ensures
        r is Ok <==> layout::spec_can_decode(bmp_data@),
        r matches Ok(img) ==> {
            &&& img.well_formed()
            &&& img.width as int == layout::spec_width(bmp_data@)
            &&& img.height as int == layout::spec_height(bmp_data@)
            &&& img.padding as int == layout::spec_width(bmp_data@) % 4
            &&& img.header == layout::spec_file_header(bmp_data@)
            &&& img.dib_header == layout::spec_normalized_dib(img.width, img.height)
            &&& (match img.color_palette {
                Some(p) => layout::spec_decoded_palette(bmp_data@) == Some(p@),
                None => layout::spec_decoded_palette(bmp_data@) is None,
            })
            &&& img.data@ == layout::spec_decoded_data(bmp_data@)
        },
        r matches Err(e) ==> e.kind == layout::spec_error_kind(bmp_data@),
{
    match read_bmp_id(bmp_data) {
        Ok(u) => u,
        Err(e) => {
            return Err(e);
        },
    }
    let header = match read_bmp_header(bmp_data) {
        Ok(h) => h,
        Err(e) => {
            return Err(e);
        },
    };
    let dib_header = match read_bmp_dib_header(bmp_data) {
        Ok(d) => d,
        Err(e) => {
            return Err(e);
        },
    };
    let color_palette = match read_color_palette(bmp_data, &dib_header) {
        Ok(p) => p,
        Err(e) => {
            return Err(e);
        },
    };
    let width: u32 = abs_i32(dib_header.width);
    let height: u32 = abs_i32(dib_header.height);
    let padding: u32 = width % 4;
    let data = if dib_header.bits_per_pixel <= 8 {
        match &color_palette {
            Some(palette) => {
                proof {
                    vstd::arithmetic::mul::lemma_mul_upper_bound(
                        width as int,
                        0xffff_ffff,
                        dib_header.bits_per_pixel as int,
                        8,
                    );
                }
                match read_indexes(
                    bmp_data,
                    palette,
                    width as usize,
                    height as usize,
                    dib_header.bits_per_pixel,
                    header.pixel_offset as usize,
                ) {
                    Ok(d) => d,
                    Err(e) => {
                        return Err(e);
                    },
                }
            },
            None => {
                proof {
                    assert(false);
                }
                Vec::new()
            },
        }
    } else {
        match read_pixels(bmp_data, width, height, header.pixel_offset, padding) {
            Ok(d) => d,
            Err(e) => {
                return Err(e);
            },
        }
    };
    let image = Image {
        header,
        dib_header: normalized_dib(width, height),
        color_palette,
        width,
        height,
        padding,
        data,
    };
    Ok(image)
}

} // verus!
