//! A small library for reading and writing uncompressed BMP images.
//!
//! Decoding accepts the 40-, 108- and 124-byte header variants with 1, 4, 8
//! or 24 bits per pixel; encoding always produces an uncompressed 24-bit file.
//! The byte-level layout of the format is described by the specification
//! functions in [`layout`], and the decoder and encoder are proved against it.

use vstd::prelude::*;

mod bytes;
pub mod consts;
pub mod decoder;
mod encoder;
pub mod layout;
pub mod properties;

pub use decoder::BmpError;
pub use decoder::BmpErrorKind;
pub use decoder::BmpResult;

verus! {

/// One pixel: red, green and blue channels of eight bits each.
///
/// A pixel is a plain value; equality is equality of the three channels.
#[derive(Clone, Copy, Debug, PartialEq, Eq, Structural)]
pub struct Pixel {
    pub r: u8,
    pub g: u8,
    pub b: u8,
}

impl Pixel {
    pub fn new(r: u8, g: u8, b: u8) -> (p: Pixel)
        ensures
            p == (Pixel { r, g, b }),
    {
        Pixel { r, g, b }
    }
}

/// The format versions that a DIB header size can select.
#[derive(Clone, Debug, PartialEq, Eq, Structural)]
pub enum BmpVersion {
    Two,
    Three,
    ThreeNT,
    Four,
    Five,
}

impl BmpVersion {
    /// The version selected by a DIB header, if its size is recognized.
    ///
    /// A 40-byte header with compression code 3 selects version 3 NT;
    /// any other 40-byte header selects version 3.
    pub open spec fn spec_of(dib_header: BmpDibHeader) -> Option<BmpVersion> {
        if dib_header.header_size == 12 {
            Some(BmpVersion::Two)
        } else if dib_header.header_size == 40 && dib_header.compress_type == 3 {
            Some(BmpVersion::ThreeNT)
        } else if dib_header.header_size == 40 {
            Some(BmpVersion::Three)
        } else if dib_header.header_size == 108 {
            Some(BmpVersion::Four)
        } else if dib_header.header_size == 124 {
            Some(BmpVersion::Five)
        } else {
            None
        }
    }

    pub fn from_dib_header(dib_header: &BmpDibHeader) -> (v: Option<BmpVersion>)
        ensures
            v == BmpVersion::spec_of(*dib_header),
    {
        if dib_header.header_size == 12 {
            Some(BmpVersion::Two)
        } else if dib_header.header_size == 40 && dib_header.compress_type == 3 {
            Some(BmpVersion::ThreeNT)
        } else if dib_header.header_size == 40 {
            Some(BmpVersion::Three)
        } else if dib_header.header_size == 108 {
            Some(BmpVersion::Four)
        } else if dib_header.header_size == 124 {
            Some(BmpVersion::Five)
        } else {
            None
        }
    }

    /// The name of the version, for diagnostics.
    pub open spec fn spec_str(self) -> Seq<char> {
        match self {
            BmpVersion::Two => "BMP Version 2"@,
            BmpVersion::Three => "BMP Version 3"@,
            BmpVersion::ThreeNT => "BMP Version 3 NT"@,
            BmpVersion::Four => "BMP Version 4"@,
            BmpVersion::Five => "BMP Version 5"@,
        }
    }

    pub fn as_ref(&self) -> (s: &'static str)
        ensures
            s@ == self.spec_str(),
    {
        match *self {
            BmpVersion::Two => "BMP Version 2",
            BmpVersion::Three => "BMP Version 3",
            BmpVersion::ThreeNT => "BMP Version 3 NT",
            BmpVersion::Four => "BMP Version 4",
            BmpVersion::Five => "BMP Version 5",
        }
    }
}

/// The compression kinds that the compression code of a DIB header can name.
#[derive(Clone, Debug, PartialEq, Eq, Structural)]
pub enum CompressionType {
    Uncompressed,
    Rle8bit,
    Rle4bit,
    BitfieldsEncoding,
}

impl CompressionType {
    /// The kind named by a compression code; unknown codes count as uncompressed.
    pub open spec fn spec_of(val: u32) -> CompressionType {
        if val == 1 {
            CompressionType::Rle8bit
        } else if val == 2 {
            CompressionType::Rle4bit
        } else if val == 3 {
            CompressionType::BitfieldsEncoding
        } else {
            CompressionType::Uncompressed
        }
    }

    pub fn from_u32(val: u32) -> (c: CompressionType)
        ensures
            c == CompressionType::spec_of(val),
    {
        if val == 1 {
            CompressionType::Rle8bit
        } else if val == 2 {
            CompressionType::Rle4bit
        } else if val == 3 {
            CompressionType::BitfieldsEncoding
        } else {
            CompressionType::Uncompressed
        }
    }

    /// The name of the compression kind, for diagnostics.
    pub open spec fn spec_str(self) -> Seq<char> {
        match self {
            CompressionType::Uncompressed => "Uncompressed"@,
            CompressionType::Rle8bit => "RLE 8-bit"@,
            CompressionType::Rle4bit => "RLE 4-bit"@,
            CompressionType::BitfieldsEncoding => "Bitfields Encoding"@,
        }
    }

    pub fn as_ref(&self) -> (s: &'static str)
        ensures
            s@ == self.spec_str(),
    {
        match *self {
            CompressionType::Uncompressed => "Uncompressed",
            CompressionType::Rle8bit => "RLE 8-bit",
            CompressionType::Rle4bit => "RLE 4-bit",
            CompressionType::BitfieldsEncoding => "Bitfields Encoding",
        }
    }
}

/// The 14-byte file header: total size and the offset of the pixel data.
#[derive(Clone, Debug, PartialEq, Eq, Structural)]
pub struct BmpHeader {
    pub file_size: u32,
    pub creator1: u16,
    pub creator2: u16,
    pub pixel_offset: u32,
}

impl BmpHeader {
    /// A fresh file header for `data_size` bytes of pixel data placed
    /// directly after `header_size` bytes of headers.
    pub fn new(header_size: u32, data_size: u32) -> (h: BmpHeader)
        requires
            header_size + data_size <= u32::MAX,
        ensures
            h == (BmpHeader {
                file_size: (header_size + data_size) as u32,
                creator1: 0u16,
                creator2: 0u16,
                pixel_offset: header_size,
            }),
    {
        BmpHeader {
            file_size: header_size + data_size,
            creator1: 0,
            creator2: 0,
            pixel_offset: header_size,
        }
    }
}

/// The device-independent bitmap header: geometry and pixel encoding.
#[derive(Clone, Debug, PartialEq, Eq, Structural)]
pub struct BmpDibHeader {
    pub header_size: u32,
    pub width: i32,
    pub height: i32,
    pub num_planes: u16,
    pub bits_per_pixel: u16,
    pub compress_type: u32,
    pub data_size: u32,
    pub hres: i32,
    pub vres: i32,
    pub num_colors: u32,
    pub num_imp_colors: u32,
}

impl BmpDibHeader {
    /// A fresh 40-byte header for an uncompressed 24-bit image of the given size.
    pub fn new(width: i32, height: i32) -> (d: BmpDibHeader)
        requires
            0 <= width,
            0 <= height,
            height * layout::spec_row_size(width as int) <= u32::MAX,
        ensures
            d == layout::spec_normalized_dib(width as u32, height as u32),
    {
        let row_size: u64 = ((24 * (width as u64) + 31) / 32) * 4;
        let pixel_array_size: u64 = (height as u64) * row_size;
        BmpDibHeader {
            header_size: 40,
            width,
            height,
            num_planes: 1,
            bits_per_pixel: 24,
            compress_type: 0,
            data_size: pixel_array_size as u32,
            hres: 1000,
            vres: 1000,
            num_colors: 0,
            num_imp_colors: 0,
        }
    }
}

/// An in-memory image: headers, an optional palette, and a dense pixel
/// buffer of `width * height` pixels.
///
/// The buffer keeps the file's bottom-up row order: buffer row 0 is the
/// bottom-most row, and the pixel accessors take coordinates with `y == 0`
/// at the top, so coordinate `(x, y)` lives at buffer index
/// `(height - 1 - y) * width + x`.
#[derive(Clone, Debug, PartialEq, Eq)]
pub struct Image {
    pub header: BmpHeader,
    pub dib_header: BmpDibHeader,
    pub color_palette: Option<Vec<Pixel>>,
    pub width: u32,
    pub height: u32,
    pub padding: u32,
    pub data: Vec<Pixel>,
}

/// The buffer index of a coordinate lies inside a buffer of `w * h` pixels.
proof fn lemma_index_bound(w: int, h: int, x: int, y: int)
    requires
        0 <= x < w,
        0 <= y < h,
    ensures
        0 <= (h - y - 1) * w + x < w * h,
{
    vstd::arithmetic::mul::lemma_mul_nonnegative(h - y - 1, w);
    vstd::arithmetic::mul::lemma_mul_inequality(h - y - 1, h - 1, w);
    vstd::arithmetic::mul::lemma_mul_is_distributive_sub_other_way(w, h, 1);
    vstd::arithmetic::mul::lemma_mul_is_commutative(w, h);
}

impl Image {
    /// The buffer has one pixel per coordinate and the padding matches the width.
    pub open spec fn well_formed(self) -> bool {
        &&& self.data@.len() == self.width * self.height
        &&& self.padding == self.width % 4
    }

    /// The image fits in an encoded file: the dimensions fit the signed
    /// header fields and the file size fits its 32-bit field.
    pub open spec fn encodable(self) -> bool {
        &&& self.width <= 0x7fff_ffff
        &&& self.height <= 0x7fff_ffff
        &&& 54 + self.height * layout::spec_row_size(self.width as int) <= u32::MAX
    }

    /// The buffer index that holds coordinate `(x, y)`.
    pub open spec fn spec_index_of(self, x: u32, y: u32) -> int {
        (self.height - y - 1) * self.width + x
    }

    /// The pixel at coordinate `(x, y)`.
    pub open spec fn spec_pixel(self, x: u32, y: u32) -> Pixel {
        self.data@[self.spec_index_of(x, y)]
    }

    /// A fresh image of the given size: no palette, every pixel black,
    /// and headers describing an uncompressed 24-bit file.
    pub fn new(width: u32, height: u32) -> (img: Image)
        requires
            width <= 0x7fff_ffff,
            height <= 0x7fff_ffff,
            54 + height * layout::spec_row_size(width as int) <= u32::MAX,
        ensures
            img.well_formed(),
            img.encodable(),
            img.width == width,
            img.height == height,
            img.padding == width % 4,
            img.color_palette is None,
            img.data@.len() == width * height,
            forall|i: int|
                0 <= i < width * height ==> img.data@[i] == (Pixel { r: 0u8, g: 0u8, b: 0u8 }),
            img.header == (BmpHeader {
                file_size: (54 + height * layout::spec_row_size(width as int)) as u32,
                creator1: 0u16,
                creator2: 0u16,
                pixel_offset: 54u32,
            }),
            img.dib_header == layout::spec_normalized_dib(width, height),
    {
        proof {
            layout::lemma_row_size(width as int);
            if width > 0 && height > 0 {
                vstd::arithmetic::mul::lemma_mul_inequality(
                    3 * width,
                    layout::spec_row_size(width as int),
                    height as int,
                );
                vstd::arithmetic::mul::lemma_mul_is_associative(3, width as int, height as int);
                vstd::arithmetic::mul::lemma_mul_is_commutative(
                    layout::spec_row_size(width as int),
                    height as int,
                );
                vstd::arithmetic::mul::lemma_mul_is_commutative(width as int, height as int);
            } else {
                vstd::arithmetic::mul::lemma_mul_by_zero_is_zero(width as int);
                vstd::arithmetic::mul::lemma_mul_by_zero_is_zero(height as int);
                vstd::arithmetic::mul::lemma_mul_is_commutative(width as int, height as int);
            }
        }
        let row_size: u64 = ((24 * (width as u64) + 31) / 32) * 4;
        let data_size: u32 = ((height as u64) * row_size) as u32;
        let count: u32 = width * height;
        let mut data: Vec<Pixel> = Vec::new();
        let mut i: u32 = 0;
        while i < count
            invariant
                i <= count,
                data@.len() == i,
                forall|j: int| 0 <= j < i ==> data@[j] == (Pixel { r: 0u8, g: 0u8, b: 0u8 }),
            decreases count - i,
        {
            data.push(Pixel::new(0, 0, 0));
            i = i + 1;
        }
        Image {
            header: BmpHeader::new(54, data_size),
            dib_header: BmpDibHeader::new(width as i32, height as i32),
            color_palette: None,
            width,
            height,
            padding: width % 4,
            data,
        }
    }

    /// Returns the `width` of the Image.
    #[inline]
    pub fn get_width(&self) -> (w: u32)
        ensures
            w == self.width,
    {
        self.width
    }

    /// Returns the `height` of the Image.
    #[inline]
    pub fn get_height(&self) -> (h: u32)
        ensures
            h == self.height,
    {
        self.height
    }

    /// Overwrites the pixel at coordinate `(x, y)`; every other pixel and
    /// all the metadata stay as they were.
    pub fn set_pixel(&mut self, x: u32, y: u32, val: Pixel)
        requires
            old(self).well_formed(),
            x < old(self).width,
            y < old(self).height,
        ensures
            final(self).well_formed(),
            final(self).data@ == old(self).data@.update(old(self).spec_index_of(x, y), val),
            final(self).width == old(self).width,
            final(self).height == old(self).height,
            final(self).padding == old(self).padding,
            final(self).header == old(self).header,
            final(self).dib_header == old(self).dib_header,
            final(self).color_palette == old(self).color_palette,
            final(self).spec_pixel(x, y) == val,
    {
        let data_len: usize = self.data.len();
        proof {
            assert(data_len <= usize::MAX);
            lemma_index_bound(self.width as int, self.height as int, x as int, y as int);
        }
        let idx: u64 = ((self.height - y - 1) as u64) * (self.width as u64) + (x as u64);
        self.data.set(idx as usize, val);
    }

    /// Reads the pixel at coordinate `(x, y)`.
    pub fn get_pixel(&self, x: u32, y: u32) -> (p: Pixel)
        requires
            self.well_formed(),
            x < self.width,
            y < self.height,
        ensures
            p == self.spec_pixel(x, y),
    {
        let data_len: usize = self.data.len();
        proof {
            assert(data_len <= usize::MAX);
            lemma_index_bound(self.width as int, self.height as int, x as int, y as int);
        }
        let idx: u64 = ((self.height - y - 1) as u64) * (self.width as u64) + (x as u64);
        self.data[idx as usize]
    }

    /// Whether the image can be encoded: the buffer and padding agree with
    /// the dimensions, and the encoded file size fits its 32-bit field.
    pub fn is_encodable(&self) -> (b: bool)
        ensures
            b == (self.well_formed() && self.encodable()),
    {
        proof {
            layout::lemma_row_size(self.width as int);
            if self.width <= 0x7fff_ffff && self.height <= 0x7fff_ffff {
                vstd::arithmetic::mul::lemma_mul_upper_bound(
                    self.height as int,
                    0x7fff_ffff,
                    layout::spec_row_size(self.width as int),
                    0x1_8000_0004,
                );
                vstd::arithmetic::mul::lemma_mul_nonnegative(
                    self.height as int,
                    layout::spec_row_size(self.width as int),
                );
                vstd::arithmetic::mul::lemma_mul_upper_bound(
                    self.width as int,
                    0x7fff_ffff,
                    self.height as int,
                    0x7fff_ffff,
                );
                vstd::arithmetic::mul::lemma_mul_nonnegative(
                    self.width as int,
                    self.height as int,
                );
            }
        }
        if !(self.width <= 0x7fff_ffff && self.height <= 0x7fff_ffff) {
            return false;
        }
        let row_size: u64 = ((24 * (self.width as u64) + 31) / 32) * 4;
        let wh: u64 = (self.width as u64) * (self.height as u64);
        (self.data.len() as u64 == wh) && (self.padding == self.width % 4) && (54 + (self.height
            as u64) * row_size <= 0xffff_ffff)
    }

    /// Appends the encoded form of the image to a byte sink.
    pub fn to_writer(&self, destination: &mut Vec<u8>)
        requires
            self.well_formed(),
            self.encodable(),
        ensures
            final(destination)@ == old(destination)@ + layout::spec_encode(*self),
    {
        let mut bmp_data = encoder::encode_image(self);
        destination.append(&mut bmp_data);
    }

    /// A cursor over all coordinates of the image, in row-major order with
    /// `y == 0` first.
    #[inline]
    pub fn coordinates(&self) -> (it: ImageIndex)
        ensures
            it == (ImageIndex { width: self.width, height: self.height, x: 0u32, y: 0u32 }),
    {
        ImageIndex::new(self.width, self.height)
    }
}

/// A restartable cursor that yields the coordinates of an image in
/// row-major order: `(0,0), (1,0), ..., (0,1), ...`.
#[derive(Clone, Copy)]
pub struct ImageIndex {
    pub width: u32,
    pub height: u32,
    pub x: u32,
    pub y: u32,
}

impl ImageIndex {
    pub fn new(width: u32, height: u32) -> (it: ImageIndex)
        ensures
            it == (ImageIndex { width, height, x: 0u32, y: 0u32 }),
    {
        ImageIndex { width, height, x: 0, y: 0 }
    }

    /// The next coordinate in row-major order, or `None` once every row is done.
    pub fn next(&mut self) -> (r: Option<(u32, u32)>)
        ensures
            final(self).width == old(self).width,
            final(self).height == old(self).height,
            old(self).x < old(self).width && old(self).y < old(self).height ==> {
                &&& r == Some((old(self).x, old(self).y))
                &&& (if old(self).x + 1 == old(self).width {
                    final(self).x == 0 && final(self).y == old(self).y + 1
                } else {
                    final(self).x == old(self).x + 1 && final(self).y == old(self).y
                })
            },
            !(old(self).x < old(self).width && old(self).y < old(self).height) ==> {
                r is None && *final(self) == *old(self)
            },
    {
        if self.x < self.width && self.y < self.height {
            let this = Some((self.x, self.y));
            self.x = self.x + 1;
            if self.x == self.width {
                self.x = 0;
                self.y = self.y + 1;
            }
            this
        } else {
            None
        }
    }
}

} // verus!
