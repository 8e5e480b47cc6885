use std::mem::size_of;

use bmp::consts;
use bmp::decoder::decode_image;
use bmp::BmpDibHeader;
use bmp::BmpHeader;
use bmp::Image;

#[test]
fn size_of_bmp_header_is_54_bytes() {
    let bmp_header_size = size_of::<BmpHeader>();
    let bmp_bip_header_size = size_of::<BmpDibHeader>();

    assert_eq!(12, bmp_header_size);
    assert_eq!(40, bmp_bip_header_size);
}

#[test]
fn changing_pixels_does_not_push_image_data() {
    let mut img = Image::new(2, 1);
    img.set_pixel(1, 0, consts::white());
    img.set_pixel(0, 0, consts::white());

    assert_eq!(img.get_pixel(0, 0), consts::white());
    assert_eq!(img.get_pixel(1, 0), consts::white());
}

#[test]
fn coordinates_iterator_gives_x_and_y_in_row_major_order() {
    let img = Image::new(2, 3);
    let mut coords = img.coordinates();
    assert_eq!(coords.next(), Some((0, 0)));
    assert_eq!(coords.next(), Some((1, 0)));
    assert_eq!(coords.next(), Some((0, 1)));
    assert_eq!(coords.next(), Some((1, 1)));
    assert_eq!(coords.next(), Some((0, 2)));
    assert_eq!(coords.next(), Some((1, 2)));
}

#[test]
fn coordinates_iterator_ends_after_the_last_coordinate() {
    let img = Image::new(2, 1);
    let mut coords = img.coordinates();
    assert_eq!(coords.next(), Some((0, 0)));
    assert_eq!(coords.next(), Some((1, 0)));
    assert_eq!(coords.next(), None);
    assert_eq!(coords.next(), None);
}

#[test]
fn new_image_is_black_with_24bpp_headers() {
    let img = Image::new(3, 2);
    assert_eq!(img.get_width(), 3);
    assert_eq!(img.get_height(), 2);
    assert_eq!(img.padding, 3);
    for (x, y) in [(0, 0), (1, 0), (2, 0), (0, 1), (1, 1), (2, 1)] {
        assert_eq!(img.get_pixel(x, y), consts::black());
    }
    // row size 12, pixel data 24, file 78
    assert_eq!(img.header.file_size, 78);
    assert_eq!(img.header.pixel_offset, 54);
    assert_eq!(img.dib_header.header_size, 40);
    assert_eq!(img.dib_header.bits_per_pixel, 24);
    assert_eq!(img.dib_header.data_size, 24);
    assert!(img.color_palette.is_none());
}

#[test]
fn encode_then_decode_preserves_pixels() {
    let mut img = Image::new(2, 2);
    img.set_pixel(0, 0, consts::red());
    img.set_pixel(1, 0, consts::lime());
    img.set_pixel(0, 1, consts::blue());
    img.set_pixel(1, 1, consts::white());

    let mut bytes: Vec<u8> = Vec::new();
    img.to_writer(&mut bytes);
    assert_eq!(bytes.len(), 70);
    let round = decode_image(&bytes).unwrap();

    assert_eq!(round.get_pixel(0, 0), consts::red());
    assert_eq!(round.get_pixel(1, 0), consts::lime());
    assert_eq!(round.get_pixel(0, 1), consts::blue());
    assert_eq!(round.get_pixel(1, 1), consts::white());

    let header = round.header;
    assert_eq!(70, header.file_size);
    assert_eq!(0, header.creator1);
    assert_eq!(0, header.creator2);
    assert_eq!(54, header.pixel_offset);

    let dib_header = round.dib_header;
    assert_eq!(40, dib_header.header_size);
    assert_eq!(2, dib_header.width);
    assert_eq!(2, dib_header.height);
    assert_eq!(1, dib_header.num_planes);
    assert_eq!(24, dib_header.bits_per_pixel);
    assert_eq!(0, dib_header.compress_type);
    assert_eq!(16, dib_header.data_size);
    assert_eq!(1000, dib_header.hres);
    assert_eq!(1000, dib_header.vres);
    assert_eq!(0, dib_header.num_colors);
    assert_eq!(0, dib_header.num_imp_colors);

    assert_eq!(2, round.padding);
}

#[test]
fn encoder_writes_little_endian_header_fields() {
    // width 300: row size 900, file size 954 = 0x3BA, width bytes 44, 1.
    let img = Image::new(300, 1);
    let mut bytes: Vec<u8> = Vec::new();
    img.to_writer(&mut bytes);
    assert_eq!(bytes.len(), 954);
    assert_eq!(&bytes[0..2], b"BM");
    assert_eq!(&bytes[2..6], &[0xBA, 0x03, 0x00, 0x00]);
    assert_eq!(&bytes[18..22], &[44, 1, 0, 0]);
    assert_eq!(&bytes[22..26], &[1, 0, 0, 0]);
    assert_eq!(&bytes[28..30], &[24, 0]);
    assert_eq!(&bytes[34..38], &[0x84, 0x03, 0x00, 0x00]);
}
