use bmp::consts;
use bmp::decoder::decode_image;
use bmp::decoder::BmpErrorKind;
use bmp::Pixel;

fn push_u16(out: &mut Vec<u8>, v: u16) {
    out.extend_from_slice(&v.to_le_bytes());
}

fn push_u32(out: &mut Vec<u8>, v: u32) {
    out.extend_from_slice(&v.to_le_bytes());
}

fn push_i32(out: &mut Vec<u8>, v: i32) {
    out.extend_from_slice(&v.to_le_bytes());
}

/// The 54 header bytes: signature, file header, and a DIB header.
#[allow(clippy::too_many_arguments)]
fn headers(
    file_size: u32,
    pixel_offset: u32,
    header_size: u32,
    width: i32,
    height: i32,
    bits_per_pixel: u16,
    compress_type: u32,
    num_colors: u32,
) -> Vec<u8> {
    let mut out = Vec::new();
    out.extend_from_slice(b"BM");
    push_u32(&mut out, file_size);
    push_u16(&mut out, 0);
    push_u16(&mut out, 0);
    push_u32(&mut out, pixel_offset);
    push_u32(&mut out, header_size);
    push_i32(&mut out, width);
    push_i32(&mut out, height);
    push_u16(&mut out, 1);
    push_u16(&mut out, bits_per_pixel);
    push_u32(&mut out, compress_type);
    push_u32(&mut out, 0);
    push_i32(&mut out, 1000);
    push_i32(&mut out, 1000);
    push_u32(&mut out, num_colors);
    push_u32(&mut out, 0);
    out
}

#[test]
fn decodes_a_2x2_24bpp_file() {
    let mut file = headers(70, 54, 40, 2, 2, 24, 0, 0);
    // bottom row: blue, white; top row: red, lime; two padding bytes each.
    file.extend_from_slice(&[255, 0, 0, 255, 255, 255, 0, 0]);
    file.extend_from_slice(&[0, 0, 255, 0, 255, 0, 0, 0]);
    assert_eq!(file.len(), 70);

    let img = decode_image(&file).unwrap();
    assert_eq!(img.get_width(), 2);
    assert_eq!(img.get_height(), 2);
    assert_eq!(img.get_pixel(0, 0), consts::red());
    assert_eq!(img.get_pixel(1, 0), consts::lime());
    assert_eq!(img.get_pixel(0, 1), consts::blue());
    assert_eq!(img.get_pixel(1, 1), consts::white());
    assert_eq!(img.padding, 2);
    assert_eq!(img.header.file_size, 70);
}

#[test]
fn decodes_and_reencodes_a_1x1_1bpp_file() {
    let mut file = headers(66, 62, 40, 1, 1, 1, 0, 0);
    // palette: entry 0 black, entry 1 white, four bytes each.
    file.extend_from_slice(&[0, 0, 0, 0]);
    file.extend_from_slice(&[255, 255, 255, 0]);
    // one packed row: the top bit selects entry 0.
    file.extend_from_slice(&[0b0000_0000, 0, 0, 0]);
    assert_eq!(file.len(), 66);

    let img = decode_image(&file).unwrap();
    assert_eq!(img.get_width(), 1);
    assert_eq!(img.get_height(), 1);
    assert_eq!(img.get_pixel(0, 0), consts::black());

    let mut bytes: Vec<u8> = Vec::new();
    img.to_writer(&mut bytes);
    let round = decode_image(&bytes).unwrap();
    assert_eq!(round.dib_header.bits_per_pixel, 24);
    assert_eq!(round.get_pixel(0, 0), consts::black());
}

#[test]
fn decodes_an_indexed_4bpp_file_through_its_palette() {
    // 2x1, 4 bits per pixel, the default 16-entry palette.
    let mut file = headers(122, 118, 40, 2, 1, 4, 0, 0);
    for i in 0..16u8 {
        file.extend_from_slice(&[i, 2 * i, 3 * i, 0]);
    }
    // one row: the high nibble selects entry 5, the low one entry 9.
    file.extend_from_slice(&[0x59, 0, 0, 0]);
    assert_eq!(file.len(), 122);

    let img = decode_image(&file).unwrap();
    assert_eq!(img.get_pixel(0, 0), Pixel::new(15, 10, 5));
    assert_eq!(img.get_pixel(1, 0), Pixel::new(27, 18, 9));
}

#[test]
fn negative_dimensions_decode_by_absolute_value() {
    let mut file = headers(70, 54, 40, -2, -2, 24, 0, 0);
    file.extend_from_slice(&[255, 0, 0, 255, 255, 255, 0, 0]);
    file.extend_from_slice(&[0, 0, 255, 0, 255, 0, 0, 0]);

    let img = decode_image(&file).unwrap();
    assert_eq!(img.get_width(), 2);
    assert_eq!(img.get_height(), 2);
    assert_eq!(img.get_pixel(0, 1), consts::blue());
}

#[test]
fn wrong_magic_numbers_are_rejected() {
    let mut file = headers(70, 54, 40, 2, 2, 24, 0, 0);
    file[0] = b'X';
    file[1] = b'Y';
    let err = decode_image(&file).unwrap_err();
    assert!(matches!(err.kind, BmpErrorKind::WrongMagicNumbers));
    assert_eq!(err.details, "Expected [66, 77], but was [88, 89]");
}

#[test]
fn legacy_version_2_headers_are_rejected() {
    let file = headers(70, 54, 12, 2, 2, 24, 0, 0);
    let err = decode_image(&file).unwrap_err();
    assert!(matches!(err.kind, BmpErrorKind::UnsupportedBmpVersion));
    assert_eq!(err.details, "BMP Version 2");
}

#[test]
fn version_3_nt_headers_are_rejected() {
    // a 40-byte header whose compression code 3 marks version 3 NT
    let file = headers(70, 54, 40, 2, 2, 24, 3, 0);
    let err = decode_image(&file).unwrap_err();
    assert!(matches!(err.kind, BmpErrorKind::UnsupportedBmpVersion));
    assert_eq!(err.details, "BMP Version 3 NT");
}

#[test]
fn unrecognized_header_sizes_are_rejected() {
    let file = headers(70, 54, 64, 2, 2, 24, 0, 0);
    let err = decode_image(&file).unwrap_err();
    assert!(matches!(err.kind, BmpErrorKind::UnsupportedHeader));
}

#[test]
fn unsupported_colour_depths_are_rejected() {
    for bpp in [2u16, 16, 32] {
        let file = headers(70, 54, 40, 2, 2, bpp, 0, 0);
        let err = decode_image(&file).unwrap_err();
        assert!(matches!(err.kind, BmpErrorKind::UnsupportedBitsPerPixel));
    }
    let file = headers(70, 54, 40, 2, 2, 16, 0, 0);
    let err = decode_image(&file).unwrap_err();
    assert_eq!(
        err.details,
        "Only 1, 4, 8, and 24 bits per pixel are currently supported, was: 16"
    );
}

#[test]
fn compressed_v4_and_v5_files_are_rejected() {
    for header_size in [108u32, 124] {
        for compress_type in [1u32, 2, 3] {
            let file = headers(70, 54, header_size, 2, 2, 24, compress_type, 0);
            let err = decode_image(&file).unwrap_err();
            assert!(matches!(err.kind, BmpErrorKind::UnsupportedCompressionType));
        }
    }
}

#[test]
fn truncated_files_fail_as_a_source_error() {
    let empty: Vec<u8> = Vec::new();
    let err = decode_image(&empty).unwrap_err();
    assert!(matches!(err.kind, BmpErrorKind::BmpIoError));

    let only_magic = b"BM".to_vec();
    let err = decode_image(&only_magic).unwrap_err();
    assert!(matches!(err.kind, BmpErrorKind::BmpIoError));

    let mut short = headers(70, 54, 40, 2, 2, 24, 0, 0);
    short.truncate(53);
    let err = decode_image(&short).unwrap_err();
    assert!(matches!(err.kind, BmpErrorKind::BmpIoError));

    // headers fine, pixel rows missing
    let missing_rows = headers(70, 54, 40, 2, 2, 24, 0, 0);
    let err = decode_image(&missing_rows).unwrap_err();
    assert!(matches!(err.kind, BmpErrorKind::BmpIoError));
}

#[test]
fn default_8bpp_palette_has_256_entries() {
    // 1x1, 8 bits per pixel, no declared colour count: 1024 palette bytes.
    let mut file = headers(1082, 1078, 40, 1, 1, 8, 0, 0);
    for i in 0..=255u8 {
        file.extend_from_slice(&[i, i, i, 0]);
    }
    // the single pixel selects entry 200
    file.extend_from_slice(&[200, 0, 0, 0]);
    assert_eq!(file.len(), 1082);

    let img = decode_image(&file).unwrap();
    assert_eq!(img.get_pixel(0, 0), Pixel::new(200, 200, 200));

    // with one palette byte missing, the palette read runs out of data
    let mut short = file.clone();
    short.truncate(54 + 1023);
    let err = decode_image(&short).unwrap_err();
    assert!(matches!(err.kind, BmpErrorKind::BmpIoError));
}

#[test]
fn declared_colour_count_overrides_the_depth() {
    // 8 bits per pixel but only 16 declared colours: 64 palette bytes.
    let mut file = headers(122, 118, 40, 1, 1, 8, 0, 16);
    for i in 0..16u8 {
        file.extend_from_slice(&[0, 0, 10 * i, 0]);
    }
    file.extend_from_slice(&[5, 0, 0, 0]);
    assert_eq!(file.len(), 122);

    let img = decode_image(&file).unwrap();
    assert_eq!(img.get_pixel(0, 0), Pixel::new(50, 0, 0));
}

#[test]
fn index_outside_the_declared_palette_is_an_error() {
    // 16 declared colours, but the pixel byte names entry 200.
    let mut file = headers(122, 118, 40, 1, 1, 8, 0, 16);
    for i in 0..16u8 {
        file.extend_from_slice(&[0, 0, 10 * i, 0]);
    }
    file.extend_from_slice(&[200, 0, 0, 0]);

    let err = decode_image(&file).unwrap_err();
    assert!(matches!(err.kind, BmpErrorKind::BmpIoError));
}

#[test]
fn a_24bpp_file_with_a_declared_palette_still_decodes() {
    // 2x2 24-bit pixels, but the header declares two palette colours;
    // the palette is kept and the pixels are read directly.
    let mut file = headers(78, 62, 40, 2, 2, 24, 0, 2);
    file.extend_from_slice(&[1, 2, 3, 0]);
    file.extend_from_slice(&[4, 5, 6, 0]);
    file.extend_from_slice(&[255, 0, 0, 255, 255, 255, 0, 0]);
    file.extend_from_slice(&[0, 0, 255, 0, 255, 0, 0, 0]);
    assert_eq!(file.len(), 78);

    let img = decode_image(&file).unwrap();
    assert_eq!(img.get_pixel(0, 0), consts::red());
    assert_eq!(img.get_pixel(1, 1), consts::white());
    assert!(img.color_palette.is_some());
}

#[test]
fn error_messages_join_kind_and_details() {
    let file = headers(70, 54, 12, 2, 2, 24, 0, 0);
    let err = decode_image(&file).unwrap_err();
    assert_eq!(err.message(), "Unsupported bmp version:BMP Version 2");
}
