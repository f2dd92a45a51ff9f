use vellogd::raster::{
    convert_to_image, encode_png, encode_readback, needs_extended_edge, padded_bytes_per_row,
    strip_row_padding, ExportError,
};

fn px(v: u8) -> [u8; 4] {
    [v, v, v, 255]
}

#[test]
fn image_copy_without_edge() {
    let raster: Vec<u8> = (0..16).collect();
    let img = convert_to_image(&raster, 2, 2, 200, false);
    assert_eq!(img.data, raster);
    assert_eq!((img.width, img.height, img.alpha, img.extended_edge), (2, 2, 200, false));
}

#[test]
fn image_with_extended_edge() {
    // 2 x 2 pixels a b / c d become a b b / c d d / c d d.
    let (a, b, c, d) = (px(1), px(2), px(3), px(4));
    let raster: Vec<u8> = [a, b, c, d].concat();
    let img = convert_to_image(&raster, 2, 2, 255, true);
    assert_eq!((img.width, img.height), (3, 3));
    assert_eq!(img.data, [a, b, b, c, d, d, c, d, d].concat());
}

#[test]
fn extended_edge_decision() {
    assert!(!needs_extended_edge((10, 10), (640, 640)));
    assert!(needs_extended_edge((10, 10), (641, 640)));
    assert!(needs_extended_edge((10, 10), (10, 6400)));
    assert!(!needs_extended_edge((10, 10), (64, 64)));
}

#[test]
fn row_pitch_rounds_up_to_256() {
    assert_eq!(padded_bytes_per_row(0), 0);
    assert_eq!(padded_bytes_per_row(1), 256);
    assert_eq!(padded_bytes_per_row(64), 256);
    assert_eq!(padded_bytes_per_row(65), 512);
    assert_eq!(padded_bytes_per_row(480), 2048);
    assert_eq!(padded_bytes_per_row(4096), 16384);
    assert_eq!(padded_bytes_per_row(u32::MAX), 17179869184);
}

#[test]
fn strips_padding() {
    let data: Vec<u8> = (0..16).collect();
    assert_eq!(strip_row_padding(&data, 1, 2, 8), vec![0, 1, 2, 3, 8, 9, 10, 11]);
    assert_eq!(strip_row_padding(&data, 2, 2, 8), data);
}

#[test]
fn export_errors() {
    assert_eq!(encode_png(&[], 0, 5).err(), Some(ExportError::EmptyImage));
    assert_eq!(encode_png(&[], 5, 0).err(), Some(ExportError::EmptyImage));
    assert_eq!(encode_png(&[0; 3], 1, 1).err(), Some(ExportError::SizeMismatch));
    assert_eq!(encode_readback(&[], 0, 0, 0).err(), Some(ExportError::EmptyImage));
}

fn decode(bytes: &[u8]) -> (u32, u32, Vec<u8>) {
    let decoder = png::Decoder::new(bytes);
    let mut reader = decoder.read_info().unwrap();
    let mut buf = vec![0; reader.output_buffer_size()];
    let info = reader.next_frame(&mut buf).unwrap();
    buf.truncate(info.buffer_size());
    assert_eq!(info.color_type, png::ColorType::Rgba);
    assert_eq!(info.bit_depth, png::BitDepth::Eight);
    (info.width, info.height, buf)
}

fn uniform_export(width: u32, height: u32) {
    let fill = [200u8, 30, 60, 255];
    let pitch = padded_bytes_per_row(width) as usize;
    // A read-back buffer as the GPU hands it out: every pixel is the fill
    // colour, the padding after each row is garbage.
    let mut data = vec![0xAB; pitch * height as usize];
    for row in 0..height as usize {
        for col in 0..width as usize {
            let at = row * pitch + col * 4;
            data[at..at + 4].copy_from_slice(&fill);
        }
    }
    let png_bytes = encode_readback(&data, width, height, pitch).unwrap();
    let (w, h, pixels) = decode(&png_bytes);
    assert_eq!((w, h), (width, height));
    assert_eq!(pixels.len(), (width * height * 4) as usize);
    assert!(pixels.chunks(4).all(|p| p == fill));
}

#[test]
fn export_uniform_1() {
    uniform_export(1, 1);
}

#[test]
fn export_uniform_2() {
    uniform_export(2, 2);
}

#[test]
fn export_uniform_480() {
    uniform_export(480, 480);
}

#[test]
fn export_uniform_4096_wide() {
    uniform_export(4096, 16);
}

#[test]
fn export_uniform_4096_high() {
    uniform_export(16, 4096);
}

#[test]
fn export_keeps_pixel_order() {
    let data: Vec<u8> = [px(1), px(2), px(3), px(4), px(5), px(6)].concat();
    let png_bytes = encode_png(&data, 3, 2).unwrap();
    let (w, h, pixels) = decode(&png_bytes);
    assert_eq!((w, h), (3, 2));
    assert_eq!(pixels, data);
}

#[test]
fn export_succeeds_on_matching_sizes() {
    assert!(encode_png(&[1, 2, 3, 4], 1, 1).is_ok());
    assert!(encode_readback(&[0; 512], 1, 2, 256).is_ok());
}
