use raytracer::raster::{
    blank_image, encode_rgb, raster_size, RasterError, IMAGE_DATA_SIZE, IMAGE_HEIGHT,
    IMAGE_WIDTH,
};

const SIGNATURE: [u8; 8] = [137, 80, 78, 71, 13, 10, 26, 10];

fn decode(bytes: &[u8]) -> (u32, u32, png::ColorType, png::BitDepth, Vec<u8>) {
    let decoder = png::Decoder::new(std::io::Cursor::new(bytes));
    let mut reader = decoder.read_info().unwrap();
    let mut buf = vec![0u8; reader.output_buffer_size().unwrap()];
    let info = reader.next_frame(&mut buf).unwrap();
    buf.truncate(info.buffer_size());
    (info.width, info.height, info.color_type, info.bit_depth, buf)
}

#[test]
fn image_data_size_is_three_bytes_per_pixel() {
    assert_eq!(IMAGE_WIDTH, 400);
    assert_eq!(IMAGE_HEIGHT, 400);
    assert_eq!(IMAGE_DATA_SIZE, 480_000);
    assert_eq!(raster_size(400, 400), Some(480_000));
    assert_eq!(raster_size(2, 3), Some(18));
    assert_eq!(raster_size(0, 7), Some(0));
}

#[test]
fn raster_size_overflow_is_none() {
    if usize::BITS == 64 {
        assert_eq!(raster_size(u32::MAX, u32::MAX), None);
        assert_eq!(raster_size(u32::MAX, 1), Some(3 * u32::MAX as usize));
    }
}

#[test]
fn blank_image_is_all_zero() {
    let data = blank_image();
    assert_eq!(data.len(), IMAGE_DATA_SIZE as usize);
    assert!(data.iter().all(|&b| b == 0));
}

#[test]
fn blank_image_encodes_to_black_400_by_400() {
    let data = blank_image();
    let bytes = encode_rgb(&data, IMAGE_WIDTH, IMAGE_HEIGHT).unwrap();
    assert_eq!(&bytes[..8], &SIGNATURE);

    let (width, height, color, depth, pixels) = decode(&bytes);
    assert_eq!(width, 400);
    assert_eq!(height, 400);
    assert_eq!(color, png::ColorType::Rgb);
    assert_eq!(depth, png::BitDepth::Eight);
    assert_eq!(pixels.len(), 480_000);
    assert!(pixels.iter().all(|&b| b == 0));
}

#[test]
fn encoded_pixels_round_trip() {
    let data: Vec<u8> = vec![255, 0, 0, 0, 255, 0, 0, 0, 255, 10, 20, 30, 1, 2, 3, 200, 150, 100];
    let bytes = encode_rgb(&data, 3, 2).unwrap();
    assert_ne!(bytes, data);
    assert_eq!(&bytes[..8], &SIGNATURE);

    let (width, height, _, _, pixels) = decode(&bytes);
    assert_eq!((width, height), (3, 2));
    assert_eq!(pixels, data);
}

#[test]
fn wrong_buffer_length_is_refused() {
    let short = vec![0u8; 17];
    assert_eq!(encode_rgb(&short, 3, 2), Err(RasterError::BufferSize));
    let long = vec![0u8; 19];
    assert_eq!(encode_rgb(&long, 3, 2), Err(RasterError::BufferSize));
    assert_eq!(encode_rgb(&[], 1, 1), Err(RasterError::BufferSize));
}

#[test]
fn empty_image_is_refused_by_encoder() {
    assert_eq!(encode_rgb(&[], 0, 5), Err(RasterError::Encoding));
    assert_eq!(encode_rgb(&[], 5, 0), Err(RasterError::Encoding));
}
