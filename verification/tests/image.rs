use andromeda::assets::heightmap::flip_image_vertical;
use andromeda::assets::texture::{ImageBuffer, LumaPixel, RgbPixel, RgbaPixel};

#[test]
fn flip_even_rows() {
    let mut data = vec![1, 2, 3, 4, 5, 6, 7, 8];
    flip_image_vertical(&mut data, 2);
    assert_eq!(data, vec![7, 8, 5, 6, 3, 4, 1, 2]);
}

#[test]
fn flip_twice_restores() {
    let original: Vec<u32> = (0..15).collect();
    let mut data = original.clone();
    flip_image_vertical(&mut data, 4);
    flip_image_vertical(&mut data, 4);
    assert_eq!(data, original);
}

#[test]
fn flip_odd_rows_keeps_middle_row() {
    let mut data = vec![1, 2, 3, 4, 5, 6];
    flip_image_vertical(&mut data, 2);
    assert_eq!(data, vec![5, 6, 3, 4, 1, 2]);
}

#[test]
fn flip_keeps_elements_after_last_full_row() {
    let mut data = vec![1, 2, 3, 4, 5, 6, 7];
    flip_image_vertical(&mut data, 3);
    assert_eq!(data, vec![4, 5, 6, 1, 2, 3, 7]);
}

#[test]
fn flip_single_row_and_empty() {
    let mut one = vec![1, 2, 3];
    flip_image_vertical(&mut one, 3);
    assert_eq!(one, vec![1, 2, 3]);
    let mut empty: Vec<u8> = vec![];
    flip_image_vertical(&mut empty, 1);
    assert!(empty.is_empty());
}

#[test]
fn image_buffer_round_trip() {
    let mut buffer: ImageBuffer<RgbPixel<u8>> = ImageBuffer::from_raw(vec![1, 2, 3, 4, 5, 6]);
    assert_eq!(buffer.as_raw_slice(), &[1, 2, 3, 4, 5, 6]);
    buffer.as_mut_raw_slice()[0] = 9;
    assert_eq!(buffer.into_raw(), vec![9, 2, 3, 4, 5, 6]);
    let luma: ImageBuffer<LumaPixel<u16>> = ImageBuffer::from_raw(vec![500]);
    assert_eq!(luma.as_raw_slice().len(), 1);
}

#[test]
fn into_bytes_of_byte_channels() {
    let buffer: ImageBuffer<RgbaPixel<u8>> = ImageBuffer::from_raw(vec![1, 2, 3, 4, 5, 6, 7, 8]);
    assert_eq!(buffer.into_bytes(), vec![1, 2, 3, 4, 5, 6, 7, 8]);
    let empty: ImageBuffer<LumaPixel<u8>> = ImageBuffer::from_raw(vec![]);
    assert!(empty.into_bytes().is_empty());
}
