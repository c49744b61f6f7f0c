use image::{DynamicImage, GrayImage, RgbImage, RgbaImage};
use nvtt_rs::dynamic::bgra_len_fits;
use nvtt_rs::{ImageLayout, InputFormat, InputOptions, RawImage, TextureType, ValidImage};

#[test]
fn rgb_image_becomes_bgra_bytes() {
    let rgb = RgbImage::from_raw(2, 1, vec![1, 2, 3, 4, 5, 6]).unwrap();
    let converted = ValidImage::from_dynamic(&DynamicImage::ImageRgb8(rgb));
    assert_eq!(
        converted,
        Some(ValidImage::Bgra(RawImage {
            width: 2,
            height: 1,
            bytes: vec![3, 2, 1, 255, 6, 5, 4, 255]
        }))
    );
}

#[test]
fn rgba_image_keeps_its_alpha() {
    let rgba = RgbaImage::from_raw(1, 2, vec![1, 2, 3, 4, 5, 6, 7, 8]).unwrap();
    let converted = ValidImage::from_dynamic(&DynamicImage::ImageRgba8(rgba));
    assert_eq!(
        converted,
        Some(ValidImage::Bgra(RawImage {
            width: 1,
            height: 2,
            bytes: vec![3, 2, 1, 4, 7, 6, 5, 8]
        }))
    );
}

#[test]
fn gray_image_fills_all_three_colors() {
    let gray = GrayImage::from_raw(1, 1, vec![10]).unwrap();
    let converted = ValidImage::from_dynamic(&DynamicImage::ImageLuma8(gray)).unwrap();
    assert_eq!(converted.format(), InputFormat::Bgra8Ub);
    assert_eq!(converted.image_dimensions(), (1u32, 1u32));
    assert_eq!(converted.data_bytes(), &[10u8, 10, 10, 255][..]);
}

#[test]
fn empty_image_converts_to_no_bytes() {
    let empty = DynamicImage::new_rgb8(0, 0);
    assert_eq!(
        ValidImage::from_dynamic(&empty),
        Some(ValidImage::Bgra(RawImage { width: 0, height: 0, bytes: vec![] }))
    );
}

#[test]
fn converted_image_passes_the_length_check() {
    let image = ValidImage::from_dynamic(&DynamicImage::new_luma8(3, 5)).unwrap();
    assert_eq!(image.data_bytes().len(), 60usize);
    let mut options = InputOptions::from_raw(8).unwrap();
    assert_eq!(
        options.set_image(&image),
        Ok(ImageLayout {
            format: InputFormat::Bgra8Ub,
            texture_type: TextureType::D2,
            width: 3,
            height: 5,
            depth: 1,
            array_size: 1
        })
    );
}

#[test]
fn bgra_length_is_held_against_the_size_type() {
    assert!(bgra_len_fits(0, 0));
    assert!(bgra_len_fits(4096, 4096));
    assert!(bgra_len_fits(u32::MAX, 1));
    let all: u128 = 4 * (u32::MAX as u128) * (u32::MAX as u128);
    assert_eq!(bgra_len_fits(u32::MAX, u32::MAX), all <= usize::MAX as u128);
    let row: u128 = 4 * (u32::MAX as u128) * 2;
    assert_eq!(bgra_len_fits(u32::MAX, 2), row <= usize::MAX as u128);
}
