use nvtt_rs::{
    int_from_native, CompressionOptions, Compressor, Error, ImageLayout, InputFormat,
    InputOptions, OutputLocation, OutputOptions, PathConvertError, PathFamily, RawImage,
    TextureType, ValidImage,
};

#[test]
fn null_handle_is_a_failed_construction() {
    assert_eq!(Compressor::from_raw(0).err(), Some(Error::Unknown));
    assert_eq!(CompressionOptions::from_raw(0).err(), Some(Error::Unknown));
    assert_eq!(InputOptions::from_raw(0).err(), Some(Error::Unknown));
    assert_eq!(OutputOptions::from_raw(0).err(), Some(Error::Unknown));
}

#[test]
fn handle_keeps_its_address() {
    let c = Compressor::from_raw(0x10).unwrap();
    assert_eq!(c.as_raw(), 0x10usize);
    assert_eq!(c.into_raw(), 0x10usize);
    let o = CompressionOptions::from_raw(usize::MAX).unwrap();
    assert_eq!(o.as_raw(), usize::MAX);
    assert_eq!(o.into_raw(), usize::MAX);
    let i = InputOptions::from_raw(1).unwrap();
    assert_eq!(i.as_raw(), 1usize);
    assert_eq!(i.into_raw(), 1usize);
    let u = OutputOptions::from_raw(0x7f00).unwrap();
    assert_eq!(u.as_raw(), 0x7f00usize);
    assert_eq!(u.into_raw(), 0x7f00usize);
}

#[test]
fn input_options_start_with_byte_pixels() {
    let i = InputOptions::from_raw(8).unwrap();
    assert_eq!(i.format(), InputFormat::Bgra8Ub);
}

#[test]
fn set_format_declares_and_translates() {
    let mut i = InputOptions::from_raw(8).unwrap();
    assert_eq!(i.set_format(InputFormat::Rgba32F), 2u32);
    assert_eq!(i.format(), InputFormat::Rgba32F);
    assert_eq!(i.set_format(InputFormat::R32F), 3u32);
    assert_eq!(i.format(), InputFormat::R32F);
    assert_eq!(i.as_raw(), 8usize);
}

#[test]
fn mipmap_data_of_matching_length_is_accepted() {
    let mut i = InputOptions::from_raw(8).unwrap();
    assert_eq!(i.check_mipmap_data(&[0u8; 16], 2, 2, 1), Ok(()));
    assert_eq!(i.check_mipmap_data(&[0u8; 24], 3, 2, 1), Ok(()));
    assert_eq!(i.check_mipmap_data(&[0u8; 32], 2, 2, 2), Ok(()));
    i.set_format(InputFormat::Rgba16F);
    assert_eq!(i.check_mipmap_data(&[0u8; 48], 3, 2, 1), Ok(()));
    i.set_format(InputFormat::Rgba32F);
    assert_eq!(i.check_mipmap_data(&[0u8; 64], 2, 2, 1), Ok(()));
    i.set_format(InputFormat::R32F);
    assert_eq!(i.check_mipmap_data(&[0u8; 20], 5, 1, 1), Ok(()));
}

#[test]
fn mipmap_data_of_other_length_is_refused() {
    let mut i = InputOptions::from_raw(8).unwrap();
    assert_eq!(i.check_mipmap_data(&[0u8; 15], 2, 2, 1), Err(Error::Unknown));
    assert_eq!(i.check_mipmap_data(&[0u8; 17], 2, 2, 1), Err(Error::Unknown));
    assert_eq!(i.check_mipmap_data(&[], 2, 2, 1), Err(Error::Unknown));
    i.set_format(InputFormat::Rgba32F);
    assert_eq!(i.check_mipmap_data(&[0u8; 16], 2, 2, 1), Err(Error::Unknown));
}

#[test]
fn mipmap_data_with_odd_extents_does_not_crash() {
    let i = InputOptions::from_raw(8).unwrap();
    assert_eq!(i.check_mipmap_data(&[], 0, 7, 1), Ok(()));
    assert_eq!(i.check_mipmap_data(&[0u8; 4], 0, 7, 1), Err(Error::Unknown));
    assert_eq!(i.check_mipmap_data(&[0u8; 16], -2, 2, 1), Err(Error::Unknown));
    assert_eq!(i.check_mipmap_data(&[], -1, 1, 1), Err(Error::Unknown));
    assert_eq!(
        i.check_mipmap_data(&[0u8; 16], i32::MAX, i32::MAX, i32::MAX),
        Err(Error::Unknown)
    );
    assert_eq!(
        i.check_mipmap_data(&[0u8; 16], i32::MIN, i32::MIN, i32::MIN),
        Err(Error::Unknown)
    );
    // The product of the extents is what counts, signs and all.
    assert_eq!(i.check_mipmap_data(&[0u8; 16], -2, -2, 1), Ok(()));
}

#[test]
fn unsigned_extent_keeps_its_bits() {
    assert_eq!(int_from_native(0), 0i32);
    assert_eq!(int_from_native(640), 640i32);
    assert_eq!(int_from_native(0x7fff_ffff), i32::MAX);
    assert_eq!(int_from_native(0x8000_0000), i32::MIN);
    assert_eq!(int_from_native(u32::MAX), -1i32);
}

#[test]
fn valid_image_reports_its_format_and_size() {
    let raw = RawImage { width: 2, height: 3, bytes: vec![7u8; 24] };
    let bgra = ValidImage::Bgra(raw.clone());
    assert_eq!(bgra.format(), InputFormat::Bgra8Ub);
    assert_eq!(bgra.image_dimensions(), (2u32, 3u32));
    assert_eq!(bgra.data_bytes(), &[7u8; 24][..]);
    assert_eq!(ValidImage::Rgba(raw.clone()).format(), InputFormat::Rgba32F);
    assert_eq!(ValidImage::Luma(raw).format(), InputFormat::R32F);
}

#[test]
fn set_image_lays_out_a_flat_texture() {
    let mut i = InputOptions::from_raw(8).unwrap();
    let image = ValidImage::Bgra(RawImage { width: 2, height: 2, bytes: vec![0u8; 16] });
    assert_eq!(
        i.set_image(&image),
        Ok(ImageLayout {
            format: InputFormat::Bgra8Ub,
            texture_type: TextureType::D2,
            width: 2,
            height: 2,
            depth: 1,
            array_size: 1
        })
    );
    assert_eq!(i.format(), InputFormat::Bgra8Ub);

    let floats = ValidImage::Rgba(RawImage { width: 3, height: 1, bytes: vec![0u8; 48] });
    assert_eq!(
        i.set_image(&floats),
        Ok(ImageLayout {
            format: InputFormat::Rgba32F,
            texture_type: TextureType::D2,
            width: 3,
            height: 1,
            depth: 1,
            array_size: 1
        })
    );
    assert_eq!(i.format(), InputFormat::Rgba32F);

    let luma = ValidImage::Luma(RawImage { width: 3, height: 2, bytes: vec![0u8; 24] });
    assert_eq!(i.set_image(&luma).map(|l| (l.format, l.width, l.height)), Ok((InputFormat::R32F, 3, 2)));
}

#[test]
fn set_image_refuses_an_image_of_the_wrong_length() {
    let mut i = InputOptions::from_raw(8).unwrap();
    let short = ValidImage::Rgba(RawImage { width: 2, height: 2, bytes: vec![0u8; 16] });
    assert_eq!(i.set_image(&short), Err(Error::Unknown));
    // The format was declared all the same.
    assert_eq!(i.format(), InputFormat::Rgba32F);
    let long = ValidImage::Bgra(RawImage { width: 1, height: 1, bytes: vec![0u8; 5] });
    assert_eq!(i.set_image(&long), Err(Error::Unknown));
    let huge = ValidImage::Bgra(RawImage { width: u32::MAX, height: 1, bytes: vec![] });
    assert_eq!(i.set_image(&huge), Err(Error::Unknown));
}

#[test]
fn output_goes_to_a_file_at_first() {
    let o = OutputOptions::from_raw(4).unwrap();
    assert!(o.writes_to_file());
}

#[test]
fn output_location_buffer_switches_to_memory() {
    let mut o = OutputOptions::from_raw(4).unwrap();
    assert_eq!(o.set_output_location(OutputLocation::Buffer, PathFamily::Unix), Ok(None));
    assert!(!o.writes_to_file());
    assert_eq!(o.as_raw(), 4usize);
}

#[test]
fn output_location_file_gives_the_c_name() {
    let mut o = OutputOptions::from_raw(4).unwrap();
    assert_eq!(o.set_output_location(OutputLocation::Buffer, PathFamily::Unix), Ok(None));
    assert_eq!(
        o.set_output_location(OutputLocation::File(b"out.dds"), PathFamily::Unix),
        Ok(Some(b"out.dds\0".to_vec()))
    );
    assert!(o.writes_to_file());
}

#[test]
fn output_path_with_nul_byte_changes_nothing() {
    let mut o = OutputOptions::from_raw(4).unwrap();
    assert_eq!(o.set_output_location(OutputLocation::Buffer, PathFamily::Unix), Ok(None));
    assert_eq!(
        o.set_output_location(OutputLocation::File(b"out\0.dds"), PathFamily::Unix),
        Err(PathConvertError::Nul(3))
    );
    assert!(!o.writes_to_file());
    assert_eq!(
        o.set_output_location(OutputLocation::File("ü.dds".as_bytes()), PathFamily::Windows),
        Err(PathConvertError::AsciiConvert)
    );
    assert!(!o.writes_to_file());
    assert_eq!(
        o.set_output_location(OutputLocation::File(&[0xff]), PathFamily::Windows),
        Err(PathConvertError::Utf8Convert)
    );
    assert!(!o.writes_to_file());
}
