use nvtt_rs::native::{
    NVTT_ERROR_FILE_OPEN, NVTT_FORMAT_BC1, NVTT_FORMAT_DXT1, NVTT_FORMAT_RGB, NVTT_FORMAT_RGBA,
    NVTT_VERSION,
};
use nvtt_rs::{
    version, AlphaMode, Container, Error, Format, InputFormat, MipmapFilterKind, NvttBoolean,
    Quality, RoundMode, TextureType, WrapMode,
};

const ALL_FORMATS: [Format; 30] = [
    Format::Bc1,
    Format::Bc1a,
    Format::Bc2,
    Format::Bc3,
    Format::Bc3n,
    Format::Bc3_Rgbm,
    Format::Bc4,
    Format::Bc5,
    Format::Bc6,
    Format::Bc7,
    Format::Ctx1,
    Format::Dxt1,
    Format::Dxt1a,
    Format::Dxt1n,
    Format::Dxt3,
    Format::Dxt5,
    Format::Dxt5n,
    Format::Etc1,
    Format::Etc2_R,
    Format::Etc2_Rg,
    Format::Etc2_Rgb,
    Format::Etc2_Rgba,
    Format::Etc2_Rgbm,
    Format::Etc2_Rgb_A1,
    Format::Pvr_2Bpp_Rgb,
    Format::Pvr_2Bpp_Rgba,
    Format::Pvr_4Bpp_Rgb,
    Format::Pvr_4Bpp_Rgba,
    Format::Rgb,
    Format::Rgba,
];

#[test]
fn version_is_the_interface_version() {
    assert_eq!(version(), NVTT_VERSION);
    assert_eq!(version(), 20102u32);
}

#[test]
fn boolean_translates_both_ways() {
    assert_eq!(NvttBoolean::from_bool(true), NvttBoolean::NVTT_True);
    assert_eq!(NvttBoolean::from_bool(false), NvttBoolean::NVTT_False);
    assert!(NvttBoolean::NVTT_True.to_bool());
    assert!(!NvttBoolean::NVTT_False.to_bool());
    assert_eq!(NvttBoolean::NVTT_True.not(), NvttBoolean::NVTT_False);
    assert_eq!(NvttBoolean::NVTT_False.not(), NvttBoolean::NVTT_True);
    assert!(NvttBoolean::NVTT_True.eq_bool(true));
    assert!(!NvttBoolean::NVTT_True.eq_bool(false));
    assert!(NvttBoolean::NVTT_False.eq_bool(false));
}

#[test]
fn container_round_trips() {
    for c in [Container::Dds, Container::Dds10, Container::Ktx] {
        assert_eq!(Container::from_native(c.to_native()), Some(c));
        assert!(c.eq_native(c.to_native()));
    }
    assert_eq!(Container::Dds.to_native(), 0u32);
    assert_eq!(Container::Dds10.to_native(), 1u32);
    assert_eq!(Container::Ktx.to_native(), 2u32);
    assert_eq!(Container::from_native(3), None);
    assert!(!Container::Dds.eq_native(1));
}

#[test]
fn container_file_extension() {
    assert_eq!(Container::Dds.file_extension(), "dds");
    assert_eq!(Container::Dds10.file_extension(), "dds");
    assert_eq!(Container::Ktx.file_extension(), "ktx");
}

#[test]
fn alpha_mode_round_trips() {
    for m in [AlphaMode::NoAlpha, AlphaMode::Premultiplied, AlphaMode::Transparency] {
        assert_eq!(AlphaMode::from_native(m.to_native()), Some(m));
    }
    assert_eq!(AlphaMode::NoAlpha.to_native(), 0u32);
    assert_eq!(AlphaMode::Transparency.to_native(), 1u32);
    assert_eq!(AlphaMode::Premultiplied.to_native(), 2u32);
    assert_eq!(AlphaMode::from_native(3), None);
}

#[test]
fn quality_round_trips() {
    for q in [Quality::Fastest, Quality::Highest, Quality::Normal, Quality::Production] {
        assert_eq!(Quality::from_native(q.to_native()), Some(q));
    }
    assert_eq!(Quality::Fastest.to_native(), 0u32);
    assert_eq!(Quality::Normal.to_native(), 1u32);
    assert_eq!(Quality::Production.to_native(), 2u32);
    assert_eq!(Quality::Highest.to_native(), 3u32);
    assert_eq!(Quality::from_native(4), None);
    assert_eq!(Quality::default(), Quality::Normal);
}

#[test]
fn input_format_round_trips() {
    let all = [
        InputFormat::Bgra8Ub,
        InputFormat::Rgba16F,
        InputFormat::Rgba32F,
        InputFormat::R32F,
    ];
    for (i, f) in all.iter().enumerate() {
        assert_eq!(InputFormat::from_native(f.to_native()), Some(*f));
        assert_eq!(f.to_native() as usize, i);
    }
    assert_eq!(InputFormat::from_native(4), None);
}

#[test]
fn input_format_bytes_per_pixel() {
    assert_eq!(InputFormat::Bgra8Ub.bytes_per_pixel(), 4u8);
    assert_eq!(InputFormat::Rgba16F.bytes_per_pixel(), 8u8);
    assert_eq!(InputFormat::Rgba32F.bytes_per_pixel(), 16u8);
    assert_eq!(InputFormat::R32F.bytes_per_pixel(), 4u8);
}

#[test]
fn round_mode_round_trips() {
    let all = [
        RoundMode::Unrounded,
        RoundMode::ToNextPowerOfTwo,
        RoundMode::ToNearestPowerOfTwo,
        RoundMode::ToPreviousPowerOfTwo,
        RoundMode::ToNextMultipleOfFour,
        RoundMode::ToNearestMultipleOfFour,
        RoundMode::ToPreviousMultipleOfFour,
    ];
    for (i, m) in all.iter().enumerate() {
        assert_eq!(RoundMode::from_native(m.to_native()), Some(*m));
        assert_eq!(m.to_native() as usize, i);
    }
    assert_eq!(RoundMode::from_native(7), None);
    assert_eq!(RoundMode::default(), RoundMode::Unrounded);
}

#[test]
fn texture_type_round_trips() {
    let all = [TextureType::D2, TextureType::Cube, TextureType::D3, TextureType::Array];
    for (i, t) in all.iter().enumerate() {
        assert_eq!(TextureType::from_native(t.to_native()), Some(*t));
        assert_eq!(t.to_native() as usize, i);
    }
    assert_eq!(TextureType::from_native(4), None);
    assert_eq!(TextureType::default(), TextureType::D2);
}

#[test]
fn wrap_mode_round_trips() {
    let all = [WrapMode::Clamp, WrapMode::Repeat, WrapMode::Mirror];
    for (i, m) in all.iter().enumerate() {
        assert_eq!(WrapMode::from_native(m.to_native()), Some(*m));
        assert_eq!(m.to_native() as usize, i);
    }
    assert_eq!(WrapMode::from_native(3), None);
}

#[test]
fn mipmap_filter_kind_round_trips() {
    let all = [MipmapFilterKind::Box, MipmapFilterKind::Triangle, MipmapFilterKind::Kaiser];
    for (i, k) in all.iter().enumerate() {
        assert_eq!(MipmapFilterKind::from_native(k.to_native()), Some(*k));
        assert_eq!(k.to_native() as usize, i);
    }
    assert_eq!(MipmapFilterKind::from_native(3), None);
    assert_eq!(MipmapFilterKind::default(), MipmapFilterKind::Box);
}

#[test]
fn error_round_trips() {
    let all = [
        Error::Unknown,
        Error::InvalidInput,
        Error::UnsupportedFeature,
        Error::CudaError,
        Error::FileOpen,
        Error::FileWrite,
        Error::UnsupportedOutputFormat,
    ];
    for (i, e) in all.iter().enumerate() {
        assert_eq!(Error::from_native(e.to_native()), Some(*e));
        assert_eq!(e.to_native() as usize, i);
    }
    assert_eq!(Error::from_native(7), None);
    assert_eq!(Error::from_native(u32::MAX), None);
    assert_eq!(Error::default(), Error::Unknown);
}

#[test]
fn error_from_report() {
    assert_eq!(Error::from_report(Some(NVTT_ERROR_FILE_OPEN)), Error::FileOpen);
    assert_eq!(Error::from_report(Some(1)), Error::InvalidInput);
    assert_eq!(Error::from_report(Some(1234)), Error::Unknown);
    assert_eq!(Error::from_report(None), Error::Unknown);
}

#[test]
fn error_from_status() {
    assert_eq!(Error::from_status(NvttBoolean::NVTT_True), Ok(()));
    assert_eq!(Error::from_status(NvttBoolean::NVTT_False), Err(Error::Unknown));
}

#[test]
fn format_number_survives_the_round_trip() {
    for f in ALL_FORMATS {
        let back = Format::from_native(f.to_native());
        assert!(back.is_some());
        assert_eq!(back.unwrap().to_native(), f.to_native());
    }
}

#[test]
fn format_aliases_collapse_to_first_declared() {
    assert_eq!(NVTT_FORMAT_BC1, NVTT_FORMAT_DXT1);
    assert_eq!(NVTT_FORMAT_RGB, NVTT_FORMAT_RGBA);
    assert_eq!(Format::from_native(Format::Dxt1.to_native()), Some(Format::Bc1));
    assert_eq!(Format::from_native(Format::Dxt1a.to_native()), Some(Format::Bc1a));
    assert_eq!(Format::from_native(Format::Dxt3.to_native()), Some(Format::Bc2));
    assert_eq!(Format::from_native(Format::Dxt5.to_native()), Some(Format::Bc3));
    assert_eq!(Format::from_native(Format::Dxt5n.to_native()), Some(Format::Bc3n));
    assert_eq!(Format::from_native(Format::Rgba.to_native()), Some(Format::Rgb));
}

#[test]
fn format_without_alias_comes_back_unchanged() {
    let aliases = [
        Format::Dxt1,
        Format::Dxt1a,
        Format::Dxt3,
        Format::Dxt5,
        Format::Dxt5n,
        Format::Rgba,
    ];
    for f in ALL_FORMATS {
        if !aliases.contains(&f) {
            assert_eq!(Format::from_native(f.to_native()), Some(f));
        }
    }
}

#[test]
fn format_numbers() {
    assert_eq!(Format::Rgb.to_native(), 0u32);
    assert_eq!(Format::Dxt1.to_native(), 1u32);
    assert_eq!(Format::Bc3n.to_native(), 5u32);
    assert_eq!(Format::Bc5.to_native(), 7u32);
    assert_eq!(Format::Bc7.to_native(), 11u32);
    assert_eq!(Format::Etc1.to_native(), 13u32);
    assert_eq!(Format::Pvr_4Bpp_Rgba.to_native(), 23u32);
    assert!(Format::Dxt5.eq_native(4));
    assert!(!Format::Dxt5.eq_native(3));
}

#[test]
fn format_unrecognized_number_fails_closed() {
    assert_eq!(Format::from_native(24), None);
    assert_eq!(Format::from_native(u32::MAX), None);
}
