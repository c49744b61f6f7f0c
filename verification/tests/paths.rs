use nvtt_rs::{to_c_filepath, PathConvertError, PathFamily};

#[test]
fn plain_name_gets_a_terminator() {
    assert_eq!(to_c_filepath(b"output.dds", PathFamily::Unix), Ok(b"output.dds\0".to_vec()));
    assert_eq!(to_c_filepath(b"output.dds", PathFamily::Windows), Ok(b"output.dds\0".to_vec()));
}

#[test]
fn empty_name_is_the_empty_c_string() {
    assert_eq!(to_c_filepath(b"", PathFamily::Unix), Ok(vec![0u8]));
    assert_eq!(to_c_filepath(b"", PathFamily::Windows), Ok(vec![0u8]));
}

#[test]
fn nul_byte_is_refused() {
    assert_eq!(to_c_filepath(b"out\0put.dds", PathFamily::Unix), Err(PathConvertError::Nul(3)));
    assert_eq!(
        to_c_filepath(b"out\0put.dds", PathFamily::Windows),
        Err(PathConvertError::Nul(3))
    );
    assert_eq!(to_c_filepath(b"\0", PathFamily::Unix), Err(PathConvertError::Nul(0)));
    assert_eq!(to_c_filepath(b"abc\0", PathFamily::Unix), Err(PathConvertError::Nul(3)));
}

#[test]
fn first_nul_byte_is_the_one_named() {
    assert_eq!(to_c_filepath(b"a\0b\0c\0", PathFamily::Unix), Err(PathConvertError::Nul(1)));
}

#[test]
fn unix_takes_any_other_bytes() {
    let name: [u8; 4] = [0xff, 0xfe, 0x80, 0x41];
    assert_eq!(to_c_filepath(&name, PathFamily::Unix), Ok(vec![0xff, 0xfe, 0x80, 0x41, 0]));
    let text = "té.dds".as_bytes();
    let mut expected = text.to_vec();
    expected.push(0);
    assert_eq!(to_c_filepath(text, PathFamily::Unix), Ok(expected));
}

#[test]
fn windows_refuses_text_outside_ascii() {
    assert_eq!(
        to_c_filepath("té.dds".as_bytes(), PathFamily::Windows),
        Err(PathConvertError::AsciiConvert)
    );
    assert_eq!(
        to_c_filepath("日本.dds".as_bytes(), PathFamily::Windows),
        Err(PathConvertError::AsciiConvert)
    );
}

#[test]
fn windows_refuses_what_is_no_text() {
    // A lone continuation byte, a truncated sequence, an encoded surrogate.
    assert_eq!(to_c_filepath(&[0x61, 0x80], PathFamily::Windows), Err(PathConvertError::Utf8Convert));
    assert_eq!(to_c_filepath(&[0xc3], PathFamily::Windows), Err(PathConvertError::Utf8Convert));
    assert_eq!(
        to_c_filepath(&[0xed, 0xa0, 0x80], PathFamily::Windows),
        Err(PathConvertError::Utf8Convert)
    );
    // An overlong encoding of '/'.
    assert_eq!(to_c_filepath(&[0xc0, 0xaf], PathFamily::Windows), Err(PathConvertError::Utf8Convert));
}

#[test]
fn windows_checks_text_before_nul() {
    assert_eq!(
        to_c_filepath("é\0".as_bytes(), PathFamily::Windows),
        Err(PathConvertError::AsciiConvert)
    );
    assert_eq!(to_c_filepath(&[0, 0xff], PathFamily::Windows), Err(PathConvertError::Utf8Convert));
}

#[test]
fn path_error_messages() {
    assert_eq!(
        PathConvertError::Utf8Convert.message(),
        "Could not convert path losslessly to UTF8 string"
    );
    assert_eq!(PathConvertError::AsciiConvert.message(), "The given path was not valid ASCII");
    assert_eq!(PathConvertError::Nul(3).message(), "The given path contained a nul byte");
    assert_eq!(PathConvertError::Nul(3).nul_position(), Some(3usize));
    assert_eq!(PathConvertError::AsciiConvert.nul_position(), None);
    assert_eq!(PathConvertError::Utf8Convert.nul_position(), None);
}
