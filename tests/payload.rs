use diffusion_to::{
    decode_raw_image, default_filename, image_data, name_for_digest, output_filename,
    DiffusionError,
};
use sha2::Digest;

#[test]
fn decodes_data_uri_payload() {
    assert_eq!(decode_raw_image("data:image/png;base64,QUJD").unwrap(), b"ABC".to_vec());
}

#[test]
fn payload_without_comma_is_invalid() {
    assert!(matches!(decode_raw_image("QUJD"), Err(DiffusionError::InvalidRawImage)));
    assert!(matches!(decode_raw_image(""), Err(DiffusionError::InvalidRawImage)));
}

#[test]
fn malformed_base64_is_a_decode_error() {
    assert!(matches!(decode_raw_image("data:,@@@@"), Err(DiffusionError::Base64Decode(_))));
}

#[test]
fn data_follows_the_last_comma() {
    assert_eq!(image_data("a,b,QUJD"), Some("QUJD"));
    assert_eq!(image_data("prefix,"), Some(""));
    assert_eq!(image_data("nocomma"), None);
    assert_eq!(decode_raw_image("x,y,QUJD").unwrap(), b"ABC".to_vec());
    assert_eq!(decode_raw_image("x,").unwrap(), Vec::<u8>::new());
}

#[test]
fn digest_name_is_lower_hex_with_png() {
    assert_eq!(name_for_digest(&[0x00, 0xab, 0xff, 0x10]), "00abff10.png");
    assert_eq!(name_for_digest(&[]), ".png");
}

#[test]
fn default_name_of_empty_bytes() {
    assert_eq!(
        default_filename(&[]),
        "e3b0c44298fc1c149afbf4c8996fb92427ae41e4649b934ca495991b7852b855.png"
    );
}

#[test]
fn default_name_is_hex_of_sha256() {
    let bytes = b"ABC";
    let expected = format!("{}.png", hex::encode(sha2::Sha256::digest(bytes)));
    assert_eq!(default_filename(bytes), expected);
    assert_eq!(output_filename(None, bytes), expected);
}

#[test]
fn explicit_output_name_overrides_default() {
    assert_eq!(output_filename(Some("out.png".to_string()), b"ABC"), "out.png");
    assert_eq!(output_filename(Some(String::new()), b"ABC"), "");
}
