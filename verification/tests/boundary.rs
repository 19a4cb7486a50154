use webp_validator::WebpValidationResult;
use webp_validator::ffi_path_preflight;
use webp_validator::ffi_record_for_opened;
use webp_validator::validate_webp_bytes;

/// The record invariant the boundary promises: valid exactly when no
/// error message is carried.
fn assert_record_well_formed(record: &WebpValidationResult) {
    assert_eq!(
        record.is_valid,
        record.error_message.is_none(),
        "a record must be valid exactly when it carries no error message"
    );
}

fn static_lossless_bytes() -> Vec<u8> {
    let mut bytes: Vec<u8> = Vec::new();
    bytes.extend_from_slice(b"RIFF");
    bytes.extend_from_slice(&18u32.to_le_bytes());
    bytes.extend_from_slice(b"WEBP");
    bytes.extend_from_slice(b"VP8L");
    bytes.extend_from_slice(&5u32.to_le_bytes());
    bytes.push(0x2f);
    bytes.extend_from_slice(&0u32.to_le_bytes());
    bytes.push(0);
    bytes
}

#[test]
fn null_path_gives_fixed_message() {
    let result = ffi_path_preflight(None);
    let record = result.err().expect("a missing path must be rejected");
    assert!(!record.is_valid);
    assert_eq!(record.error_message.as_deref(), Some("path is null"));
}

#[test]
fn invalid_utf8_path_gives_fixed_message() {
    let result = ffi_path_preflight(Some(vec![0xff, 0xfe, 0x41]));
    let record = result.err().expect("invalid utf-8 must be rejected");
    assert!(!record.is_valid);
    assert_eq!(record.error_message.as_deref(), Some("invalid utf-8 in path"));
    assert_record_well_formed(&record);
}

#[test]
fn valid_utf8_path_is_decoded() {
    let result = ffi_path_preflight(Some(b"images/static.webp".to_vec()));
    assert_eq!(result.ok().as_deref(), Some("images/static.webp"));
}

#[test]
fn success_record_mirrors_metadata() {
    let bytes = static_lossless_bytes();
    let info = validate_webp_bytes(&bytes).unwrap();
    let record = ffi_record_for_opened(Ok(bytes));
    assert!(record.is_valid);
    assert_eq!(record.width, info.width);
    assert_eq!(record.height, info.height);
    assert_eq!(record.has_alpha, info.has_alpha);
    assert_eq!(record.is_animated, info.is_animated);
    assert_eq!(record.num_frames, info.num_frames);
    assert!(record.error_message.is_none());
    assert_record_well_formed(&record);
}

#[test]
fn failure_record_zeroes_metadata() {
    let record = ffi_record_for_opened(Ok(b"NOT A WEBP FILE!".to_vec()));
    assert!(!record.is_valid);
    assert_eq!(record.width, 0);
    assert_eq!(record.height, 0);
    assert!(!record.has_alpha);
    assert!(!record.is_animated);
    assert_eq!(record.num_frames, 0);
    let message = record.error_message.clone().expect("a failure carries a message");
    assert!(message.contains("webp format validation failed"));
    assert_record_well_formed(&record);
}

#[test]
fn open_failure_record_is_prefixed() {
    let record = ffi_record_for_opened(Err(String::from("permission denied")));
    assert!(!record.is_valid);
    assert_eq!(
        record.error_message.as_deref(),
        Some("failed to open file: permission denied")
    );
    assert_record_well_formed(&record);
}
