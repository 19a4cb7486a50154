pub mod boundary;
pub mod validator;

pub use boundary::WebpValidationResult;
pub use boundary::ffi_path_preflight;
pub use boundary::ffi_record_for_opened;
pub use validator::WebpInfo;
pub use validator::validate_webp_bytes;
pub use validator::validate_webp_outcome;
