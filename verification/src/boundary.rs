//! The foreign-boundary record and the decisions behind it.
//!
//! A foreign caller hands in an untrusted path and receives a
//! fixed-layout record.  The unsafe pointer traffic itself lives
//! outside the library; what stands here is everything the boundary
//! decides: the null-path and encoding checks, the mapping of a
//! validation outcome into the record, and the record's invariant that
//! it is valid exactly when it carries no error message.

use vstd::prelude::*;
use vstd::string::*;

use crate::validator::WebpInfo;
use crate::validator::info_of_meta;
use crate::validator::format_failure_message;
use crate::validator::open_failure_message;
use crate::validator::webp_probe;
use crate::validator::validate_webp_outcome;

verus! {

/// Whether a byte string is valid UTF-8, and the characters it decodes
/// to.  Decoding reads nothing but the bytes, so its outcome is a
/// function of them alone.
pub uninterp spec fn utf8_decode(bytes: Seq<u8>) -> Option<Seq<char>>;

/// Relies on `String::from_utf8`: it returns the decoded string exactly
/// when the bytes are valid UTF-8.
#[verifier::external_body]
fn decode_utf8(bytes: Vec<u8>) -> (r: Option<String>)
    ensures
        r is Some <==> utf8_decode(bytes@) is Some,
        r matches Some(s) ==> utf8_decode(bytes@) matches Some(cs) && s@ == cs,
{
    String::from_utf8(bytes).ok()
}

/// The validation result in the shape the foreign boundary reports it:
/// a validity flag, the metadata (zeroed on failure) and an optional
/// diagnostic.  A failure record owns its message; the boundary layer
/// outside the library turns it into a heap-allocated C string whose
/// release is the foreign caller's obligation.
pub struct WebpValidationResult {
    pub is_valid: bool,
    pub width: u32,
    pub height: u32,
    pub has_alpha: bool,
    pub is_animated: bool,
    pub num_frames: u32,
    pub error_message: Option<String>,
}

impl WebpValidationResult {
    /// The record's invariant: it reports success exactly when it
    /// carries no error message — never both, never neither.
    pub open spec fn well_formed(self) -> bool {
        self.is_valid <==> self.error_message is None
    }

    /// A success record: the metadata mirrored, no error message.
    pub open spec fn is_success_for(self, info: WebpInfo) -> bool {
        &&& self.is_valid
        &&& self.width == info.width
        &&& self.height == info.height
        &&& self.has_alpha == info.has_alpha
        &&& self.is_animated == info.is_animated
        &&& self.num_frames == info.num_frames
        &&& self.error_message is None
    }

    /// A failure record: every metadata field zero or false, and the
    /// given diagnostic carried as the error message.
    pub open spec fn is_failure_with(self, msg: Seq<char>) -> bool {
        &&& !self.is_valid
        &&& self.width == 0
        &&& self.height == 0
        &&& !self.has_alpha
        &&& !self.is_animated
        &&& self.num_frames == 0
        &&& self.error_message matches Some(m) && m@ == msg
    }

    /// Build the success record for probed metadata.
    pub fn success(info: &WebpInfo) -> (r: Self)
        ensures
            r.is_success_for(*info),
            r.well_formed(),
    {
        WebpValidationResult {
            is_valid: true,
            width: info.width,
            height: info.height,
            has_alpha: info.has_alpha,
            is_animated: info.is_animated,
            num_frames: info.num_frames,
            error_message: None,
        }
    }

    /// Build the failure record carrying the given diagnostic.
    pub fn failure(msg: String) -> (r: Self)
        ensures
            r.is_failure_with(msg@),
            r.well_formed(),
    {
        WebpValidationResult {
            is_valid: false,
            width: 0,
            height: 0,
            has_alpha: false,
            is_animated: false,
            num_frames: 0,
            error_message: Some(msg),
        }
    }

    /// Map a validation outcome into the boundary record.
    pub fn from_outcome(outcome: Result<WebpInfo, String>) -> (r: Self)
        ensures
            r.well_formed(),
            outcome matches Ok(info) ==> r.is_success_for(info),
            outcome matches Err(msg) ==> r.is_failure_with(msg@),
    {
        match outcome {
            Ok(info) => Self::success(&info),
            Err(msg) => Self::failure(msg),
        }
    }
}

/// A success record is well formed.
pub proof fn lemma_success_well_formed(r: WebpValidationResult, info: WebpInfo)
    requires
        r.is_success_for(info),
    ensures
        r.well_formed(),
{
}

/// A failure record is well formed.
pub proof fn lemma_failure_well_formed(r: WebpValidationResult, msg: Seq<char>)
    requires
        r.is_failure_with(msg),
    ensures
        r.well_formed(),
{
}

/// The boundary's defensive checks, made before any file access: a
/// missing path (the foreign caller handed a null pointer, so no bytes
/// could be read) is rejected with the fixed null-path diagnostic, path
/// bytes that are not valid UTF-8 with the fixed encoding diagnostic;
/// otherwise the decoded path is handed back for the file access.
pub fn ffi_path_preflight(path: Option<Vec<u8>>) -> (r: Result<String, WebpValidationResult>)
    ensures
        path is None ==> (r matches Err(rec) && rec.is_failure_with("path is null"@)),
        path matches Some(b) ==> {
            &&& utf8_decode(b@) is None ==> (r matches Err(rec)
                && rec.is_failure_with("invalid utf-8 in path"@))
            &&& utf8_decode(b@) matches Some(cs) ==> r matches Ok(s) && s@ == cs
        },
        r matches Err(rec) ==> rec.well_formed() && !rec.is_valid,
{
    match path {
        None => Err(WebpValidationResult::failure(String::from_str("path is null"))),
        Some(bytes) => match decode_utf8(bytes) {
            Some(s) => Ok(s),
            None => Err(WebpValidationResult::failure(String::from_str(
                "invalid utf-8 in path",
            ))),
        },
    }
}

/// The boundary record for a path that passed the preflight checks:
/// `opened` is the caller's attempt to read the file (the description
/// of the I/O error if opening failed, the file's bytes otherwise), and
/// the record mirrors the validation outcome for it.
pub fn ffi_record_for_opened(opened: Result<Vec<u8>, String>) -> (r: WebpValidationResult)
    ensures
        r.well_formed(),
        opened matches Err(io_err) ==> r.is_failure_with(open_failure_message(io_err@)),
        opened matches Ok(bytes) ==> {
            &&& (webp_probe(bytes@) matches Ok(m) ==> r.is_success_for(info_of_meta(m)))
            &&& (webp_probe(bytes@) matches Err(pe)
                ==> r.is_failure_with(format_failure_message(pe)))
        },
{
    WebpValidationResult::from_outcome(validate_webp_outcome(opened))
}

} // verus!
