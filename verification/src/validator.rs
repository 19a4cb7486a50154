//! Byte-level container validation.
//!
//! The container probe itself is an external collaborator: the decoder
//! checks the signature, walks the chunk headers and reports either the
//! image's structural metadata or a tagged error.  This module maps that
//! probe outcome onto the library's own result contract.

use vstd::prelude::*;
use vstd::string::*;

verus! {

/// Structural metadata reported for a well-formed image: pixel
/// dimensions, alpha-channel presence, the animation flag and the
/// declared frame count (the decoder reports 0 frames for static
/// images).
#[derive(Debug, Clone, Copy, PartialEq, Eq, Structural)]
pub struct WebpInfo {
    pub width: u32,
    pub height: u32,
    pub has_alpha: bool,
    pub is_animated: bool,
    pub num_frames: u32,
}

/// What the external probe decides for a given byte string: on success,
/// the metadata tuple (width, height, has_alpha, is_animated,
/// num_frames); on failure, the decoder's tagged error rendered as text.
/// The probe reads nothing but the bytes, so its outcome is a function
/// of them alone.
pub uninterp spec fn webp_probe(bytes: Seq<u8>) -> Result<(u32, u32, bool, bool, u32), Seq<char>>;

/// The metadata record built from a successful probe outcome.
pub open spec fn info_of_meta(m: (u32, u32, bool, bool, u32)) -> WebpInfo {
    WebpInfo {
        width: m.0,
        height: m.1,
        has_alpha: m.2,
        is_animated: m.3,
        num_frames: m.4,
    }
}

/// The diagnostic produced when the probe rejects the bytes.
pub open spec fn format_failure_message(err: Seq<char>) -> Seq<char> {
    "webp format validation failed: "@ + err
}

/// The diagnostic produced when the file could not be opened; `err` is
/// the underlying I/O error's description.
pub open spec fn open_failure_message(err: Seq<char>) -> Seq<char> {
    "failed to open file: "@ + err
}

/// Relies on `image_webp::WebPDecoder::new`, its metadata accessors
/// (`dimensions`, `has_alpha`, `is_animated`, `num_frames`) and the
/// derived `Debug` rendering of `image_webp::DecodingError`: the probe
/// reads only the given bytes, so both the accepted metadata and the
/// rendered error are functions of the bytes alone.
#[verifier::external_body]
fn probe_webp(bytes: &Vec<u8>) -> (r: Result<(u32, u32, bool, bool, u32), String>)
    ensures
        r is Ok <==> webp_probe(bytes@) is Ok,
        r matches Ok(m) ==> webp_probe(bytes@) matches Ok(pm) && m == pm,
        r matches Err(e) ==> webp_probe(bytes@) matches Err(pe) && e@ == pe,
{
    let cursor = std::io::Cursor::new(bytes.as_slice());
    match image_webp::WebPDecoder::new(cursor) {
        Ok(d) => {
            let (w, h) = d.dimensions();
            Ok((w, h, d.has_alpha(), d.is_animated(), d.num_frames()))
        }
        Err(e) => Err(format!("{:?}", e)),
    }
}

/// Validate a byte string as an image container.  Success carries the
/// probed metadata unchanged; failure carries the decoder's error,
/// rendered behind a fixed prefix so callers can match on it.
pub fn validate_webp_bytes(bytes: &Vec<u8>) -> (r: Result<WebpInfo, String>)
    ensures
        r is Ok <==> webp_probe(bytes@) is Ok,
        r matches Ok(info) ==> webp_probe(bytes@) matches Ok(m) && info == info_of_meta(m),
        r matches Err(e) ==> webp_probe(bytes@) matches Err(pe)
            && e@ == format_failure_message(pe),
{
    match probe_webp(bytes) {
        Ok((w, h, alpha, animated, frames)) => Ok(WebpInfo {
            width: w,
            height: h,
            has_alpha: alpha,
            is_animated: animated,
            num_frames: frames,
        }),
        Err(e) => {
            let mut msg = String::from_str("webp format validation failed: ");
            msg.append(e.as_str());
            Err(msg)
        },
    }
}

/// Validation of a file whose opening the caller has already attempted:
/// an open failure is reported behind the fixed open-failure prefix,
/// and opened bytes are validated as `validate_webp_bytes` does.
pub fn validate_webp_outcome(opened: Result<Vec<u8>, String>) -> (r: Result<WebpInfo, String>)
    ensures
        opened matches Err(io_err) ==> r matches Err(e) && e@ == open_failure_message(io_err@),
        opened matches Ok(bytes) ==> {
            &&& r is Ok <==> webp_probe(bytes@) is Ok
            &&& (r matches Ok(info) ==> webp_probe(bytes@) matches Ok(m) && info == info_of_meta(m))
            &&& (r matches Err(e) ==> webp_probe(bytes@) matches Err(pe)
                && e@ == format_failure_message(pe))
        },
{
    match opened {
        Ok(bytes) => validate_webp_bytes(&bytes),
        Err(io_err) => {
            let mut msg = String::from_str("failed to open file: ");
            msg.append(io_err.as_str());
            Err(msg)
        },
    }
}

/// Every probe-failure diagnostic starts with the fixed format-failure
/// prefix, and the decoder's own rendered error follows it verbatim.
pub proof fn lemma_failure_message_has_prefix(err: Seq<char>)
    ensures
        format_failure_message(err).len() >= "webp format validation failed: "@.len(),
        format_failure_message(err).subrange(
            0,
            "webp format validation failed: "@.len() as int,
        ) == "webp format validation failed: "@,
        format_failure_message(err).skip("webp format validation failed: "@.len() as int) == err,
{
    assert(format_failure_message(err).subrange(
        0,
        "webp format validation failed: "@.len() as int,
    ) =~= "webp format validation failed: "@);
    assert(format_failure_message(err).skip("webp format validation failed: "@.len() as int)
        =~= err);
}

/// Every open-failure diagnostic starts with the fixed open-failure
/// prefix, and the I/O error's description follows it verbatim.
pub proof fn lemma_open_failure_message_has_prefix(err: Seq<char>)
    ensures
        open_failure_message(err).len() >= "failed to open file: "@.len(),
        open_failure_message(err).subrange(0, "failed to open file: "@.len() as int)
            == "failed to open file: "@,
        open_failure_message(err).skip("failed to open file: "@.len() as int) == err,
{
    assert(open_failure_message(err).subrange(0, "failed to open file: "@.len() as int)
        =~= "failed to open file: "@);
    assert(open_failure_message(err).skip("failed to open file: "@.len() as int) =~= err);
}

/// The two diagnostic families are distinguishable: a probe-failure
/// message never equals an open-failure message, whatever the embedded
/// error texts are.
pub proof fn lemma_failure_messages_distinct(probe_err: Seq<char>, io_err: Seq<char>)
    ensures
        format_failure_message(probe_err) != open_failure_message(io_err),
{
    reveal_strlit("webp format validation failed: ");
    reveal_strlit("failed to open file: ");
    assert(format_failure_message(probe_err)[0] == 'w');
    assert(open_failure_message(io_err)[0] == 'f');
}

} // verus!
