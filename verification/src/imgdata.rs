//! Validated base64 image payloads.
//!
//! A raw upload arrives as base64 text. It is stripped of whitespace,
//! decoded (standard alphabet, with and without padding), sniffed for its
//! file type, and accepted only as PNG, JPEG or WebP; the result carries
//! the ready-to-serve data URL.

use vstd::prelude::*;
use vstd::string::StringExecFns;

use crate::errors::EngineError;

verus! {

/// What removing every whitespace character from the input leaves.
pub uninterp spec fn without_whitespace(s: Seq<char>) -> Seq<char>;

/// Relies on `str::replace` with `char::is_whitespace`: removes every
/// whitespace character, so the result depends on the characters alone and
/// is never longer than the input.
#[verifier::external_body]
fn strip_whitespace(data: &str) -> (r: String)
    ensures
        r@ == without_whitespace(data@),
        r@.len() <= data@.len(),
{
    data.replace(|c: char| c.is_whitespace(), "")
}

/// What base64 decoding with the standard alphabet and mandatory padding
/// returns for the given characters: the decoded bytes, or `None` when the
/// input is not valid padded base64.
pub uninterp spec fn base64_standard(s: Seq<char>) -> Option<Seq<u8>>;

/// What base64 decoding with the standard alphabet and no padding returns
/// for the given characters.
pub uninterp spec fn base64_standard_no_pad(s: Seq<char>) -> Option<Seq<u8>>;

#[verifier::external_type_specification]
#[verifier::external_body]
pub struct ExDecodeError(base64::DecodeError);

/// Relies on base64's `Engine::decode` with the `STANDARD` engine: the
/// result is a function of the input characters alone.
#[verifier::external_body]
fn decode_standard(data: &str) -> (r: Result<Vec<u8>, base64::DecodeError>)
    ensures
        r is Ok <==> base64_standard(data@) is Some,
        r matches Ok(v) ==> Some(v@) == base64_standard(data@),
{
    base64::Engine::decode(&base64::engine::general_purpose::STANDARD, data)
}

/// Relies on base64's `Engine::decode` with the `STANDARD_NO_PAD` engine:
/// the result is a function of the input characters alone.
#[verifier::external_body]
fn decode_standard_no_pad(data: &str) -> (r: Result<Vec<u8>, base64::DecodeError>)
    ensures
        r is Ok <==> base64_standard_no_pad(data@) is Some,
        r matches Ok(v) ==> Some(v@) == base64_standard_no_pad(data@),
{
    base64::Engine::decode(&base64::engine::general_purpose::STANDARD_NO_PAD, data)
}

/// What file-type sniffing reports for the given bytes: the MIME type of
/// the first matching known signature, or `None` when no signature
/// matches.
pub uninterp spec fn sniffed_mime(bytes: Seq<u8>) -> Option<Seq<char>>;

/// Relies on `infer::get`: the detected type is a function of the bytes
/// alone.
#[verifier::external_body]
fn sniff_mime(bytes: &[u8]) -> (r: Option<String>)
    ensures
        r is Some <==> sniffed_mime(bytes@) is Some,
        r matches Some(m) ==> Some(m@) == sniffed_mime(bytes@),
{
    infer::get(bytes).map(|t: infer::Type| t.mime_type().to_string())
}

/// The bytes the cleaned text decodes to: padded decoding first, then
/// unpadded as a fallback; `None` when both fail.
pub open spec fn decoded_bytes(cleaned: Seq<char>) -> Option<Seq<u8>> {
    if base64_standard(cleaned) is Some {
        base64_standard(cleaned)
    } else {
        base64_standard_no_pad(cleaned)
    }
}

/// Whether a sniffed MIME type is an accepted image type.
pub open spec fn spec_accepted_mime(m: Seq<char>) -> bool {
    ||| m == "image/png"@
    ||| m == "image/jpeg"@
    ||| m == "image/jpg"@
    ||| m == "image/webp"@
}

/// Exec twin of [`spec_accepted_mime`].
fn accepted_mime(m: &String) -> (r: bool)
    ensures
        r == spec_accepted_mime(m@),
{
    let png: String = "image/png".to_owned();
    let jpeg: String = "image/jpeg".to_owned();
    let jpg: String = "image/jpg".to_owned();
    let webp: String = "image/webp".to_owned();
    *m == png || *m == jpeg || *m == jpg || *m == webp
}

/// Whether the raw text is accepted as an image payload: after stripping
/// whitespace it must be non-empty, decode as base64, and sniff as an
/// accepted image type.
pub open spec fn spec_accepts_image(data: Seq<char>) -> bool {
    let cleaned = without_whitespace(data);
    &&& cleaned.len() > 0
    &&& decoded_bytes(cleaned) is Some
    &&& sniffed_mime(decoded_bytes(cleaned)->0) is Some
    &&& spec_accepted_mime(sniffed_mime(decoded_bytes(cleaned)->0)->0)
}

/// A validated base64 image payload, held as its data URL.
pub struct Base64Img(String);

impl View for Base64Img {
    type V = Seq<char>;

    closed spec fn view(&self) -> Seq<char> {
        self.0@
    }
}

impl Base64Img {
    /// Validates a raw base64 upload. Accepted exactly when the text,
    /// stripped of whitespace, is non-empty, decodes as standard base64
    /// (padded or unpadded), and its bytes sniff as PNG, JPEG or WebP. The
    /// accepted value is the `data:` URL of the cleaned payload.
    pub fn new(data: String) -> (r: Result<Base64Img, EngineError>)
        ensures
            r is Ok <==> spec_accepts_image(data@),
            data@.len() == 0 ==> r is Err,
            r matches Err(e) ==> e == EngineError::ValidationError,
            r matches Ok(img) ==> img@ == "data:"@ + sniffed_mime(
                decoded_bytes(without_whitespace(data@))->0,
            )->0 + ";base64,"@ + without_whitespace(data@),
    {
        let clean_data = strip_whitespace(data.as_str());
        if clean_data.as_str().unicode_len() == 0 {
            return Err(EngineError::ValidationError);
        }
        let bytes = match decode_standard(clean_data.as_str()) {
            Ok(bs) => bs,
            Err(_) => {
                match decode_standard_no_pad(clean_data.as_str()) {
                    Ok(bs) => bs,
                    Err(_) => {
                        return Err(EngineError::ValidationError);
                    },
                }
            },
        };
        let mime = match sniff_mime(bytes.as_slice()) {
            Some(m) => m,
            None => {
                return Err(EngineError::ValidationError);
            },
        };
        if !accepted_mime(&mime) {
            return Err(EngineError::ValidationError);
        }
        let url = String::from_str("data:").concat(mime.as_str()).concat(";base64,").concat(
            clean_data.as_str(),
        );
        Ok(Base64Img(url))
    }

    /// Hands the data URL out.
    pub fn into_inner(self) -> (r: String)
        ensures
            r@ == self@,
    {
        self.0
    }
}

} // verus!
