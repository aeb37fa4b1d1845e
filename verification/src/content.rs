use vstd::prelude::*;

verus! {

/// The base64 text of a byte sequence under the standard, padded alphabet, as
/// `base64::encode` computes it: the shape of an asset's ETag.
pub uninterp spec fn base64_of(bytes: Seq<u8>) -> Seq<char>;

/// Relies on `base64::encode`: the standard-alphabet, padded base64 encoding
/// of the input, a function of the input bytes alone.
#[verifier::external_body]
pub(crate) fn base64_encode(bytes: &Vec<u8>) -> (r: String)
    ensures
        r@ == base64_of(bytes@),
{
    base64::encode(bytes)
}

/// The MIME type that `mime_guess` associates with a path's extension, with
/// `application/octet-stream` where it knows none.
pub uninterp spec fn mime_for_path(path: Seq<char>) -> Seq<char>;

/// Relies on `mime_guess::from_path` and `MimeGuess::first_or_octet_stream`:
/// a case-insensitive lookup of the path's extension in a fixed table, with no
/// disk access, so a function of the path alone.
#[verifier::external_body]
pub(crate) fn guess_mime(path: &str) -> (r: String)
    ensures
        r@ == mime_for_path(path@),
{
    let mime = mime_guess::from_path(path).first_or_octet_stream();
    mime.as_ref().to_owned()
}

} // verus!
