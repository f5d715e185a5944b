use vstd::prelude::*;
use vstd::string::StringExecFns;

verus! {

/// The base64 text (standard alphabet, padded) of a byte string.
pub uninterp spec fn base64_of(b: Seq<u8>) -> Seq<char>;

/// Relies on `base64::Engine::encode` with the `STANDARD` engine: the padded
/// base64 text of the bytes.
#[verifier::external_body]
pub(crate) fn standard_base64(bytes: &[u8]) -> (r: String)
    ensures
        r@ == base64_of(bytes@),
{
    base64::Engine::encode(&base64::engine::general_purpose::STANDARD, bytes)
}

/// The address at which the image service tells where the file of a handle lies.
pub open spec fn lookup_url_text(token: Seq<char>, file_id: Seq<char>) -> Seq<char> {
    "https://api.telegram.org/bot"@ + token + "/getFile?file_id="@ + file_id
}

/// The address from which the image service serves the bytes of a file.
pub open spec fn download_url_text(token: Seq<char>, file_path: Seq<char>) -> Seq<char> {
    "https://api.telegram.org/file/bot"@ + token + "/"@ + file_path
}

/// The address of the OCR service's annotation endpoint for an API key.
pub open spec fn annotate_url_text(api_key: Seq<char>) -> Seq<char> {
    "https://vision.googleapis.com/v1/images:annotate?key="@ + api_key
}

/// The metadata lookup address for an image handle.
pub fn file_lookup_url(token: &str, file_id: &str) -> (r: String)
    ensures
        r@ == lookup_url_text(token@, file_id@),
{
    let mut url = "https://api.telegram.org/bot".to_owned();
    url.append(token);
    url.append("/getFile?file_id=");
    url.append(file_id);
    url
}

/// The download address for a file path given by the metadata lookup.
pub fn file_download_url(token: &str, file_path: &str) -> (r: String)
    ensures
        r@ == download_url_text(token@, file_path@),
{
    let mut url = "https://api.telegram.org/file/bot".to_owned();
    url.append(token);
    url.append("/");
    url.append(file_path);
    url
}

/// The annotation endpoint of the OCR service for an API key.
pub fn annotate_url(api_key: &str) -> (r: String)
    ensures
        r@ == annotate_url_text(api_key@),
{
    let mut url = "https://vision.googleapis.com/v1/images:annotate?key=".to_owned();
    url.append(api_key);
    url
}

} // verus!
