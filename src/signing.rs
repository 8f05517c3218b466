use vstd::prelude::*;

use base64::Engine;
use hmac::Mac;

verus! {

/// The MD5 digest of the UTF-8 encoding of a text.
pub uninterp spec fn md5_of(text: Seq<char>) -> Seq<u8>;

/// The standard, padded base64 encoding of some bytes.
pub uninterp spec fn base64_of(data: Seq<u8>) -> Seq<char>;

/// The HMAC-SHA1 tag of a message under a key, both UTF-8 encoded.
pub uninterp spec fn hmac_sha1_of(key: Seq<char>, message: Seq<char>) -> Seq<u8>;

/// An instant, in milliseconds since the Unix epoch, as an HTTP date in GMT
/// (`Mon, 02 Jan 2006 15:04:05 GMT`).
pub uninterp spec fn http_date_of(millis: i64) -> Seq<char>;

/// The last millisecond of the year 9999; every instant from the epoch up to it
/// has a calendar date.
pub const MAX_HTTP_DATE_MILLIS: i64 = 253_402_300_799_999;

/// Relies on md5::compute: the 16-byte MD5 digest of the bytes of `text`.
#[verifier::external_body]
fn md5_digest(text: &str) -> (r: Vec<u8>)
    ensures
        r@ == md5_of(text@),
        r@.len() == 16,
{
    md5::compute(text.as_bytes()).0.to_vec()
}

/// Relies on base64's `STANDARD.encode`: padded base64 with the standard alphabet.
#[verifier::external_body]
fn base64_encode(data: &[u8]) -> (r: String)
    ensures
        r@ == base64_of(data@),
{
    base64::engine::general_purpose::STANDARD.encode(data)
}

/// Relies on hmac's `Hmac<Sha1>`: `new_from_slice` accepts a key of any length
/// (it hashes long keys and pads short ones), then `update` and `finalize` give
/// the 20-byte tag.
#[verifier::external_body]
fn hmac_sha1(key: &str, message: &str) -> (r: Vec<u8>)
    ensures
        r@ == hmac_sha1_of(key@, message@),
        r@.len() == 20,
{
    let mut mac = <hmac::Hmac<sha1::Sha1> as Mac>::new_from_slice(key.as_bytes())
        .expect("HMAC accepts keys of any length");
    mac.update(message.as_bytes());
    mac.finalize().into_bytes().to_vec()
}

/// Relies on chrono's `DateTime::<Utc>::from_timestamp_millis`, which gives `None`
/// out of its range (which spans years up to about 262000), and
/// `format("%a, %d %b %Y %H:%M:%S GMT")`.
#[verifier::external_body]
fn http_date(millis: i64) -> (r: Option<String>)
    ensures
        0 <= millis <= MAX_HTTP_DATE_MILLIS ==> r is Some,
        r matches Some(d) ==> d@ == http_date_of(millis),
{
    match chrono::DateTime::<chrono::Utc>::from_timestamp_millis(millis) {
        Some(t) => Some(t.format("%a, %d %b %Y %H:%M:%S GMT").to_string()),
        None => None,
    }
}

/// The media type of every request body.
pub open spec fn content_type_text() -> Seq<char> {
    "application/json"@
}

/// The `Content-MD5` header: base64 of the MD5 digest of the body.
pub open spec fn content_md5_of(body: Seq<char>) -> Seq<char> {
    base64_of(md5_of(body))
}

/// The text that is signed.
pub open spec fn canonical_of(content_md5: Seq<char>, date: Seq<char>, path: Seq<char>) -> Seq<
    char,
> {
    "POST\n"@ + content_md5 + "\n"@ + content_type_text() + "\n"@ + date + "\n"@ + path
}

/// The request signature: base64 of the HMAC-SHA1 tag of the canonical text.
pub open spec fn signature_of(secret: Seq<char>, canonical: Seq<char>) -> Seq<char> {
    base64_of(hmac_sha1_of(secret, canonical))
}

/// The `Authorization` header.
pub open spec fn authorization_of(key_id: Seq<char>, signature: Seq<char>) -> Seq<char> {
    "API "@ + key_id + ":"@ + signature
}

/// The four headers that authenticate one request.
#[derive(Debug, Clone)]
pub struct SignedHeaders {
    pub content_md5: String,
    pub content_type: String,
    pub date: String,
    pub authorization: String,
}

impl SignedHeaders {
    /// The headers of a request with this body, path, date and credentials.
    pub open spec fn signs(
        self,
        key_id: Seq<char>,
        secret: Seq<char>,
        path: Seq<char>,
        body: Seq<char>,
        date: Seq<char>,
    ) -> bool {
        &&& self.content_md5@ == content_md5_of(body)
        &&& self.content_type@ == content_type_text()
        &&& self.date@ == date
        &&& self.authorization@ == authorization_of(
            key_id,
            signature_of(secret, canonical_of(content_md5_of(body), date, path)),
        )
    }
}

pub fn content_md5(body: &str) -> (r: String)
    ensures
        r@ == content_md5_of(body@),
{
    let digest = md5_digest(body);
    base64_encode(digest.as_slice())
}

pub fn canonical_string(content_md5: &str, date: &str, path: &str) -> (r: String)
    ensures
        r@ == canonical_of(content_md5@, date@, path@),
{
    let mut s = <String as StringExecFns>::from_str("POST\n");
    s.append(content_md5);
    s.append("\n");
    s.append("application/json");
    s.append("\n");
    s.append(date);
    s.append("\n");
    s.append(path);
    s
}

pub fn authorization(key_id: &str, signature: &str) -> (r: String)
    ensures
        r@ == authorization_of(key_id@, signature@),
{
    let mut s = <String as StringExecFns>::from_str("API ");
    s.append(key_id);
    s.append(":");
    s.append(signature);
    s
}

/// Signs a request whose date header is already rendered.
pub fn signed_headers(key_id: &str, secret: &str, path: &str, body: &str, date: String) -> (r:
    SignedHeaders)
    ensures
        r.signs(key_id@, secret@, path@, body@, date@),
{
    let md5 = content_md5(body);
    let canonical = canonical_string(md5.as_str(), date.as_str(), path);
    let tag = hmac_sha1(secret, canonical.as_str());
    let signature = base64_encode(tag.as_slice());
    let auth = authorization(key_id, signature.as_str());
    SignedHeaders {
        content_md5: md5,
        content_type: <String as StringExecFns>::from_str("application/json"),
        date,
        authorization: auth,
    }
}

/// Signs a request made at the given instant; succeeds from the epoch to the end
/// of the year 9999.
pub fn sign_request(key_id: &str, secret: &str, path: &str, body: &str, now_millis: i64) -> (r:
    Option<SignedHeaders>)
    ensures
        0 <= now_millis <= MAX_HTTP_DATE_MILLIS ==> r is Some,
        r matches Some(h) ==> h.signs(key_id@, secret@, path@, body@, http_date_of(now_millis)),
{
    match http_date(now_millis) {
        Some(date) => Some(signed_headers(key_id, secret, path, body, date)),
        None => None,
    }
}

} // verus!
