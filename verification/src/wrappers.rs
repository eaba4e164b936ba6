//! Calls into `sha2`, `serde_json`, `url` and the parts of `std` that have no
//! specification of their own. Each item states what its contract assumes of
//! the code it calls; nothing here is proved.
use sha2::Digest;
use vstd::prelude::*;
use vstd::utf8::*;

verus! {

/// The SHA-256 digest of `data`, as `sha2::Sha256` computes it.
pub uninterp spec fn sha256(data: Seq<u8>) -> Seq<u8>;

/// What `serde_json::from_slice::<String>` gives for `data`: the decoded
/// JSON string, or `None` where the bytes are not a JSON string.
pub uninterp spec fn json_string(data: Seq<u8>) -> Option<Seq<char>>;

/// What `serde_json::from_slice::<i64>` gives for `data`: the JSON number,
/// or `None` where the bytes are not a JSON integer that fits an `i64`.
pub uninterp spec fn json_i64(data: Seq<u8>) -> Option<i64>;

/// What `String::from_utf8_lossy` gives for `data`.
pub uninterp spec fn lossy_utf8(data: Seq<u8>) -> Seq<char>;

/// How `Debug` writes a string slice: quoted, with escapes.
pub uninterp spec fn str_debug(s: Seq<char>) -> Seq<char>;

/// Whether `url::Url::parse` accepts the text.
pub uninterp spec fn url_parses(text: Seq<char>) -> bool;

/// Whether the URL that `url::Url::parse` makes of the text has a host
/// (`url::Url::has_host`).
pub uninterp spec fn url_has_host(text: Seq<char>) -> bool;

/// The view of an optional `String`.
pub open spec fn opt_string_view(o: Option<String>) -> Option<Seq<char>> {
    match o {
        Some(s) => Some(s@),
        None => None,
    }
}

/// `sha2::Sha256::digest`: the digest of `data`, which is 32 bytes long
/// (`Sha256`'s output size is `U32`).
#[verifier::external_body]
pub fn sha256_digest(data: &[u8]) -> (r: Vec<u8>)
    ensures
        r@ == sha256(data@),
        r@.len() == 32,
{
    sha2::Sha256::digest(data).to_vec()
}

/// `serde_json::from_slice::<String>`, with the error turned into `None`.
#[verifier::external_body]
pub fn parse_json_string(data: &[u8]) -> (r: Option<String>)
    ensures
        opt_string_view(r) == json_string(data@),
{
    serde_json::from_slice::<String>(data).ok()
}

/// `serde_json::from_slice::<i64>`, with the error turned into `None`.
#[verifier::external_body]
pub fn parse_json_i64(data: &[u8]) -> (r: Option<i64>)
    ensures
        r == json_i64(data@),
{
    serde_json::from_slice::<i64>(data).ok()
}

/// `String::from_utf8_lossy`. Its documentation says that valid UTF-8 is
/// taken as it is; elsewhere invalid sequences become U+FFFD, which is not
/// stated here.
#[verifier::external_body]
pub fn utf8_lossy(data: &[u8]) -> (r: String)
    ensures
        r@ == lossy_utf8(data@),
        valid_utf8(data@) ==> r@ == decode_utf8(data@),
{
    String::from_utf8_lossy(data).into_owned()
}

/// `Debug` for `str` (what `format!("{:?}", s)` writes). The escaping rules
/// are not stated.
#[verifier::external_body]
pub fn debug_str(s: &str) -> (r: String)
    ensures
        r@ == str_debug(s@),
{
    format!("{:?}", s)
}

/// `std::path::Path::is_file`. The answer depends on the file system at the
/// moment of the call, so nothing is stated of it.
#[verifier::external_body]
pub fn path_is_file(path: &str) -> bool {
    std::path::Path::new(path).is_file()
}

#[verifier::external_type_specification]
#[verifier::external_body]
pub struct ExUrl(url::Url);

/// A URL together with the text it was parsed from. Only [`parse_url`]
/// makes one, so `url` is always what `url::Url::parse` made of `text`.
#[derive(Debug)]
pub struct ParsedUrl {
    url: url::Url,
    text: String,
}

impl View for ParsedUrl {
    type V = Seq<char>;

    closed spec fn view(&self) -> Seq<char> {
        self.text@
    }
}

impl ParsedUrl {
    /// The URL held, the one `url::Url::parse` made of the text.
    pub closed spec fn url_value(&self) -> url::Url {
        self.url
    }

    /// The parsed URL.
    pub fn into_url(self) -> (r: url::Url)
        ensures
            r == self.url_value(),
    {
        self.url
    }
}

/// `url::Url::parse`, keeping the input text beside the result; the error
/// becomes `None`.
#[verifier::external_body]
pub fn parse_url(text: &str) -> (r: Option<ParsedUrl>)
    ensures
        r is Some <==> url_parses(text@),
        r matches Some(u) ==> u@ == text@,
{
    match url::Url::parse(text) {
        Ok(url) => Some(ParsedUrl { url, text: text.to_string() }),
        Err(_) => None,
    }
}

/// `url::Url::has_host` on a URL parsed by [`parse_url`].
#[verifier::external_body]
pub fn has_host(u: &ParsedUrl) -> (r: bool)
    ensures
        r == url_has_host(u@),
{
    u.url.has_host()
}

} // verus!
