//! The transport's data: where requests go and with which credential, and
//! the two-way envelope that every response body is sorted into.

use vstd::prelude::*;
use vstd::string::{StrSliceExecFns, StringExecFns};
use crate::json::{json_shape, shape_member, value_as_str, value_get, JsonShape};
use crate::text::{
    first_colon, lemma_squeeze_absorbs_slash, lemma_squeeze_keeps_plain_text, lemma_squeeze_leaves_no_run, squeeze,
    squeezed,
};

verus! {

/// The provider's production endpoint.
pub const COHERE_API_BASE_URL: &'static str = "https://api.cohere.ai";

/// Said of a body that fits neither the expected payload nor an error object.
pub const UNRECOGNISED_RESPONSE: &'static str = "response fits neither the expected payload nor an error object";

/// Where requests go, and the credential sent with each.
#[derive(Debug, Clone)]
pub struct Client {
    pub base_url: String,
    pub api_key: String,
}

/// How much of a base URL is its scheme: everything up to the first colon
/// and the two slashes that follow it directly, or nothing where the first
/// colon is not followed so.
pub open spec fn scheme_len(base_url: Seq<char>) -> int {
    let i = first_colon(base_url);
    if i + 2 < base_url.len() && base_url[i + 1] == '/' && base_url[i + 2] == '/' {
        i + 3
    } else {
        0
    }
}

/// The address of `path` under `base_url`: the scheme as it stands, then
/// what follows it joined to the path by a slash, with every run of slashes
/// shortened to a single one. So one slash parts base URL and path, however
/// many end the one and begin the other.
pub open spec fn endpoint(base_url: Seq<char>, path: Seq<char>) -> Seq<char> {
    let k = scheme_len(base_url);
    base_url.subrange(0, k) + squeeze(base_url.skip(k) + seq!['/'] + path)
}

/// The scheme of a base URL lies within it.
pub proof fn lemma_scheme_within(base_url: Seq<char>)
    ensures
        0 <= first_colon(base_url) <= base_url.len(),
        0 <= scheme_len(base_url) <= base_url.len(),
    decreases base_url.len(),
{
    if base_url.len() > 0 && base_url[0] != ':' {
        lemma_scheme_within(base_url.skip(1));
    }
}

/// An address keeps the scheme of its base URL, and behind the scheme it
/// holds no two slashes in a row.
pub proof fn lemma_endpoint_has_single_separators(base_url: Seq<char>, path: Seq<char>)
    ensures
        ({
            let k = scheme_len(base_url);
            let url = endpoint(base_url, path);
            &&& 0 <= k < url.len()
            &&& url.subrange(0, k) == base_url.subrange(0, k)
            &&& forall|i: int| k <= i && i + 1 < url.len() ==> !(#[trigger] url[i] == '/' && url[i + 1] == '/')
        }),
{
    lemma_scheme_within(base_url);
    let k = scheme_len(base_url);
    let rest = base_url.skip(k) + seq!['/'] + path;
    let url = endpoint(base_url, path);
    lemma_squeeze_leaves_no_run(rest);
    assert(rest.len() > 0);
    assert(url.subrange(0, k) =~= base_url.subrange(0, k));
    assert forall|i: int| k <= i && i + 1 < url.len() implies !(#[trigger] url[i] == '/' && url[i + 1] == '/') by {
        assert(url[i] == squeeze(rest)[i - k]);
        assert(url[i + 1] == squeeze(rest)[i - k + 1]);
    }
}

/// A slash at the head of the path changes nothing in the address.
pub proof fn lemma_endpoint_ignores_leading_slash(base_url: Seq<char>, path: Seq<char>)
    ensures
        endpoint(base_url, seq!['/'] + path) == endpoint(base_url, path),
{
    let rest = base_url.skip(scheme_len(base_url));
    lemma_squeeze_absorbs_slash(rest, path);
    assert(rest + seq!['/'] + (seq!['/'] + path) =~= rest + seq!['/', '/'] + path);
}

/// A slash at the end of the base URL changes nothing in the address, as
/// long as it is not the slash that completes the scheme.
pub proof fn lemma_endpoint_ignores_trailing_slash(base_url: Seq<char>, path: Seq<char>)
    requires
        scheme_len(base_url.push('/')) == scheme_len(base_url),
    ensures
        endpoint(base_url.push('/'), path) == endpoint(base_url, path),
{
    lemma_scheme_within(base_url);
    let k = scheme_len(base_url);
    let rest = base_url.skip(k);
    lemma_squeeze_absorbs_slash(rest, path);
    assert(base_url.push('/').skip(k) + seq!['/'] + path =~= rest + seq!['/', '/'] + path);
    assert(base_url.push('/').subrange(0, k) =~= base_url.subrange(0, k));
}

/// Where neither the base URL behind its scheme, nor the path, nor the joint
/// between them holds two slashes in a row, the address is the base URL, a
/// slash and the path.
pub proof fn lemma_endpoint_of_plain_parts(base_url: Seq<char>, path: Seq<char>)
    requires
        ({
            let rest = base_url.skip(scheme_len(base_url)) + seq!['/'] + path;
            forall|i: int| 0 <= i && i + 1 < rest.len() ==> !(#[trigger] rest[i] == '/' && rest[i + 1] == '/')
        }),
    ensures
        endpoint(base_url, path) == base_url + seq!['/'] + path,
{
    lemma_scheme_within(base_url);
    let k = scheme_len(base_url);
    let rest = base_url.skip(k) + seq!['/'] + path;
    lemma_squeeze_keeps_plain_text(rest);
    assert(base_url.subrange(0, k) + rest =~= base_url + seq!['/'] + path);
}

/// How much of a base URL is its scheme.
pub fn scheme_length(base_url: &str) -> (k: usize)
    ensures
        k == scheme_len(base_url@),
        k <= base_url@.len(),
{
    let n = base_url.unicode_len();
    let mut i: usize = 0;
    assert(base_url@.skip(0) =~= base_url@);
    while i < n
        invariant
            i <= n,
            n == base_url@.len(),
            first_colon(base_url@) == i + first_colon(base_url@.skip(i as int)),
        decreases n - i,
    {
        let ghost rest = base_url@.skip(i as int);
        assert(rest[0] == base_url@[i as int]);
        assert(rest.skip(1) =~= base_url@.skip(i + 1));
        if base_url.get_char(i) == ':' {
            if n - i > 2 && base_url.get_char(i + 1) == '/' && base_url.get_char(i + 2) == '/' {
                return i + 3;
            }
            return 0;
        }
        i += 1;
    }
    0
}

/// A character that may stand in the value of an HTTP header: the tab, and
/// everything from the space on but the delete character.
pub open spec fn header_char_ok(c: char) -> bool {
    (c as u32 >= 32 && c as u32 != 127) || c == '\t'
}

/// A text that may stand as the value of an HTTP header.
pub open spec fn header_text_ok(s: Seq<char>) -> bool {
    forall|i: int| 0 <= i < s.len() ==> header_char_ok(#[trigger] s[i])
}

/// A credential that can be sent: the `Authorization` header made of it may
/// stand as a header's value.
pub open spec fn credential_ok(api_key: Seq<char>) -> bool {
    header_text_ok("Bearer "@ + api_key)
}

/// The word "Bearer" and the space behind it are never in the way: a
/// credential can be sent just when its own characters may stand in a header.
pub proof fn lemma_credential_ok(api_key: Seq<char>)
    ensures
        credential_ok(api_key) <==> header_text_ok(api_key),
{
    reveal_strlit("Bearer ");
    let prefix = "Bearer "@;
    let whole = prefix + api_key;
    assert(prefix.len() == 7);
    if header_text_ok(api_key) {
        assert forall|i: int| 0 <= i < whole.len() implies header_char_ok(#[trigger] whole[i]) by {
            if i >= 7 {
                assert(whole[i] == api_key[i - 7]);
            } else {
                assert(whole[i] == prefix[i]);
            }
        }
    }
    if credential_ok(api_key) {
        assert forall|i: int| 0 <= i < api_key.len() implies header_char_ok(#[trigger] api_key[i]) by {
            assert(whole[i + 7] == api_key[i]);
        }
    }
}

/// Trusted: `HeaderValue::from_str` of the `http` crate, as `reqwest` hands
/// it on. It accepts a text whose bytes are each a tab, or at least 32 and
/// not 127; a character beyond ASCII is written in bytes of 128 and more, so
/// only the characters themselves need looking at.
#[verifier::external_body]
fn header_value_parses(text: &str) -> (r: bool)
    ensures
        r == header_text_ok(text@),
{
    reqwest::header::HeaderValue::from_str(text).is_ok()
}

impl Client {
    /// A client for the production endpoint.
    pub fn new(api_key: &str) -> (r: Client)
        requires
            credential_ok(api_key@),
        ensures
            r.base_url@ == COHERE_API_BASE_URL@,
            r.api_key@ == api_key@,
    {
        Client::from_url(api_key, COHERE_API_BASE_URL)
    }

    /// A client for another endpoint.
    pub fn from_url(api_key: &str, base_url: &str) -> (r: Client)
        requires
            credential_ok(api_key@),
        ensures
            r.base_url@ == base_url@,
            r.api_key@ == api_key@,
    {
        Client { base_url: base_url.to_owned(), api_key: api_key.to_owned() }
    }

    /// A client for another endpoint, if the credential can be sent.
    pub fn try_from_url(api_key: &str, base_url: &str) -> (r: Option<Client>)
        ensures
            r is Some <==> credential_ok(api_key@),
            r matches Some(c) ==> c.base_url@ == base_url@ && c.api_key@ == api_key@,
    {
        let mut header = "Bearer ".to_owned();
        header.append(api_key);
        if header_value_parses(header.as_str()) {
            Some(Client::from_url(api_key, base_url))
        } else {
            None
        }
    }

    /// Whether the client's credential can be sent.
    pub fn credential_encodable(&self) -> (r: bool)
        ensures
            r == credential_ok(self.api_key@),
    {
        header_value_parses(self.authorization().as_str())
    }

    /// A second client with the same endpoint and credential.
    pub fn duplicate(&self) -> (r: Client)
        ensures
            r == *self,
    {
        Client { base_url: self.base_url.clone(), api_key: self.api_key.clone() }
    }

    /// The value of the `Authorization` header: the word "Bearer", a space
    /// and the credential.
    pub fn authorization(&self) -> (r: String)
        ensures
            r@ == "Bearer "@ + self.api_key@,
    {
        let mut header = "Bearer ".to_owned();
        header.append(self.api_key.as_str());
        header
    }

    /// The address to which a request for `path` is posted.
    pub fn post_url(&self, path: &str) -> (r: String)
        ensures
            r@ == endpoint(self.base_url@, path@),
    {
        let base = self.base_url.as_str();
        let k = scheme_length(base);
        let mut rest = base.substring_char(k, base.unicode_len()).to_owned();
        rest.append("/");
        rest.append(path);
        proof {
            reveal_strlit("/");
            assert("/"@ =~= seq!['/']);
            assert(base@.subrange(k as int, base@.len() as int) =~= base@.skip(k as int));
        }
        let mut url = base.substring_char(0, k).to_owned();
        url.append(squeezed(rest.as_str()).as_str());
        url
    }
}

/// The provider's error object.
#[derive(Debug)]
pub struct ApiErrorResponse {
    pub message: String,
}

/// A response body, sorted: the expected payload, or the provider's error.
#[derive(Debug)]
pub enum ApiResponse<T> {
    Success(T),
    Failure(ApiErrorResponse),
}

/// What came of one request: the transport's failure, described in words, or
/// the sorted body, `None` where the body fitted neither shape.
pub type Outcome<T> = Result<Option<ApiResponse<T>>, String>;

/// The message of an error object: the text member `message` of an object.
pub open spec fn error_message(body: JsonShape) -> Option<Seq<char>> {
    match shape_member(body, "message"@) {
        Some(JsonShape::Text(m)) => Some(m),
        _ => None,
    }
}

impl ApiErrorResponse {
    /// Reads a body as the provider's error object.
    pub fn from_value(body: &serde_json::Value) -> (r: Option<ApiErrorResponse>)
        ensures
            match r {
                Some(e) => error_message(json_shape(*body)) == Some(e.message@),
                None => error_message(json_shape(*body)) is None,
            },
    {
        match value_get(body, "message") {
            Some(m) => match value_as_str(m) {
                Some(text) => Some(ApiErrorResponse { message: text.to_owned() }),
                None => None,
            },
            None => None,
        }
    }
}

/// Sorts a response body. `payload` is the body read as the expected
/// payload, if it fits; only where it does not is the body read as an error
/// object. A body that fits neither is sorted as `None`, never as an error
/// that the provider reported.
pub fn classify<T>(payload: Option<T>, body: &serde_json::Value) -> (r: Option<ApiResponse<T>>)
    ensures
        payload matches Some(p) ==> r == Some(ApiResponse::Success(p)),
        payload is None ==> match r {
            Some(ApiResponse::Failure(e)) => error_message(json_shape(*body)) == Some(e.message@),
            Some(ApiResponse::Success(_)) => false,
            None => error_message(json_shape(*body)) is None,
        },
{
    match payload {
        Some(p) => Some(ApiResponse::Success(p)),
        None => match ApiErrorResponse::from_value(body) {
            Some(e) => Some(ApiResponse::Failure(e)),
            None => None,
        },
    }
}

} // verus!
