//! HTTP: the request a Roc record describes, checked against hyper's
//! request builder, and the results handed back. Building hyper's own
//! request from the checked parts and sending it stay with the caller.
use vstd::prelude::*;
use crate::text::{spec_eq_ignore_ascii_case, eq_ignore_ascii_case};

verus! {

#[verifier::external_type_specification]
#[verifier::external_body]
pub struct ExHttpMethod(hyper::Method);

/// A request ready to be sent: the method's name, the URI, every header in
/// order (the default content type included) and the body.
#[derive(Debug, Clone, PartialEq, Eq)]
pub struct HttpRequestParts {
    pub method: Vec<u8>,
    pub uri: String,
    pub headers: Vec<(String, String)>,
    pub body: Vec<u8>,
}

/// A response that arrived: its body, headers in order, and status.
#[derive(Debug, Clone, PartialEq, Eq)]
pub struct HttpResponse {
    pub body: Vec<u8>,
    pub headers: Vec<(String, String)>,
    pub status: u16,
}

/// Why no response arrived.
#[derive(Debug, Clone, PartialEq, Eq)]
pub enum HttpTransportErr {
    BadBody,
    NetworkError,
    Other(Vec<u8>),
    Timeout,
}

pub type HttpResult = Result<HttpResponse, HttpTransportErr>;

pub fn http_ok(response: HttpResponse) -> (r: HttpResult)
    ensures
        r == Ok::<HttpResponse, HttpTransportErr>(response),
{
    Ok(response)
}

pub fn http_err(error: HttpTransportErr) -> (r: HttpResult)
    ensures
        r == Err::<HttpResponse, HttpTransportErr>(error),
{
    Err(error)
}

pub fn http_err_timeout() -> (r: HttpTransportErr)
    ensures
        r == HttpTransportErr::Timeout,
{
    HttpTransportErr::Timeout
}

pub fn http_err_network_error() -> (r: HttpTransportErr)
    ensures
        r == HttpTransportErr::NetworkError,
{
    HttpTransportErr::NetworkError
}

pub fn http_err_bad_body() -> (r: HttpTransportErr)
    ensures
        r == HttpTransportErr::BadBody,
{
    HttpTransportErr::BadBody
}

/// Any other transport failure, its message carried as UTF-8 bytes.
pub fn http_err_other(message: &str) -> (r: HttpTransportErr)
    ensures
        r matches HttpTransportErr::Other(bytes) && bytes@ == vstd::utf8::encode_utf8(message@),
{
    HttpTransportErr::Other(message.as_bytes_vec())
}

/// A byte HTTP allows in a method name (RFC 9110 `tchar`).
pub open spec fn spec_is_tchar(b: u8) -> bool {
    ||| (48u8 <= b && b <= 57u8)
    ||| (65u8 <= b && b <= 90u8)
    ||| (97u8 <= b && b <= 122u8)
    ||| b == 33u8 || b == 35u8 || b == 36u8 || b == 37u8 || b == 38u8 || b == 39u8
    ||| b == 42u8 || b == 43u8 || b == 45u8 || b == 46u8 || b == 94u8 || b == 95u8
    ||| b == 96u8 || b == 124u8 || b == 126u8
}

/// A method name hyper accepts: one or more `tchar`s.
pub open spec fn spec_is_method_token(src: Seq<u8>) -> bool {
    src.len() > 0 && forall|i: int| 0 <= i < src.len() ==> spec_is_tchar(#[trigger] src[i])
}

/// The method `http::Method::from_bytes` makes of a valid name.
pub uninterp spec fn method_named(name: Seq<u8>) -> hyper::Method;

/// `http::Method::from_bytes` (re-exported by hyper as `hyper::Method`).
///
/// The contract claims what its source shows: a name is accepted exactly
/// when it is non-empty and every byte is an RFC 9110 `tchar`, and the
/// method made depends on the name alone (named `method_named`).
#[verifier::external_body]
fn method_from_bytes(src: &[u8]) -> (r: Option<hyper::Method>)
    ensures
        r is Some <==> spec_is_method_token(src@),
        r is Some ==> r == Some(method_named(src@)),
{
    hyper::Method::from_bytes(src).ok()
}

/// The name of the method a Roc method tag stands for: tags 0 to 9 in
/// the order of `InternalHttp.roc`, tag 2 being an extension method whose
/// name is given.
pub open spec fn spec_method_name(method: u8, method_ext: Seq<char>) -> Option<Seq<u8>> {
    if method == 0 {
        Some(seq![67u8, 79u8, 78u8, 78u8, 69u8, 67u8, 84u8])
    } else if method == 1 {
        Some(seq![68u8, 69u8, 76u8, 69u8, 84u8, 69u8])
    } else if method == 2 {
        Some(vstd::utf8::encode_utf8(method_ext))
    } else if method == 3 {
        Some(seq![71u8, 69u8, 84u8])
    } else if method == 4 {
        Some(seq![72u8, 69u8, 65u8, 68u8])
    } else if method == 5 {
        Some(seq![79u8, 80u8, 84u8, 73u8, 79u8, 78u8, 83u8])
    } else if method == 6 {
        Some(seq![80u8, 65u8, 84u8, 67u8, 72u8])
    } else if method == 7 {
        Some(seq![80u8, 79u8, 83u8, 84u8])
    } else if method == 8 {
        Some(seq![80u8, 85u8, 84u8])
    } else if method == 9 {
        Some(seq![84u8, 82u8, 65u8, 67u8, 69u8])
    } else {
        None
    }
}

/// Law: each standard Roc method tag stands for its fixed HTTP method
/// name, the extension tag for the given name, and no other tag for any;
/// the nine standard names are pairwise distinct, so no tag is sent as
/// another tag's method.
pub proof fn lemma_method_tags(ext: Seq<char>)
    ensures
        spec_method_name(0, ext) == Some(seq![67u8, 79u8, 78u8, 78u8, 69u8, 67u8, 84u8]),
        spec_method_name(1, ext) == Some(seq![68u8, 69u8, 76u8, 69u8, 84u8, 69u8]),
        spec_method_name(2, ext) == Some(vstd::utf8::encode_utf8(ext)),
        spec_method_name(3, ext) == Some(seq![71u8, 69u8, 84u8]),
        spec_method_name(4, ext) == Some(seq![72u8, 69u8, 65u8, 68u8]),
        spec_method_name(5, ext) == Some(seq![79u8, 80u8, 84u8, 73u8, 79u8, 78u8, 83u8]),
        spec_method_name(6, ext) == Some(seq![80u8, 65u8, 84u8, 67u8, 72u8]),
        spec_method_name(7, ext) == Some(seq![80u8, 79u8, 83u8, 84u8]),
        spec_method_name(8, ext) == Some(seq![80u8, 85u8, 84u8]),
        spec_method_name(9, ext) == Some(seq![84u8, 82u8, 65u8, 67u8, 69u8]),
        forall|t: u8| t > 9 ==> #[trigger] spec_method_name(t, ext) is None,
        forall|a: u8, b: u8|
            a <= 9 && b <= 9 && a != 2 && b != 2 && a != b ==> #[trigger] spec_method_name(a, ext)
                != #[trigger] spec_method_name(b, ext),
{
    assert forall|a: u8, b: u8|
        a <= 9 && b <= 9 && a != 2 && b != 2 && a != b implies #[trigger] spec_method_name(a, ext)
            != #[trigger] spec_method_name(b, ext) by {
        let x = spec_method_name(a, ext)->Some_0;
        let y = spec_method_name(b, ext)->Some_0;
        if x.len() == y.len() {
            assert(x[0] != y[0] || x[1] != y[1]);
        }
    }
}

pub fn method_name(method: u8, method_ext: &str) -> (r: Option<Vec<u8>>)
    ensures
        match r {
            Some(v) => spec_method_name(method, method_ext@) == Some(v@),
            None => spec_method_name(method, method_ext@) is None,
        },
{
    if method == 0 {
        Some(vec![67u8, 79u8, 78u8, 78u8, 69u8, 67u8, 84u8])
    } else if method == 1 {
        Some(vec![68u8, 69u8, 76u8, 69u8, 84u8, 69u8])
    } else if method == 2 {
        Some(method_ext.as_bytes_vec())
    } else if method == 3 {
        Some(vec![71u8, 69u8, 84u8])
    } else if method == 4 {
        Some(vec![72u8, 69u8, 65u8, 68u8])
    } else if method == 5 {
        Some(vec![79u8, 80u8, 84u8, 73u8, 79u8, 78u8, 83u8])
    } else if method == 6 {
        Some(vec![80u8, 65u8, 84u8, 67u8, 72u8])
    } else if method == 7 {
        Some(vec![80u8, 79u8, 83u8, 84u8])
    } else if method == 8 {
        Some(vec![80u8, 85u8, 84u8])
    } else if method == 9 {
        Some(vec![84u8, 82u8, 65u8, 67u8, 69u8])
    } else {
        None
    }
}

/// The hyper method for a Roc method tag: the nine standard methods
/// always; an extension method when its name is a valid token; nothing
/// for an unknown tag.
pub fn as_hyper_method(method: u8, method_ext: &str) -> (r: Option<hyper::Method>)
    ensures
        r is Some <==> (method <= 9 && (method == 2 ==> spec_is_method_token(
            vstd::utf8::encode_utf8(method_ext@),
        ))),
        r is Some ==> r == Some(method_named(spec_method_name(method, method_ext@)->Some_0)),
{
    match method_name(method, method_ext) {
        Some(name) => {
            proof {
                if method != 2 {
                    assert(spec_is_method_token(name@));
                }
            }
            method_from_bytes(name.as_slice())
        },
        None => None,
    }
}

/// The name of the header whose absence gets a default.
pub open spec fn content_type_name() -> Seq<char> {
    "Content-Type"@
}

/// Whether a header list names a content type (in any ASCII case).
pub open spec fn spec_has_content_type(headers: Seq<(String, String)>) -> bool {
    exists|i: int| 0 <= i < headers.len() && spec_eq_ignore_ascii_case(#[trigger] headers[i].0@, content_type_name())
}

/// A header list by the text of each name and value.
pub open spec fn spec_header_views(headers: Seq<(String, String)>) -> Seq<(Seq<char>, Seq<char>)> {
    headers.map_values(|h: (String, String)| (h.0@, h.1@))
}

/// The headers a request is sent with, by their text: the caller's, in
/// order, followed by `Content-Type: text/plain` when none of them names a
/// content type.
pub open spec fn spec_request_header_views(headers: Seq<(String, String)>) -> Seq<(Seq<char>, Seq<char>)> {
    if spec_has_content_type(headers) {
        spec_header_views(headers)
    } else {
        spec_header_views(headers).push((content_type_name(), "text/plain"@))
    }
}

/// The headers a request is sent with: the caller's, in order, followed
/// by `Content-Type: text/plain` when none of them names a content type.
pub fn request_headers(headers: &Vec<(String, String)>) -> (r: Vec<(String, String)>)
    ensures
        spec_has_content_type(headers@) ==> r@ == headers@,
        !spec_has_content_type(headers@) ==> r@.len() == headers@.len() + 1 && r@.take(headers@.len() as int)
            == headers@ && r@.last().0@ == content_type_name() && r@.last().1@ == "text/plain"@,
        spec_header_views(r@) == spec_request_header_views(headers@),
{
    let mut out: Vec<(String, String)> = Vec::new();
    let mut has_content_type = false;
    let mut i: usize = 0;
    while i < headers.len()
        invariant
            i <= headers@.len(),
            out@ == headers@.take(i as int),
            has_content_type == exists|j: int| 0 <= j < i && spec_eq_ignore_ascii_case(
                #[trigger] headers@[j].0@,
                content_type_name(),
            ),
        decreases headers@.len() - i,
    {
        let name = headers[i].0.clone();
        let value = headers[i].1.clone();
        let matches_name = eq_ignore_ascii_case(name.as_str(), "Content-Type");
        if matches_name {
            has_content_type = true;
        }
        out.push((name, value));
        proof {
            assert(out@ =~= headers@.take(i + 1));
            if matches_name {
                assert(spec_eq_ignore_ascii_case(headers@[i as int].0@, content_type_name()));
            }
        }
        i = i + 1;
    }
    proof {
        assert(headers@.take(i as int) =~= headers@);
    }
    if !has_content_type {
        out.push((String::from_str("Content-Type"), String::from_str("text/plain")));
        proof {
            assert(out@.take(headers@.len() as int) =~= headers@);
            assert(spec_header_views(out@) =~= spec_header_views(headers@).push(
                (content_type_name(), "text/plain"@),
            )) by {
                reveal_strlit("Content-Type");
                reveal_strlit("text/plain");
                assert forall|j: int| 0 <= j < headers@.len() implies #[trigger] out@[j] == headers@[j] by {
                    assert(out@.take(headers@.len() as int)[j] == out@[j]);
                }
            }
        }
    }
    out
}

/// Whether hyper's request builder refuses a method name, a URI and
/// headers in order: the text of the first error it meets, or `None`.
pub uninterp spec fn http_request_error(
    method: Seq<u8>,
    uri: Seq<char>,
    headers: Seq<(Seq<char>, Seq<char>)>,
) -> Option<Seq<char>>;

/// `hyper::Request::builder()` given the method name (`Builder::method`),
/// the URI (`Builder::uri`) and each header in turn (`Builder::header`),
/// then `Builder::body`: the text of the first error the builder met, if
/// any.
///
/// The builder keeps the first error it meets and reports it at `body`;
/// whether it fails, and with what text, depends on the method, URI and
/// headers alone, so the contract names that (`http_request_error`).
#[verifier::external_body]
fn request_error(method: &[u8], uri: &str, headers: &Vec<(String, String)>) -> (r: Option<String>)
    ensures
        r is None <==> http_request_error(method@, uri@, spec_header_views(headers@)) is None,
        r is Some ==> http_request_error(method@, uri@, spec_header_views(headers@)) == Some(r->Some_0@),
{
    let mut builder = hyper::Request::builder().method(method).uri(uri);
    for (name, value) in headers.iter() {
        builder = builder.header(name.as_str(), value.as_str());
    }
    builder.body(()).err().map(|err| err.to_string())
}

/// The request a Roc request record describes. An unknown method tag, or
/// an extension method that is not a valid token, is refused before
/// anything else is looked at; otherwise the request is refused exactly
/// when hyper's builder refuses the method's name, the URI or the headers
/// (with the default content type), with the builder's text. A request
/// that is not refused carries those parts and the body unchanged.
pub fn build_hyper_request(
    method: u8,
    method_ext: &str,
    uri: &str,
    headers: &Vec<(String, String)>,
    body: Vec<u8>,
) -> (r: Result<HttpRequestParts, String>)
    ensures
        !(method <= 9 && (method == 2 ==> spec_is_method_token(vstd::utf8::encode_utf8(method_ext@))))
            ==> (r matches Err(m) && m@ == "invalid HTTP method"@),
        (method <= 9 && (method == 2 ==> spec_is_method_token(vstd::utf8::encode_utf8(method_ext@))))
            ==> {
            let refused = http_request_error(
                spec_method_name(method, method_ext@)->Some_0,
                uri@,
                spec_request_header_views(headers@),
            );
            &&& (r is Err <==> refused is Some)
            &&& (r is Err ==> refused == Some(r->Err_0@))
            &&& (r is Ok ==> {
                &&& r->Ok_0.method@ == spec_method_name(method, method_ext@)->Some_0
                &&& r->Ok_0.uri@ == uri@
                &&& spec_header_views(r->Ok_0.headers@) == spec_request_header_views(headers@)
                &&& r->Ok_0.body@ == body@
            })
        },
{
    if as_hyper_method(method, method_ext).is_none() {
        return Err(String::from_str("invalid HTTP method"));
    }
    let name = match method_name(method, method_ext) {
        Some(name) => name,
        None => return Err(String::from_str("invalid HTTP method")),
    };
    let all_headers = request_headers(headers);
    match request_error(name.as_slice(), uri, &all_headers) {
        Some(message) => Err(message),
        None => Ok(HttpRequestParts { method: name, uri: uri.to_owned(), headers: all_headers, body }),
    }
}

/// A header value hyper can read as text: every byte visible ASCII or a
/// tab (what `HeaderValue::to_str` accepts). Other values are reported as
/// empty text.
pub open spec fn spec_is_header_text(value: Seq<u8>) -> bool {
    forall|i: int| 0 <= i < value.len() ==> ((32u8 <= #[trigger] value[i] && value[i] < 127u8) || value[i] == 9u8)
}

pub fn header_value_is_text(value: &[u8]) -> (r: bool)
    ensures
        r == spec_is_header_text(value@),
{
    let mut i: usize = 0;
    while i < value.len()
        invariant
            i <= value@.len(),
            forall|j: int| 0 <= j < i ==> ((32u8 <= #[trigger] value@[j] && value@[j] < 127u8) || value@[j] == 9u8),
        decreases value@.len() - i,
    {
        let b = value[i];
        if !((32u8 <= b && b < 127u8) || b == 9u8) {
            return false;
        }
        i = i + 1;
    }
    true
}

/// What a sent request comes to once the reply has been read: the status
/// and headers as they came, with the body when it could be collected, and
/// a bad body otherwise.
pub fn response_result(status: u16, headers: Vec<(String, String)>, body: Option<Vec<u8>>) -> (r: HttpResult)
    ensures
        body is None ==> r == Err::<HttpResponse, HttpTransportErr>(HttpTransportErr::BadBody),
        body matches Some(b) ==> r == Ok::<HttpResponse, HttpTransportErr>(
            HttpResponse { body: b, headers: headers, status: status },
        ),
{
    match body {
        Some(bytes) => http_ok(HttpResponse { body: bytes, headers, status }),
        None => http_err(http_err_bad_body()),
    }
}

/// The time limit of a request: none when the record gives 0.
pub fn request_timeout(timeout_ms: u64) -> (r: Option<u64>)
    ensures
        timeout_ms == 0 ==> r is None,
        timeout_ms > 0 ==> r == Some(timeout_ms),
{
    if timeout_ms > 0 {
        Some(timeout_ms)
    } else {
        None
    }
}

} // verus!
