use vstd::prelude::*;
use vstd::utf8::encode_utf8;
use crate::http_response::bad_request_status;

verus! {

/// An `http` request builder, declared so that it can be passed between the
/// calls that give it the request's parts.
#[verifier::external_type_specification]
#[verifier::external_body]
pub struct ExRequestBuilder(http::request::Builder);

/// The parts given to a request builder so far, in order: `(0, uri, "")` for
/// a URI, `(1, method, "")` for a method, `(2, name, value)` for a header.
pub uninterp spec fn request_builder_steps(b: http::request::Builder) -> Seq<(nat, Seq<char>, Seq<char>)>;

/// What `http::Request::builder()` makes of these parts, given in this order,
/// when the request is built: nothing when it builds, else the text of the
/// error it gives.
pub uninterp spec fn http_request_build_error(steps: Seq<(nat, Seq<char>, Seq<char>)>) -> Option<Seq<char>>;

/// Whether `http` takes the text as a header name (`HeaderName::from_bytes`).
pub uninterp spec fn http_header_name_accepted(name: Seq<char>) -> bool;

/// `http::Request::builder()`: a builder given no part yet.
#[verifier::external_body]
fn new_request_builder() -> (b: http::request::Builder)
    ensures
        request_builder_steps(b) == Seq::<(nat, Seq<char>, Seq<char>)>::empty(),
{
    http::Request::builder()
}

/// `Builder::uri`: gives the builder the request's URI.
#[verifier::external_body]
fn builder_uri(b: http::request::Builder, uri: &str) -> (r: http::request::Builder)
    ensures
        request_builder_steps(r) == request_builder_steps(b).push((0nat, uri@, Seq::<char>::empty())),
{
    b.uri(uri)
}

/// `Builder::method`: gives the builder the request's method.
#[verifier::external_body]
fn builder_method(b: http::request::Builder, method: &str) -> (r: http::request::Builder)
    ensures
        request_builder_steps(r) == request_builder_steps(b).push((1nat, method@, Seq::<char>::empty())),
{
    b.method(method)
}

/// `Builder::header`: gives the builder one more header.
#[verifier::external_body]
fn builder_header(b: http::request::Builder, name: &str, value: &str) -> (r: http::request::Builder)
    ensures
        request_builder_steps(r) == request_builder_steps(b).push((2nat, name@, value@)),
{
    b.header(name, value)
}

/// `Builder::body`: builds the request, and gives the text of the error when
/// the builder refuses its parts.
#[verifier::external_body]
fn builder_error(b: http::request::Builder) -> (e: Option<String>)
    ensures
        match e {
            Some(t) => http_request_build_error(request_builder_steps(b)) == Some(t@),
            None => http_request_build_error(request_builder_steps(b)) is None,
        },
{
    match b.body(()) {
        Ok(_) => None,
        Err(error) => Some(error.to_string()),
    }
}

/// `HeaderName::from_bytes`: whether `http` takes the text as a header name.
#[verifier::external_body]
fn header_name_ok(name: &str) -> (ok: bool)
    ensures
        ok == http_header_name_accepted(name@),
{
    http::HeaderName::from_bytes(name.as_bytes()).is_ok()
}

/// Whether `http` takes a byte in a header value: a tab, or any byte from 32 on
/// but 127.
pub open spec fn header_value_byte_ok(b: u8) -> bool {
    (b >= 32 && b != 127) || b == 9
}

/// Whether `http` takes the text as a header value: every byte of its UTF-8
/// encoding is taken.
pub open spec fn header_value_accepted(value: Seq<char>) -> bool {
    forall|i: int| 0 <= i < encode_utf8(value).len() ==> header_value_byte_ok(#[trigger] encode_utf8(value)[i])
}

/// `HeaderValue::from_bytes`: its source takes the bytes exactly when each is
/// a tab or a byte from 32 on but 127.
#[verifier::external_body]
fn header_value_ok(value: &str) -> (ok: bool)
    ensures
        ok == header_value_accepted(value@),
{
    http::HeaderValue::from_bytes(value.as_bytes()).is_ok()
}

/// The parts of a request as the builder is given them: the URI, then the
/// method, then the headers in order.
pub open spec fn uri_method_header_steps(
    uri: Seq<char>,
    method: Seq<char>,
    headers: Seq<(String, String)>,
) -> Seq<(nat, Seq<char>, Seq<char>)> {
    seq![(0nat, uri, Seq::<char>::empty()), (1nat, method, Seq::<char>::empty())] + header_steps(headers)
}

/// The parts of a request as WebView2's handler gives them: the method, then the
/// headers in order, then the URI.
pub open spec fn method_header_uri_steps(
    uri: Seq<char>,
    method: Seq<char>,
    headers: Seq<(String, String)>,
) -> Seq<(nat, Seq<char>, Seq<char>)> {
    seq![(1nat, method, Seq::<char>::empty())] + header_steps(headers) + seq![(0nat, uri, Seq::<char>::empty())]
}

/// The headers of a request as parts given to a builder.
pub open spec fn header_steps(headers: Seq<(String, String)>) -> Seq<(nat, Seq<char>, Seq<char>)> {
    headers.map_values(|h: (String, String)| (2nat, h.0@, h.1@))
}

/// Gives the builder each header, in order.
fn add_headers(b: http::request::Builder, headers: &Vec<(String, String)>) -> (r: http::request::Builder)
    ensures
        request_builder_steps(r) == request_builder_steps(b) + header_steps(headers@),
{
    let ghost start = request_builder_steps(b);
    let mut b = b;
    let mut i: usize = 0;
    while i < headers.len()
        invariant
            i <= headers@.len(),
            request_builder_steps(b) == start + header_steps(headers@.take(i as int)),
        decreases headers.len() - i,
    {
        b = builder_header(b, headers[i].0.as_str(), headers[i].1.as_str());
        proof {
            assert(header_steps(headers@.take(i + 1)) =~= header_steps(headers@.take(i as int)).push(
                (2nat, headers@[i as int].0@, headers@[i as int].1@),
            ));
            assert(start + header_steps(headers@.take(i as int)).push((2nat, headers@[i as int].0@, headers@[i as int].1@))
                =~= (start + header_steps(headers@.take(i as int))).push((2nat, headers@[i as int].0@, headers@[i as int].1@)));
        }
        i = i + 1;
    }
    assert(headers@.take(headers@.len() as int) =~= headers@);
    b
}

/// The engine whose request for a custom protocol is answered.
#[derive(Debug, Clone, Copy, PartialEq, Eq, Structural)]
pub enum Engine {
    /// WebKit on macOS and iOS.
    WebKit,
    /// WebView2 on Windows.
    WebView2,
    /// The Android WebView.
    Android,
}

/// What is done with a request the engine made for a custom protocol, once
/// its parts were given to a request builder.
#[derive(Debug)]
pub enum RequestAnswer {
    /// The request builds: it goes to the protocol's handler.
    Handle,
    /// The request is answered 404, over HTTP/1.1.
    NotFound,
    /// The request is answered with this status line and, as the body, the
    /// builder's error text.
    Refused { status: u16, reason: String, body: String },
    /// The engine is given no answer.
    NoAnswer,
}

/// The headers `http` takes, in order: those whose name and value it accepts.
pub open spec fn accepted_headers_spec(headers: Seq<(String, String)>) -> Seq<(String, String)> {
    headers.filter(|h: (String, String)| http_header_name_accepted(h.0@) && header_value_accepted(h.1@))
}

/// The headers `http` takes, in order; the others are left out.
pub fn accepted_headers(headers: &Vec<(String, String)>) -> (kept: Vec<(String, String)>)
    ensures
        header_steps(kept@) == header_steps(accepted_headers_spec(headers@)),
{
    let mut kept: Vec<(String, String)> = Vec::new();
    let mut i: usize = 0;
    while i < headers.len()
        invariant
            i <= headers@.len(),
            header_steps(kept@) == header_steps(accepted_headers_spec(headers@.take(i as int))),
        decreases headers.len() - i,
    {
        let name_ok = header_name_ok(headers[i].0.as_str());
        let value_ok = header_value_ok(headers[i].1.as_str());
        let ghost before = kept@;
        proof {
            reveal(Seq::filter);
            assert(headers@.take(i + 1).drop_last() =~= headers@.take(i as int));
        }
        if name_ok && value_ok {
            kept.push((headers[i].0.clone(), headers[i].1.clone()));
            assert(header_steps(kept@) =~= header_steps(before).push((2nat, headers@[i as int].0@, headers@[i as int].1@)));
        }
        assert(header_steps(accepted_headers_spec(headers@.take(i + 1))) =~= if name_ok && value_ok {
            header_steps(accepted_headers_spec(headers@.take(i as int))).push((2nat, headers@[i as int].0@, headers@[i as int].1@))
        } else {
            header_steps(accepted_headers_spec(headers@.take(i as int)))
        });
        i = i + 1;
    }
    assert(headers@.take(headers@.len() as int) =~= headers@);
    kept
}

/// The parts an engine gives the request builder: the URI, the method and the
/// headers, in the order its handler gives them; Android gives only the headers
/// `http` takes.
pub open spec fn engine_request_steps(
    engine: Engine,
    uri: Seq<char>,
    method: Seq<char>,
    headers: Seq<(String, String)>,
) -> Seq<(nat, Seq<char>, Seq<char>)> {
    match engine {
        Engine::WebKit => uri_method_header_steps(uri, method, headers),
        Engine::WebView2 => method_header_uri_steps(uri, method, headers),
        Engine::Android => uri_method_header_steps(uri, method, accepted_headers_spec(headers)),
    }
}

/// What is done with a request an engine made for a custom protocol, from its
/// URI, method and headers as the engine reports them: a request that builds
/// goes to the protocol's handler; otherwise WebKit answers 404 over HTTP/1.1,
/// WebView2 answers 400 with the builder's error text, and Android gives no
/// answer.
pub fn custom_request_answer(
    engine: Engine,
    uri: &str,
    method: &str,
    headers: &Vec<(String, String)>,
) -> (a: RequestAnswer)
    ensures
        http_request_build_error(engine_request_steps(engine, uri@, method@, headers@)) is None
            ==> a is Handle,
        http_request_build_error(engine_request_steps(engine, uri@, method@, headers@)) matches Some(text)
            ==> match engine {
                Engine::WebKit => a is NotFound,
                Engine::WebView2 => a matches RequestAnswer::Refused { status, reason, body }
                    && status == 400 && reason@ == "Bad Request"@ && body@ == text,
                Engine::Android => a is NoAnswer,
            },
{
    let error = match engine {
        Engine::WebKit => {
            let b = builder_method(builder_uri(new_request_builder(), uri), method);
            let b = add_headers(b, headers);
            assert(request_builder_steps(b) =~= uri_method_header_steps(uri@, method@, headers@));
            builder_error(b)
        },
        Engine::WebView2 => {
            let b = add_headers(builder_method(new_request_builder(), method), headers);
            let b = builder_uri(b, uri);
            assert(request_builder_steps(b) =~= method_header_uri_steps(uri@, method@, headers@));
            builder_error(b)
        },
        Engine::Android => {
            let kept = accepted_headers(headers);
            let b = builder_method(builder_uri(new_request_builder(), uri), method);
            let b = add_headers(b, &kept);
            assert(request_builder_steps(b) =~= uri_method_header_steps(uri@, method@, accepted_headers_spec(headers@)));
            builder_error(b)
        },
    };
    match error {
        None => RequestAnswer::Handle,
        Some(text) => match engine {
            Engine::WebKit => RequestAnswer::NotFound,
            Engine::WebView2 => {
                let (status, reason) = bad_request_status();
                RequestAnswer::Refused { status, reason, body: text }
            },
            Engine::Android => RequestAnswer::NoAnswer,
        },
    }
}

} // verus!
