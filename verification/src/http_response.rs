use vstd::prelude::*;
use crate::text::{decimal, push_decimal, starts_with};
use crate::text_scan::{after_first, char_index, char_index_facts, find_char, first_segment, first_segment_of, trim, trim_ws};

verus! {

/// Whether every byte is a visible ASCII character or a tab, which is what a
/// header value must hold to be read as text.
pub open spec fn visible_ascii(bytes: Seq<u8>) -> bool {
    forall|i: int| 0 <= i < bytes.len() ==> ((32 <= #[trigger] bytes[i] && bytes[i] < 127) || bytes[i] == 9)
}

/// ASCII bytes read as characters.
pub open spec fn ascii_text(bytes: Seq<u8>) -> Seq<char> {
    bytes.map_values(|b: u8| b as char)
}

/// The standard reason phrase of an HTTP status code, as the `http` crate's
/// `StatusCode::canonical_reason` gives it.
pub uninterp spec fn reason_phrase(status: u16) -> Option<Seq<char>>;

/// `http::StatusCode::from_u16` followed by `StatusCode::canonical_reason`: the
/// standard reason phrase of a status code. The crate accepts codes from 100 to
/// 999 only, so outside that range there is none; 200 is "OK" and 400 is "Bad
/// Request". What the other codes give is left to the crate's table.
#[verifier::external_body]
fn status_canonical_reason(status: u16) -> (r: Option<String>)
    ensures
        r matches Some(s) ==> reason_phrase(status) == Some(s@),
        r is None ==> reason_phrase(status) is None,
        (status < 100 || status > 999) ==> r is None,
        status == 200 ==> r is Some && r.unwrap()@ == "OK"@,
        status == 400 ==> r is Some && r.unwrap()@ == "Bad Request"@,
{
    match http::StatusCode::from_u16(status) {
        Ok(code) => code.canonical_reason().map(String::from),
        Err(_) => None,
    }
}

/// `http::HeaderValue::to_str` on the header value made of `bytes` (by
/// `HeaderValue::from_bytes`): the value as text when every byte is visible ASCII
/// or a tab, and nothing otherwise.
#[verifier::external_body]
fn header_value_text(bytes: &[u8]) -> (r: Option<String>)
    ensures
        r is Some <==> visible_ascii(bytes@),
        r matches Some(s) ==> s@ == ascii_text(bytes@),
{
    match http::HeaderValue::from_bytes(bytes) {
        Ok(value) => match value.to_str() {
            Ok(s) => Some(String::from(s)),
            Err(_) => None,
        },
        Err(_) => None,
    }
}

/// The reason phrase of a status code, or `default` when it has no standard one.
pub open spec fn reason_or(status: u16, default: Seq<char>) -> Seq<char> {
    match reason_phrase(status) {
        Some(p) => p,
        None => default,
    }
}

/// The head of an HTTP response: its status code and its headers in order, each
/// a lowercase name and the raw bytes of the value.
pub struct HttpResponseHead {
    pub status: u16,
    pub headers: Vec<(String, Vec<u8>)>,
}

/// A header by its name's characters and its value's bytes.
pub open spec fn header_view(h: (String, Vec<u8>)) -> (Seq<char>, Seq<u8>) {
    (h.0@, h.1@)
}

/// The headers of a response head, by their views.
pub open spec fn headers_view(headers: Seq<(String, Vec<u8>)>) -> Seq<(Seq<char>, Seq<u8>)> {
    headers.map_values(|h: (String, Vec<u8>)| header_view(h))
}

/// The value of the first header with this name, if there is one.
pub open spec fn first_header(headers: Seq<(Seq<char>, Seq<u8>)>, name: Seq<char>) -> Option<Seq<u8>>
    decreases headers.len(),
{
    if headers.len() == 0 {
        None
    } else if headers[0].0 == name {
        Some(headers[0].1)
    } else {
        first_header(headers.drop_first(), name)
    }
}

fn find_header(headers: &Vec<(String, Vec<u8>)>, name: &str) -> (r: Option<usize>)
    ensures
        match r {
            Some(i) => i < headers@.len() && first_header(headers_view(headers@), name@) == Some(headers@[i as int].1@),
            None => first_header(headers_view(headers@), name@) is None,
        },
{
    let ghost hv = headers_view(headers@);
    let mut i: usize = 0;
    assert(hv.subrange(0, hv.len() as int) =~= hv);
    while i < headers.len()
        invariant
            hv == headers_view(headers@),
            i <= headers@.len(),
            first_header(hv, name@) == first_header(hv.subrange(i as int, hv.len() as int), name@),
        decreases headers.len() - i,
    {
        let ghost rest = hv.subrange(i as int, hv.len() as int);
        assert(rest[0] == header_view(headers@[i as int]));
        if crate::text::str_eq(headers[i].0.as_str(), name) {
            return Some(i);
        }
        assert(rest.drop_first() =~= hv.subrange(i + 1, hv.len() as int));
        i = i + 1;
    }
    None
}

/// Why the Android web view refuses the status code of a response.
#[derive(Debug, Clone, Copy, PartialEq, Eq, Structural)]
pub enum StatusRejection {
    /// Below 100.
    BelowRange,
    /// Above 599.
    AboveRange,
    /// A redirection, from 300 to 399.
    Redirect,
}

/// The warning that is logged when a status code is refused.
pub open spec fn rejection_message_spec(r: StatusRejection) -> Seq<char> {
    match r {
        StatusRejection::BelowRange => "Status code can't be less than 100"@,
        StatusRejection::AboveRange => "statusCode can't be greater than 599."@,
        StatusRejection::Redirect => "statusCode can't be in the [300, 399] range."@,
    }
}

impl StatusRejection {
    /// The warning that is logged for the refusal.
    pub fn message(&self) -> (m: &'static str)
        ensures
            m@ == rejection_message_spec(*self),
    {
        match self {
            StatusRejection::BelowRange => "Status code can't be less than 100",
            StatusRejection::AboveRange => "statusCode can't be greater than 599.",
            StatusRejection::Redirect => "statusCode can't be in the [300, 399] range.",
        }
    }
}

/// The refusal of a status code, if it is refused.
pub open spec fn status_rejection_spec(status: u16) -> Option<StatusRejection> {
    if status < 100 {
        Some(StatusRejection::BelowRange)
    } else if status > 599 {
        Some(StatusRejection::AboveRange)
    } else if 300 <= status && status < 400 {
        Some(StatusRejection::Redirect)
    } else {
        None
    }
}

/// Checks a status code against what the Android web view accepts.
pub fn status_rejection(status: u16) -> (r: Option<StatusRejection>)
    ensures
        r == status_rejection_spec(status),
{
    if status < 100 {
        Some(StatusRejection::BelowRange)
    } else if status > 599 {
        Some(StatusRejection::AboveRange)
    } else if status > 299 && status < 400 {
        Some(StatusRejection::Redirect)
    } else {
        None
    }
}

/// The character set named by the parameters of a content type (the text after
/// its first `;`): the value of the first parameter that, trimmed, begins with
/// `charset=`, up to any further `=`.
pub open spec fn charset_in(rest: Seq<char>) -> Option<Seq<char>>
    decreases rest.len(),
{
    let token = trim(first_segment(rest, ';'));
    if token.len() >= 8 && token.subrange(0, 8) == "charset="@ {
        Some(first_segment(token.subrange(8, token.len() as int), '='))
    } else {
        match char_index(rest, ';') {
            Some(i) => {
                proof { char_index_facts(rest, ';'); }
                charset_in(rest.subrange(i as int + 1, rest.len() as int))
            },
            None => None,
        }
    }
}

/// The MIME type and the character set of a content type: the trimmed text
/// before the first `;`, and the character set among the parameters.
pub open spec fn content_type_parts(text: Seq<char>) -> (Seq<char>, Option<Seq<char>>) {
    let ct = trim(text);
    (
        trim(first_segment(ct, ';')),
        match after_first(ct, ';') {
            Some(rest) => charset_in(rest),
            None => None,
        },
    )
}

proof fn charset_literal()
    ensures
        "charset="@.len() == 8,
{
    reveal_strlit("charset=");
}

fn charset_of(rest: &str) -> (r: Option<String>)
    ensures
        match r {
            Some(s) => charset_in(rest@) == Some(s@),
            None => charset_in(rest@) is None,
        },
{
    proof { charset_literal(); }
    let mut cur: &str = rest;
    loop
        invariant
            charset_in(rest@) == charset_in(cur@),
            "charset="@.len() == 8,
        decreases cur@.len(),
    {
        let segment = first_segment_of(cur, ';');
        let token = trim_ws(segment);
        if starts_with(token, "charset=") {
            let n = token.unicode_len();
            let value = token.substring_char(8, n);
            let charset = first_segment_of(value, '=');
            return Some(String::from_str(charset));
        }
        proof { char_index_facts(cur@, ';'); }
        match find_char(cur, ';') {
            Some(i) => {
                let n = cur.unicode_len();
                cur = cur.substring_char(i + 1, n);
            },
            None => {
                return None;
            },
        }
    }
}

/// The MIME type and the character set of a content type.
pub fn parse_content_type(text: &str) -> (r: (String, Option<String>))
    ensures
        r.0@ == content_type_parts(text@).0,
        match r.1 {
            Some(c) => content_type_parts(text@).1 == Some(c@),
            None => content_type_parts(text@).1 is None,
        },
{
    let ct = trim_ws(text);
    let mime = trim_ws(first_segment_of(ct, ';'));
    proof { char_index_facts(ct@, ';'); }
    let charset = match find_char(ct, ';') {
        Some(i) => {
            let n = ct.unicode_len();
            charset_of(ct.substring_char(i + 1, n))
        },
        None => None,
    };
    (String::from_str(mime), charset)
}

/// Each header as text, with an empty value where the value is not text.
pub open spec fn headers_as_text(headers: Seq<(Seq<char>, Seq<u8>)>) -> Seq<(Seq<char>, Seq<char>)> {
    headers.map_values(|h: (Seq<char>, Seq<u8>)|
        (h.0, if visible_ascii(h.1) { ascii_text(h.1) } else { Seq::<char>::empty() }))
}

/// A pair of strings by their characters.
pub open spec fn text_pair(p: (String, String)) -> (Seq<char>, Seq<char>) {
    (p.0@, p.1@)
}

/// What the Android web view is given for a response of a custom protocol.
pub struct WebResourceResponse {
    /// The MIME type, when the response has a content type.
    pub mime_type: Option<String>,
    /// The character set, when the content type names one.
    pub encoding: Option<String>,
    pub status_code: u16,
    pub reason_phrase: String,
    /// The headers to put in the response's map, in order.
    pub headers: Vec<(String, String)>,
}

/// The content type of a response head, as text, when it has one.
pub open spec fn content_type_text(head_headers: Seq<(Seq<char>, Seq<u8>)>) -> Option<Seq<char>> {
    match first_header(head_headers, "content-type"@) {
        Some(v) => Some(ascii_text(v)),
        None => None,
    }
}

/// Whether the content type of a response head, if it has one, is text.
pub open spec fn content_type_is_text(head_headers: Seq<(Seq<char>, Seq<u8>)>) -> bool {
    match first_header(head_headers, "content-type"@) {
        Some(v) => visible_ascii(v),
        None => true,
    }
}

fn headers_to_text(headers: &Vec<(String, Vec<u8>)>) -> (out: Vec<(String, String)>)
    ensures
        out@.map_values(|p: (String, String)| text_pair(p)) == headers_as_text(headers_view(headers@)),
{
    let mut out: Vec<(String, String)> = Vec::new();
    let mut i: usize = 0;
    while i < headers.len()
        invariant
            i <= headers@.len(),
            out@.map_values(|p: (String, String)| text_pair(p)) == headers_as_text(headers_view(headers@.subrange(0, i as int))),
        decreases headers.len() - i,
    {
        let value = match header_value_text(headers[i].1.as_slice()) {
            Some(s) => s,
            None => String::new(),
        };
        let name = headers[i].0.clone();
        let ghost h = header_view(headers@[i as int]);
        assert(value@ == (if visible_ascii(h.1) { ascii_text(h.1) } else { Seq::<char>::empty() }));
        let ghost before = out@;
        out.push((name, value));
        assert(headers@.subrange(0, i + 1) =~= headers@.subrange(0, i as int).push(headers@[i as int]));
        assert(headers_view(headers@.subrange(0, i + 1)) =~= headers_view(headers@.subrange(0, i as int)).push(h));
        assert(out@.map_values(|p: (String, String)| text_pair(p)) =~= before.map_values(|p: (String, String)| text_pair(p)).push(text_pair((name, value))));
        assert(out@.map_values(|p: (String, String)| text_pair(p)) =~= headers_as_text(headers_view(headers@.subrange(0, i + 1))));
        i = i + 1;
    }
    assert(headers@.subrange(0, headers@.len() as int) =~= headers@);
    out
}

/// The properties of an Android web resource response for a response head,
/// given the reason phrase the response gets.
pub open spec fn android_response_ok(head: HttpResponseHead, reason: Seq<char>, resp: WebResourceResponse) -> bool {
    &&& resp.status_code == head.status
    &&& resp.reason_phrase@ == reason
    &&& resp.headers@.map_values(|p: (String, String)| text_pair(p)) == headers_as_text(headers_view(head.headers@))
    &&& match content_type_text(headers_view(head.headers@)) {
        Some(ct) => {
            &&& resp.mime_type matches Some(m) && m@ == content_type_parts(ct).0
            &&& match resp.encoding {
                Some(e) => content_type_parts(ct).1 == Some(e@),
                None => content_type_parts(ct).1 is None,
            }
        },
        None => resp.mime_type is None && resp.encoding is None,
    }
}

/// What the Android web view is given for a response of a custom protocol,
/// given the standard reason phrase of its status (`None` when it has none), or
/// why its status code is refused. The reason phrase is the standard one, or
/// "OK"; the MIME type and character set come from the first content type.
pub fn web_resource_response_with_reason(head: &HttpResponseHead, reason: Option<String>) -> (r: Result<WebResourceResponse, StatusRejection>)
    requires
        content_type_is_text(headers_view(head.headers@)),
    ensures
        status_rejection_spec(head.status) matches Some(rej) ==> r == Err::<WebResourceResponse, StatusRejection>(rej),
        status_rejection_spec(head.status) is None ==> (r matches Ok(resp) && android_response_ok(*head, match reason {
            Some(p) => p@,
            None => "OK"@,
        }, resp)),
{
    if let Some(rejection) = status_rejection(head.status) {
        return Err(rejection);
    }
    let reason_phrase = match reason {
        Some(p) => p,
        None => String::from_str("OK"),
    };
    let (mime_type, encoding) = match find_header(&head.headers, "content-type") {
        Some(i) => {
            let text = match header_value_text(head.headers[i].1.as_slice()) {
                Some(t) => t,
                None => String::new(),
            };
            let (mime, charset) = parse_content_type(text.as_str());
            (Some(mime), charset)
        },
        None => (None, None),
    };
    let headers = headers_to_text(&head.headers);
    Ok(WebResourceResponse { mime_type, encoding, status_code: head.status, reason_phrase, headers })
}

/// What the Android web view is given for a response of a custom protocol, or
/// why its status code is refused; the reason phrase is the standard one of the
/// status, or "OK".
pub fn web_resource_response(head: &HttpResponseHead) -> (r: Result<WebResourceResponse, StatusRejection>)
    requires
        content_type_is_text(headers_view(head.headers@)),
    ensures
        status_rejection_spec(head.status) matches Some(rej) ==> r == Err::<WebResourceResponse, StatusRejection>(rej),
        status_rejection_spec(head.status) is None ==> (r matches Ok(resp)
            && android_response_ok(*head, reason_or(head.status, "OK"@), resp)),
{
    let reason = status_canonical_reason(head.status);
    web_resource_response_with_reason(head, reason)
}

/// The text headers of a response, in order: those whose value is not text are
/// left out.
pub open spec fn text_headers(headers: Seq<(Seq<char>, Seq<u8>)>) -> Seq<(Seq<char>, Seq<char>)>
    decreases headers.len(),
{
    if headers.len() == 0 {
        Seq::empty()
    } else {
        let rest = text_headers(headers.drop_last());
        let h = headers.last();
        if visible_ascii(h.1) {
            rest.push((h.0, ascii_text(h.1)))
        } else {
            rest
        }
    }
}

fn push_text_headers(out: &mut Vec<(String, String)>, headers: &Vec<(String, Vec<u8>)>)
    ensures
        final(out)@.map_values(|p: (String, String)| text_pair(p))
            == old(out)@.map_values(|p: (String, String)| text_pair(p)) + text_headers(headers_view(headers@)),
{
    let ghost start = old(out)@.map_values(|p: (String, String)| text_pair(p));
    let mut i: usize = 0;
    assert(headers_view(headers@.subrange(0, 0)) =~= Seq::<(Seq<char>, Seq<u8>)>::empty());
    assert(start + Seq::empty() =~= start);
    while i < headers.len()
        invariant
            i <= headers@.len(),
            start == old(out)@.map_values(|p: (String, String)| text_pair(p)),
            out@.map_values(|p: (String, String)| text_pair(p)) == start + text_headers(headers_view(headers@.subrange(0, i as int))),
        decreases headers.len() - i,
    {
        let ghost prefix = headers_view(headers@.subrange(0, i as int));
        let ghost next = headers_view(headers@.subrange(0, i + 1));
        assert(next.drop_last() =~= prefix);
        assert(next.last() == header_view(headers@[i as int]));
        let ghost before = out@;
        match header_value_text(headers[i].1.as_slice()) {
            Some(value) => {
                let name = headers[i].0.clone();
                out.push((name, value));
                assert(out@.map_values(|p: (String, String)| text_pair(p)) =~= before.map_values(|p: (String, String)| text_pair(p)).push(text_pair((name, value))));
                assert(out@.map_values(|p: (String, String)| text_pair(p)) =~= start + text_headers(next));
            },
            None => {
                assert(text_headers(next) == text_headers(prefix));
            },
        }
        i = i + 1;
    }
    assert(headers@.subrange(0, headers@.len() as int) =~= headers@);
}

/// The header fields a URL scheme task's response is made with, as the entries
/// put into the field dictionary in order (a later entry with the same name
/// replaces an earlier one): the content type when there is one, the content
/// length, then every header whose value is text.
pub open spec fn scheme_task_fields(head_headers: Seq<(Seq<char>, Seq<u8>)>, body_len: nat) -> Seq<(Seq<char>, Seq<char>)> {
    (match content_type_text(head_headers) {
        Some(ct) => seq![("content-type"@, ct)],
        None => Seq::empty(),
    }) + seq![("content-length"@, decimal(body_len))] + text_headers(head_headers)
}

/// The header fields for a URL scheme task's response, in order.
pub fn scheme_task_response_fields(head: &HttpResponseHead, body_len: usize) -> (fields: Vec<(String, String)>)
    requires
        content_type_is_text(headers_view(head.headers@)),
    ensures
        fields@.map_values(|p: (String, String)| text_pair(p)) == scheme_task_fields(headers_view(head.headers@), body_len as nat),
{
    let mut fields: Vec<(String, String)> = Vec::new();
    match find_header(&head.headers, "content-type") {
        Some(i) => {
            let text = match header_value_text(head.headers[i].1.as_slice()) {
                Some(t) => t,
                None => String::new(),
            };
            fields.push((String::from_str("content-type"), text));
        },
        None => {},
    }
    let mut length = String::new();
    push_decimal(&mut length, body_len as u64);
    fields.push((String::from_str("content-length"), length));
    let ghost before = fields@.map_values(|p: (String, String)| text_pair(p));
    push_text_headers(&mut fields, &head.headers);
    assert(fields@.map_values(|p: (String, String)| text_pair(p)) =~= scheme_task_fields(headers_view(head.headers@), body_len as nat));
    fields
}

/// The header block WebView2 is given: a `name: value` line for every header
/// whose value is text, in order.
pub open spec fn header_lines(headers: Seq<(Seq<char>, Seq<char>)>) -> Seq<char>
    decreases headers.len(),
{
    if headers.len() == 0 {
        Seq::empty()
    } else {
        header_lines(headers.drop_last()) + headers.last().0 + ": "@ + headers.last().1 + "\n"@
    }
}

/// The header block for a WebView2 response.
pub fn webview2_header_block(head: &HttpResponseHead) -> (block: String)
    ensures
        block@ == header_lines(text_headers(headers_view(head.headers@))),
{
    let mut fields: Vec<(String, String)> = Vec::new();
    push_text_headers(&mut fields, &head.headers);
    let ghost fv = fields@.map_values(|p: (String, String)| text_pair(p));
    assert(fv =~= text_headers(headers_view(head.headers@)));
    let mut block = String::new();
    let mut i: usize = 0;
    assert(fv.subrange(0, 0) =~= Seq::<(Seq<char>, Seq<char>)>::empty());
    while i < fields.len()
        invariant
            i <= fields@.len(),
            fv == fields@.map_values(|p: (String, String)| text_pair(p)),
            block@ == header_lines(fv.subrange(0, i as int)),
        decreases fields.len() - i,
    {
        block.append(fields[i].0.as_str());
        block.append(": ");
        block.append(fields[i].1.as_str());
        block.append("\n");
        assert(fv.subrange(0, i + 1).drop_last() =~= fv.subrange(0, i as int));
        assert(block@ =~= header_lines(fv.subrange(0, i + 1)));
        i = i + 1;
    }
    assert(fv.subrange(0, fv.len() as int) =~= fv);
    block
}

/// The header block for a WebView2 response that names its MIME type apart
/// from its headers: a `Content-Type` line for the MIME type, when there is
/// one, before the header lines.
pub fn webview2_header_block_with_mime(mime: Option<&str>, head: &HttpResponseHead) -> (block: String)
    ensures
        block@ == (match mime {
            Some(m) => "Content-Type: "@ + m@ + "\n"@,
            None => Seq::<char>::empty(),
        }) + header_lines(text_headers(headers_view(head.headers@))),
{
    let lines = webview2_header_block(head);
    match mime {
        Some(m) => {
            let mut block = String::from_str("Content-Type: ");
            block.append(m);
            block.append("\n");
            block.append(lines.as_str());
            block
        },
        None => {
            assert(Seq::<char>::empty() + lines@ =~= lines@);
            lines
        },
    }
}

/// The status line parts of a WebView2 response, given the standard reason
/// phrase of its status (`None` when it has none): the code and that phrase, or
/// "OK".
pub fn webview2_status_with_reason(status: u16, reason: Option<String>) -> (r: (u16, String))
    ensures
        r.0 == status,
        reason matches Some(p) ==> r.1@ == p@,
        reason is None ==> r.1@ == "OK"@,
{
    match reason {
        Some(p) => (status, p),
        None => (status, String::from_str("OK")),
    }
}

/// The status line parts of a WebView2 response: the code and its standard
/// reason phrase, or "OK".
pub fn webview2_status(status: u16) -> (r: (u16, String))
    ensures
        r.0 == status,
        r.1@ == reason_or(status, "OK"@),
{
    webview2_status_with_reason(status, status_canonical_reason(status))
}

/// The status line of the response given when a request to a custom protocol
/// could not be prepared: 400 and its reason phrase.
pub fn bad_request_status() -> (r: (u16, String))
    ensures
        r.0 == 400,
        r.1@ == "Bad Request"@,
{
    match status_canonical_reason(400) {
        Some(p) => (400, p),
        None => (400, String::from_str("Bad Request")),
    }
}

/// The HTTP version of a response.
#[derive(Debug, Clone, Copy, PartialEq, Eq, Structural)]
pub enum HttpVersion {
    Http09,
    Http10,
    Http11,
    H2,
    H3,
}

/// How an HTTP version is written in a status line.
pub open spec fn version_text(v: HttpVersion) -> Seq<char> {
    match v {
        HttpVersion::Http09 => "HTTP/0.9"@,
        HttpVersion::Http10 => "HTTP/1.0"@,
        HttpVersion::Http11 => "HTTP/1.1"@,
        HttpVersion::H2 => "HTTP/2.0"@,
        HttpVersion::H3 => "HTTP/3.0"@,
    }
}

impl HttpVersion {
    /// How the version is written in a status line.
    pub fn as_text(&self) -> (s: &'static str)
        ensures
            s@ == version_text(*self),
    {
        match self {
            HttpVersion::Http09 => "HTTP/0.9",
            HttpVersion::Http10 => "HTTP/1.0",
            HttpVersion::Http11 => "HTTP/1.1",
            HttpVersion::H2 => "HTTP/2.0",
            HttpVersion::H3 => "HTTP/3.0",
        }
    }
}

/// The Android web view refuses a status code exactly when it is below 100,
/// above 599, or from 300 to 399, each with its own reason; every other code
/// (100 to 299 and 400 to 599) is taken.
pub proof fn status_codes_taken_and_refused(status: u16)
    ensures
        status_rejection_spec(status) is None <==> ((100 <= status && status <= 299) || (400 <= status && status <= 599)),
        status_rejection_spec(status) == Some(StatusRejection::BelowRange) <==> status < 100,
        status_rejection_spec(status) == Some(StatusRejection::AboveRange) <==> status > 599,
        status_rejection_spec(status) == Some(StatusRejection::Redirect) <==> (300 <= status && status <= 399),
{
}
} // verus!
