use vstd::prelude::*;
use crate::text::{starts_with, str_eq};

verus! {

/// `s` with every occurrence of `from` replaced by `to`, scanning from the left
/// and never overlapping two replaced occurrences.
pub open spec fn replace_all(s: Seq<char>, from: Seq<char>, to: Seq<char>) -> Seq<char>
    recommends
        from.len() > 0,
    decreases s.len(),
{
    if from.len() == 0 || s.len() < from.len() {
        s
    } else if s.subrange(0, from.len() as int) == from {
        to + replace_all(s.subrange(from.len() as int, s.len() as int), from, to)
    } else {
        seq![s[0]] + replace_all(s.drop_first(), from, to)
    }
}

/// Whether `from` occurs in `s`.
pub open spec fn occurs_in(s: Seq<char>, from: Seq<char>) -> bool {
    exists|i: int| 0 <= i && i + from.len() <= s.len() && #[trigger] s.subrange(i, i + from.len()) == from
}

/// Replaces every occurrence of the non-empty `from` in `s` by `to`.
pub fn replace(s: &str, from: &str, to: &str) -> (r: String)
    requires
        from@.len() > 0,
    ensures
        r@ == replace_all(s@, from@, to@),
{
    let n = s.unicode_len();
    let m = from.unicode_len();
    let mut out = String::new();
    let mut i: usize = 0;
    assert(s@.subrange(0, n as int) =~= s@);
    assert(out@ + s@ =~= s@);
    while i < n
        invariant
            n == s@.len(),
            m == from@.len(),
            m > 0,
            i <= n,
            out@ + replace_all(s@.subrange(i as int, n as int), from@, to@) == replace_all(s@, from@, to@),
        decreases n - i,
    {
        let ghost rest = s@.subrange(i as int, n as int);
        let tail = s.substring_char(i, n);
        if m <= n - i && starts_with(tail, from) {
            assert(rest.subrange(m as int, rest.len() as int) =~= s@.subrange((i + m) as int, n as int));
            out.append(to);
            i = i + m;
        } else {
            assert(rest.drop_first() =~= s@.subrange((i + 1) as int, n as int));
            let c = s.substring_char(i, i + 1);
            assert(c@ =~= seq![rest[0]]);
            out.append(c);
            i = i + 1;
        }
        assert(out@ + replace_all(s@.subrange(i as int, n as int), from@, to@) =~= replace_all(s@, from@, to@));
    }
    assert(s@.subrange(n as int, n as int) =~= Seq::<char>::empty());
    assert(out@ =~= replace_all(s@, from@, to@));
    out
}

/// A string with no occurrence of `from` is left as it is.
pub proof fn replace_all_without_occurrence(s: Seq<char>, from: Seq<char>, to: Seq<char>)
    requires
        from.len() > 0,
        !occurs_in(s, from),
    ensures
        replace_all(s, from, to) == s,
    decreases s.len(),
{
    if s.len() >= from.len() {
        assert(s.subrange(0, from.len() as int) != from) by {
            if s.subrange(0, from.len() as int) == from {
                assert(s.subrange(0int, 0int + from.len()) == from);
            }
        }
        let t = s.drop_first();
        assert(!occurs_in(t, from)) by {
            if occurs_in(t, from) {
                let i = choose|i: int| 0 <= i && i + from.len() <= t.len() && #[trigger] t.subrange(i, i + from.len()) == from;
                assert(s.subrange(i + 1, i + 1 + from.len()) =~= t.subrange(i, i + from.len()));
            }
        }
        replace_all_without_occurrence(t, from, to);
        assert(seq![s[0]] + t =~= s);
    }
}

/// The prefix that stands for a custom protocol on platforms that only load
/// standard schemes: `<http or https>://<protocol>.`.
pub open spec fn work_around_prefix(http_or_https: Seq<char>, protocol: Seq<char>) -> Seq<char> {
    http_or_https + "://"@ + protocol + "."@
}

/// How a custom protocol's URIs begin: `<protocol>://`.
pub open spec fn protocol_prefix(protocol: Seq<char>) -> Seq<char> {
    protocol + "://"@
}

/// The prefix that stands for `protocol`.
pub fn work_around_uri_prefix(http_or_https: &str, protocol: &str) -> (p: String)
    ensures
        p@ == work_around_prefix(http_or_https@, protocol@),
{
    let mut p = String::from_str(http_or_https);
    p.append("://");
    p.append(protocol);
    p.append(".");
    p
}

fn protocol_uri_prefix(protocol: &str) -> (p: String)
    ensures
        p@ == protocol_prefix(protocol@),
{
    let mut p = String::from_str(protocol);
    p.append("://");
    p
}

proof fn prefixes_are_not_empty(http_or_https: Seq<char>, protocol: Seq<char>)
    ensures
        work_around_prefix(http_or_https, protocol).len() > 0,
        protocol_prefix(protocol).len() > 0,
{
    reveal_strlit("://");
}

/// Rewrites the URI of a custom protocol into one the platform loads: every
/// `<protocol>://` becomes `<http or https>://<protocol>.`.
pub fn apply_uri_work_around(uri: &str, http_or_https: &str, protocol: &str) -> (r: String)
    ensures
        r@ == replace_all(uri@, protocol_prefix(protocol@), work_around_prefix(http_or_https@, protocol@)),
{
    proof { prefixes_are_not_empty(http_or_https@, protocol@); }
    let from = protocol_uri_prefix(protocol);
    let to = work_around_uri_prefix(http_or_https, protocol);
    replace(uri, from.as_str(), to.as_str())
}

/// Undoes the rewriting: every `<http or https>://<protocol>.` becomes
/// `<protocol>://` again.
pub fn revert_uri_work_around(uri: &str, http_or_https: &str, protocol: &str) -> (r: String)
    ensures
        r@ == replace_all(uri@, work_around_prefix(http_or_https@, protocol@), protocol_prefix(protocol@)),
{
    proof { prefixes_are_not_empty(http_or_https@, protocol@); }
    let from = work_around_uri_prefix(http_or_https, protocol);
    let to = protocol_uri_prefix(protocol);
    replace(uri, from.as_str(), to.as_str())
}

/// Whether a URI the platform loads stands for a URI of `protocol`.
pub fn is_work_around_uri(uri: &str, http_or_https: &str, protocol: &str) -> (b: bool)
    ensures
        b == (uri@.len() >= work_around_prefix(http_or_https@, protocol@).len()
            && uri@.subrange(0, work_around_prefix(http_or_https@, protocol@).len() as int)
                == work_around_prefix(http_or_https@, protocol@)),
{
    let prefix = work_around_uri_prefix(http_or_https, protocol);
    starts_with(uri, prefix.as_str())
}

/// A URI of a custom protocol that holds no other occurrence of either prefix
/// survives the rewriting and its undoing unchanged, and the rewritten URI is
/// recognised as standing for that protocol.
pub proof fn work_around_round_trip(http_or_https: Seq<char>, protocol: Seq<char>, rest: Seq<char>)
    requires
        !occurs_in(rest, protocol_prefix(protocol)),
        !occurs_in(rest, work_around_prefix(http_or_https, protocol)),
    ensures
        ({
            let uri = protocol_prefix(protocol) + rest;
            let rewritten = replace_all(uri, protocol_prefix(protocol), work_around_prefix(http_or_https, protocol));
            &&& rewritten == work_around_prefix(http_or_https, protocol) + rest
            &&& rewritten.subrange(0, work_around_prefix(http_or_https, protocol).len() as int)
                == work_around_prefix(http_or_https, protocol)
            &&& replace_all(rewritten, work_around_prefix(http_or_https, protocol), protocol_prefix(protocol)) == uri
        }),
{
    prefixes_are_not_empty(http_or_https, protocol);
    let p = protocol_prefix(protocol);
    let w = work_around_prefix(http_or_https, protocol);
    let uri = p + rest;
    assert(uri.subrange(0, p.len() as int) =~= p);
    assert(uri.subrange(p.len() as int, uri.len() as int) =~= rest);
    replace_all_without_occurrence(rest, p, w);
    let rewritten = w + rest;
    assert(rewritten.subrange(0, w.len() as int) =~= w);
    assert(rewritten.subrange(w.len() as int, rewritten.len() as int) =~= rest);
    replace_all_without_occurrence(rest, w, p);
}

/// The scheme of a URL and what follows it: the text before the first `://`
/// and the text after it, when there is one.
pub open spec fn split_scheme(url: Seq<char>) -> Option<(Seq<char>, Seq<char>)> {
    if occurs_in(url, "://"@) {
        let i = choose|i: int| 0 <= i && i + 3 <= url.len() && #[trigger] url.subrange(i, i + 3) == "://"@
            && forall|j: int| 0 <= j < i ==> #[trigger] url.subrange(j, j + 3) != "://"@;
        Some((url.subrange(0, i), url.subrange(i + 3, url.len() as int)))
    } else {
        None
    }
}

/// The position of the first `://` in `url`, if there is one.
pub fn find_scheme_separator(url: &str) -> (pos: Option<usize>)
    ensures
        match pos {
            Some(i) => i + 3 <= url@.len() && url@.subrange(i as int, i + 3) == "://"@
                && forall|j: int| 0 <= j < i ==> #[trigger] url@.subrange(j, j + 3) != "://"@,
            None => !occurs_in(url@, "://"@),
        },
{
    proof { reveal_strlit("://"); }
    let n = url.unicode_len();
    if n < 3 {
        proof {
            if occurs_in(url@, "://"@) {
                let i = choose|i: int| 0 <= i && i + "://"@.len() <= url@.len() && #[trigger] url@.subrange(i, i + "://"@.len()) == "://"@;
            }
        }
        return None;
    }
    let mut i: usize = 0;
    while i < n - 2
        invariant
            n == url@.len(),
            n >= 3,
            i <= n - 2,
            "://"@ == seq![':', '/', '/'],
            forall|j: int| 0 <= j < i ==> #[trigger] url@.subrange(j, j + 3) != "://"@,
        decreases n - i,
    {
        if url.get_char(i) == ':' && url.get_char(i + 1) == '/' && url.get_char(i + 2) == '/' {
            assert(url@.subrange(i as int, i + 3) =~= "://"@);
            return Some(i);
        }
        assert(url@.subrange(i as int, i + 3)[0] == url@[i as int]);
        assert(url@.subrange(i as int, i + 3)[1] == url@[i + 1]);
        assert(url@.subrange(i as int, i + 3)[2] == url@[i + 2]);
        i = i + 1;
    }
    proof {
        if occurs_in(url@, "://"@) {
            let k = choose|k: int| 0 <= k && k + "://"@.len() <= url@.len() && #[trigger] url@.subrange(k, k + "://"@.len()) == "://"@;
            assert(url@.subrange(k, k + 3) == "://"@);
        }
    }
    None
}

/// Whether `name` is one of `names`.
pub fn contains_name(names: &Vec<String>, name: &str) -> (b: bool)
    ensures
        b == exists|i: int| 0 <= i < names@.len() && (#[trigger] names@[i])@ == name@,
{
    let mut i: usize = 0;
    while i < names.len()
        invariant
            i <= names@.len(),
            forall|j: int| 0 <= j < i ==> (#[trigger] names@[j])@ != name@,
        decreases names.len() - i,
    {
        if str_eq(names[i].as_str(), name) {
            return true;
        }
        i = i + 1;
    }
    false
}

/// The URL a webview is sent to for `url`: a URL of one of the custom protocols
/// is rewritten to its `http_or_https` form; any other URL is kept.
pub open spec fn navigation_url_spec(url: Seq<char>, http_or_https: Seq<char>, custom_protocols: Seq<String>) -> Seq<char> {
    match split_scheme(url) {
        Some((protocol, _)) => {
            if exists|i: int| 0 <= i < custom_protocols.len() && (#[trigger] custom_protocols[i])@ == protocol {
                replace_all(url, protocol_prefix(protocol), work_around_prefix(http_or_https, protocol))
            } else {
                url
            }
        },
        None => url,
    }
}

/// The URL a webview is sent to first: a URL of one of the custom protocols is
/// rewritten with [`apply_uri_work_around`]; any other URL is kept.
pub fn navigation_url(url: &str, http_or_https: &str, custom_protocols: &Vec<String>) -> (r: String)
    ensures
        r@ == navigation_url_spec(url@, http_or_https@, custom_protocols@),
{
    match find_scheme_separator(url) {
        Some(i) => {
            proof {
                reveal_strlit("://");
                let k = choose|k: int| 0 <= k && k + 3 <= url@.len() && #[trigger] url@.subrange(k, k + 3) == "://"@
                    && forall|j: int| 0 <= j < k ==> #[trigger] url@.subrange(j, j + 3) != "://"@;
                if k < i {
                    assert(url@.subrange(k, k + 3) != "://"@);
                }
                if i < k {
                    assert(url@.subrange(i as int, i + 3) != "://"@);
                }
                assert(occurs_in(url@, "://"@)) by {
                    assert(url@.subrange(i as int, i + "://"@.len()) == "://"@);
                }
            }
            let protocol = url.substring_char(0, i);
            if contains_name(custom_protocols, protocol) {
                apply_uri_work_around(url, http_or_https, protocol)
            } else {
                String::from_str(url)
            }
        },
        None => String::from_str(url),
    }
}

/// The first custom protocol that a URI loaded by the platform stands for.
pub fn find_work_around_protocol(uri: &str, http_or_https: &str, custom_protocols: &Vec<String>) -> (found: Option<usize>)
    ensures
        match found {
            Some(i) => {
                &&& i < custom_protocols@.len()
                &&& uri@.len() >= work_around_prefix(http_or_https@, custom_protocols@[i as int]@).len()
                &&& uri@.subrange(0, work_around_prefix(http_or_https@, custom_protocols@[i as int]@).len() as int)
                    == work_around_prefix(http_or_https@, custom_protocols@[i as int]@)
                &&& forall|j: int| 0 <= j < i ==> !is_work_around_spec(uri@, http_or_https@, #[trigger] custom_protocols@[j]@)
            },
            None => forall|j: int| 0 <= j < custom_protocols@.len() ==> !is_work_around_spec(uri@, http_or_https@, #[trigger] custom_protocols@[j]@),
        },
{
    let mut i: usize = 0;
    while i < custom_protocols.len()
        invariant
            i <= custom_protocols@.len(),
            forall|j: int| 0 <= j < i ==> !is_work_around_spec(uri@, http_or_https@, #[trigger] custom_protocols@[j]@),
        decreases custom_protocols.len() - i,
    {
        if is_work_around_uri(uri, http_or_https, custom_protocols[i].as_str()) {
            return Some(i);
        }
        i = i + 1;
    }
    None
}

/// Whether `uri` begins with the prefix that stands for `protocol`.
pub open spec fn is_work_around_spec(uri: Seq<char>, http_or_https: Seq<char>, protocol: Seq<char>) -> bool {
    uri.len() >= work_around_prefix(http_or_https, protocol).len()
        && uri.subrange(0, work_around_prefix(http_or_https, protocol).len() as int)
            == work_around_prefix(http_or_https, protocol)
}

/// The content of a URL that cannot be a base, such as a `data:` URL: the text
/// after its first comma, if it has one.
pub fn data_url_content(url: &str) -> (content: Option<String>)
    ensures
        match content {
            Some(c) => exists|i: int| 0 <= i < url@.len() && url@[i] == ','
                && (forall|j: int| 0 <= j < i ==> url@[j] != ',')
                && c@ == url@.subrange(i + 1, url@.len() as int),
            None => forall|j: int| 0 <= j < url@.len() ==> url@[j] != ',',
        },
{
    let n = url.unicode_len();
    let mut i: usize = 0;
    while i < n
        invariant
            n == url@.len(),
            i <= n,
            forall|j: int| 0 <= j < i ==> url@[j] != ',',
        decreases n - i,
    {
        if url.get_char(i) == ',' {
            let rest = url.substring_char(i + 1, n);
            return Some(String::from_str(rest));
        }
        i = i + 1;
    }
    None
}

} // verus!
