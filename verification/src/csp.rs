use vstd::prelude::*;
use sha2::Digest;
use crate::custom_protocol::{occurs_in, replace, replace_all};
use vstd::utf8::encode_utf8;

verus! {

/// The SHA-256 digest of some bytes, as the `sha2` crate computes it.
pub uninterp spec fn sha256(data: Seq<u8>) -> Seq<u8>;

/// Some bytes in base64 with the standard alphabet and padding, as the
/// `base64` crate writes them.
pub uninterp spec fn base64_standard(data: Seq<u8>) -> Seq<char>;

/// `sha2::Sha256::digest`: the SHA-256 digest of `data`, which is 32 bytes long.
#[verifier::external_body]
fn sha256_digest(data: &[u8]) -> (d: Vec<u8>)
    ensures
        d@ == sha256(data@),
        d@.len() == 32,
{
    sha2::Sha256::digest(data).to_vec()
}

/// `base64::encode`: `data` in base64 with the standard alphabet and padding.
#[verifier::external_body]
#[allow(deprecated)]
fn base64_encode(data: &[u8]) -> (s: String)
    ensures
        s@ == base64_standard(data@),
{
    base64::encode(data)
}

/// The source expression that allows an inline script by its hash:
/// `'sha256-<base64 of the SHA-256 of the script's UTF-8 bytes>'`.
pub open spec fn script_hash_spec(script: Seq<char>) -> Seq<char> {
    "'sha256-"@ + base64_standard(sha256(encode_utf8(script))) + "'"@
}

/// The source expression that allows the scripts whose SHA-256 digest, in
/// base64, is `encoded_digest`: `'sha256-<digest>'`.
pub fn sha256_source(encoded_digest: &str) -> (h: String)
    ensures
        h@ == "'sha256-"@ + encoded_digest@ + "'"@,
{
    let mut h = String::from_str("'sha256-");
    h.append(encoded_digest);
    h.append("'");
    h
}

/// The content security policy source expression that allows this script.
pub fn hash_script(script: &str) -> (h: String)
    ensures
        h@ == script_hash_spec(script@),
{
    let digest = sha256_digest(script.as_bytes());
    let encoded = base64_encode(digest.as_slice());
    sha256_source(encoded.as_str())
}

/// The hashes of the initialization scripts in the order they are put into the
/// page: each script is placed before those already placed, going from the last
/// script to the first, and its hash is noted as it is placed.
pub open spec fn script_hashes_spec(scripts: Seq<Seq<char>>) -> Seq<Seq<char>> {
    Seq::new(scripts.len(), |i: int| script_hash_spec(scripts[scripts.len() - 1 - i]))
}

/// The hashes of the initialization scripts, last script first.
pub fn script_hashes(scripts: &Vec<String>) -> (hashes: Vec<String>)
    ensures
        hashes@.map_values(|h: String| h@) == script_hashes_spec(scripts@.map_values(|s: String| s@)),
{
    let mut hashes: Vec<String> = Vec::new();
    let n = scripts.len();
    let mut k: usize = 0;
    while k < n
        invariant
            n == scripts@.len(),
            k <= n,
            hashes@.len() == k,
            forall|i: int| 0 <= i < k ==> (#[trigger] hashes@[i])@ == script_hash_spec(scripts@[n - 1 - i]@),
        decreases n - k,
    {
        let h = hash_script(scripts[n - 1 - k].as_str());
        hashes.push(h);
        k = k + 1;
    }
    assert(hashes@.map_values(|h: String| h@) =~= script_hashes_spec(scripts@.map_values(|s: String| s@)));
    hashes
}

/// The words of a list joined with single spaces.
pub open spec fn join_spaced(words: Seq<Seq<char>>) -> Seq<char>
    decreases words.len(),
{
    if words.len() == 0 {
        Seq::empty()
    } else if words.len() == 1 {
        words[0]
    } else {
        join_spaced(words.drop_last()) + " "@ + words.last()
    }
}

/// Joins the words with single spaces.
pub fn join_with_spaces(words: &Vec<String>) -> (s: String)
    ensures
        s@ == join_spaced(words@.map_values(|w: String| w@)),
{
    let ghost ws = words@.map_values(|w: String| w@);
    let mut s = String::new();
    let mut i: usize = 0;
    assert(ws.subrange(0, 0) =~= Seq::<Seq<char>>::empty());
    while i < words.len()
        invariant
            ws == words@.map_values(|w: String| w@),
            i <= words@.len(),
            s@ == join_spaced(ws.subrange(0, i as int)),
        decreases words.len() - i,
    {
        if i > 0 {
            s.append(" ");
        }
        s.append(words[i].as_str());
        assert(ws.subrange(0, i + 1).drop_last() =~= ws.subrange(0, i as int));
        proof {
            if i == 0 {
                assert(s@ =~= join_spaced(ws.subrange(0, 1)));
            } else {
                assert(s@ =~= join_spaced(ws.subrange(0, i + 1)));
            }
        }
        i = i + 1;
    }
    assert(ws.subrange(0, ws.len() as int) =~= ws);
    s
}

/// A content security policy that also allows the scripts with these hashes:
/// the hashes are added to the `script-src` directive (at each place it is
/// named), or a `script-src` directive with them is appended.
pub open spec fn csp_with_hashes_spec(csp: Seq<char>, hashes: Seq<Seq<char>>) -> Seq<char> {
    if occurs_in(csp, "script-src"@) {
        replace_all(csp, "script-src"@, "script-src "@ + join_spaced(hashes))
    } else {
        csp + " script-src "@ + join_spaced(hashes)
    }
}

/// Whether `s` holds `pattern`.
pub fn contains(s: &str, pattern: &str) -> (b: bool)
    ensures
        b == occurs_in(s@, pattern@),
{
    let n = s.unicode_len();
    let m = pattern.unicode_len();
    if m > n {
        proof {
            if occurs_in(s@, pattern@) {
                let i = choose|i: int| 0 <= i && i + pattern@.len() <= s@.len() && #[trigger] s@.subrange(i, i + pattern@.len()) == pattern@;
            }
        }
        return false;
    }
    if m == 0 {
        assert(s@.subrange(0int, 0int + pattern@.len()) =~= pattern@);
        return true;
    }
    let mut i: usize = 0;
    while i < n - m + 1
        invariant
            n == s@.len(),
            m == pattern@.len(),
            0 < m <= n,
            i <= n - m + 1,
            forall|j: int| 0 <= j < i ==> #[trigger] s@.subrange(j, j + m) != pattern@,
        decreases n - m + 1 - i,
    {
        let window = s.substring_char(i, i + m);
        if crate::text::str_eq(window, pattern) {
            return true;
        }
        i = i + 1;
    }
    proof {
        if occurs_in(s@, pattern@) {
            let k = choose|k: int| 0 <= k && k + pattern@.len() <= s@.len() && #[trigger] s@.subrange(k, k + pattern@.len()) == pattern@;
            assert(s@.subrange(k, k + m) == pattern@);
        }
    }
    false
}

/// The content security policy of a page that the initialization scripts were
/// put into, so that they are allowed to run.
pub fn csp_with_hashes(csp: &str, hashes: &Vec<String>) -> (r: String)
    ensures
        r@ == csp_with_hashes_spec(csp@, hashes@.map_values(|h: String| h@)),
{
    let joined = join_with_spaces(hashes);
    if contains(csp, "script-src") {
        let mut to = String::from_str("script-src ");
        to.append(joined.as_str());
        proof { reveal_strlit("script-src"); }
        replace(csp, "script-src", to.as_str())
    } else {
        let mut r = String::from_str(csp);
        r.append(" script-src ");
        r.append(joined.as_str());
        r
    }
}

/// Whether the initialization scripts are put into a response: only into an
/// HTML page, as told by a content type of exactly `text/html`, and only when
/// there are scripts.
pub open spec fn injects_scripts_spec(content_type: Option<Seq<u8>>, script_count: nat) -> bool {
    script_count > 0 && content_type == Some("text/html"@.map_values(|c: char| c as u8))
}

/// Whether the initialization scripts are put into a response.
#[verifier::loop_isolation(false)]
pub fn injects_scripts(content_type: Option<&[u8]>, script_count: usize) -> (b: bool)
    ensures
        b == injects_scripts_spec(match content_type {
            Some(c) => Some(c@),
            None => None,
        }, script_count as nat),
{
    proof { reveal_strlit("text/html"); }
    let expected: [u8; 9] = [116, 101, 120, 116, 47, 104, 116, 109, 108];
    let ghost html = "text/html"@.map_values(|c: char| c as u8);
    assert(expected@ =~= html);
    if script_count == 0 {
        return false;
    }
    match content_type {
        Some(c) => {
            if c.len() != 9 {
                assert(html.len() == 9);
                assert(c@ != html);
                return false;
            }
            let mut i: usize = 0;
            while i < 9
                invariant
                    c@.len() == 9,
                    i <= 9,
                    expected@ == html,
                    html == "text/html"@.map_values(|c: char| c as u8),
                    script_count > 0,
                    forall|j: int| 0 <= j < i ==> c@[j] == expected@[j],
                decreases 9 - i,
            {
                if c[i] != expected[i] {
                    assert(c@[i as int] != html[i as int]);
                    return false;
                }
                i = i + 1;
            }
            assert(c@ =~= html);
            true
        },
        None => false,
    }
}

} // verus!
