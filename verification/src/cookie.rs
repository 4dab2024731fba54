use vstd::prelude::*;

verus! {

/// The cross-site policy of a cookie.
#[derive(Debug, Clone, Copy, PartialEq, Eq, Structural)]
pub enum SameSite {
    Strict,
    Lax,
    /// The `None` policy: sent on cross-site requests too.
    Unrestricted,
}

// The values of `COREWEBVIEW2_COOKIE_SAME_SITE_KIND`.
pub const COREWEBVIEW2_COOKIE_SAME_SITE_KIND_NONE: i32 = 0;
pub const COREWEBVIEW2_COOKIE_SAME_SITE_KIND_LAX: i32 = 1;
pub const COREWEBVIEW2_COOKIE_SAME_SITE_KIND_STRICT: i32 = 2;

/// The WebView2 value of a cross-site policy.
pub open spec fn same_site_code(s: SameSite) -> i32 {
    match s {
        SameSite::Unrestricted => COREWEBVIEW2_COOKIE_SAME_SITE_KIND_NONE,
        SameSite::Lax => COREWEBVIEW2_COOKIE_SAME_SITE_KIND_LAX,
        SameSite::Strict => COREWEBVIEW2_COOKIE_SAME_SITE_KIND_STRICT,
    }
}

/// The cross-site policy of a WebView2 cookie; values the library does not know
/// are read as the unrestricted policy, the most permissive one.
pub fn same_site_from_win32(kind: i32) -> (s: SameSite)
    ensures
        kind == COREWEBVIEW2_COOKIE_SAME_SITE_KIND_LAX ==> s == SameSite::Lax,
        kind == COREWEBVIEW2_COOKIE_SAME_SITE_KIND_STRICT ==> s == SameSite::Strict,
        kind != COREWEBVIEW2_COOKIE_SAME_SITE_KIND_LAX && kind != COREWEBVIEW2_COOKIE_SAME_SITE_KIND_STRICT ==> s == SameSite::Unrestricted,
{
    match kind {
        COREWEBVIEW2_COOKIE_SAME_SITE_KIND_LAX => SameSite::Lax,
        COREWEBVIEW2_COOKIE_SAME_SITE_KIND_STRICT => SameSite::Strict,
        _ => SameSite::Unrestricted,
    }
}

/// The WebView2 value of a cross-site policy.
pub fn same_site_to_win32(s: SameSite) -> (kind: i32)
    ensures
        kind == same_site_code(s),
{
    match s {
        SameSite::Unrestricted => COREWEBVIEW2_COOKIE_SAME_SITE_KIND_NONE,
        SameSite::Lax => COREWEBVIEW2_COOKIE_SAME_SITE_KIND_LAX,
        SameSite::Strict => COREWEBVIEW2_COOKIE_SAME_SITE_KIND_STRICT,
    }
}

/// A cookie's cross-site policy survives being written to WebView2 and read back.
pub proof fn same_site_round_trip(s: SameSite)
    ensures
        (same_site_code(s) == COREWEBVIEW2_COOKIE_SAME_SITE_KIND_LAX ==> s == SameSite::Lax),
        (same_site_code(s) == COREWEBVIEW2_COOKIE_SAME_SITE_KIND_STRICT ==> s == SameSite::Strict),
        (same_site_code(s) != COREWEBVIEW2_COOKIE_SAME_SITE_KIND_LAX
            && same_site_code(s) != COREWEBVIEW2_COOKIE_SAME_SITE_KIND_STRICT ==> s == SameSite::Unrestricted),
{
}

/// The WebView2 values of the cross-site policies: `None` is 0, `Lax` 1 and
/// `Strict` 2; reading a policy's value back gives the policy.
pub proof fn same_site_values(s: SameSite)
    ensures
        s == SameSite::Unrestricted ==> same_site_code(s) == 0,
        s == SameSite::Lax ==> same_site_code(s) == 1,
        s == SameSite::Strict ==> same_site_code(s) == 2,
{
}
} // verus!
