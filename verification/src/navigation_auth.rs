use vstd::prelude::*;

verus! {

/// How an authentication challenge is answered.
#[derive(Debug, Clone, Copy, PartialEq, Eq, Structural)]
pub enum ChallengeDisposition {
    /// Answer with the credential that was found.
    UseCredential,
    /// Let the system handle the challenge as it would by default.
    PerformDefaultHandling,
    /// Cancel the challenge.
    CancelAuthenticationChallenge,
}

/// The kind of an authentication challenge.
#[derive(Debug, Clone, Copy, PartialEq, Eq, Structural)]
pub enum AuthenticationMethod {
    /// The server's certificate is to be trusted or not.
    ServerTrust,
    /// The server asks for a client certificate.
    ClientCertificate,
    /// Any other challenge.
    Other,
}

/// The method of a challenge from the name the system gives it.
pub fn authentication_method(name: &str) -> (m: AuthenticationMethod)
    ensures
        name@ == "NSURLAuthenticationMethodServerTrust"@ ==> m == AuthenticationMethod::ServerTrust,
        name@ == "NSURLAuthenticationMethodClientCertificate"@ ==> m == AuthenticationMethod::ClientCertificate,
        name@ != "NSURLAuthenticationMethodServerTrust"@ && name@ != "NSURLAuthenticationMethodClientCertificate"@
            ==> m == AuthenticationMethod::Other,
{
    proof {
        reveal_strlit("NSURLAuthenticationMethodServerTrust");
        reveal_strlit("NSURLAuthenticationMethodClientCertificate");
        assert("NSURLAuthenticationMethodServerTrust"@[25] != "NSURLAuthenticationMethodClientCertificate"@[25]);
    }
    if crate::text::str_eq(name, "NSURLAuthenticationMethodServerTrust") {
        AuthenticationMethod::ServerTrust
    } else if crate::text::str_eq(name, "NSURLAuthenticationMethodClientCertificate") {
        AuthenticationMethod::ClientCertificate
    } else {
        AuthenticationMethod::Other
    }
}

/// What came of checking the server against the pinned certificate authority.
#[derive(Debug, Clone, Copy, PartialEq, Eq, Structural)]
pub enum PinnedTrust {
    /// The pinned certificate could not be read.
    CertificateUnreadable,
    /// The challenge carries no server trust.
    NoServerTrust,
    /// The server was evaluated against the pinned authority alone.
    Evaluated { trusted: bool },
}

/// How a server trust challenge is answered, by what came of the pinned check.
pub open spec fn server_trust_disposition_spec(pinned: Option<PinnedTrust>) -> ChallengeDisposition {
    match pinned {
        Some(PinnedTrust::Evaluated { trusted }) => if trusted {
            ChallengeDisposition::UseCredential
        } else {
            ChallengeDisposition::CancelAuthenticationChallenge
        },
        _ => ChallengeDisposition::PerformDefaultHandling,
    }
}

/// How a server trust challenge is answered: with a pinned certificate
/// authority, a server it vouches for is trusted and any other is refused
/// (never handed to the default handling); without one, or when the pinned
/// check could not be made, the system's own trust evaluation decides.
pub fn server_trust_disposition(pinned: Option<PinnedTrust>) -> (d: ChallengeDisposition)
    ensures
        d == server_trust_disposition_spec(pinned),
{
    match pinned {
        Some(PinnedTrust::Evaluated { trusted }) => {
            if trusted {
                ChallengeDisposition::UseCredential
            } else {
                ChallengeDisposition::CancelAuthenticationChallenge
            }
        },
        _ => ChallengeDisposition::PerformDefaultHandling,
    }
}

/// The password the client certificate bundle is opened with: the one given,
/// or the empty password.
pub fn client_certificate_password(password: Option<&str>) -> (p: &str)
    ensures
        password matches Some(q) ==> p@ == q@,
        password is None ==> p@ == ""@,
{
    match password {
        Some(q) => q,
        None => "",
    }
}

/// How a client certificate challenge is answered: with the identity found in
/// the configured certificate bundle, or by default handling when there is no
/// bundle or no identity could be had from it.
pub fn client_certificate_disposition(identity_found: bool) -> (d: ChallengeDisposition)
    ensures
        identity_found ==> d == ChallengeDisposition::UseCredential,
        !identity_found ==> d == ChallengeDisposition::PerformDefaultHandling,
{
    if identity_found {
        ChallengeDisposition::UseCredential
    } else {
        ChallengeDisposition::PerformDefaultHandling
    }
}

/// How an authentication challenge is answered, from its method and what the
/// platform found: `pinned` is the result of checking against a pinned
/// certificate authority (`None` when none is configured), and
/// `identity_found` whether a client identity was had from a configured bundle.
pub fn authentication_disposition(method: AuthenticationMethod, pinned: Option<PinnedTrust>, identity_found: bool) -> (d: ChallengeDisposition)
    ensures
        method == AuthenticationMethod::ServerTrust ==> d == server_trust_disposition_spec(pinned),
        method == AuthenticationMethod::ClientCertificate ==> d == (if identity_found {
            ChallengeDisposition::UseCredential
        } else {
            ChallengeDisposition::PerformDefaultHandling
        }),
        method == AuthenticationMethod::Other ==> d == ChallengeDisposition::PerformDefaultHandling,
{
    match method {
        AuthenticationMethod::ServerTrust => server_trust_disposition(pinned),
        AuthenticationMethod::ClientCertificate => client_certificate_disposition(identity_found),
        AuthenticationMethod::Other => ChallengeDisposition::PerformDefaultHandling,
    }
}

/// A server trust challenge is answered with a credential only when a pinned
/// certificate authority vouched for the server; a server the pinned authority
/// does not vouch for is refused, never left to the system's own evaluation.
pub proof fn pinned_authority_is_never_bypassed(pinned: Option<PinnedTrust>)
    ensures
        server_trust_disposition_spec(pinned) == ChallengeDisposition::UseCredential
            ==> pinned == Some(PinnedTrust::Evaluated { trusted: true }),
        pinned == Some(PinnedTrust::Evaluated { trusted: false })
            ==> server_trust_disposition_spec(pinned) == ChallengeDisposition::CancelAuthenticationChallenge,
{
}

} // verus!
