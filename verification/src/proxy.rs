use vstd::prelude::*;

verus! {

/// The protocol spoken with a proxy server.
#[derive(Debug, Clone, Copy, PartialEq, Eq, Structural)]
pub enum ProxyType {
    /// HTTP CONNECT
    Http,
    /// SOCKSv5
    Socks5,
}

/// Where a proxy server listens.
#[derive(Debug, Clone)]
pub struct ProxyEndpoint {
    /// Proxy server host (e.g. 192.168.0.100, localhost, example.com, etc.)
    pub host: String,
    /// Proxy server port (e.g. 1080, 3128, etc.)
    pub port: String,
}

/// How to connect to a proxy server.
#[derive(Debug, Clone)]
pub enum ProxyConnection {
    /// Connect to proxy server via HTTP CONNECT
    Http(ProxyEndpoint),
    /// Connect to proxy server via SOCKSv5
    Socks5(ProxyEndpoint),
}

/// The proxy a webview sends its traffic through.
#[derive(Debug, Clone)]
pub struct ProxyConfig {
    pub proxy_type: ProxyType,
    pub proxy_connection: ProxyConnection,
}

/// The URI of a proxy: its scheme, `://`, the host, `:` and the port.
pub open spec fn proxy_uri_spec(connection: ProxyConnection) -> Seq<char> {
    match connection {
        ProxyConnection::Http(e) => "http://"@ + e.host@ + ":"@ + e.port@,
        ProxyConnection::Socks5(e) => "socks5://"@ + e.host@ + ":"@ + e.port@,
    }
}

/// The URI of the proxy server that a connection goes to.
pub fn proxy_uri(connection: &ProxyConnection) -> (uri: String)
    ensures
        uri@ == proxy_uri_spec(*connection),
{
    let (scheme, endpoint) = match connection {
        ProxyConnection::Http(e) => ("http://", e),
        ProxyConnection::Socks5(e) => ("socks5://", e),
    };
    let mut uri = String::from_str(scheme);
    uri.append(endpoint.host.as_str());
    uri.append(":");
    uri.append(endpoint.port.as_str());
    uri
}

impl ProxyConfig {
    /// The URI of the proxy server this configuration connects to.
    pub fn uri(&self) -> (uri: String)
        ensures
            uri@ == proxy_uri_spec(self.proxy_connection),
    {
        proxy_uri(&self.proxy_connection)
    }
}

/// The browser arguments WebView2 starts with when the application gives none:
/// the features that get in the way are turned off, media may autoplay when asked
/// for, and the proxy server is named when there is one.
pub open spec fn browser_arguments_spec(autoplay: bool, proxy: Option<ProxyConnection>) -> Seq<char> {
    "--disable-features=msWebOOUI,msPdfOOUI,msSmartScreenProtection"@
        + (if autoplay { " --autoplay-policy=no-user-gesture-required"@ } else { Seq::<char>::empty() })
        + match proxy {
            Some(c) => " --proxy-server="@ + proxy_uri_spec(c),
            None => Seq::<char>::empty(),
        }
}

/// The default browser arguments for WebView2.
pub fn additional_browser_args(autoplay: bool, proxy: Option<&ProxyConnection>) -> (args: String)
    ensures
        args@ == browser_arguments_spec(autoplay, match proxy {
            Some(c) => Some(*c),
            None => None,
        }),
{
    let mut args = String::from_str("--disable-features=msWebOOUI,msPdfOOUI,msSmartScreenProtection");
    let ghost base = args@;
    if autoplay {
        args.append(" --autoplay-policy=no-user-gesture-required");
    }
    let ghost with_autoplay = args@;
    match proxy {
        Some(c) => {
            args.append(" --proxy-server=");
            let uri = proxy_uri(c);
            args.append(uri.as_str());
            assert(args@ =~= with_autoplay + (" --proxy-server="@ + proxy_uri_spec(*c)));
        },
        None => {
            assert(args@ =~= with_autoplay + Seq::<char>::empty());
        },
    }
    proof {
        if !autoplay {
            assert(with_autoplay =~= base + Seq::<char>::empty());
        }
    }
    args
}

} // verus!
