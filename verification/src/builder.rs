use vstd::prelude::*;
use crate::error::Error;
use crate::proxy::{ProxyConfig, additional_browser_args, browser_arguments_spec};
use crate::webview::{PageLoadEvent, Theme};
use crate::process_failed::WebView2ProcessFailedInfo;
use crate::drag_drop::PositionedFileDrop;
use crate::handler::{Handler, Handler2, Handler3};

verus! {

/// What the `url` crate makes of a text when it parses it as a URL: the URL
/// written out in its normal form, or nothing when the text is not a URL.
pub uninterp spec fn parsed_url(text: Seq<char>) -> Option<Seq<char>>;

/// `url::Url::parse`, with the URL written back out (`Url::as_str`): the normal
/// form of the URL, or nothing when `text` is not a URL.
#[verifier::external_body]
pub(crate) fn parse_url(text: &str) -> (r: Option<String>)
    ensures
        r matches Some(u) ==> parsed_url(text@) == Some(u@),
        r is None ==> parsed_url(text@) is None,
{
    match url::Url::parse(text) {
        Ok(u) => Some(String::from(u.as_str())),
        Err(_) => None,
    }
}

/// The color of a webview's background: red, green, blue and alpha.
pub type RGBA = (u8, u8, u8, u8);

/// The attributes a webview is built with.
pub struct WebViewAttributes {
    pub user_agent: Option<String>,
    pub visible: bool,
    pub transparent: bool,
    pub background_color: Option<RGBA>,
    /// The URL to load first, in its normal form.
    pub url: Option<String>,
    /// Headers sent with the first request, each a name and the value's bytes.
    pub headers: Option<Vec<(String, Vec<u8>)>>,
    pub zoom_hotkeys_enabled: bool,
    pub html: Option<String>,
    /// Scripts run at the start of every page, in order.
    pub initialization_scripts: Vec<String>,
    /// The names of the custom protocols the webview serves.
    pub custom_protocols: Vec<String>,
    pub clipboard: bool,
    pub devtools: bool,
    pub accept_first_mouse: bool,
    pub back_forward_navigation_gestures: bool,
    pub incognito: bool,
    pub autoplay: bool,
    pub proxy_config: Option<ProxyConfig>,
    /// Told of each message the page posts with `window.ipc.postMessage`.
    pub ipc_handler: Option<Box<dyn Handler<String, ()>>>,
    /// Told of files dragged over and dropped on the webview; answering `true` blocks the default handling of the drop.
    pub file_drop_handler: Option<Box<dyn Handler<PositionedFileDrop, bool>>>,
    /// Asked whether the webview may navigate to a URL.
    pub navigation_handler: Option<Box<dyn Handler<String, bool>>>,
    /// Asked, with its URL and the suggested path, whether a download starts, and answers with the path to save it at, or nothing to refuse it.
    pub download_started_handler: Option<Box<dyn Handler2<String, String, Option<String>>>>,
    /// Told when a download ends, with its URL, the file's path when known, and whether it succeeded.
    pub download_completed_handler: Option<Box<dyn Handler3<String, Option<String>, bool, ()>>>,
    /// Asked whether a page may open a URL in a new window.
    pub new_window_req_handler: Option<Box<dyn Handler<String, bool>>>,
    /// Told of each new title of the document.
    pub document_title_changed_handler: Option<Box<dyn Handler<String, ()>>>,
    /// Told when a page starts and finishes loading, with its URL.
    pub on_page_load_handler: Option<Box<dyn Handler2<PageLoadEvent, String, ()>>>,
}

/// The attributes of a webview nobody configured.
pub open spec fn default_attributes(a: WebViewAttributes) -> bool {
    &&& a.user_agent is None
    &&& a.visible
    &&& !a.transparent
    &&& a.background_color is None
    &&& a.url is None
    &&& a.headers is None
    &&& !a.zoom_hotkeys_enabled
    &&& a.html is None
    &&& a.initialization_scripts@.len() == 0
    &&& a.custom_protocols@.len() == 0
    &&& !a.clipboard
    &&& !a.devtools
    &&& !a.accept_first_mouse
    &&& !a.back_forward_navigation_gestures
    &&& !a.incognito
    &&& a.autoplay
    &&& a.proxy_config is None
    &&& a.ipc_handler is None
    &&& a.file_drop_handler is None
    &&& a.navigation_handler is None
    &&& a.download_started_handler is None
    &&& a.download_completed_handler is None
    &&& a.new_window_req_handler is None
    &&& a.document_title_changed_handler is None
    &&& a.on_page_load_handler is None
}

impl Default for WebViewAttributes {
    /// Visible, opaque, autoplaying and without developer tools; nothing else
    /// is set.
    fn default() -> (a: Self)
        ensures
            default_attributes(a),
    {
        WebViewAttributes {
            user_agent: None,
            visible: true,
            transparent: false,
            background_color: None,
            url: None,
            headers: None,
            zoom_hotkeys_enabled: false,
            html: None,
            initialization_scripts: Vec::new(),
            custom_protocols: Vec::new(),
            clipboard: false,
            devtools: false,
            accept_first_mouse: false,
            back_forward_navigation_gestures: false,
            incognito: false,
            autoplay: true,
            proxy_config: None,
            ipc_handler: None,
            file_drop_handler: None,
            navigation_handler: None,
            download_started_handler: None,
            download_completed_handler: None,
            new_window_req_handler: None,
            document_title_changed_handler: None,
            on_page_load_handler: None,
        }
    }
}

/// The attributes of a webview that only WebView2 has.
pub struct PlatformSpecificWebViewAttributes {
    pub additional_browser_args: Option<String>,
    pub browser_accelerator_keys: bool,
    pub theme: Option<Theme>,
    pub https_scheme: bool,
    /// Told when one of the webview's browser processes fails.
    pub process_failed_handler: Option<Box<dyn Handler<WebView2ProcessFailedInfo, ()>>>,
}

impl Default for PlatformSpecificWebViewAttributes {
    /// No browser arguments of the application's, accelerator keys enabled (as
    /// WebView2 has them), the system theme, and custom protocols served over
    /// `http` (as on macOS and Linux, for mixed content).
    fn default() -> (p: Self)
        ensures
            p.additional_browser_args is None,
            p.browser_accelerator_keys,
            p.theme is None,
            !p.https_scheme,
            p.process_failed_handler is None,
    {
        PlatformSpecificWebViewAttributes {
            additional_browser_args: None,
            browser_accelerator_keys: true,
            theme: None,
            https_scheme: false,
            process_failed_handler: None,
        }
    }
}

/// Builds a webview's attributes.
pub struct WebViewBuilder {
    pub webview: WebViewAttributes,
    pub platform_specific: PlatformSpecificWebViewAttributes,
}

impl WebViewBuilder {
    /// A builder with nothing configured.
    pub fn new() -> (b: Self)
        ensures
            default_attributes(b.webview),
            b.platform_specific.additional_browser_args is None,
            b.platform_specific.browser_accelerator_keys,
            b.platform_specific.theme is None,
            !b.platform_specific.https_scheme,
            b.platform_specific.process_failed_handler is None,
    {
        WebViewBuilder { webview: WebViewAttributes::default(), platform_specific: PlatformSpecificWebViewAttributes::default() }
    }

    /// Sets whether swiping navigates back and forward.
    pub fn with_back_forward_navigation_gestures(self, gesture: bool) -> (b: Self)
        ensures
            b == (WebViewBuilder { webview: (WebViewAttributes { back_forward_navigation_gestures: b.webview.back_forward_navigation_gestures, ..self.webview }), ..self }),
            b.webview.back_forward_navigation_gestures == gesture,
    {
        let mut b = self;
        b.webview.back_forward_navigation_gestures = gesture;
        b
    }

    /// Sets whether the webview is transparent.
    pub fn with_transparent(self, transparent: bool) -> (b: Self)
        ensures
            b == (WebViewBuilder { webview: (WebViewAttributes { transparent: b.webview.transparent, ..self.webview }), ..self }),
            b.webview.transparent == transparent,
    {
        let mut b = self;
        b.webview.transparent = transparent;
        b
    }

    /// Sets the background color.
    pub fn with_background_color(self, background_color: RGBA) -> (b: Self)
        ensures
            b == (WebViewBuilder { webview: (WebViewAttributes { background_color: b.webview.background_color, ..self.webview }), ..self }),
            b.webview.background_color == Some(background_color),
    {
        let mut b = self;
        b.webview.background_color = Some(background_color);
        b
    }

    /// Sets whether the webview is visible.
    pub fn with_visible(self, visible: bool) -> (b: Self)
        ensures
            b == (WebViewBuilder { webview: (WebViewAttributes { visible: b.webview.visible, ..self.webview }), ..self }),
            b.webview.visible == visible,
    {
        let mut b = self;
        b.webview.visible = visible;
        b
    }

    /// Sets whether media play without a user gesture.
    pub fn with_autoplay(self, autoplay: bool) -> (b: Self)
        ensures
            b == (WebViewBuilder { webview: (WebViewAttributes { autoplay: b.webview.autoplay, ..self.webview }), ..self }),
            b.webview.autoplay == autoplay,
    {
        let mut b = self;
        b.webview.autoplay = autoplay;
        b
    }

    /// Adds a script run at the start of every page, after those added before;
    /// an empty script is not added.
    pub fn with_initialization_script(self, js: &str) -> (b: Self)
        ensures
            b == (WebViewBuilder { webview: (WebViewAttributes { initialization_scripts: b.webview.initialization_scripts, ..self.webview }), ..self }),
            js@.len() == 0 ==> b.webview.initialization_scripts@ == self.webview.initialization_scripts@,
            js@.len() > 0 ==> b.webview.initialization_scripts@.len() == self.webview.initialization_scripts@.len() + 1
                && b.webview.initialization_scripts@.drop_last() == self.webview.initialization_scripts@
                && b.webview.initialization_scripts@.last()@ == js@,
    {
        let mut b = self;
        if js.unicode_len() > 0 {
            b.webview.initialization_scripts.push(String::from_str(js));
            assert(b.webview.initialization_scripts@.drop_last() =~= self.webview.initialization_scripts@);
        }
        b
    }

    /// Adds a custom protocol by name, after those added before.
    pub fn with_custom_protocol(self, name: String) -> (b: Self)
        ensures
            b == (WebViewBuilder { webview: (WebViewAttributes { custom_protocols: b.webview.custom_protocols, ..self.webview }), ..self }),
            b.webview.custom_protocols@ == self.webview.custom_protocols@.push(name),
    {
        let mut b = self;
        b.webview.custom_protocols.push(name);
        b
    }

    /// Sets the URL to load first, given what parsing the text as a URL gave
    /// (`None` when it is not a URL), and the headers for its request.
    pub fn with_parsed_url(self, parsed: Option<String>, headers: Option<Vec<(String, Vec<u8>)>>) -> (r: Result<Self, Error>)
        ensures
            parsed is None ==> r == Err::<Self, Error>(Error::UrlParse),
            parsed matches Some(u) ==> (r matches Ok(b) && b.webview.url == Some(u) && b.webview.headers == headers),
            r matches Ok(b) ==> b == (WebViewBuilder { webview: (WebViewAttributes { url: b.webview.url, headers: b.webview.headers, ..self.webview }), ..self }),
    {
        match parsed {
            Some(u) => {
                let mut b = self;
                b.webview.url = Some(u);
                b.webview.headers = headers;
                Ok(b)
            },
            None => Err(Error::UrlParse),
        }
    }

    /// Sets the URL to load first, with headers for its request; a text that is
    /// not a URL is refused.
    pub fn with_url_and_headers(self, url: &str, headers: Vec<(String, Vec<u8>)>) -> (r: Result<Self, Error>)
        ensures
            parsed_url(url@) is None ==> r == Err::<Self, Error>(Error::UrlParse),
            parsed_url(url@) matches Some(u) ==> (r matches Ok(b) && b.webview.url matches Some(s) && s@ == u
                && b.webview.headers == Some(headers)),
            r matches Ok(b) ==> b == (WebViewBuilder { webview: (WebViewAttributes { url: b.webview.url, headers: b.webview.headers, ..self.webview }), ..self }),
    {
        self.with_parsed_url(parse_url(url), Some(headers))
    }

    /// Sets the URL to load first, with no headers; a text that is not a URL is
    /// refused.
    pub fn with_url(self, url: &str) -> (r: Result<Self, Error>)
        ensures
            parsed_url(url@) is None ==> r == Err::<Self, Error>(Error::UrlParse),
            parsed_url(url@) matches Some(u) ==> (r matches Ok(b) && b.webview.url matches Some(s) && s@ == u
                && b.webview.headers is None),
            r matches Ok(b) ==> b == (WebViewBuilder { webview: (WebViewAttributes { url: b.webview.url, headers: b.webview.headers, ..self.webview }), ..self }),
    {
        self.with_parsed_url(parse_url(url), None)
    }

    /// Sets the HTML to show when no URL is given.
    pub fn with_html(self, html: String) -> (r: Result<Self, Error>)
        ensures
            r matches Ok(b) && b == (WebViewBuilder { webview: (WebViewAttributes { html: b.webview.html, ..self.webview }), ..self }),
            r matches Ok(b) && b.webview.html == Some(html),
    {
        let mut b = self;
        b.webview.html = Some(html);
        Ok(b)
    }

    /// Sets the user agent.
    pub fn with_user_agent(self, user_agent: &str) -> (b: Self)
        ensures
            b == (WebViewBuilder { webview: (WebViewAttributes { user_agent: b.webview.user_agent, ..self.webview }), ..self }),
            b.webview.user_agent matches Some(u) && u@ == user_agent@,
    {
        let mut b = self;
        b.webview.user_agent = Some(String::from_str(user_agent));
        b
    }

    /// Sets whether the developer tools are available.
    pub fn with_devtools(self, devtools: bool) -> (b: Self)
        ensures
            b == (WebViewBuilder { webview: (WebViewAttributes { devtools: b.webview.devtools, ..self.webview }), ..self }),
            b.webview.devtools == devtools,
    {
        let mut b = self;
        b.webview.devtools = devtools;
        b
    }

    /// Sets whether the zoom hotkeys work.
    pub fn with_hotkeys_zoom(self, zoom: bool) -> (b: Self)
        ensures
            b == (WebViewBuilder { webview: (WebViewAttributes { zoom_hotkeys_enabled: b.webview.zoom_hotkeys_enabled, ..self.webview }), ..self }),
            b.webview.zoom_hotkeys_enabled == zoom,
    {
        let mut b = self;
        b.webview.zoom_hotkeys_enabled = zoom;
        b
    }

    /// Sets whether pages may read the clipboard.
    pub fn with_clipboard(self, clipboard: bool) -> (b: Self)
        ensures
            b == (WebViewBuilder { webview: (WebViewAttributes { clipboard: b.webview.clipboard, ..self.webview }), ..self }),
            b.webview.clipboard == clipboard,
    {
        let mut b = self;
        b.webview.clipboard = clipboard;
        b
    }

    /// Sets whether a click that activates the window also reaches the page.
    pub fn with_accept_first_mouse(self, accept_first_mouse: bool) -> (b: Self)
        ensures
            b == (WebViewBuilder { webview: (WebViewAttributes { accept_first_mouse: b.webview.accept_first_mouse, ..self.webview }), ..self }),
            b.webview.accept_first_mouse == accept_first_mouse,
    {
        let mut b = self;
        b.webview.accept_first_mouse = accept_first_mouse;
        b
    }

    /// Sets whether the webview keeps no data.
    pub fn with_incognito(self, incognito: bool) -> (b: Self)
        ensures
            b == (WebViewBuilder { webview: (WebViewAttributes { incognito: b.webview.incognito, ..self.webview }), ..self }),
            b.webview.incognito == incognito,
    {
        let mut b = self;
        b.webview.incognito = incognito;
        b
    }

    /// Sets the proxy the webview's traffic goes through.
    pub fn with_proxy_config(self, configuration: ProxyConfig) -> (b: Self)
        ensures
            b == (WebViewBuilder { webview: (WebViewAttributes { proxy_config: b.webview.proxy_config, ..self.webview }), ..self }),
            b.webview.proxy_config == Some(configuration),
    {
        let mut b = self;
        b.webview.proxy_config = Some(configuration);
        b
    }

    /// Sets the handler of the messages the page posts.
    pub fn with_ipc_handler<F: Fn(String) + 'static>(self, handler: F) -> (b: Self)
        ensures
            b == (WebViewBuilder { webview: (WebViewAttributes { ipc_handler: b.webview.ipc_handler, ..self.webview }), ..self }),
            b.webview.ipc_handler is Some,
    {
        let mut b = self;
        let boxed: Box<dyn Handler<String, ()>> = Box::new(handler);
        b.webview.ipc_handler = Some(boxed);
        b
    }

    /// Sets the handler of file drops.
    pub fn with_file_drop_handler<F: Fn(PositionedFileDrop) -> bool + 'static>(self, handler: F) -> (b: Self)
        ensures
            b == (WebViewBuilder { webview: (WebViewAttributes { file_drop_handler: b.webview.file_drop_handler, ..self.webview }), ..self }),
            b.webview.file_drop_handler is Some,
    {
        let mut b = self;
        let boxed: Box<dyn Handler<PositionedFileDrop, bool>> = Box::new(handler);
        b.webview.file_drop_handler = Some(boxed);
        b
    }

    /// Sets the handler that decides navigations.
    pub fn with_navigation_handler<F: Fn(String) -> bool + 'static>(self, handler: F) -> (b: Self)
        ensures
            b == (WebViewBuilder { webview: (WebViewAttributes { navigation_handler: b.webview.navigation_handler, ..self.webview }), ..self }),
            b.webview.navigation_handler is Some,
    {
        let mut b = self;
        let boxed: Box<dyn Handler<String, bool>> = Box::new(handler);
        b.webview.navigation_handler = Some(boxed);
        b
    }

    /// Sets the handler that decides downloads.
    pub fn with_download_started_handler<F: Fn(String, String) -> Option<String> + 'static>(self, handler: F) -> (b: Self)
        ensures
            b == (WebViewBuilder { webview: (WebViewAttributes { download_started_handler: b.webview.download_started_handler, ..self.webview }), ..self }),
            b.webview.download_started_handler is Some,
    {
        let mut b = self;
        let boxed: Box<dyn Handler2<String, String, Option<String>>> = Box::new(handler);
        b.webview.download_started_handler = Some(boxed);
        b
    }

    /// Sets the handler told of finished downloads.
    pub fn with_download_completed_handler<F: Fn(String, Option<String>, bool) + 'static>(self, handler: F) -> (b: Self)
        ensures
            b == (WebViewBuilder { webview: (WebViewAttributes { download_completed_handler: b.webview.download_completed_handler, ..self.webview }), ..self }),
            b.webview.download_completed_handler is Some,
    {
        let mut b = self;
        let boxed: Box<dyn Handler3<String, Option<String>, bool, ()>> = Box::new(handler);
        b.webview.download_completed_handler = Some(boxed);
        b
    }

    /// Sets the handler that decides new windows.
    pub fn with_new_window_req_handler<F: Fn(String) -> bool + 'static>(self, handler: F) -> (b: Self)
        ensures
            b == (WebViewBuilder { webview: (WebViewAttributes { new_window_req_handler: b.webview.new_window_req_handler, ..self.webview }), ..self }),
            b.webview.new_window_req_handler is Some,
    {
        let mut b = self;
        let boxed: Box<dyn Handler<String, bool>> = Box::new(handler);
        b.webview.new_window_req_handler = Some(boxed);
        b
    }

    /// Sets the handler told of title changes.
    pub fn with_document_title_changed_handler<F: Fn(String) + 'static>(self, handler: F) -> (b: Self)
        ensures
            b == (WebViewBuilder { webview: (WebViewAttributes { document_title_changed_handler: b.webview.document_title_changed_handler, ..self.webview }), ..self }),
            b.webview.document_title_changed_handler is Some,
    {
        let mut b = self;
        let boxed: Box<dyn Handler<String, ()>> = Box::new(handler);
        b.webview.document_title_changed_handler = Some(boxed);
        b
    }

    /// Sets the handler told of page loads.
    pub fn with_on_page_load_handler<F: Fn(PageLoadEvent, String) + 'static>(self, handler: F) -> (b: Self)
        ensures
            b == (WebViewBuilder { webview: (WebViewAttributes { on_page_load_handler: b.webview.on_page_load_handler, ..self.webview }), ..self }),
            b.webview.on_page_load_handler is Some,
    {
        let mut b = self;
        let boxed: Box<dyn Handler2<PageLoadEvent, String, ()>> = Box::new(handler);
        b.webview.on_page_load_handler = Some(boxed);
        b
    }

    /// The browser arguments WebView2 starts with: the application's, when it
    /// gave some, or the default ones for the webview's autoplay and proxy.
    pub fn browser_args(&self) -> (args: String)
        ensures
            self.platform_specific.additional_browser_args matches Some(a) ==> args@ == a@,
            self.platform_specific.additional_browser_args is None ==> args@ == browser_arguments_spec(
                self.webview.autoplay,
                match self.webview.proxy_config {
                    Some(c) => Some(c.proxy_connection),
                    None => None,
                },
            ),
    {
        match &self.platform_specific.additional_browser_args {
            Some(a) => a.clone(),
            None => match &self.webview.proxy_config {
                Some(c) => additional_browser_args(self.webview.autoplay, Some(&c.proxy_connection)),
                None => additional_browser_args(self.webview.autoplay, None),
            },
        }
    }

    /// The scheme custom protocols are served over on WebView2.
    pub fn custom_protocol_scheme(&self) -> (s: &'static str)
        ensures
            self.platform_specific.https_scheme ==> s@ == "https"@,
            !self.platform_specific.https_scheme ==> s@ == "http"@,
    {
        if self.platform_specific.https_scheme { "https" } else { "http" }
    }
}

/// Builder options that only WebView2 has.
pub trait WebViewBuilderExtWindows: Sized {
    /// Passes these arguments to WebView2 in place of the default ones.
    fn with_additional_browser_args(self, additional_args: String) -> Self;

    /// Sets whether the browser's own accelerator keys work.
    fn with_browser_accelerator_keys(self, enabled: bool) -> Self;

    /// Sets the theme, which sets `prefers-color-scheme`.
    fn with_theme(self, theme: Theme) -> Self;

    /// Sets whether custom protocols are served over `https` rather than `http`.
    fn with_https_scheme(self, enabled: bool) -> Self;

    /// Sets the handler told when one of this webview's browser processes
    /// fails; a webview built without one is told nothing.
    fn with_process_failed_handler<F: Fn(WebView2ProcessFailedInfo) + 'static>(self, handler: F) -> Self;
}

impl WebViewBuilderExtWindows for WebViewBuilder {
    fn with_additional_browser_args(self, additional_args: String) -> (b: Self)
        ensures
            b == (WebViewBuilder { platform_specific: (PlatformSpecificWebViewAttributes { additional_browser_args: b.platform_specific.additional_browser_args, ..self.platform_specific }), ..self }),
            b.platform_specific.additional_browser_args == Some(additional_args),
    {
        let mut b = self;
        b.platform_specific.additional_browser_args = Some(additional_args);
        b
    }

    fn with_browser_accelerator_keys(self, enabled: bool) -> (b: Self)
        ensures
            b == (WebViewBuilder { platform_specific: (PlatformSpecificWebViewAttributes { browser_accelerator_keys: b.platform_specific.browser_accelerator_keys, ..self.platform_specific }), ..self }),
            b.platform_specific.browser_accelerator_keys == enabled,
    {
        let mut b = self;
        b.platform_specific.browser_accelerator_keys = enabled;
        b
    }

    fn with_theme(self, theme: Theme) -> (b: Self)
        ensures
            b == (WebViewBuilder { platform_specific: (PlatformSpecificWebViewAttributes { theme: b.platform_specific.theme, ..self.platform_specific }), ..self }),
            b.platform_specific.theme == Some(theme),
    {
        let mut b = self;
        b.platform_specific.theme = Some(theme);
        b
    }

    fn with_https_scheme(self, enabled: bool) -> (b: Self)
        ensures
            b == (WebViewBuilder { platform_specific: (PlatformSpecificWebViewAttributes { https_scheme: b.platform_specific.https_scheme, ..self.platform_specific }), ..self }),
            b.platform_specific.https_scheme == enabled,
    {
        let mut b = self;
        b.platform_specific.https_scheme = enabled;
        b
    }

    fn with_process_failed_handler<F: Fn(WebView2ProcessFailedInfo) + 'static>(self, handler: F) -> (b: Self)
        ensures
            b == (WebViewBuilder { platform_specific: (PlatformSpecificWebViewAttributes { process_failed_handler: b.platform_specific.process_failed_handler, ..self.platform_specific }), ..self }),
            b.platform_specific.process_failed_handler is Some,
    {
        let mut b = self;
        let boxed: Box<dyn Handler<WebView2ProcessFailedInfo, ()>> = Box::new(handler);
        b.platform_specific.process_failed_handler = Some(boxed);
        b
    }
}

} // verus!
