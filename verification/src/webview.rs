use vstd::prelude::*;
use crate::error::Error;
use crate::text::{decimal, push_decimal, push_signed_decimal, signed_decimal};
use crate::custom_protocol::{navigation_url, navigation_url_spec};
use crate::builder::{parse_url, parsed_url};

verus! {

/// Type of a page loading event.
#[derive(Debug, Clone, Copy, PartialEq, Eq, Structural)]
pub enum PageLoadEvent {
    /// The content of the page has started loading.
    Started,
    /// The page content has finished loading.
    Finished,
}

/// The color theme of a webview, which sets `prefers-color-scheme`.
#[derive(Debug, Clone, Copy, PartialEq, Eq, Structural)]
pub enum Theme {
    Dark,
    Light,
    Auto,
}

/// How much memory a webview should try to use.
#[derive(Debug, Clone, Copy, PartialEq, Eq, Structural)]
pub enum MemoryUsageLevel {
    Normal,
    Low,
}

/// The scrollbar style to use in the webview.
#[derive(Debug, Clone, Copy, PartialEq, Eq, Structural)]
pub enum ScrollBarStyle {
    /// The browser default scrollbar style.
    Default,
    /// Fluent UI style overlay scrollbars.
    FluentOverlay,
}

/// The WebView2 preferred color scheme value of a theme: auto 0, light 1, dark 2.
pub open spec fn color_scheme_spec(theme: Theme) -> i32 {
    match theme {
        Theme::Auto => 0,
        Theme::Light => 1,
        Theme::Dark => 2,
    }
}

/// The WebView2 preferred color scheme value of a theme.
pub fn preferred_color_scheme(theme: Theme) -> (v: i32)
    ensures
        v == color_scheme_spec(theme),
{
    match theme {
        Theme::Auto => 0,
        Theme::Light => 1,
        Theme::Dark => 2,
    }
}

/// The WebView2 memory usage target level of a level: normal 0, low 1.
pub fn memory_usage_target_level(level: MemoryUsageLevel) -> (v: i32)
    ensures
        level == MemoryUsageLevel::Normal ==> v == 0,
        level == MemoryUsageLevel::Low ==> v == 1,
{
    match level {
        MemoryUsageLevel::Normal => 0,
        MemoryUsageLevel::Low => 1,
    }
}

/// Whether a Windows version is Windows 7 (version 6.1).
pub fn is_windows_7(major: u32, minor: u32) -> (b: bool)
    ensures
        b == (major == 6 && minor == 1),
{
    major == 6 && minor == 1
}

/// The default background color given to WebView2: the color itself, made
/// opaque unless it is fully transparent, and always opaque on Windows 7, which
/// cannot show a translucent webview.
pub fn webview2_background_color(color: (u8, u8, u8, u8), windows_7: bool) -> (c: (u8, u8, u8, u8))
    ensures
        c.0 == color.0 && c.1 == color.1 && c.2 == color.2,
        c.3 == (if windows_7 || color.3 != 0 { 255u8 } else { color.3 }),
{
    let (r, g, b, mut a) = color;
    if windows_7 || a != 0 {
        a = 255;
    }
    (r, g, b, a)
}

/// The answer of the application to a request for a new window.
pub enum NewWindowResponse<W> {
    /// Let the engine open the window.
    Allow,
    /// Open the page in this webview, created by the application.
    Create { webview: W },
    /// Open no window.
    Deny,
}

/// What WebView2 is told of a new window request: whether it was handled (the
/// engine opens no window of its own), and the webview that shows the page, if
/// the application gave one.
pub struct NewWindowOutcome<W> {
    pub handled: bool,
    pub new_window: Option<W>,
}

/// What WebView2 is told of a new window request, given the application's
/// answer; with no handler for new windows, the request is handled and no
/// window opens.
pub fn new_window_outcome<W>(response: Option<NewWindowResponse<W>>) -> (o: NewWindowOutcome<W>)
    ensures
        match response {
            Some(NewWindowResponse::Allow) => !o.handled && o.new_window is None,
            Some(NewWindowResponse::Create { webview }) => o.handled && o.new_window == Some(webview),
            Some(NewWindowResponse::Deny) => o.handled && o.new_window is None,
            None => o.handled && o.new_window is None,
        },
{
    match response {
        Some(NewWindowResponse::Allow) => NewWindowOutcome { handled: false, new_window: None },
        Some(NewWindowResponse::Create { webview }) => NewWindowOutcome { handled: true, new_window: Some(webview) },
        Some(NewWindowResponse::Deny) => NewWindowOutcome { handled: true, new_window: None },
        None => NewWindowOutcome { handled: true, new_window: None },
    }
}

// The values of `COREWEBVIEW2_DOWNLOAD_STATE`.
pub const COREWEBVIEW2_DOWNLOAD_STATE_IN_PROGRESS: i32 = 0;
pub const COREWEBVIEW2_DOWNLOAD_STATE_INTERRUPTED: i32 = 1;
pub const COREWEBVIEW2_DOWNLOAD_STATE_COMPLETED: i32 = 2;

/// A download that ended: whether it succeeded, and where the file is when it did.
pub struct DownloadCompletion {
    pub success: bool,
    pub path: Option<String>,
}

/// What the application is told when the state of a download changes: nothing
/// while it is in progress; otherwise whether it completed, with the file's path
/// only when it did. `result_path` is where the engine put the file.
pub fn download_state_changed(state: i32, result_path: String) -> (c: Option<DownloadCompletion>)
    ensures
        state == COREWEBVIEW2_DOWNLOAD_STATE_IN_PROGRESS ==> c is None,
        state != COREWEBVIEW2_DOWNLOAD_STATE_IN_PROGRESS ==> (c matches Some(d) && {
            &&& d.success == (state == COREWEBVIEW2_DOWNLOAD_STATE_COMPLETED)
            &&& d.success ==> (d.path matches Some(p) && p@ == result_path@)
            &&& !d.success ==> d.path is None
        }),
{
    if state == COREWEBVIEW2_DOWNLOAD_STATE_IN_PROGRESS {
        return None;
    }
    let success = state == COREWEBVIEW2_DOWNLOAD_STATE_COMPLETED;
    let path = if success { Some(result_path) } else { None };
    Some(DownloadCompletion { success, path })
}

/// Where a webview keeps its website data.
#[derive(Debug, Clone, Copy)]
pub enum DataStore {
    /// Nothing is kept after the webview is gone.
    NonPersistent,
    /// The store with this identifier.
    ForIdentifier([u8; 16]),
    /// The default store.
    Default,
}

/// The data store of a WebKit webview: incognito webviews keep nothing; a webview
/// given a store identifier uses that store where custom stores exist (macOS 14
/// and iOS 17 onwards); any other uses the default store.
pub fn data_store_for(incognito: bool, os_major: u64, is_ios: bool, identifier: Option<[u8; 16]>) -> (d: DataStore)
    ensures
        incognito ==> d == DataStore::NonPersistent,
        !incognito && (if is_ios { os_major >= 17 } else { os_major >= 14 }) && identifier is Some
            ==> d == DataStore::ForIdentifier(identifier.unwrap()),
        !incognito && !((if is_ios { os_major >= 17 } else { os_major >= 14 }) && identifier is Some)
            ==> d == DataStore::Default,
{
    let custom_data_store_available = if is_ios { os_major >= 17 } else { os_major >= 14 };
    if incognito {
        DataStore::NonPersistent
    } else {
        match identifier {
            Some(id) => if custom_data_store_available {
                DataStore::ForIdentifier(id)
            } else {
                DataStore::Default
            },
            None => DataStore::Default,
        }
    }
}

/// The engine version written as `major.minor.micro`.
pub open spec fn version_text(major: u32, minor: u32, micro: u32) -> Seq<char> {
    decimal(major as nat) + "."@ + decimal(minor as nat) + "."@ + decimal(micro as nat)
}

/// The version of a WebKit engine that reports it as three numbers.
pub fn platform_webview_version(major: u32, minor: u32, micro: u32) -> (v: String)
    ensures
        v@ == version_text(major, minor, micro),
{
    let mut v = String::new();
    push_decimal(&mut v, major as u64);
    v.append(".");
    push_decimal(&mut v, minor as u64);
    v.append(".");
    push_decimal(&mut v, micro as u64);
    assert(v@ =~= version_text(major, minor, micro));
    v
}

/// The version of the web engine installed on the machine, which reports it as
/// the three numbers `major`, `minor` and `micro`, written `major.minor.micro`.
pub fn webview_version(major: u32, minor: u32, micro: u32) -> (r: Result<String, Error>)
    ensures
        r matches Ok(v) && v@ == version_text(major, minor, micro),
{
    Ok(platform_webview_version(major, minor, micro))
}

/// The identifier of a webview: the one the application gave, or else the
/// handle of its container window written in decimal.
pub fn webview_id(id: Option<String>, hwnd: isize) -> (r: String)
    ensures
        id matches Some(i) ==> r@ == i@,
        id is None ==> r@ == signed_decimal(hwnd as int),
{
    match id {
        Some(i) => i,
        None => {
            let mut r = String::new();
            push_signed_decimal(&mut r, hwnd as i64);
            assert(r@ =~= signed_decimal(hwnd as int));
            r
        },
    }
}

/// The background color a webview is created with: fully transparent for a
/// transparent webview, else the color asked for, if any.
pub fn initial_background_color(transparent: bool, background_color: Option<(u8, u8, u8, u8)>) -> (c: Option<(u8, u8, u8, u8)>)
    ensures
        transparent ==> c == Some((0u8, 0u8, 0u8, 0u8)),
        !transparent ==> c == background_color,
{
    if transparent {
        Some((0, 0, 0, 0))
    } else {
        background_color
    }
}

/// The background color a WebView2 webview is given when it is created, if
/// any: the color asked for, as WebView2 takes it, unless the webview is
/// transparent; a transparent webview gets a fully transparent background,
/// except on Windows 7, which cannot show one and keeps the engine's default.
pub fn webview2_initial_background(transparent: bool, background_color: Option<(u8, u8, u8, u8)>, windows_7: bool) -> (c: Option<(u8, u8, u8, u8)>)
    ensures
        !transparent ==> c == (match background_color {
            Some(color) => Some((color.0, color.1, color.2, if windows_7 || color.3 != 0 { 255u8 } else { color.3 })),
            None => None::<(u8, u8, u8, u8)>,
        }),
        transparent && !windows_7 ==> c == Some((0u8, 0u8, 0u8, 0u8)),
        transparent && windows_7 ==> c is None,
{
    if transparent {
        if windows_7 {
            None
        } else {
            Some(webview2_background_color((0, 0, 0, 0), windows_7))
        }
    } else {
        match background_color {
            Some(color) => Some(webview2_background_color(color, windows_7)),
            None => None,
        }
    }
}

/// What a webview shows first.
#[derive(Debug)]
pub enum InitialContent {
    /// The page at this URL.
    Url(String),
    /// This html, which gets a `null` origin.
    Html(String),
}

/// What a WebView2 webview shows first: the page at `url` when one is given,
/// with a URL of a custom protocol rewritten to its `http_or_https` form, and
/// the html ignored; else the html, if any.
pub fn initial_content(url: Option<String>, html: Option<String>, http_or_https: &str, custom_protocols: &Vec<String>) -> (c: Option<InitialContent>)
    ensures
        url matches Some(u) ==> (c matches Some(InitialContent::Url(v))
            && v@ == navigation_url_spec(u@, http_or_https@, custom_protocols@)),
        url is None ==> (html matches Some(h) ==> (c matches Some(InitialContent::Html(g)) && g@ == h@)),
        url is None && html is None ==> c is None,
{
    match url {
        Some(u) => Some(InitialContent::Url(navigation_url(u.as_str(), http_or_https, custom_protocols))),
        None => match html {
            Some(h) => Some(InitialContent::Html(h)),
            None => None,
        },
    }
}

/// What WebView2 is told of a download about to start, once the application's
/// handler for started downloads has answered.
#[derive(Debug)]
pub enum DownloadStart {
    /// Save the download at this path; the download is handled, so the engine
    /// shows no dialog of its own.
    SaveAt(String),
    /// Cancel the download.
    Cancel,
}

/// What WebView2 is told of a download about to start: `allowed` is the answer
/// of the application's handler, and `path` the result path as the handler left
/// it. An allowed download is saved at that path, simplified for programs that
/// do not take `\\?\` paths; a refused one is cancelled.
pub fn download_starting(allowed: bool, path: &str) -> (d: DownloadStart)
    ensures
        allowed ==> (d matches DownloadStart::SaveAt(p) && simplified_path_outcome(path@, p@)),
        !allowed ==> d is Cancel,
{
    if allowed {
        DownloadStart::SaveAt(simplified_path(path))
    } else {
        DownloadStart::Cancel
    }
}

/// Whether `simplified` may be what a path is simplified to: the path itself,
/// or, for a path that starts with the verbatim prefix `\\?\`, the path
/// without it.
pub open spec fn simplified_path_outcome(path: Seq<char>, simplified: Seq<char>) -> bool {
    ||| simplified == path
    ||| (path.len() >= 4 && path.subrange(0, 4) == seq!['\\', '\\', '?', '\\']
        && simplified == path.subrange(4, path.len() as int))
}

/// `dunce::simplified`: the path in the most widely understood form. Its source
/// strips the verbatim prefix `\\?\` of a Windows path where the path means
/// the same without it, and otherwise (on any other platform too) gives the
/// path back unchanged. Which of the two happens is not stated: it depends on
/// the platform and on the rules for Windows file names.
#[verifier::external_body]
fn simplified_path(path: &str) -> (s: String)
    ensures
        simplified_path_outcome(path@, s@),
{
    dunce::simplified(std::path::Path::new(path)).to_string_lossy().into_owned()
}

/// What a WebView2 webview does when a navigation starts, given the
/// application's navigation handler: the handler is asked about the URL, and
/// the navigation is cancelled unless it allows it.
pub fn navigation_starting<F: Fn(String) -> bool>(handler: &F, uri: String) -> (cancel: bool)
    requires
        call_requires(*handler, (uri,)),
    ensures
        exists|allow: bool| call_ensures(*handler, (uri,), allow) && cancel == !allow,
{
    let allow = handler(uri);
    !allow
}

/// The URL a webview shows, from the URI its engine reports: the URI parsed as
/// a URL and written in its normal form; a URI that is not a URL is refused.
pub fn current_url(uri: &str) -> (r: Result<String, Error>)
    ensures
        parsed_url(uri@) matches Some(u) ==> (r matches Ok(s) && s@ == u),
        parsed_url(uri@) is None ==> r == Err::<String, Error>(Error::UrlParse),
{
    match parse_url(uri) {
        Some(u) => Ok(u),
        None => Err(Error::UrlParse),
    }
}

/// The options a WebView2 controller is created with.
#[derive(Debug)]
pub struct ControllerOptions {
    /// Whether the webview keeps no data.
    pub in_private_mode: bool,
    /// The default background color, if one is set.
    pub default_background_color: Option<(u8, u8, u8, u8)>,
}

/// The options a WebView2 controller is created with: in-private mode for an
/// incognito webview, and the background color, if any, made opaque unless it
/// is fully transparent.
pub fn controller_options(incognito: bool, background_color: Option<(u8, u8, u8, u8)>) -> (o: ControllerOptions)
    ensures
        o.in_private_mode == incognito,
        o.default_background_color == (match background_color {
            Some(c) => Some((c.0, c.1, c.2, if c.3 == 0 { 0u8 } else { 255u8 })),
            None => None::<(u8, u8, u8, u8)>,
        }),
{
    let default_background_color = match background_color {
        Some(c) => Some(webview2_background_color(c, false)),
        None => None,
    };
    ControllerOptions { in_private_mode: incognito, default_background_color }
}

// Window styles of a webview's container window.
pub const WS_CHILD: u32 = 0x4000_0000;
pub const WS_VISIBLE: u32 = 0x1000_0000;
pub const WS_CLIPCHILDREN: u32 = 0x0200_0000;

/// The style of a webview's container window: a child window that clips its
/// children, visible when the webview is.
pub fn container_window_style(visible: bool) -> (style: u32)
    ensures
        style == (if visible { WS_CHILD | WS_CLIPCHILDREN | WS_VISIBLE } else { WS_CHILD | WS_CLIPCHILDREN }),
{
    let mut style = WS_CHILD | WS_CLIPCHILDREN;
    if visible {
        style = style | WS_VISIBLE;
    }
    style
}

/// WebView2's preferred color schemes: the system's is 0, light 1, dark 2.
pub proof fn color_scheme_values(theme: Theme)
    ensures
        theme == Theme::Auto ==> color_scheme_spec(theme) == 0,
        theme == Theme::Light ==> color_scheme_spec(theme) == 1,
        theme == Theme::Dark ==> color_scheme_spec(theme) == 2,
{
}
} // verus!
