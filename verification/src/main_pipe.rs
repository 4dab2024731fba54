use vstd::prelude::*;

verus! {

/// The kind of a message sent to the Android main thread.
#[derive(Debug, Clone, Copy, PartialEq, Eq, Structural)]
pub enum MessageKind {
    CreateWebView,
    Eval,
    SetBackgroundColor,
    GetWebViewVersion,
    GetUrl,
    Jni,
    LoadUrl,
}

/// Whether the main thread acts on a message: creating the webview and asking
/// for the engine version need no webview; every other message is dropped until
/// the webview exists.
pub fn handles_message(kind: MessageKind, has_webview: bool) -> (b: bool)
    ensures
        kind == MessageKind::CreateWebView || kind == MessageKind::GetWebViewVersion ==> b,
        !(kind == MessageKind::CreateWebView || kind == MessageKind::GetWebViewVersion) ==> b == has_webview,
{
    match kind {
        MessageKind::CreateWebView => true,
        MessageKind::GetWebViewVersion => true,
        _ => has_webview,
    }
}

/// The arguments of Android's `Color.argb` for a color: alpha first, then red,
/// green and blue.
pub fn color_argb_args(color: (u8, u8, u8, u8)) -> (args: (u8, u8, u8, u8))
    ensures
        args == (color.3, color.0, color.1, color.2),
{
    (color.3, color.0, color.1, color.2)
}

/// The Java method that loads a URL: the first load, made while the webview is
/// created, goes through the main-thread variant.
pub fn load_url_method(main_thread: bool) -> (name: &'static str)
    ensures
        main_thread ==> name@ == "loadUrlMainThread"@,
        !main_thread ==> name@ == "loadUrl"@,
{
    if main_thread { "loadUrlMainThread" } else { "loadUrl" }
}

/// Whether a URL that is about to load is overridden: the navigation handler
/// answers whether to allow it, and Android asks the opposite question; with no
/// handler nothing is overridden.
pub fn should_override_url_loading(allow: Option<bool>) -> (b: bool)
    ensures
        allow matches Some(a) ==> b == !a,
        allow is None ==> !b,
{
    match allow {
        Some(a) => !a,
        None => false,
    }
}

} // verus!
