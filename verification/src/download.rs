use vstd::prelude::*;

verus! {

/// The handlers a download delegate calls: `started` decides whether a download
/// starts, given its URL and the path the engine suggests, and answers with the
/// path to download to, or nothing to refuse it;
/// `completed` is told when a download ends, with its URL, the file's path when
/// known, and whether it succeeded.
pub struct WryDownloadDelegateIvars<S, C> {
    pub started: Option<S>,
    pub completed: Option<C>,
}

/// The handlers a UI delegate calls: none.
pub struct WryWebViewUIDelegateIvars {}

impl<S: Fn(String, String) -> Option<String>, C: Fn(String, Option<String>, bool)> WryDownloadDelegateIvars<S, C> {
    /// Where a download goes: what the started handler answers for the URL and
    /// the suggested path; no path (the download is refused) when there is no
    /// handler.
    pub fn download_destination(&self, url: String, suggested_path: String) -> (dest: Option<String>)
        requires
            self.started matches Some(h) ==> call_requires(h, (url, suggested_path)),
        ensures
            self.started matches Some(h) ==> call_ensures(h, (url, suggested_path), dest),
            self.started is None ==> dest is None,
    {
        match &self.started {
            Some(handler) => handler(url, suggested_path),
            None => None,
        }
    }

    /// A download finished: the completed handler, if any, is told it
    /// succeeded, with no path.
    pub fn download_did_finish(&self, url: String)
        requires
            self.completed matches Some(h) ==> call_requires(h, (url, None::<String>, true)),
        ensures
            self.completed matches Some(h) ==> call_ensures(h, (url, None::<String>, true), ()),
    {
        if let Some(handler) = &self.completed {
            handler(url, None, true);
        }
    }

    /// A download failed: the completed handler, if any, is told it did not
    /// succeed, with no path.
    pub fn download_did_fail(&self, url: String)
        requires
            self.completed matches Some(h) ==> call_requires(h, (url, None::<String>, false)),
        ensures
            self.completed matches Some(h) ==> call_ensures(h, (url, None::<String>, false), ()),
    {
        if let Some(handler) = &self.completed {
            handler(url, None, false);
        }
    }
}

/// The answer to a page asking to capture the camera or microphone: granted.
pub fn media_capture_decision(capture_type: crate::objc_type::WKMediaCaptureType) -> (d: crate::objc_type::WKPermissionDecision)
    ensures
        d == crate::objc_type::WKPermissionDecision::Grant,
{
    crate::objc_type::WKPermissionDecision::Grant
}

/// Whether a download delegate is made: only when a started or a completed
/// handler is given.
pub fn needs_download_delegate(has_started: bool, has_completed: bool) -> (b: bool)
    ensures
        b == (has_started || has_completed),
{
    has_started || has_completed
}

} // verus!
