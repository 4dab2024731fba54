use vstd::prelude::*;

verus! {

/// The kind of WebView2 process failure.
#[derive(Debug, Clone, Copy, PartialEq, Eq, Structural)]
#[non_exhaustive]
pub enum WebView2ProcessFailedKind {
    /// The browser process exited.
    BrowserProcessExited,
    /// The main frame's renderer process exited.
    RenderProcessExited,
    /// The main frame's renderer process is unresponsive.
    RenderProcessUnresponsive,
    /// A renderer hosting a subframe exited.
    FrameRenderProcessExited,
    /// The GPU process exited.
    GpuProcessExited,
    /// A utility process exited.
    UtilityProcessExited,
    /// The sandbox helper process exited.
    SandboxHelperProcessExited,
    /// A PPAPI plugin process exited.
    PpapiPluginProcessExited,
    /// A PPAPI broker process exited.
    PpapiBrokerProcessExited,
    /// The runtime reported another failure kind.
    Unknown,
}

/// The reason reported by WebView2 for a process failure.
#[derive(Debug, Clone, Copy, PartialEq, Eq, Structural)]
#[non_exhaustive]
pub enum WebView2ProcessFailedReason {
    /// An unexpected failure occurred.
    Unexpected,
    /// The process became unresponsive.
    Unresponsive,
    /// The process was terminated.
    Terminated,
    /// The process crashed.
    Crashed,
    /// The process could not be launched.
    LaunchFailed,
    /// The process ran out of memory.
    OutOfMemory,
    /// The profile was deleted.
    ProfileDeleted,
    /// The runtime reported another failure reason.
    Unknown,
}

/// Details of a WebView2 process failure. The optional diagnostics are `None`
/// when the runtime does not offer the extended event arguments or cannot give
/// the value.
#[derive(Debug, Clone)]
#[non_exhaustive]
pub struct WebView2ProcessFailedInfo {
    /// The process and failure kind.
    pub kind: WebView2ProcessFailedKind,
    /// The failure reason, if available.
    pub reason: Option<WebView2ProcessFailedReason>,
    /// The process exit code, if available.
    pub exit_code: Option<i32>,
    /// A description of the failed process, if available.
    pub process_description: Option<String>,
}

// The values of `COREWEBVIEW2_PROCESS_FAILED_KIND`.
pub const COREWEBVIEW2_PROCESS_FAILED_KIND_BROWSER_PROCESS_EXITED: i32 = 0;
pub const COREWEBVIEW2_PROCESS_FAILED_KIND_RENDER_PROCESS_EXITED: i32 = 1;
pub const COREWEBVIEW2_PROCESS_FAILED_KIND_RENDER_PROCESS_UNRESPONSIVE: i32 = 2;
pub const COREWEBVIEW2_PROCESS_FAILED_KIND_FRAME_RENDER_PROCESS_EXITED: i32 = 3;
pub const COREWEBVIEW2_PROCESS_FAILED_KIND_UTILITY_PROCESS_EXITED: i32 = 4;
pub const COREWEBVIEW2_PROCESS_FAILED_KIND_SANDBOX_HELPER_PROCESS_EXITED: i32 = 5;
pub const COREWEBVIEW2_PROCESS_FAILED_KIND_GPU_PROCESS_EXITED: i32 = 6;
pub const COREWEBVIEW2_PROCESS_FAILED_KIND_PPAPI_PLUGIN_PROCESS_EXITED: i32 = 7;
pub const COREWEBVIEW2_PROCESS_FAILED_KIND_PPAPI_BROKER_PROCESS_EXITED: i32 = 8;

// The values of `COREWEBVIEW2_PROCESS_FAILED_REASON`.
pub const COREWEBVIEW2_PROCESS_FAILED_REASON_UNEXPECTED: i32 = 0;
pub const COREWEBVIEW2_PROCESS_FAILED_REASON_UNRESPONSIVE: i32 = 1;
pub const COREWEBVIEW2_PROCESS_FAILED_REASON_TERMINATED: i32 = 2;
pub const COREWEBVIEW2_PROCESS_FAILED_REASON_CRASHED: i32 = 3;
pub const COREWEBVIEW2_PROCESS_FAILED_REASON_LAUNCH_FAILED: i32 = 4;
pub const COREWEBVIEW2_PROCESS_FAILED_REASON_OUT_OF_MEMORY: i32 = 5;
pub const COREWEBVIEW2_PROCESS_FAILED_REASON_PROFILE_DELETED: i32 = 6;

/// The failure kind that a raw `COREWEBVIEW2_PROCESS_FAILED_KIND` stands for.
pub open spec fn process_failed_kind_spec(kind: i32) -> WebView2ProcessFailedKind {
    if kind == 0 {
        WebView2ProcessFailedKind::BrowserProcessExited
    } else if kind == 1 {
        WebView2ProcessFailedKind::RenderProcessExited
    } else if kind == 2 {
        WebView2ProcessFailedKind::RenderProcessUnresponsive
    } else if kind == 3 {
        WebView2ProcessFailedKind::FrameRenderProcessExited
    } else if kind == 4 {
        WebView2ProcessFailedKind::UtilityProcessExited
    } else if kind == 5 {
        WebView2ProcessFailedKind::SandboxHelperProcessExited
    } else if kind == 6 {
        WebView2ProcessFailedKind::GpuProcessExited
    } else if kind == 7 {
        WebView2ProcessFailedKind::PpapiPluginProcessExited
    } else if kind == 8 {
        WebView2ProcessFailedKind::PpapiBrokerProcessExited
    } else {
        WebView2ProcessFailedKind::Unknown
    }
}

/// The failure reason that a raw `COREWEBVIEW2_PROCESS_FAILED_REASON` stands for.
pub open spec fn process_failed_reason_spec(reason: i32) -> WebView2ProcessFailedReason {
    if reason == 0 {
        WebView2ProcessFailedReason::Unexpected
    } else if reason == 1 {
        WebView2ProcessFailedReason::Unresponsive
    } else if reason == 2 {
        WebView2ProcessFailedReason::Terminated
    } else if reason == 3 {
        WebView2ProcessFailedReason::Crashed
    } else if reason == 4 {
        WebView2ProcessFailedReason::LaunchFailed
    } else if reason == 5 {
        WebView2ProcessFailedReason::OutOfMemory
    } else if reason == 6 {
        WebView2ProcessFailedReason::ProfileDeleted
    } else {
        WebView2ProcessFailedReason::Unknown
    }
}

/// The failure kind a raw WebView2 value stands for; values the library does not
/// know give `Unknown`.
pub fn process_failed_kind(kind: i32) -> (k: WebView2ProcessFailedKind)
    ensures
        k == process_failed_kind_spec(kind),
{
    match kind {
        COREWEBVIEW2_PROCESS_FAILED_KIND_BROWSER_PROCESS_EXITED => WebView2ProcessFailedKind::BrowserProcessExited,
        COREWEBVIEW2_PROCESS_FAILED_KIND_RENDER_PROCESS_EXITED => WebView2ProcessFailedKind::RenderProcessExited,
        COREWEBVIEW2_PROCESS_FAILED_KIND_RENDER_PROCESS_UNRESPONSIVE => WebView2ProcessFailedKind::RenderProcessUnresponsive,
        COREWEBVIEW2_PROCESS_FAILED_KIND_FRAME_RENDER_PROCESS_EXITED => WebView2ProcessFailedKind::FrameRenderProcessExited,
        COREWEBVIEW2_PROCESS_FAILED_KIND_UTILITY_PROCESS_EXITED => WebView2ProcessFailedKind::UtilityProcessExited,
        COREWEBVIEW2_PROCESS_FAILED_KIND_SANDBOX_HELPER_PROCESS_EXITED => WebView2ProcessFailedKind::SandboxHelperProcessExited,
        COREWEBVIEW2_PROCESS_FAILED_KIND_GPU_PROCESS_EXITED => WebView2ProcessFailedKind::GpuProcessExited,
        COREWEBVIEW2_PROCESS_FAILED_KIND_PPAPI_PLUGIN_PROCESS_EXITED => WebView2ProcessFailedKind::PpapiPluginProcessExited,
        COREWEBVIEW2_PROCESS_FAILED_KIND_PPAPI_BROKER_PROCESS_EXITED => WebView2ProcessFailedKind::PpapiBrokerProcessExited,
        _ => WebView2ProcessFailedKind::Unknown,
    }
}

/// The failure reason a raw WebView2 value stands for; values the library does
/// not know give `Unknown`.
pub fn process_failed_reason(reason: i32) -> (r: WebView2ProcessFailedReason)
    ensures
        r == process_failed_reason_spec(reason),
{
    match reason {
        COREWEBVIEW2_PROCESS_FAILED_REASON_UNEXPECTED => WebView2ProcessFailedReason::Unexpected,
        COREWEBVIEW2_PROCESS_FAILED_REASON_UNRESPONSIVE => WebView2ProcessFailedReason::Unresponsive,
        COREWEBVIEW2_PROCESS_FAILED_REASON_TERMINATED => WebView2ProcessFailedReason::Terminated,
        COREWEBVIEW2_PROCESS_FAILED_REASON_CRASHED => WebView2ProcessFailedReason::Crashed,
        COREWEBVIEW2_PROCESS_FAILED_REASON_LAUNCH_FAILED => WebView2ProcessFailedReason::LaunchFailed,
        COREWEBVIEW2_PROCESS_FAILED_REASON_OUT_OF_MEMORY => WebView2ProcessFailedReason::OutOfMemory,
        COREWEBVIEW2_PROCESS_FAILED_REASON_PROFILE_DELETED => WebView2ProcessFailedReason::ProfileDeleted,
        _ => WebView2ProcessFailedReason::Unknown,
    }
}

/// What the runtime reported of a process failure: the raw kind, and for the
/// extended event arguments the raw reason, exit code and description when it
/// could give them.
pub struct ProcessFailedReport {
    pub kind: i32,
    pub reason: Option<i32>,
    pub exit_code: Option<i32>,
    pub process_description: Option<String>,
}

/// The details of a process failure given to the application.
pub fn process_failed_info(report: ProcessFailedReport) -> (info: WebView2ProcessFailedInfo)
    ensures
        info.kind == process_failed_kind_spec(report.kind),
        info.reason == (match report.reason {
            Some(r) => Some(process_failed_reason_spec(r)),
            None => None,
        }),
        info.exit_code == report.exit_code,
        info.process_description == report.process_description,
{
    let reason = match report.reason {
        Some(r) => Some(process_failed_reason(r)),
        None => None,
    };
    WebView2ProcessFailedInfo {
        kind: process_failed_kind(report.kind),
        reason,
        exit_code: report.exit_code,
        process_description: report.process_description,
    }
}

/// Distinct raw kinds that the library knows map to distinct failure kinds, and
/// only values it does not know map to `Unknown`.
pub proof fn known_kinds_are_told_apart(a: i32, b: i32)
    ensures
        (0 <= a <= 8 && 0 <= b <= 8 && a != b) ==> process_failed_kind_spec(a) != process_failed_kind_spec(b),
        (process_failed_kind_spec(a) == WebView2ProcessFailedKind::Unknown) <==> !(0 <= a <= 8),
{
}

/// Distinct raw reasons that the library knows map to distinct failure reasons,
/// and only values it does not know map to `Unknown`.
pub proof fn known_reasons_are_told_apart(a: i32, b: i32)
    ensures
        (0 <= a <= 6 && 0 <= b <= 6 && a != b) ==> process_failed_reason_spec(a) != process_failed_reason_spec(b),
        (process_failed_reason_spec(a) == WebView2ProcessFailedReason::Unknown) <==> !(0 <= a <= 6),
{
}

/// Each raw failure kind is told as the kind its `COREWEBVIEW2_PROCESS_FAILED_KIND`
/// constant names: 0 browser process exited, 1 render process exited, 2 render
/// process unresponsive, 3 frame render process exited, 4 utility process
/// exited, 5 sandbox helper process exited, 6 GPU process exited, 7 PPAPI plugin
/// process exited, 8 PPAPI broker process exited.
pub proof fn kinds_are_told_by_their_names(kind: i32)
    ensures
        kind == 0 ==> process_failed_kind_spec(kind) == WebView2ProcessFailedKind::BrowserProcessExited,
        kind == 1 ==> process_failed_kind_spec(kind) == WebView2ProcessFailedKind::RenderProcessExited,
        kind == 2 ==> process_failed_kind_spec(kind) == WebView2ProcessFailedKind::RenderProcessUnresponsive,
        kind == 3 ==> process_failed_kind_spec(kind) == WebView2ProcessFailedKind::FrameRenderProcessExited,
        kind == 4 ==> process_failed_kind_spec(kind) == WebView2ProcessFailedKind::UtilityProcessExited,
        kind == 5 ==> process_failed_kind_spec(kind) == WebView2ProcessFailedKind::SandboxHelperProcessExited,
        kind == 6 ==> process_failed_kind_spec(kind) == WebView2ProcessFailedKind::GpuProcessExited,
        kind == 7 ==> process_failed_kind_spec(kind) == WebView2ProcessFailedKind::PpapiPluginProcessExited,
        kind == 8 ==> process_failed_kind_spec(kind) == WebView2ProcessFailedKind::PpapiBrokerProcessExited,
{
}

/// Each raw failure reason is told as the reason its
/// `COREWEBVIEW2_PROCESS_FAILED_REASON` constant names: 0 unexpected, 1
/// unresponsive, 2 terminated, 3 crashed, 4 launch failed, 5 out of memory, 6
/// profile deleted.
pub proof fn reasons_are_told_by_their_names(reason: i32)
    ensures
        reason == 0 ==> process_failed_reason_spec(reason) == WebView2ProcessFailedReason::Unexpected,
        reason == 1 ==> process_failed_reason_spec(reason) == WebView2ProcessFailedReason::Unresponsive,
        reason == 2 ==> process_failed_reason_spec(reason) == WebView2ProcessFailedReason::Terminated,
        reason == 3 ==> process_failed_reason_spec(reason) == WebView2ProcessFailedReason::Crashed,
        reason == 4 ==> process_failed_reason_spec(reason) == WebView2ProcessFailedReason::LaunchFailed,
        reason == 5 ==> process_failed_reason_spec(reason) == WebView2ProcessFailedReason::OutOfMemory,
        reason == 6 ==> process_failed_reason_spec(reason) == WebView2ProcessFailedReason::ProfileDeleted,
{
}
} // verus!
