use std::cell::Cell;
use std::rc::Rc;

use wry::builder::{WebViewBuilder, WebViewBuilderExtWindows};
use wry::handler::Handler;
use wry::process_failed::{
    process_failed_info, ProcessFailedReport,
    process_failed_kind, process_failed_reason, WebView2ProcessFailedKind, WebView2ProcessFailedReason,
    COREWEBVIEW2_PROCESS_FAILED_KIND_BROWSER_PROCESS_EXITED,
    COREWEBVIEW2_PROCESS_FAILED_KIND_FRAME_RENDER_PROCESS_EXITED,
    COREWEBVIEW2_PROCESS_FAILED_KIND_GPU_PROCESS_EXITED,
    COREWEBVIEW2_PROCESS_FAILED_KIND_RENDER_PROCESS_EXITED,
    COREWEBVIEW2_PROCESS_FAILED_KIND_RENDER_PROCESS_UNRESPONSIVE,
    COREWEBVIEW2_PROCESS_FAILED_REASON_CRASHED, COREWEBVIEW2_PROCESS_FAILED_REASON_OUT_OF_MEMORY,
};
use wry::webview::webview_version;
use wry::win_msg::{
    parent_subclass_action, ParentAction, WM_ENTERSIZEMOVE, WM_MOVE, WM_MOVING, WM_SETFOCUS, WM_SIZE,
};

#[test]
fn should_get_webview_version() {
    // The engine reports its version as three numbers; these are those of a
    // WebKitGTK 2.44.1 installation.
    match webview_version(2, 44, 1) {
        Ok(version) => assert_eq!(version, "2.44.1"),
        Err(error) => panic!("{:?}", error),
    }
}

#[test]
fn distinguishes_failure_kinds_and_unknown_values() {
    assert_eq!(
        process_failed_kind(COREWEBVIEW2_PROCESS_FAILED_KIND_BROWSER_PROCESS_EXITED),
        WebView2ProcessFailedKind::BrowserProcessExited
    );
    assert_eq!(
        process_failed_kind(COREWEBVIEW2_PROCESS_FAILED_KIND_RENDER_PROCESS_EXITED),
        WebView2ProcessFailedKind::RenderProcessExited
    );
    assert_eq!(
        process_failed_kind(COREWEBVIEW2_PROCESS_FAILED_KIND_RENDER_PROCESS_UNRESPONSIVE),
        WebView2ProcessFailedKind::RenderProcessUnresponsive
    );
    assert_eq!(
        process_failed_kind(COREWEBVIEW2_PROCESS_FAILED_KIND_FRAME_RENDER_PROCESS_EXITED),
        WebView2ProcessFailedKind::FrameRenderProcessExited
    );
    assert_eq!(
        process_failed_kind(COREWEBVIEW2_PROCESS_FAILED_KIND_GPU_PROCESS_EXITED),
        WebView2ProcessFailedKind::GpuProcessExited
    );
    assert_eq!(process_failed_kind(-1), WebView2ProcessFailedKind::Unknown);
}

#[test]
fn distinguishes_failure_reasons_and_unknown_values() {
    assert_eq!(
        process_failed_reason(COREWEBVIEW2_PROCESS_FAILED_REASON_CRASHED),
        WebView2ProcessFailedReason::Crashed
    );
    assert_eq!(
        process_failed_reason(COREWEBVIEW2_PROCESS_FAILED_REASON_OUT_OF_MEMORY),
        WebView2ProcessFailedReason::OutOfMemory
    );
    assert_eq!(process_failed_reason(-1), WebView2ProcessFailedReason::Unknown);
}

#[test]
fn cleared_parent_controller_refdata_delegates_controller_messages() {
    // With its controller reference cleared, the parent subclass acts on none of
    // the controller messages and only hands each one on to the next handler.
    for message in [WM_SIZE, WM_SETFOCUS, WM_ENTERSIZEMOVE, WM_MOVE, WM_MOVING] {
        assert_eq!(
            parent_subclass_action(message, 0, false),
            ParentAction::Nothing,
            "message {message:#x} should reach the next subclass via DefSubclassProc"
        );
    }
}

#[test]
fn handler_is_opt_in_and_per_webview() {
    assert!(WebViewBuilder::new().platform_specific.process_failed_handler.is_none());
    let first_count = Rc::new(Cell::new(0));
    let second_count = Rc::new(Cell::new(0));
    let first = WebViewBuilder::new().with_process_failed_handler({
        let count = first_count.clone();
        move |_| count.set(count.get() + 1)
    });
    let second = WebViewBuilder::new().with_process_failed_handler({
        let count = second_count.clone();
        move |_| count.set(count.get() + 1)
    });
    let info = process_failed_info(ProcessFailedReport {
        kind: COREWEBVIEW2_PROCESS_FAILED_KIND_RENDER_PROCESS_EXITED,
        reason: None,
        exit_code: None,
        process_description: None,
    });
    assert_eq!(info.kind, WebView2ProcessFailedKind::RenderProcessExited);
    first.platform_specific.process_failed_handler.unwrap().call_with(info.clone());
    assert_eq!(first_count.get(), 1);
    assert_eq!(second_count.get(), 0);
    second.platform_specific.process_failed_handler.unwrap().call_with(info);
    assert_eq!(first_count.get(), 1);
    assert_eq!(second_count.get(), 1);
}
