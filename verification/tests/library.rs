use wry::http_request::{custom_request_answer, Engine, RequestAnswer};
use wry::handler::{Handler, Handler2, Handler3};
use wry::builder::{WebViewBuilder, WebViewBuilderExtWindows};
use wry::composition::PendingVisualTargets;
use wry::csp::{csp_with_hashes, hash_script, injects_scripts, script_hashes};
use wry::custom_protocol::{
    apply_uri_work_around, data_url_content, find_work_around_protocol, is_work_around_uri,
    navigation_url, revert_uri_work_around, work_around_uri_prefix,
};
use wry::custom_task::{check_delivery, check_task_is_valid, check_webview_id_valid, finish_task, WebViewIds, WryWebView};
use wry::download::{media_capture_decision, needs_download_delegate};
use wry::drag_drop::{
    dragging_updated_operation, strip_file_scheme, DragDropEvent, DragDropTarget, DropTargets, FileDropEvent,
    GtkFileDrop, DROPEFFECT_COPY, DROPEFFECT_NONE, PositionedFileDrop, composition_drop,
};
use wry::cookie::{same_site_from_win32, same_site_to_win32, SameSite};
use wry::error::Error;
use wry::gtk_webview::{page_load_event, policy_handler, webview_protocol_registration, LoadEvent, PolicyDecisionType, PolicyHandler};
use wry::http_response::{
    bad_request_status, parse_content_type, scheme_task_response_fields, status_rejection, web_resource_response,
    webview2_header_block, webview2_status, HttpResponseHead, HttpVersion, StatusRejection,
};
use wry::main_pipe::{
    color_argb_args, handles_message, load_url_method, should_override_url_loading,
    MessageKind,
};
use wry::mouse_event::{create_js_mouse_event, has_button, navigation_button, pressed_buttons, pressed_buttons_from_mask, MouseEventInfo};
use wry::navigation_auth::{
    authentication_disposition, authentication_method, client_certificate_password, AuthenticationMethod,
    ChallengeDisposition, PinnedTrust,
};
use wry::ndk_glue::{Event, NativeActivityGlue, Rect};
use wry::objc_type::{WKDisplayCapturePermissionDecision, WKMediaCaptureType, WKPermissionDecision};
use wry::pending_scripts::PendingScripts;
use wry::process_failed::{process_failed_info, ProcessFailedReport, WebView2ProcessFailedKind, WebView2ProcessFailedReason};
use wry::proxy::{additional_browser_args, proxy_uri, ProxyConfig, ProxyConnection, ProxyEndpoint, ProxyType};
use wry::resize::{borderless_resize_inset, hit_test, hwnd_dpi, DpiSource, WindowRect, HTBOTTOMRIGHT, HTCLIENT, HTLEFT, HTNOWHERE, HTTOP, HTTOPLEFT};
use wry::text::{str_eq, u64_to_decimal};
use wry::uri_loader::WebviewUriLoader;
use wry::web_context::{join, website_data_paths, WebContext, WebContextData};
use wry::head_scripts::{head_prepend_order, inject_scripts, injected_page};
use wry::webview::{
    download_starting, initial_content, navigation_starting, webview2_initial_background, webview_version,
    DownloadStart, InitialContent,
    PageLoadEvent, data_store_for, download_state_changed, is_windows_7, new_window_outcome, platform_webview_version,
    preferred_color_scheme, webview2_background_color, DataStore, NewWindowResponse, Theme,
};
use wry::win_msg::{
    forward_mouse_message, get_x_lparam, get_y_lparam, host_subclass_action, parent_subclass_action, Capture,
    HostAction, ParentAction, MAKELPARAM, WM_DESTROY, WM_LBUTTONDOWN, WM_LBUTTONUP, WM_MOUSELEAVE, WM_MOUSEMOVE,
    WM_MOUSEWHEEL, WM_SETCURSOR, WM_SIZE, WM_XBUTTONDOWN,
};

#[test]
fn objc_codes_round_trip() {
    for v in 0..=2isize {
        assert_eq!(WKMediaCaptureType::from_isize(v).to_isize(), v);
        assert_eq!(WKPermissionDecision::from_isize(v).to_isize(), v);
        assert_eq!(WKDisplayCapturePermissionDecision::from_isize(v).to_isize(), v);
    }
    assert_eq!(WKMediaCaptureType::from_isize(2), WKMediaCaptureType::CameraAndMicrophone);
    assert_eq!(WKPermissionDecision::from_isize(1), WKPermissionDecision::Grant);
    assert_eq!(WKDisplayCapturePermissionDecision::from_isize(0), WKDisplayCapturePermissionDecision::Deny);
}

#[test]
fn activity_events_come_out_in_order() {
    let mut glue = NativeActivityGlue::new();
    assert_eq!(glue.poll_events(), None);
    glue.wake(Event::Start);
    glue.on_window_focus_changed(0);
    glue.on_window_focus_changed(3);
    assert_eq!(glue.poll_events(), Some(Event::Start));
    assert_eq!(glue.poll_events(), Some(Event::WindowLostFocus));
    assert_eq!(glue.poll_events(), Some(Event::WindowHasFocus));
    assert_eq!(glue.poll_events(), None);
}

#[test]
fn content_rect_follows_the_platform() {
    let mut glue = NativeActivityGlue::new();
    assert_eq!(glue.content_rect(), Rect { left: 0, top: 0, right: 0, bottom: 0 });
    glue.on_content_rect_changed(1, 2, 300, -1);
    assert_eq!(glue.content_rect(), Rect { left: 1, top: 2, right: 300, bottom: 4294967295 });
    assert_eq!(glue.poll_events(), Some(Event::ContentRectChanged));
}

#[test]
fn window_and_input_queue_lifecycle() {
    let mut glue = NativeActivityGlue::new();
    glue.on_window_created(7);
    assert_eq!(glue.native_window(), Some(7));
    glue.on_window_destroyed(7);
    assert_eq!(glue.native_window(), None);
    glue.on_input_queue_created(9);
    assert_eq!(glue.input_queue(), Some(9));
    glue.on_input_queue_destroyed(9);
    assert_eq!(glue.input_queue(), None);
    assert_eq!(glue.poll_events(), Some(Event::WindowCreated));
    assert_eq!(glue.poll_events(), Some(Event::WindowDestroyed));
    assert_eq!(glue.poll_events(), Some(Event::InputQueueCreated));
    assert_eq!(glue.poll_events(), Some(Event::InputQueueDestroyed));
}

#[test]
fn web_context_data_keeps_directory_and_callback() {
    let data: WebContextData<u8> = WebContextData::new(Some("/tmp/data".to_string()));
    assert_eq!(data.data_directory().map(|s| s.as_str()), Some("/tmp/data"));
    assert!(data.nav_callback().is_none());
    let empty: WebContextData<u8> = WebContextData::default();
    assert!(empty.data_directory().is_none());
    let mut ctx: WebContext<u8, u32> = WebContext::new(None);
    ctx.set_navigation_callback(5);
    assert_eq!(ctx.navigation_callback(), Some(&5));
}

#[test]
fn register_uri_scheme_reports_duplicates_but_submits() {
    let mut ctx: WebContext<u8, u32> = WebContext::new(None);
    let mut submitted = 0;
    assert_eq!(ctx.register_uri_scheme("wry", |_| { submitted += 1; Ok(()) }), Ok(()));
    assert_eq!(
        ctx.register_uri_scheme("wry", |_| { submitted += 1; Ok(()) }),
        Err(Error::DuplicateCustomProtocol("wry".to_string()))
    );
    assert_eq!(submitted, 2);
    assert!(ctx.is_registered("wry"));
    assert!(!ctx.is_registered("other"));
}

#[test]
fn try_register_uri_scheme_does_not_submit_duplicates() {
    let mut ctx: WebContext<u8, u32> = WebContext::new(None);
    let mut submitted = 0;
    assert_eq!(ctx.try_register_uri_scheme("app", |_| { submitted += 1; Ok(()) }), Ok(()));
    assert_eq!(
        ctx.try_register_uri_scheme("app", |_| { submitted += 1; Ok(()) }),
        Err(Error::DuplicateCustomProtocol("app".to_string()))
    );
    assert_eq!(submitted, 1);
}

#[test]
fn failed_platform_registration_records_nothing() {
    let mut ctx: WebContext<u8, u32> = WebContext::new(None);
    assert_eq!(ctx.register_uri_scheme("x", |_| Err(Error::UrlParse)), Err(Error::UrlParse));
    assert!(!ctx.is_registered("x"));
}

#[test]
fn automation_is_connected_once() {
    let mut ctx: WebContext<u8, u32> = WebContext::new(None);
    assert!(!ctx.register_automation());
    ctx.set_allows_automation(true);
    assert!(ctx.allows_automation());
    assert!(ctx.register_automation());
    assert!(!ctx.register_automation());
}

#[test]
fn data_paths_join_like_paths() {
    assert_eq!(join("/data", "cookies"), "/data/cookies");
    assert_eq!(join("/data/", "cookies"), "/data/cookies");
    assert_eq!(join("", "cookies"), "cookies");
    let paths = website_data_paths("/home/u/app");
    assert_eq!(paths.local_storage, "/home/u/app/localstorage");
    assert_eq!(paths.indexeddb, "/home/u/app/databases/indexeddb");
    assert_eq!(paths.cookies, "/home/u/app/cookies");
}

#[test]
fn uri_loader_loads_one_at_a_time() {
    let mut loader: WebviewUriLoader<u32> = WebviewUriLoader::new();
    loader.push(1, "https://a".to_string());
    loader.push(2, "https://b".to_string());
    assert_eq!(loader.flush(), Some((1, "https://a".to_string())));
    assert_eq!(loader.flush(), None);
    assert_eq!(loader.load_finished(), Some((2, "https://b".to_string())));
    assert_eq!(loader.load_finished(), None);
    loader.push(3, "https://c".to_string());
    assert_eq!(loader.flush(), Some((3, "https://c".to_string())));
}

#[test]
fn context_queue_loads_in_order() {
    let mut ctx: WebContext<u8, u32> = WebContext::new(None);
    ctx.queue_load_uri(10, "wry://one".to_string());
    ctx.queue_load_uri(11, "wry://two".to_string());
    assert_eq!(ctx.flush_queue_loader(), Some((10, "wry://one".to_string())));
    assert_eq!(ctx.flush_queue_loader(), None);
    assert_eq!(ctx.load_finished(), Some((11, "wry://two".to_string())));
}

fn endpoint() -> ProxyEndpoint {
    ProxyEndpoint { host: "localhost".to_string(), port: "3128".to_string() }
}

#[test]
fn proxy_uris() {
    assert_eq!(proxy_uri(&ProxyConnection::Http(endpoint())), "http://localhost:3128");
    assert_eq!(proxy_uri(&ProxyConnection::Socks5(endpoint())), "socks5://localhost:3128");
    let config = ProxyConfig { proxy_type: ProxyType::Socks5, proxy_connection: ProxyConnection::Socks5(endpoint()) };
    assert_eq!(config.uri(), "socks5://localhost:3128");
}

#[test]
fn default_browser_arguments() {
    assert_eq!(
        additional_browser_args(false, None),
        "--disable-features=msWebOOUI,msPdfOOUI,msSmartScreenProtection"
    );
    assert_eq!(
        additional_browser_args(true, Some(&ProxyConnection::Http(endpoint()))),
        "--disable-features=msWebOOUI,msPdfOOUI,msSmartScreenProtection --autoplay-policy=no-user-gesture-required --proxy-server=http://localhost:3128"
    );
}

#[test]
fn custom_protocol_work_around() {
    assert_eq!(work_around_uri_prefix("https", "wry"), "https://wry.");
    let applied = apply_uri_work_around("wry://localhost/index.html", "https", "wry");
    assert_eq!(applied, "https://wry.localhost/index.html");
    assert!(is_work_around_uri(&applied, "https", "wry"));
    assert!(!is_work_around_uri(&applied, "http", "wry"));
    assert_eq!(revert_uri_work_around(&applied, "https", "wry"), "wry://localhost/index.html");
    assert_eq!(
        apply_uri_work_around("wry://a/?next=wry://b", "http", "wry"),
        "http://wry.a/?next=http://wry.b"
    );
}

#[test]
fn navigation_urls() {
    let protocols = vec!["wry".to_string(), "asset".to_string()];
    assert_eq!(navigation_url("asset://localhost/x", "http", &protocols), "http://asset.localhost/x");
    assert_eq!(navigation_url("https://tauri.app", "http", &protocols), "https://tauri.app");
    assert_eq!(navigation_url("no-scheme", "http", &protocols), "no-scheme");
    assert_eq!(find_work_around_protocol("http://asset.localhost/x", "http", &protocols), Some(1));
    assert_eq!(find_work_around_protocol("http://other.localhost/x", "http", &protocols), None);
    assert_eq!(data_url_content("data:text/html,<p>hi</p>"), Some("<p>hi</p>".to_string()));
    assert_eq!(data_url_content("about:blank"), None);
}

#[test]
fn custom_protocol_tasks() {
    let mut ids = WebViewIds::new();
    ids.insert("main");
    let mut webview = WryWebView::new(false, true);
    let first = webview.add_custom_task_key(42);
    assert_eq!(webview.get_custom_task_uuid(42), Some(first));
    assert_eq!(check_task_is_valid(&webview, 42, first), Ok(()));
    assert_eq!(check_webview_id_valid(&ids, "main"), Ok(()));
    assert_eq!(check_delivery(&ids, &webview, "main", 42, first), Ok(()));
    // The key is reused by a newer task, which gets another identifier: the old
    // one is refused.
    let second = webview.add_custom_task_key(42);
    assert!(second > first);
    assert_eq!(check_task_is_valid(&webview, 42, first), Err(Error::CustomProtocolTaskInvalid));
    assert_eq!(check_delivery(&ids, &webview, "main", 42, second), Ok(()));
    assert_eq!(finish_task(&ids, &mut webview, "main", 42), Ok(()));
    assert_eq!(webview.get_custom_task_uuid(42), None);
    let stopped = webview.add_custom_task_key(7);
    webview.remove_custom_task_key(7);
    assert_eq!(check_task_is_valid(&webview, 7, stopped), Err(Error::CustomProtocolTaskInvalid));
    let orphan = webview.add_custom_task_key(8);
    assert_eq!(orphan, second + 2);
    assert_eq!(check_delivery(&ids, &webview, "main", 8, orphan), Ok(()));
    ids.remove("main");
    assert_eq!(check_webview_id_valid(&ids, "main"), Err(Error::CustomProtocolTaskInvalid));
    assert_eq!(check_delivery(&ids, &webview, "main", 8, orphan), Err(Error::CustomProtocolTaskInvalid));
    assert_eq!(finish_task(&ids, &mut webview, "main", 8), Err(Error::CustomProtocolTaskInvalid));
    assert_eq!(webview.get_custom_task_uuid(8), Some(orphan));
    assert!(webview.perform_key_equivalent_in_webview());
    assert!(webview.accept_first_mouse());
}

#[test]
fn mouse_buttons() {
    assert!(has_button(1, 0));
    assert!(has_button(8, 3));
    assert!(!has_button(2, 0));
    assert!(has_button(0b11111, 4));
    assert!(!has_button(u64::MAX, 64));
    assert!(has_button(1u64 << 63, 63));
    assert_eq!(pressed_buttons(true, false, true, false, true), 21);
    assert_eq!(pressed_buttons(false, false, false, true, false), 8);
    assert_eq!(pressed_buttons_from_mask(0b110), 2 + 4);
    assert_eq!(pressed_buttons_from_mask(0b11111), 31);
    assert_eq!(pressed_buttons_from_mask(0b1000), 8);
    assert_eq!(navigation_button(8, 8, 9), Some(true));
    assert_eq!(navigation_button(9, 8, 9), Some(false));
    assert_eq!(navigation_button(1, 8, 9), None);
}

#[test]
fn mouse_event_script() {
    let js = create_js_mouse_event(&MouseEventInfo {
        down: false,
        back_button: true,
        x: 10,
        y: -3,
        buttons: 9,
        detail: 1,
        ctrl_key: true,
        meta_key: false,
        shift_key: false,
        alt_key: false,
    });
    assert!(js.starts_with("(() => {\n        const el = document.elementFromPoint(10,-3);"));
    assert!(js.contains("const ev = new MouseEvent('mouseup', {"));
    assert!(js.contains("button: 3,\n          buttons: 9,"));
    assert!(js.contains("screenY: window.screenY + -3,"));
    assert!(js.contains("ctrlKey: true,\n          metaKey: false,"));
    assert!(js.contains("\"mouseup\" === \"mouseup\""));
    assert!(js.ends_with("})()"));
}

fn head(status: u16, headers: &[(&str, &[u8])]) -> HttpResponseHead {
    HttpResponseHead {
        status,
        headers: headers.iter().map(|(n, v)| (n.to_string(), v.to_vec())).collect(),
    }
}

#[test]
fn status_codes_android_refuses() {
    assert_eq!(status_rejection(99), Some(StatusRejection::BelowRange));
    assert_eq!(status_rejection(600), Some(StatusRejection::AboveRange));
    assert_eq!(status_rejection(301), Some(StatusRejection::Redirect));
    assert_eq!(status_rejection(200), None);
    assert_eq!(status_rejection(404), None);
    assert_eq!(StatusRejection::Redirect.message(), "statusCode can't be in the [300, 399] range.");
    assert!(web_resource_response(&head(302, &[])).is_err());
}

#[test]
fn content_types_are_parsed() {
    assert_eq!(parse_content_type(" text/html ; charset=utf-8"), ("text/html".to_string(), Some("utf-8".to_string())));
    assert_eq!(parse_content_type("text/plain"), ("text/plain".to_string(), None));
    assert_eq!(
        parse_content_type("text/plain; format=flowed;  charset=a=b"),
        ("text/plain".to_string(), Some("a".to_string()))
    );
    assert_eq!(parse_content_type("a;charset="), ("a".to_string(), Some("".to_string())));
}

#[test]
fn android_web_resource_response() {
    let response = web_resource_response(&head(
        200,
        &[("content-type", b"text/html; charset=utf-8"), ("x-bin", &[0x80]), ("x-a", b"1")],
    ))
    .unwrap();
    assert_eq!(response.mime_type, Some("text/html".to_string()));
    assert_eq!(response.encoding, Some("utf-8".to_string()));
    assert_eq!(response.status_code, 200);
    assert_eq!(response.reason_phrase, "OK");
    assert_eq!(
        response.headers,
        vec![
            ("content-type".to_string(), "text/html; charset=utf-8".to_string()),
            ("x-bin".to_string(), "".to_string()),
            ("x-a".to_string(), "1".to_string()),
        ]
    );
    let not_found = web_resource_response(&head(404, &[])).unwrap();
    assert_eq!(not_found.reason_phrase, "Not Found");
    assert_eq!(not_found.mime_type, None);
    let odd = web_resource_response(&head(299, &[])).unwrap();
    assert_eq!(odd.reason_phrase, "OK");
}

#[test]
fn scheme_task_fields_and_webview2_headers() {
    let h = head(200, &[("content-type", b"text/plain"), ("x-bin", &[1]), ("etag", b"\"x\"")]);
    assert_eq!(
        scheme_task_response_fields(&h, 1234),
        vec![
            ("content-type".to_string(), "text/plain".to_string()),
            ("content-length".to_string(), "1234".to_string()),
            ("content-type".to_string(), "text/plain".to_string()),
            ("etag".to_string(), "\"x\"".to_string()),
        ]
    );
    assert_eq!(webview2_header_block(&h), "content-type: text/plain\netag: \"x\"\n");
    assert_eq!(webview2_status(404), (404, "Not Found".to_string()));
    assert_eq!(webview2_status(299), (299, "OK".to_string()));
    assert_eq!(bad_request_status(), (400, "Bad Request".to_string()));
    assert_eq!(HttpVersion::Http11.as_text(), "HTTP/1.1");
    assert_eq!(HttpVersion::H2.as_text(), "HTTP/2.0");
}

#[test]
fn script_hashes_and_csp() {
    assert_eq!(hash_script("alert(1)"), "'sha256-bhHHL3z2vDgxUt0W3dWQOrprscmda2Y5pLsLg4GF+pI='");
    let scripts = vec!["alert(1)".to_string(), "console.log(\"a\")".to_string()];
    let hashes = script_hashes(&scripts);
    assert_eq!(
        hashes,
        vec![
            "'sha256-3xqCEfNrbhQLAZy5uSLzJ9hNthXm1py/K8hqI37Cvoc='".to_string(),
            "'sha256-bhHHL3z2vDgxUt0W3dWQOrprscmda2Y5pLsLg4GF+pI='".to_string(),
        ]
    );
    let two = vec!["'a'".to_string(), "'b'".to_string()];
    assert_eq!(csp_with_hashes("default-src 'self'; script-src 'self'", &two), "default-src 'self'; script-src 'a' 'b' 'self'");
    assert_eq!(csp_with_hashes("default-src 'self'", &two), "default-src 'self' script-src 'a' 'b'");
    assert!(injects_scripts(Some(b"text/html"), 1));
    assert!(!injects_scripts(Some(b"text/html"), 0));
    assert!(!injects_scripts(Some(b"text/html; charset=utf-8"), 1));
    assert!(!injects_scripts(None, 1));
}

#[test]
fn process_failure_details() {
    let info = process_failed_info(ProcessFailedReport {
        kind: 1,
        reason: Some(3),
        exit_code: Some(-1),
        process_description: Some("renderer".to_string()),
    });
    assert_eq!(info.kind, WebView2ProcessFailedKind::RenderProcessExited);
    assert_eq!(info.reason, Some(WebView2ProcessFailedReason::Crashed));
    assert_eq!(info.exit_code, Some(-1));
    assert_eq!(info.process_description, Some("renderer".to_string()));
    let bare = process_failed_info(ProcessFailedReport { kind: 99, reason: None, exit_code: None, process_description: None });
    assert_eq!(bare.kind, WebView2ProcessFailedKind::Unknown);
    assert_eq!(bare.reason, None);
}

#[test]
fn resize_hit_testing() {
    let rect = WindowRect { left: 100, top: 100, right: 500, bottom: 400 };
    assert_eq!(borderless_resize_inset(96), 5);
    assert_eq!(borderless_resize_inset(144), 7);
    assert_eq!(borderless_resize_inset(120), 6);
    assert_eq!(hit_test(Some(rect), 96, 300, 250), HTCLIENT);
    assert_eq!(hit_test(Some(rect), 96, 101, 250), HTLEFT);
    assert_eq!(hit_test(Some(rect), 96, 300, 104), HTTOP);
    assert_eq!(hit_test(Some(rect), 96, 104, 104), HTTOPLEFT);
    assert_eq!(hit_test(Some(rect), 96, 499, 399), HTBOTTOMRIGHT);
    assert_eq!(hit_test(None, 96, 0, 0), HTNOWHERE);
    let narrow = WindowRect { left: 0, top: 0, right: 4, bottom: 100 };
    assert_eq!(hit_test(Some(narrow), 96, 2, 50), HTNOWHERE);
    assert_eq!(hwnd_dpi(DpiSource::Window(0)), 96);
    assert_eq!(hwnd_dpi(DpiSource::Window(144)), 144);
    assert_eq!(hwnd_dpi(DpiSource::Monitor(None)), 96);
    assert_eq!(hwnd_dpi(DpiSource::Monitor(Some(120))), 120);
    assert_eq!(hwnd_dpi(DpiSource::DeviceContext { dpi_aware: false, device_dpi: 192 }), 96);
    assert_eq!(hwnd_dpi(DpiSource::DeviceContext { dpi_aware: true, device_dpi: 192 }), 192);
}

#[test]
fn lparam_packing() {
    for (x, y) in [(0i16, 0i16), (-1, 5), (1234, -32768), (32767, -1)] {
        let l = MAKELPARAM(x, y);
        assert_eq!(get_x_lparam(l), x as i32);
        assert_eq!(get_y_lparam(l), y as i32);
    }
    assert_eq!(MAKELPARAM(1, 2), 0x0002_0001);
}

#[test]
fn subclass_actions() {
    assert_eq!(parent_subclass_action(WM_SIZE, 0, true), ParentAction::Resize);
    assert_eq!(parent_subclass_action(WM_SIZE, 1, true), ParentAction::Nothing);
    assert_eq!(parent_subclass_action(WM_DESTROY, 0, true), ParentAction::ReleaseController);
    assert_eq!(host_subclass_action(WM_SETCURSOR, 0, 1, true), HostAction::SetCursor);
    assert_eq!(host_subclass_action(WM_SETCURSOR, 0, 0x0002_000A, true), HostAction::Nothing);
    assert_eq!(host_subclass_action(WM_MOUSEMOVE, 0, 0, true), HostAction::ForwardMouse);
    assert_eq!(host_subclass_action(WM_MOUSEMOVE, 0, 0, false), HostAction::Nothing);
}

#[test]
fn mouse_forwarding() {
    let wheel = forward_mouse_message(WM_MOUSEWHEEL, 0xFF88_0008, MAKELPARAM(10, 20), true);
    assert_eq!((wheel.x, wheel.y), (10, 20));
    assert!(wheel.screen_point);
    assert_eq!(wheel.mouse_data, (-120i32) as u32);
    assert_eq!(wheel.virtual_keys, 8);
    let down = forward_mouse_message(WM_LBUTTONDOWN, 1, MAKELPARAM(-5, 7), true);
    assert_eq!(down.capture, Capture::SetAndFocus);
    assert_eq!((down.x, down.y), (-5, 7));
    assert_eq!(forward_mouse_message(WM_LBUTTONUP, 0, 0, true).capture, Capture::Release);
    let xdown = forward_mouse_message(WM_XBUTTONDOWN, 0x0002_0000, 0, true);
    assert_eq!(xdown.mouse_data, 2);
    let leave = forward_mouse_message(WM_MOUSELEAVE, 5, MAKELPARAM(3, 3), true);
    assert!(leave.stop_tracking);
    assert_eq!((leave.x, leave.y, leave.virtual_keys), (0, 0, 0));
    assert!(forward_mouse_message(WM_MOUSEMOVE, 0, 0, false).start_tracking);
    assert!(!forward_mouse_message(WM_MOUSEMOVE, 0, 0, true).start_tracking);
}

#[test]
fn webview_settings() {
    assert_eq!(preferred_color_scheme(Theme::Auto), 0);
    assert_eq!(preferred_color_scheme(Theme::Light), 1);
    assert_eq!(preferred_color_scheme(Theme::Dark), 2);
    assert!(is_windows_7(6, 1));
    assert!(!is_windows_7(10, 0));
    assert_eq!(webview2_background_color((1, 2, 3, 0), false), (1, 2, 3, 0));
    assert_eq!(webview2_background_color((1, 2, 3, 0), true), (1, 2, 3, 255));
    assert_eq!(webview2_background_color((1, 2, 3, 10), false), (1, 2, 3, 255));
    assert_eq!(platform_webview_version(2, 44, 1), "2.44.1");
    assert_eq!(u64_to_decimal(0), "0");
    assert_eq!(u64_to_decimal(18446744073709551615), "18446744073709551615");
    assert!(str_eq("abc", "abc"));
    assert!(!str_eq("abc", "abd"));
}

#[test]
fn new_windows_and_downloads() {
    let allow = new_window_outcome::<u8>(Some(NewWindowResponse::Allow));
    assert!(!allow.handled);
    let create = new_window_outcome(Some(NewWindowResponse::Create { webview: 4u8 }));
    assert!(create.handled);
    assert_eq!(create.new_window, Some(4));
    assert!(new_window_outcome::<u8>(Some(NewWindowResponse::Deny)).handled);
    assert!(new_window_outcome::<u8>(None).handled);
    assert!(download_state_changed(0, "x".to_string()).is_none());
    let done = download_state_changed(2, "/tmp/f".to_string()).unwrap();
    assert!(done.success);
    assert_eq!(done.path, Some("/tmp/f".to_string()));
    let failed = download_state_changed(1, "/tmp/f".to_string()).unwrap();
    assert!(!failed.success);
    assert_eq!(failed.path, None);
}

#[test]
fn data_stores() {
    assert!(matches!(data_store_for(true, 15, false, Some([1; 16])), DataStore::NonPersistent));
    assert!(matches!(data_store_for(false, 14, false, Some([1; 16])), DataStore::ForIdentifier(id) if id == [1; 16]));
    assert!(matches!(data_store_for(false, 13, false, Some([1; 16])), DataStore::Default));
    assert!(matches!(data_store_for(false, 16, true, Some([1; 16])), DataStore::Default));
    assert!(matches!(data_store_for(false, 17, true, None), DataStore::Default));
}

#[test]
fn windows_drop_target() {
    let mut target = DragDropTarget::new();
    assert!(target.drag_leave().is_none());
    let reply = target.drag_enter(None, (1, 1));
    assert!(reply.event.is_none());
    assert_eq!(reply.effect, Some(DROPEFFECT_NONE));
    let reply = target.drag_enter(Some(vec!["C:\\a.txt".to_string()]), (3, 4));
    assert_eq!(reply.effect, Some(DROPEFFECT_COPY));
    assert!(matches!(reply.event, Some(DragDropEvent::Enter { ref paths, position: (3, 4) }) if paths == &vec!["C:\\a.txt".to_string()]));
    assert!(matches!(target.drag_over((5, 6)).event, Some(DragDropEvent::Over { position: (5, 6) })));
    assert!(matches!(target.drag_leave(), Some(DragDropEvent::Leave)));
    assert!(matches!(target.drop(None, (0, 0)), Some(DragDropEvent::Drop { ref paths, .. }) if paths.is_empty()));
    // A later drag without files is not reported, not even when it leaves.
    let reply = target.drag_enter(None, (7, 7));
    assert!(reply.event.is_none());
    assert_eq!(reply.effect, Some(DROPEFFECT_NONE));
    assert!(target.drag_over((8, 8)).event.is_none());
    assert_eq!(target.drag_over((8, 8)).effect, Some(DROPEFFECT_NONE));
    assert!(target.drag_leave().is_none());
    assert!(target.drop(None, (9, 9)).is_none());
}

#[test]
fn composition_drop_is_handed_on_unless_blocked() {
    let seen = std::cell::RefCell::new(Vec::new());
    let listener = |event: PositionedFileDrop| {
        let blocked = matches!(&event, PositionedFileDrop::Dropped { paths, .. } if paths.len() == 2);
        seen.borrow_mut().push(event);
        blocked
    };
    let two = Some(vec!["C:\\a.txt".to_string(), "C:\\b.txt".to_string()]);
    assert!(!composition_drop(&listener, two, (10, 20), true));
    assert!(composition_drop(&listener, Some(vec!["C:\\c.txt".to_string()]), (1, 2), true));
    assert!(!composition_drop(&listener, None, (3, 4), false));
    let seen = seen.into_inner();
    assert_eq!(seen.len(), 3);
    assert!(matches!(&seen[0], PositionedFileDrop::Dropped { paths, position: (10, 20) } if paths.len() == 2));
    assert!(matches!(&seen[1], PositionedFileDrop::Dropped { paths, position: (1, 2) } if paths == &vec!["C:\\c.txt".to_string()]));
    assert!(matches!(&seen[2], PositionedFileDrop::Dropped { paths, position: (3, 4) } if paths.is_empty()));
}

#[test]
fn drop_target_registry() {
    let mut targets = DropTargets::new();
    assert!(!targets.is_inited());
    assert!(targets.inject_in_hwnd(5, |_| true));
    assert!(targets.inject_in_hwnd(5, |_| panic!("a registered window is not registered again")));
    assert!(!targets.inject_in_hwnd(6, |_| false));
    assert!(targets.contains(5));
    assert!(!targets.contains(6));
    assert_eq!(targets.drain(), vec![5]);
    assert!(!targets.is_inited());
}

#[test]
fn gtk_file_drop() {
    assert_eq!(strip_file_scheme("file:///home/a.txt"), "/home/a.txt");
    assert_eq!(strip_file_scheme("/home/a.txt"), "/home/a.txt");
    let mut drop = GtkFileDrop::new();
    assert!(drop.drag_drop().is_none());
    assert!(drop.data_received(1, &vec!["file:///x".to_string()]).is_none());
    let hovered = drop.data_received(2, &vec!["file:///x".to_string(), "y".to_string()]);
    assert!(matches!(hovered, Some(FileDropEvent::Hovered(ref p)) if p == &vec!["/x".to_string(), "y".to_string()]));
    assert!(matches!(drop.drag_drop(), Some(FileDropEvent::Dropped(ref p)) if p.len() == 2));
    assert!(drop.drag_drop().is_none());
    assert!(matches!(drop.drag_leave(0), Some(FileDropEvent::Cancelled)));
    assert!(drop.drag_leave(5).is_none());
    assert_eq!(dragging_updated_operation(true, 4), 1);
    assert_eq!(dragging_updated_operation(false, 0), 1);
    assert_eq!(dragging_updated_operation(false, 4), 4);
}

#[test]
fn pending_scripts_run_at_commit() {
    let mut pending = PendingScripts::new();
    assert_eq!(pending.eval("a()".to_string()), None);
    assert_eq!(pending.eval("b()".to_string()), None);
    assert_eq!(pending.commit(), vec!["a()".to_string(), "b()".to_string()]);
    assert_eq!(pending.eval("c()".to_string()), Some("c()".to_string()));
    assert!(pending.commit().is_empty());
}

#[test]
fn authentication_challenges() {
    assert_eq!(authentication_method("NSURLAuthenticationMethodServerTrust"), AuthenticationMethod::ServerTrust);
    assert_eq!(authentication_method("NSURLAuthenticationMethodClientCertificate"), AuthenticationMethod::ClientCertificate);
    assert_eq!(authentication_method("NSURLAuthenticationMethodHTTPBasic"), AuthenticationMethod::Other);
    let server = AuthenticationMethod::ServerTrust;
    assert_eq!(authentication_disposition(server, None, false), ChallengeDisposition::PerformDefaultHandling);
    assert_eq!(
        authentication_disposition(server, Some(PinnedTrust::Evaluated { trusted: true }), false),
        ChallengeDisposition::UseCredential
    );
    assert_eq!(
        authentication_disposition(server, Some(PinnedTrust::Evaluated { trusted: false }), true),
        ChallengeDisposition::CancelAuthenticationChallenge
    );
    assert_eq!(
        authentication_disposition(server, Some(PinnedTrust::NoServerTrust), false),
        ChallengeDisposition::PerformDefaultHandling
    );
    let client = AuthenticationMethod::ClientCertificate;
    assert_eq!(authentication_disposition(client, None, true), ChallengeDisposition::UseCredential);
    assert_eq!(authentication_disposition(client, None, false), ChallengeDisposition::PerformDefaultHandling);
    assert_eq!(
        authentication_disposition(AuthenticationMethod::Other, None, true),
        ChallengeDisposition::PerformDefaultHandling
    );
    assert_eq!(client_certificate_password(None), "");
    assert_eq!(client_certificate_password(Some("pw")), "pw");
}

#[test]
fn ui_and_download_delegates() {
    assert_eq!(media_capture_decision(WKMediaCaptureType::Camera), WKPermissionDecision::Grant);
    assert!(needs_download_delegate(false, true));
    assert!(!needs_download_delegate(false, false));
}

#[test]
fn builder_attributes() {
    let b = WebViewBuilder::new();
    assert!(b.webview.visible && b.webview.autoplay && !b.webview.transparent);
    assert_eq!(b.custom_protocol_scheme(), "http");
    let b = b
        .with_initialization_script("")
        .with_initialization_script("init()")
        .with_transparent(true)
        .with_https_scheme(true)
        .with_theme(Theme::Dark)
        .with_custom_protocol("wry".to_string());
    assert_eq!(b.webview.initialization_scripts, vec!["init()".to_string()]);
    assert!(b.webview.transparent);
    assert_eq!(b.custom_protocol_scheme(), "https");
    assert_eq!(b.platform_specific.theme, Some(Theme::Dark));
    assert_eq!(b.webview.custom_protocols, vec!["wry".to_string()]);
    let b = b.with_url("https://tauri.app").ok().unwrap();
    assert_eq!(b.webview.url, Some("https://tauri.app/".to_string()));
    assert!(b.with_url("not a url").is_err());
    let b = WebViewBuilder::new().with_autoplay(false);
    assert_eq!(b.browser_args(), "--disable-features=msWebOOUI,msPdfOOUI,msSmartScreenProtection");
    let b = b.with_additional_browser_args("--x".to_string());
    assert_eq!(b.browser_args(), "--x");
}

#[test]
fn android_main_thread() {
    assert!(handles_message(MessageKind::CreateWebView, false));
    assert!(handles_message(MessageKind::GetWebViewVersion, false));
    assert!(!handles_message(MessageKind::Eval, false));
    assert!(handles_message(MessageKind::Eval, true));
    assert_eq!(wry::webview::initial_background_color(true, Some((1, 2, 3, 4))), Some((0, 0, 0, 0)));
    assert_eq!(wry::webview::initial_background_color(false, Some((1, 2, 3, 4))), Some((1, 2, 3, 4)));
    assert_eq!(wry::webview::initial_background_color(false, None), None);
    assert_eq!(wry::webview::webview_id(None, -42), "-42");
    assert_eq!(wry::webview::webview_id(Some("main".to_string()), 7), "main");
    assert_eq!(wry::webview::container_window_style(true), 0x5200_0000);
    assert_eq!(wry::webview::container_window_style(false), 0x4200_0000);
    assert_eq!(color_argb_args((1, 2, 3, 4)), (4, 1, 2, 3));
    assert_eq!(load_url_method(true), "loadUrlMainThread");
    assert_eq!(load_url_method(false), "loadUrl");
    assert!(should_override_url_loading(Some(false)));
    assert!(!should_override_url_loading(Some(true)));
    assert!(!should_override_url_loading(None));
}

#[test]
fn visual_targets_are_taken_once() {
    let mut targets: PendingVisualTargets<&str> = PendingVisualTargets::new();
    targets.register(1, "first");
    targets.register(1, "second");
    targets.register(2, "other");
    assert_eq!(targets.take(1), Some("second"));
    assert_eq!(targets.take(1), None);
    assert_eq!(targets.take(2), Some("other"));
}

#[test]
fn gtk_load_events_and_policies() {
    assert_eq!(page_load_event(LoadEvent::Committed), Some(PageLoadEvent::Started));
    assert_eq!(page_load_event(LoadEvent::Finished), Some(PageLoadEvent::Finished));
    assert_eq!(page_load_event(LoadEvent::Started), None);
    assert_eq!(policy_handler(PolicyDecisionType::NavigationAction, true, false), Some(PolicyHandler::Navigation));
    assert_eq!(policy_handler(PolicyDecisionType::NewWindowAction, true, false), None);
    assert_eq!(policy_handler(PolicyDecisionType::NewWindowAction, false, true), Some(PolicyHandler::NewWindow));
    assert_eq!(policy_handler(PolicyDecisionType::Response, true, true), None);
    assert_eq!(webview_protocol_registration(Err(Error::DuplicateCustomProtocol("a".to_string()))), Ok(()));
    assert_eq!(webview_protocol_registration(Err(Error::UrlParse)), Err(Error::UrlParse));
}

#[test]
fn cookie_same_site_codes() {
    for s in [SameSite::Strict, SameSite::Lax, SameSite::Unrestricted] {
        assert_eq!(same_site_from_win32(same_site_to_win32(s)), s);
    }
    assert_eq!(same_site_from_win32(7), SameSite::Unrestricted);
}

#[test]
fn undecorated_window_edges() {
    use_edges();
}

fn use_edges() {
    assert_eq!(wry::resize::edge_cursor_name(wry::resize::WindowEdge::NorthWest), "nw-resize");
    assert_eq!(wry::resize::edge_cursor_name(wry::resize::WindowEdge::Unknown), "default");
    assert!(wry::resize::begins_resize_drag(false, true, false, false, 1, wry::resize::WindowEdge::South));
    assert!(!wry::resize::begins_resize_drag(false, true, false, false, 1, wry::resize::WindowEdge::Unknown));
    assert!(!wry::resize::begins_resize_drag(true, true, false, false, 1, wry::resize::WindowEdge::South));
    assert!(!wry::resize::begins_resize_drag(false, true, true, true, 1, wry::resize::WindowEdge::South));
    assert!(wry::resize::begins_resize_drag(false, true, true, false, 1, wry::resize::WindowEdge::South));
}

#[test]
fn ipc_dispatch_names() {
    let name: Vec<u16> = "postMessage".encode_utf16().collect();
    assert!(wry::win_msg::knows_dispatch_names(1, &name));
    assert!(!wry::win_msg::knows_dispatch_names(2, &name));
    let other: Vec<u16> = "postMessages".encode_utf16().collect();
    assert!(!wry::win_msg::knows_dispatch_names(1, &other));
}

#[test]
fn results_of_outside_calls_are_used_as_given() {
    assert_eq!(wry::csp::sha256_source("abc="), "'sha256-abc='");
    let h = head(200, &[("content-type", b"text/css")]);
    let r = wry::http_response::web_resource_response_with_reason(&h, Some("Fine".to_string())).unwrap();
    assert_eq!(r.reason_phrase, "Fine");
    assert_eq!(r.mime_type, Some("text/css".to_string()));
    let r = wry::http_response::web_resource_response_with_reason(&h, None).unwrap();
    assert_eq!(r.reason_phrase, "OK");
    assert!(wry::http_response::web_resource_response_with_reason(&head(700, &[]), None).is_err());
    assert_eq!(wry::http_response::webview2_status_with_reason(201, Some("Made".to_string())), (201, "Made".to_string()));
    assert_eq!(wry::http_response::webview2_status_with_reason(299, None), (299, "OK".to_string()));
    let b = WebViewBuilder::new().with_parsed_url(Some("wry://x/".to_string()), None).ok().unwrap();
    assert_eq!(b.webview.url, Some("wry://x/".to_string()));
    assert!(WebViewBuilder::new().with_parsed_url(None, None).is_err());
}

#[test]
fn display_capture_handler_needs_macos_13() {
    use_display_capture();
}

fn use_display_capture() {
    assert!(wry::display_capture::installs_display_capture_handler(13, true));
    assert!(!wry::display_capture::installs_display_capture_handler(12, true));
    assert!(!wry::display_capture::installs_display_capture_handler(14, false));
    assert_eq!(
        wry::display_capture::WKDisplayCapturePermissionDecision::from_isize(1),
        WKDisplayCapturePermissionDecision::ScreenPrompt
    );
}

#[test]
fn header_block_with_mime_type() {
    let h = head(200, &[("etag", b"1")]);
    assert_eq!(wry::http_response::webview2_header_block_with_mime(Some("text/html"), &h), "Content-Type: text/html\netag: 1\n");
    assert_eq!(wry::http_response::webview2_header_block_with_mime(None, &h), "etag: 1\n");
}

#[test]
fn navigation_and_download_handlers() {
    let deny_http = |url: String, _main: bool| !url.starts_with("http:");
    assert!(wry::web_context::navigation_allowed(Some(&deny_http), "https://a".to_string(), true));
    assert!(!wry::web_context::navigation_allowed(Some(&deny_http), "http://a".to_string(), true));
    assert!(wry::web_context::navigation_allowed::<fn(String, bool) -> bool>(None, "http://a".to_string(), true));

    let delegate = wry::download::WryDownloadDelegateIvars {
        started: Some(|url: String, path: String| if url.ends_with(".zip") { Some(format!("{path}.part")) } else { None }),
        completed: None::<fn(String, Option<String>, bool)>,
    };
    assert_eq!(delegate.download_destination("https://a/f.zip".to_string(), "/tmp/f.zip".to_string()), Some("/tmp/f.zip.part".to_string()));
    assert_eq!(delegate.download_destination("https://a/f.exe".to_string(), "/tmp/f.exe".to_string()), None);
    delegate.download_did_finish("https://a/f.zip".to_string());

    let seen = std::cell::RefCell::new(Vec::new());
    let delegate = wry::download::WryDownloadDelegateIvars {
        started: None::<fn(String, String) -> Option<String>>,
        completed: Some(|url: String, path: Option<String>, success: bool| seen.borrow_mut().push((url, path, success))),
    };
    assert_eq!(delegate.download_destination("u".to_string(), "p".to_string()), None);
    delegate.download_did_finish("u1".to_string());
    delegate.download_did_fail("u2".to_string());
    assert_eq!(*seen.borrow(), vec![("u1".to_string(), None, true), ("u2".to_string(), None, false)]);
}

#[test]
fn webview2_background_on_creation() {
    assert_eq!(webview2_initial_background(false, Some((1, 2, 3, 4)), false), Some((1, 2, 3, 255)));
    assert_eq!(webview2_initial_background(false, Some((1, 2, 3, 0)), false), Some((1, 2, 3, 0)));
    assert_eq!(webview2_initial_background(false, Some((1, 2, 3, 0)), true), Some((1, 2, 3, 255)));
    assert_eq!(webview2_initial_background(false, None, false), None);
    // A transparent webview ignores the color, and stays as it is on Windows 7.
    assert_eq!(webview2_initial_background(true, Some((1, 2, 3, 4)), false), Some((0, 0, 0, 0)));
    assert_eq!(webview2_initial_background(true, Some((1, 2, 3, 4)), true), None);
}

#[test]
fn url_wins_over_html() {
    let protocols = vec!["wry".to_string()];
    let both = initial_content(Some("wry://app/index.html".to_string()), Some("<p>x</p>".to_string()), "https", &protocols);
    assert!(matches!(both, Some(InitialContent::Url(ref u)) if u == "https://wry.app/index.html"));
    let url = initial_content(Some("https://tauri.app".to_string()), None, "http", &protocols);
    assert!(matches!(url, Some(InitialContent::Url(ref u)) if u == "https://tauri.app"));
    let html = initial_content(None, Some("<p>x</p>".to_string()), "http", &protocols);
    assert!(matches!(html, Some(InitialContent::Html(ref h)) if h == "<p>x</p>"));
    assert!(initial_content(None, None, "http", &protocols).is_none());
}

#[test]
fn download_start_decisions() {
    assert!(matches!(download_starting(true, "/home/u/Downloads/a.zip"), DownloadStart::SaveAt(ref p) if p == "/home/u/Downloads/a.zip"));
    assert!(matches!(download_starting(true, "\\\\?\\C:\\a.zip"),
        DownloadStart::SaveAt(ref p) if p == "\\\\?\\C:\\a.zip" || p == "C:\\a.zip"));
    assert!(matches!(download_starting(false, "/home/u/Downloads/a.zip"), DownloadStart::Cancel));
}

#[test]
fn navigation_starting_cancels_refused_urls() {
    let only_https = |uri: String| uri.starts_with("https://");
    assert!(!navigation_starting(&only_https, "https://tauri.app".to_string()));
    assert!(navigation_starting(&only_https, "http://tauri.app".to_string()));
}

#[test]
fn engine_version_text() {
    assert_eq!(webview_version(2, 44, 1), Ok("2.44.1".to_string()));
    assert_eq!(webview_version(0, 0, 10), Ok("0.0.10".to_string()));
}

#[test]
fn claiming_protocol_names() {
    let mut ctx: WebContext<u8, u32> = WebContext::new(None);
    assert!(ctx.claim_uri_scheme("app"));
    assert!(!ctx.claim_uri_scheme("app"));
    assert!(ctx.is_registered("app"));
    assert_eq!(
        ctx.try_register_uri_scheme("app", |_| -> Result<(), Error> { panic!("a duplicate is not submitted") }),
        Err(Error::DuplicateCustomProtocol("app".to_string()))
    );
}

#[test]
fn setters_leave_the_rest_of_the_builder() {
    let b = WebViewBuilder::new()
        .with_transparent(true)
        .with_custom_protocol("wry".to_string())
        .with_html("<p>x</p>".to_string())
        .ok()
        .unwrap();
    let b = b.with_initialization_script("init()");
    assert!(b.webview.transparent);
    assert_eq!(b.webview.custom_protocols, vec!["wry".to_string()]);
    assert_eq!(b.webview.html, Some("<p>x</p>".to_string()));
    assert!(b.webview.visible && b.webview.autoplay && !b.webview.devtools);
    let b = b.with_custom_protocol("asset".to_string());
    assert_eq!(b.webview.initialization_scripts, vec!["init()".to_string()]);
    assert_eq!(b.webview.custom_protocols, vec!["wry".to_string(), "asset".to_string()]);
}

#[test]
fn scripts_go_first_into_the_head_in_order() {
    let scripts = vec!["a()".to_string(), "b()".to_string(), "c()".to_string()];
    assert_eq!(head_prepend_order(&scripts), vec!["c()".to_string(), "b()".to_string(), "a()".to_string()]);
    let page = inject_scripts("<html><head><title>t</title></head><body>x</body></html>", &scripts);
    assert!(page.contains("<head><script>a()</script><script>b()</script><script>c()</script><title>t</title></head>"));
    assert!(page.contains("<body>x</body>"));
    let bare = inject_scripts("<p>y</p>", &vec!["a()".to_string()]);
    assert!(bare.contains("<head><script>a()</script></head>"));
}

#[test]
fn injected_pages_and_policies() {
    let scripts = vec!["a()".to_string(), "b()".to_string()];
    let html: &[u8] = b"text/html";
    let hashes = script_hashes(&scripts);
    let (page, policy) = injected_page(Some(html), "<head></head>", &scripts, Some("default-src 'self'")).unwrap();
    assert!(page.contains("<head><script>a()</script><script>b()</script></head>"));
    assert_eq!(policy, Some(format!("default-src 'self' script-src {} {}", hashes[0], hashes[1])));
    assert_eq!(hashes[0], hash_script("b()"));
    let (_, policy) = injected_page(Some(html), "<p>x</p>", &scripts, Some("script-src 'self'")).unwrap();
    assert_eq!(policy, Some(format!("script-src {} {} 'self'", hashes[0], hashes[1])));
    let (_, policy) = injected_page(Some(html), "<p>x</p>", &scripts, None).unwrap();
    assert_eq!(policy, None);
    assert!(injected_page(Some(b"text/html; charset=utf-8"), "<p>x</p>", &scripts, None).is_none());
    assert!(injected_page(None, "<p>x</p>", &scripts, None).is_none());
    assert!(injected_page(Some(html), "<p>x</p>", &Vec::new(), None).is_none());
}

#[test]
fn builder_handlers_are_kept_and_called() {
    let b = WebViewBuilder::new();
    assert!(b.webview.navigation_handler.is_none() && b.webview.ipc_handler.is_none());
    let b = b
        .with_transparent(true)
        .with_navigation_handler(|uri: String| uri.starts_with("https://"))
        .with_download_started_handler(|_url: String, path: String| Some(format!("{path}.part")))
        .with_download_completed_handler(|_url: String, _path: Option<String>, _ok: bool| {})
        .with_on_page_load_handler(|_event: PageLoadEvent, _url: String| {})
        .with_file_drop_handler(|_event: PositionedFileDrop| true);
    assert!(b.webview.transparent);
    assert!(b.webview.ipc_handler.is_none());
    let navigation = b.webview.navigation_handler.as_ref().unwrap();
    assert!(navigation.call_with("https://tauri.app".to_string()));
    assert!(!navigation.call_with("http://tauri.app".to_string()));
    let started = b.webview.download_started_handler.as_ref().unwrap();
    assert_eq!(started.call_with("u".to_string(), "/tmp/a".to_string()), Some("/tmp/a.part".to_string()));
    b.webview.download_completed_handler.as_ref().unwrap().call_with("u".to_string(), None, true);
    b.webview.on_page_load_handler.as_ref().unwrap().call_with(PageLoadEvent::Finished, "u".to_string());
    assert!(b.webview.file_drop_handler.as_ref().unwrap().call_with(PositionedFileDrop::Cancelled));
}

fn header_list(pairs: &[(&str, &str)]) -> Vec<(String, String)> {
    pairs.iter().map(|(n, v)| (n.to_string(), v.to_string())).collect()
}

#[test]
fn current_url_is_parsed_or_refused() {
    assert_eq!(wry::webview::current_url("https://tauri.app"), Ok("https://tauri.app/".to_string()));
    assert_eq!(wry::webview::current_url("HTTP://Tauri.App/a/../b"), Ok("http://tauri.app/b".to_string()));
    assert_eq!(wry::webview::current_url("not a url"), Err(Error::UrlParse));
}

#[test]
fn controller_options_follow_the_attributes() {
    let o = wry::webview::controller_options(true, Some((1, 2, 3, 4)));
    assert!(o.in_private_mode);
    assert_eq!(o.default_background_color, Some((1, 2, 3, 255)));
    let o = wry::webview::controller_options(false, Some((1, 2, 3, 0)));
    assert!(!o.in_private_mode);
    assert_eq!(o.default_background_color, Some((1, 2, 3, 0)));
    assert_eq!(wry::webview::controller_options(false, None).default_background_color, None);
}

#[test]
fn custom_requests_are_built_or_refused() {
    let good = header_list(&[("accept", "text/html"), ("x-id", "7")]);
    for engine in [Engine::WebKit, Engine::WebView2, Engine::Android] {
        assert!(matches!(custom_request_answer(engine, "wry://app/index.html", "GET", &good), RequestAnswer::Handle));
    }
    let bad_uri = "wry://app/has space";
    assert!(matches!(custom_request_answer(Engine::WebKit, bad_uri, "GET", &good), RequestAnswer::NotFound));
    assert!(matches!(custom_request_answer(Engine::Android, bad_uri, "GET", &good), RequestAnswer::NoAnswer));
    match custom_request_answer(Engine::WebView2, bad_uri, "GET", &good) {
        RequestAnswer::Refused { status, reason, body } => {
            assert_eq!(status, 400);
            assert_eq!(reason, "Bad Request");
            assert_eq!(body, "invalid uri character");
        }
        other => panic!("{:?}", other),
    }
    match custom_request_answer(Engine::WebView2, "wry://app/", "GE T", &good) {
        RequestAnswer::Refused { body, .. } => assert_eq!(body, "invalid HTTP method"),
        other => panic!("{:?}", other),
    }
    // A bad header is refused by WebKit and WebView2, and left out on Android.
    let bad_header = header_list(&[("bad name", "x"), ("accept", "text/html")]);
    assert!(matches!(custom_request_answer(Engine::WebKit, "wry://app/", "GET", &bad_header), RequestAnswer::NotFound));
    match custom_request_answer(Engine::WebView2, "wry://app/", "GET", &bad_header) {
        RequestAnswer::Refused { body, .. } => assert_eq!(body, "invalid HTTP header name"),
        other => panic!("{:?}", other),
    }
    assert!(matches!(custom_request_answer(Engine::Android, "wry://app/", "GET", &bad_header), RequestAnswer::Handle));
    let bad_value = header_list(&[("x-a", "bad\u{1}value")]);
    match custom_request_answer(Engine::WebView2, "wry://app/", "GET", &bad_value) {
        RequestAnswer::Refused { body, .. } => assert_eq!(body, "failed to parse header value"),
        other => panic!("{:?}", other),
    }
}

#[test]
fn android_keeps_only_headers_http_takes() {
    let headers = header_list(&[("accept", "text/html"), ("bad name", "x"), ("x-a", "bad\u{1}"), ("x-b", "caf\u{e9}\t1")]);
    assert_eq!(
        wry::http_request::accepted_headers(&headers),
        header_list(&[("accept", "text/html"), ("x-b", "caf\u{e9}\t1")])
    );
}

#[test]
fn uri_queue_pops_in_order() {
    let mut loader: WebviewUriLoader<u8> = WebviewUriLoader::new();
    loader.push(1, "a://1".to_string());
    loader.push(2, "a://2".to_string());
    assert_eq!(loader.pop(), Some((1, "a://1".to_string())));
    assert_eq!(loader.pop(), Some((2, "a://2".to_string())));
    assert_eq!(loader.pop(), None);
}
