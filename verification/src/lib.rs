//! Platform-independent core of a cross-platform webview library: the rules,
//! state machines and encodings that the platform backends share, stated and
//! proved with Verus.

pub mod error;
pub mod handler;
pub mod text;
pub mod text_scan;
pub mod objc_type;
pub mod display_capture;
pub mod ndk_glue;
pub mod uri_loader;
pub mod web_context;
pub mod proxy;
pub mod custom_protocol;
pub mod custom_task;
pub mod mouse_event;
pub mod http_response;
pub mod http_request;
pub mod csp;
pub mod process_failed;
pub mod resize;
pub mod win_msg;
pub mod webview;
pub mod drag_drop;
pub mod pending_scripts;
pub mod navigation_auth;
pub mod download;
pub mod builder;
pub mod main_pipe;
pub mod composition;
pub mod gtk_webview;
pub mod cookie;
pub mod head_scripts;
