# wry (verified core)

The platform-independent core of a cross-platform webview library, written in
Verus: the rules, encodings and small state machines that the WebKitGTK,
WebKit, WebView2 and Android backends share, each with a contract that Verus
proves.

## Layout

- `src/` — the verified library.
  - `custom_protocol` — serving custom protocols on engines that only load
    standard schemes (URI rewriting and its undoing).
  - `custom_task`, `http_request`, `http_response`, `csp` — answering custom
    protocol requests: task validity, building the request from what the engine
    reports (and each engine's answer when `http` refuses it), response heads
    for each engine, script hashes for the content security policy.
  - `web_context`, `uri_loader` — the shared web context: registered
    protocols, the one-load-at-a-time URI queue, automation.
  - `ndk_glue`, `main_pipe` — the Android activity glue and main-thread
    messages.
  - `win_msg`, `resize`, `composition`, `drag_drop` — window messages,
    borderless resizing, drop targets and composition hosting.
  - `mouse_event`, `pending_scripts`, `navigation_auth`, `download`,
    `gtk_webview`, `webview`, `builder`, `proxy`, `cookie`, `objc_type`,
    `process_failed` — the remaining decisions of the backends.
  - `text`, `text_scan` — verified string helpers.
  - `head_scripts` — putting the initialization scripts into served HTML
    pages, with the `kuchiki` document behind trusted calls that state what
    each does to a model of the document.
  - `handler` — the application's event handlers, kept by the builder.
- `tests/` — tests run against the compiled library.
- `app/` — glue to the `http` crate's requests and responses.

The platform backends themselves (GTK, WebKit, Win32/COM, JNI) are not part of
this crate: the library's functions take the plain values such a backend would
read from the platform, and return what it would act on.
