use embedded_webview::{
    CompletionOutcome, ContextScope, DeliveryOutcome, DownloadCompletion,
    EmbeddedWebViewBuilder, EmbeddedWebview, InitialContent, IpcOutcome, PageEventOutcome,
    PagePhase, RouteOutcome, WebContext, WebviewError, WindowHandle,
};

fn valid_handle() -> WindowHandle {
    WindowHandle::new(42)
}

#[test]
fn default_build_is_visible_focused_opaque_autoplay() {
    let b = EmbeddedWebViewBuilder::new(valid_handle());
    let w = b.build().unwrap();
    assert!(w.visible);
    assert!(w.focused);
    assert!(!w.transparent);
    assert!(w.autoplay);
    assert!(!w.destroyed);
    assert!(matches!(w.initial_content, InitialContent::Blank));
    assert!(w.schemes.is_empty());
    assert!(!w.has_ipc_handler);
    assert!(!w.has_navigation_handler);
    assert!(!w.has_download_started_handler);
    assert!(!w.has_download_completed_handler);
    assert!(!w.has_new_window_handler);
    assert!(!w.has_page_load_handler);
    assert_eq!(w.page_phase, PagePhase::Idle);
    assert_eq!(w.url(), "about:blank");
}

#[test]
fn missing_engine_is_distinguished_from_bad_handle() {
    let mut b = EmbeddedWebViewBuilder::new(valid_handle());
    b.platform_specific.engine_available = false;
    match b.build() {
        Err(e) => assert_eq!(e, WebviewError::EngineUnavailable),
        Ok(_) => panic!("a missing engine must fail construction"),
    }

    let b2 = EmbeddedWebViewBuilder::new(WindowHandle::new(0));
    match b2.build() {
        Err(e) => assert_eq!(e, WebviewError::InvalidParentHandle),
        Ok(_) => panic!("a null parent handle must fail construction"),
    }
}

#[test]
fn url_takes_precedence_over_inline_html() {
    let mut b = EmbeddedWebViewBuilder::new(valid_handle());
    b.attrs.url = Some(String::from("https://example.test/"));
    b.attrs.html = Some(String::from("<p>hi</p>"));
    let w = b.build().unwrap();
    match &w.initial_content {
        InitialContent::Url(u) => assert_eq!(u, "https://example.test/"),
        _ => panic!("inline HTML must lose against a supplied URL"),
    }
    assert_eq!(w.pending_nav.as_deref(), Some("https://example.test/"));

    let mut b2 = EmbeddedWebViewBuilder::new(valid_handle());
    b2.attrs.html = Some(String::from("<p>hi</p>"));
    let w2 = b2.build().unwrap();
    assert!(matches!(w2.initial_content, InitialContent::Html(_)));
    assert!(w2.pending_nav.is_none());
}

#[test]
fn registered_scheme_is_intercepted_before_network() {
    let mut b = EmbeddedWebViewBuilder::new(valid_handle());
    b.attrs.custom_protocols = vec![String::from("app")];
    let mut w = b.build().unwrap();

    // A URL of the registered scheme never reaches the network route.
    assert_eq!(w.route_request("app://bundle/index.html"), RouteOutcome::Intercept(0));
    // Scheme matching goes through real URL parsing: upper-case input still
    // names the same (lower-cased) scheme.
    assert_eq!(w.route_request("APP://bundle/other.html"), RouteOutcome::Intercept(1));
    // Unregistered scheme and unparsable input go to the network.
    assert_eq!(w.route_request("https://example.test/"), RouteOutcome::Network);
    assert_eq!(w.route_request("not a url at all"), RouteOutcome::Network);
}

#[test]
fn responder_completion_is_delivered_exactly_once() {
    let mut b = EmbeddedWebViewBuilder::new(valid_handle());
    b.attrs.custom_protocols = vec![String::from("app")];
    let mut w = b.build().unwrap();
    let t = match w.route_request("app://x") {
        RouteOutcome::Intercept(t) => t,
        other => panic!("expected interception, got {:?}", other),
    };
    assert_eq!(w.complete_response(t), CompletionOutcome::Delivered);
    assert_eq!(w.complete_response(t), CompletionOutcome::Stale);
}

#[test]
fn responder_after_teardown_is_a_noop() {
    let mut b = EmbeddedWebViewBuilder::new(valid_handle());
    b.attrs.custom_protocols = vec![String::from("app")];
    let mut w = b.build().unwrap();
    let t = match w.route_request("app://x") {
        RouteOutcome::Intercept(t) => t,
        other => panic!("expected interception, got {:?}", other),
    };
    w.destroy();
    assert_eq!(w.complete_response(t), CompletionOutcome::Dropped);
    assert_eq!(w.route_request("app://y"), RouteOutcome::Dropped);
}

#[test]
fn script_callback_is_never_invoked_after_destruction() {
    let mut w = EmbeddedWebview::new(valid_handle()).unwrap();
    let t = w.evaluate_script_with_callback("1 + 1").unwrap();
    assert_eq!(t, 0);
    w.destroy();
    assert_eq!(w.deliver_script_result(t), DeliveryOutcome::Discard);
}

#[test]
fn script_result_tokens_correlate_and_fire_once() {
    let mut w = EmbeddedWebview::new(valid_handle()).unwrap();
    let t0 = w.evaluate_script_with_callback("a()").unwrap();
    let t1 = w.evaluate_script_with_callback("b()").unwrap();
    let t2 = w.evaluate_script_with_callback("c()").unwrap();
    assert_eq!((t0, t1, t2), (0, 1, 2));
    // Results may arrive in any order; each pending token fires once.
    assert_eq!(w.deliver_script_result(t1), DeliveryOutcome::Invoke);
    assert_eq!(w.deliver_script_result(t1), DeliveryOutcome::Discard);
    assert_eq!(w.deliver_script_result(t0), DeliveryOutcome::Invoke);
    assert_eq!(w.deliver_script_result(t2), DeliveryOutcome::Invoke);
    // A token never issued is discarded.
    assert_eq!(w.deliver_script_result(99), DeliveryOutcome::Discard);
}

#[test]
fn navigation_drops_pending_script_callbacks() {
    let mut b = EmbeddedWebViewBuilder::new(valid_handle());
    b.attrs.navigation_handler = false;
    let mut w = b.build().unwrap();
    let t = w.evaluate_script_with_callback("x()").unwrap();
    assert!(w.on_navigation_request("https://example.test/next", true));
    assert_ne!(w.on_page_load_started("https://example.test/next"), PageEventOutcome::Suppressed);
    assert_eq!(w.deliver_script_result(t), DeliveryOutcome::Discard);
}

#[test]
fn ipc_messages_are_delivered_per_post() {
    let mut b = EmbeddedWebViewBuilder::new(valid_handle());
    b.attrs.ipc_handler = true;
    let mut w = b.build().unwrap();
    assert_eq!(w.on_ipc_message("first"), IpcOutcome::Deliver);
    assert_eq!(w.on_ipc_message("second"), IpcOutcome::Deliver);
    assert_eq!(w.on_ipc_message("third"), IpcOutcome::Deliver);
    w.destroy();
    assert_eq!(w.on_ipc_message("late"), IpcOutcome::Ignore);
}

#[test]
fn ipc_without_handler_is_ignored() {
    let mut w = EmbeddedWebview::new(valid_handle()).unwrap();
    assert_eq!(w.on_ipc_message("nobody listens"), IpcOutcome::Ignore);
}

#[test]
fn download_completion_fires_exactly_once_per_allowed_start() {
    let mut b = EmbeddedWebViewBuilder::new(valid_handle());
    b.attrs.download_started_handler = true;
    b.attrs.download_completed_handler = true;
    let mut w = b.build().unwrap();

    assert!(w.on_download_started("https://example.test/f.bin", true, true));
    // Interrupted download: completion still fires, success=false.
    assert_eq!(
        w.on_download_completed("https://example.test/f.bin", false),
        DownloadCompletion::Completed { notify: true, success: false }
    );
    // No second completion for the same attempt.
    assert_eq!(
        w.on_download_completed("https://example.test/f.bin", false),
        DownloadCompletion::Untracked
    );
}

#[test]
fn denied_or_relative_download_is_not_tracked() {
    let mut b = EmbeddedWebViewBuilder::new(valid_handle());
    b.attrs.download_started_handler = true;
    let mut w = b.build().unwrap();
    // Handler veto.
    assert!(!w.on_download_started("https://example.test/no.bin", false, true));
    // Rewritten destination that is not absolute.
    assert!(!w.on_download_started("https://example.test/no.bin", true, false));
    assert_eq!(
        w.on_download_completed("https://example.test/no.bin", true),
        DownloadCompletion::Untracked
    );
}

#[test]
fn two_same_url_downloads_complete_independently() {
    let mut b = EmbeddedWebViewBuilder::new(valid_handle());
    b.attrs.download_completed_handler = true;
    let mut w = b.build().unwrap();
    assert!(w.on_download_started("https://example.test/twice.bin", true, true));
    assert!(w.on_download_started("https://example.test/twice.bin", true, true));
    assert_eq!(
        w.on_download_completed("https://example.test/twice.bin", true),
        DownloadCompletion::Completed { notify: true, success: true }
    );
    assert_eq!(
        w.on_download_completed("https://example.test/twice.bin", true),
        DownloadCompletion::Completed { notify: true, success: true }
    );
    assert_eq!(
        w.on_download_completed("https://example.test/twice.bin", true),
        DownloadCompletion::Untracked
    );
}

#[test]
fn blocked_navigation_never_reaches_content_loaded() {
    let mut b = EmbeddedWebViewBuilder::new(valid_handle());
    b.attrs.url = Some(String::from("https://example.test/"));
    b.attrs.navigation_handler = true;
    let mut w = b.build().unwrap();

    // The host's decision handler: deny any URL containing "blocked".
    let decide = |url: &str| !url.contains("blocked");

    let target = "https://example.test/blocked";
    w.load_url(target).unwrap();
    assert!(!w.on_navigation_request(target, decide(target)));
    // The engine was gated: no load of that URL can start, let alone finish.
    assert_eq!(w.on_page_load_started(target), PageEventOutcome::Suppressed);
    assert_eq!(w.on_page_load_finished(target), PageEventOutcome::Suppressed);
    assert_ne!(w.page_phase, PagePhase::Finished);
    assert_eq!(w.url(), "about:blank");

    // An allowed URL proceeds through start and finish in order.
    let ok_target = "https://example.test/";
    assert!(w.on_navigation_request(ok_target, decide(ok_target)));
    assert_eq!(w.on_page_load_started(ok_target), PageEventOutcome::Silent);
    assert_eq!(w.on_page_load_finished(ok_target), PageEventOutcome::Silent);
    assert_eq!(w.page_phase, PagePhase::Finished);
    assert_eq!(w.url(), "https://example.test/");
}

#[test]
fn page_events_never_fire_out_of_order() {
    let mut b = EmbeddedWebViewBuilder::new(valid_handle());
    b.attrs.on_page_load_handler = true;
    let mut w = b.build().unwrap();
    // Finish without a started load is suppressed.
    assert_eq!(w.on_page_load_finished("https://example.test/"), PageEventOutcome::Suppressed);
    assert!(w.on_navigation_request("https://example.test/", true));
    // Start for a URL other than the approved one is suppressed.
    assert_eq!(w.on_page_load_started("https://other.test/"), PageEventOutcome::Suppressed);
    assert_eq!(w.on_page_load_started("https://example.test/"), PageEventOutcome::Notify);
    assert_eq!(w.on_page_load_finished("https://example.test/"), PageEventOutcome::Notify);
}

#[test]
fn background_color_clamps_and_honors_alpha_with_transparency() {
    // Backend that clamps non-zero alpha, control not transparent: setting
    // RGBA(10,20,30,0) reports success but renders fully opaque.
    let mut w = EmbeddedWebview::new(valid_handle()).unwrap();
    w.set_background_color((10, 20, 30, 0)).unwrap();
    assert_eq!(w.rendered_background(), Some((10, 20, 30, 255)));

    // With the transparency flag set, alpha=0 is honored as fully
    // transparent pixels.
    let mut b = EmbeddedWebViewBuilder::new(valid_handle());
    b.attrs.transparent = true;
    let mut w2 = b.build().unwrap();
    w2.set_background_color((10, 20, 30, 0)).unwrap();
    assert_eq!(w2.rendered_background(), Some((10, 20, 30, 0)));

    // Any non-zero alpha is clamped to opaque on such a backend.
    w2.set_background_color((1, 2, 3, 128)).unwrap();
    assert_eq!(w2.rendered_background(), Some((1, 2, 3, 255)));
}

#[test]
fn background_color_failure_is_reported_not_swallowed() {
    let mut b = EmbeddedWebViewBuilder::new(valid_handle());
    b.platform_specific.supports_background_color = false;
    let mut w = b.build().unwrap();
    assert_eq!(w.set_background_color((0, 0, 0, 255)).unwrap_err(), WebviewError::Unsupported);

    let mut w2 = EmbeddedWebview::new(valid_handle()).unwrap();
    w2.destroy();
    assert_eq!(w2.set_background_color((0, 0, 0, 255)).unwrap_err(), WebviewError::Destroyed);
}

#[test]
fn shared_context_is_one_scope_and_incognito_overrides_it() {
    let ctx = WebContext::new(7);

    let mut b1 = EmbeddedWebViewBuilder::new(valid_handle());
    b1.with_web_context(&ctx);
    let a = b1.build().unwrap();

    let mut b2 = EmbeddedWebViewBuilder::new(valid_handle());
    b2.with_web_context(&ctx);
    let bee = b2.build().unwrap();

    // Both controls operate on the same storage scope: cookies one of them
    // persists are the other's to see.
    assert_eq!(a.scope, ContextScope::Shared(7));
    assert_eq!(a.scope, bee.scope);

    // An incognito control silently ignores the supplied context.
    let mut b3 = EmbeddedWebViewBuilder::new(valid_handle());
    b3.with_web_context(&ctx);
    b3.attrs.incognito = true;
    let c = b3.build().unwrap();
    assert_eq!(c.scope, ContextScope::Ephemeral);

    // Without an explicit opt-in, nothing is shared.
    let d = EmbeddedWebview::new(valid_handle()).unwrap();
    assert_eq!(d.scope, ContextScope::Standard);
}

#[test]
fn facade_operations_forward_and_fail_when_destroyed() {
    let mut w = EmbeddedWebview::new(valid_handle()).unwrap();
    assert_eq!(w.parent(), 42);
    w.set_position(5, -3);
    assert_eq!((w.pos_x, w.pos_y), (5, -3));
    assert!(w.print().is_ok());
    assert!(w.evaluate_script("console.log(1)").is_ok());
    assert!(w.clear_all_browsing_data().is_ok());
    w.load_url_with_headers(
        "https://example.test/",
        vec![(String::from("x-one"), String::from("1"))],
    )
    .unwrap();
    assert_eq!(w.pending_nav.as_deref(), Some("https://example.test/"));
    assert_eq!(
        w.nav_headers,
        Some(vec![(String::from("x-one"), String::from("1"))])
    );

    w.destroy();
    assert_eq!(w.print().unwrap_err(), WebviewError::Destroyed);
    assert_eq!(w.evaluate_script("1").unwrap_err(), WebviewError::Destroyed);
    assert_eq!(w.clear_all_browsing_data().unwrap_err(), WebviewError::Destroyed);
    assert_eq!(w.load_url("https://example.test/").unwrap_err(), WebviewError::Destroyed);
    assert_eq!(w.evaluate_script_with_callback("1").unwrap_err(), WebviewError::Destroyed);
}

#[test]
fn devtools_open_only_when_enabled() {
    let mut b = EmbeddedWebViewBuilder::new(valid_handle());
    b.attrs.devtools = true;
    let mut w = b.build().unwrap();
    assert!(!w.is_devtools_open());
    w.open_devtools();
    assert!(w.is_devtools_open());
    w.close_devtools();
    assert!(!w.is_devtools_open());

    // Dev-tools disabled at construction: opening has no effect.
    let mut w2 = EmbeddedWebview::new(valid_handle()).unwrap();
    w2.open_devtools();
    assert!(!w2.is_devtools_open());
}

#[test]
fn new_window_gate_defaults_to_allow() {
    let mut w = EmbeddedWebview::new(valid_handle()).unwrap();
    assert!(w.on_new_window_request("https://example.test/pop", false));

    let mut b = EmbeddedWebViewBuilder::new(valid_handle());
    b.attrs.new_window_req_handler = true;
    let w2 = b.build().unwrap();
    assert!(!w2.on_new_window_request("https://example.test/pop", false));
    assert!(w2.on_new_window_request("https://example.test/pop", true));

    w.destroy();
    assert!(!w.on_new_window_request("https://example.test/pop", true));
}
