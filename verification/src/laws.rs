use vstd::prelude::*;
use crate::attrs::EmbeddedWebViewAttributes;
use crate::dispatch::{
    completes_response, decides_navigation, delivers_script_result, finishes_download,
    receives_ipc, routes_request, starts_download, starts_page, CompletionOutcome,
    DeliveryOutcome, DownloadCompletion, IpcOutcome, PageEventOutcome, RouteOutcome,
};
use crate::scheme::{scheme_of, scheme_registered, scheme_views};
use crate::webview::{builds_to, opt_str_view, ContextScope, EmbeddedWebViewBuilder, EmbeddedWebview, InitialContent};

verus! {

/// A control built from an attribute set left entirely at its default is
/// visible, focused, non-transparent, autoplay-enabled, shows blank content,
/// and retains no handler registration of any kind.
pub proof fn lemma_default_build_observables(
    b: EmbeddedWebViewBuilder,
    w: EmbeddedWebview,
    debug_build: bool,
)
    requires
        builds_to(b, w),
        b.attrs.is_default_spec(debug_build),
    ensures
        w.visible,
        w.focused,
        !w.transparent,
        w.autoplay,
        !w.destroyed,
        w.initial_content matches InitialContent::Blank,
        w.schemes@.len() == 0,
        !w.has_ipc_handler,
        !w.has_navigation_handler,
        !w.has_download_started_handler,
        !w.has_download_completed_handler,
        !w.has_new_window_handler,
        !w.has_page_load_handler,
        w.devtools_enabled == debug_build,
{
}

/// A request whose URL carries a registered custom scheme is intercepted —
/// routed to the scheme's handler with a fresh pending responder — and never
/// handed to the network.
pub proof fn lemma_registered_scheme_intercepted(
    w0: EmbeddedWebview,
    w1: EmbeddedWebview,
    url: Seq<char>,
    s: Seq<char>,
    r: RouteOutcome,
)
    requires
        routes_request(w0, url, w1, r),
        !w0.destroyed,
        scheme_of(url) == Some(s),
        scheme_registered(scheme_views(w0.schemes@), s),
    ensures
        r == RouteOutcome::Intercept(w0.next_responder),
        r !is Network,
        w1.pending_responders@.contains(w0.next_responder),
{
    assert(w1.pending_responders@[w1.pending_responders@.len() - 1] == w0.next_responder);
}

/// A single-use responder's completion reaches the engine exactly once: once
/// one completion of a token was delivered, every further completion of the
/// same token is a no-op — whichever thread hands the results in, the owning
/// thread applies them one at a time in this order.
pub proof fn lemma_responder_completed_exactly_once(
    w0: EmbeddedWebview,
    w1: EmbeddedWebview,
    w2: EmbeddedWebview,
    t: u64,
    r1: CompletionOutcome,
    r2: CompletionOutcome,
)
    requires
        w0.wf(),
        completes_response(w0, t, w1, r1),
        r1 == CompletionOutcome::Delivered,
        completes_response(w1, t, w2, r2),
    ensures
        r2 != CompletionOutcome::Delivered,
{
    let pre = w0.pending_responders@;
    let j = choose|j: int|
        0 <= j < pre.len() && pre[j] == t && w1.pending_responders@ == pre.remove(j);
    pre.remove_ensures(j);
    if w1.pending_responders@.contains(t) {
        let k = choose|k: int|
            0 <= k < w1.pending_responders@.len() && w1.pending_responders@[k] == t;
        if k < j {
            assert(pre[k] == t);
            assert(false);
        } else {
            assert(pre[k + 1] == t);
            assert(false);
        }
    }
}

/// After teardown completes, a native script result that still arrives is
/// discarded: the host callback is never invoked on or after destruction.
pub proof fn lemma_no_invocation_after_teardown(
    w1: EmbeddedWebview,
    w2: EmbeddedWebview,
    t: u64,
    r: DeliveryOutcome,
)
    requires
        w1.destroyed,
        delivers_script_result(w1, t, w2, r),
    ensures
        r == DeliveryOutcome::Discard,
{
}

/// A script-result callback pending when the page navigates away is dropped:
/// once a new page load commits, delivering the old token invokes nothing.
pub proof fn lemma_navigation_drops_pending_results(
    w0: EmbeddedWebview,
    w1: EmbeddedWebview,
    w2: EmbeddedWebview,
    url: Seq<char>,
    r0: PageEventOutcome,
    t: u64,
    r: DeliveryOutcome,
)
    requires
        starts_page(w0, url, w1, r0),
        r0 != PageEventOutcome::Suppressed,
        delivers_script_result(w1, t, w2, r),
    ensures
        r == DeliveryOutcome::Discard,
{
}

/// Within one page, the IPC handler observes exactly the messages the page
/// posted, in post order: each receipt extends both histories by the same
/// message and keeps them equal.
pub proof fn lemma_ipc_delivered_in_post_order(
    w0: EmbeddedWebview,
    w1: EmbeddedWebview,
    msg: Seq<char>,
    r: IpcOutcome,
)
    requires
        w0.wf(),
        !w0.destroyed,
        w0.has_ipc_handler,
        receives_ipc(w0, msg, w1, r),
    ensures
        r == IpcOutcome::Deliver,
        w1.ipc_posted@ == w0.ipc_posted@.push(msg),
        w1.ipc_delivered@ == w1.ipc_posted@,
{
}

/// An allowed download start is answered by exactly one completion: the
/// first completion of that URL fires the completion handler with the
/// engine's success flag, and — when it consumed the only tracked attempt —
/// a second completion of the same URL fires nothing.
pub proof fn lemma_download_completed_exactly_once(
    w0: EmbeddedWebview,
    w1: EmbeddedWebview,
    w2: EmbeddedWebview,
    url: Seq<char>,
    s1: bool,
    s2: bool,
    r1: DownloadCompletion,
    r2: DownloadCompletion,
)
    requires
        !w0.destroyed,
        exists|j: int|
            0 <= j < w0.downloads_in_flight@.len() && w0.downloads_in_flight@[j]@ == url,
        forall|j: int, k: int|
            (0 <= j < w0.downloads_in_flight@.len() && 0 <= k < w0.downloads_in_flight@.len()
                && w0.downloads_in_flight@[j]@ == url && w0.downloads_in_flight@[k]@ == url)
                ==> j == k,
        finishes_download(w0, url, s1, w1, r1),
        finishes_download(w1, url, s2, w2, r2),
    ensures
        r1 == (DownloadCompletion::Completed {
            notify: w0.has_download_completed_handler,
            success: s1,
        }),
        r2 == DownloadCompletion::Untracked,
{
    let pre = w0.downloads_in_flight@;
    let j = choose|j: int| 0 <= j < pre.len() && pre[j]@ == url && w1.downloads_in_flight@ == pre.remove(j);
    pre.remove_ensures(j);
    if exists|k: int|
        0 <= k < w1.downloads_in_flight@.len() && w1.downloads_in_flight@[k]@ == url {
        let k = choose|k: int|
            0 <= k < w1.downloads_in_flight@.len() && w1.downloads_in_flight@[k]@ == url;
        if k < j {
            assert(pre[k]@ == url);
            assert(false);
        } else {
            assert(pre[k + 1]@ == url);
            assert(false);
        }
    }
}

/// Every download start that was allowed to proceed gets its completion: the
/// engine's terminal report for that URL — success or interruption — is
/// consumed and surfaced through the completion handler.
pub proof fn lemma_allowed_download_completes(
    w0: EmbeddedWebview,
    w1: EmbeddedWebview,
    w2: EmbeddedWebview,
    url: Seq<char>,
    handler_allows: bool,
    dest_is_absolute: bool,
    success: bool,
    r: DownloadCompletion,
)
    requires
        starts_download(w0, url, handler_allows, dest_is_absolute, w1, true),
        finishes_download(w1, url, success, w2, r),
    ensures
        r == (DownloadCompletion::Completed {
            notify: w1.has_download_completed_handler,
            success,
        }),
{
    assert(w1.downloads_in_flight@[w1.downloads_in_flight@.len() - 1]@ == url);
}

/// A navigation the decision handler denies leaves the control exactly as it
/// was: nothing is approved, so no load of that URL can commit afterwards.
pub proof fn lemma_denied_navigation_never_commits(
    w0: EmbeddedWebview,
    w1: EmbeddedWebview,
    w2: EmbeddedWebview,
    url: Seq<char>,
    r1: PageEventOutcome,
)
    requires
        !w0.destroyed,
        w0.has_navigation_handler,
        decides_navigation(w0, url, false, w1, false),
        opt_str_view(w0.approved_nav) != Some(url),
        starts_page(w1, url, w2, r1),
    ensures
        r1 == PageEventOutcome::Suppressed,
        w2.page_phase == w1.page_phase,
{
}

/// An incognito control always operates in an isolated, ephemeral session,
/// whatever shared context was supplied to its builder.
pub proof fn lemma_incognito_always_isolated(b: EmbeddedWebViewBuilder, w: EmbeddedWebview)
    requires
        builds_to(b, w),
        b.attrs.incognito,
    ensures
        w.scope == ContextScope::Ephemeral,
{
}

/// Two non-incognito controls built against browsing contexts with the same
/// id share one storage scope: state one of them persists (cookies set by
/// its pages) is the other's to see.
pub proof fn lemma_shared_context_same_scope(
    b1: EmbeddedWebViewBuilder,
    w1: EmbeddedWebview,
    b2: EmbeddedWebViewBuilder,
    w2: EmbeddedWebview,
    id: u64,
)
    requires
        builds_to(b1, w1),
        builds_to(b2, w2),
        !b1.attrs.incognito,
        !b2.attrs.incognito,
        b1.web_context == Some(id),
        b2.web_context == Some(id),
    ensures
        w1.scope == w2.scope,
        w1.scope == ContextScope::Shared(id),
{
}

} // verus!
