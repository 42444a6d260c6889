use vstd::prelude::*;
use crate::scheme::{find_scheme, parse_scheme, scheme_of, scheme_registered, scheme_views};
use crate::webview::{opt_str_view, EmbeddedWebview, PagePhase};

verus! {

/// Where a resource request is sent: to a registered custom-protocol handler
/// (with the single-use responder token the embedder must complete), to the
/// network, or nowhere because the control is gone.
#[derive(Clone, Copy, Debug, PartialEq, Eq, Structural)]
pub enum RouteOutcome {
    /// Serve through the handler of the request's scheme; complete the
    /// carried responder token exactly once.
    Intercept(u64),
    /// No registered scheme matches: let the engine fetch from the network.
    Network,
    /// The control was torn down; the request is discarded.
    Dropped,
}

/// What invoking a custom-protocol responder did.
#[derive(Clone, Copy, Debug, PartialEq, Eq, Structural)]
pub enum CompletionOutcome {
    /// The completion reached the engine; it will not be delivered again.
    Delivered,
    /// The responder was already used (or never issued): a no-op.
    Stale,
    /// The control was torn down: a no-op, never a crash.
    Dropped,
}

/// What a native script-evaluation result leads to.
#[derive(Clone, Copy, Debug, PartialEq, Eq, Structural)]
pub enum DeliveryOutcome {
    /// Invoke the host callback kept under this token, exactly once.
    Invoke,
    /// The token is no longer pending (page gone, control gone, or already
    /// answered): the result is discarded without any invocation.
    Discard,
}

/// What an IPC message the page posted leads to.
#[derive(Clone, Copy, Debug, PartialEq, Eq, Structural)]
pub enum IpcOutcome {
    /// Hand the message to the host's IPC handler.
    Deliver,
    /// No handler is registered, or the control is gone.
    Ignore,
}

/// What a page-load milestone reported by the engine leads to.
#[derive(Clone, Copy, Debug, PartialEq, Eq, Structural)]
pub enum PageEventOutcome {
    /// Report the milestone to the host's page-load handler.
    Notify,
    /// The milestone is recorded but no handler is registered.
    Silent,
    /// The milestone is out of protocol (no approved navigation, or finish
    /// without start) and is not surfaced.
    Suppressed,
}

/// What a finished native download leads to.
#[derive(Clone, Copy, Debug, PartialEq, Eq, Structural)]
pub enum DownloadCompletion {
    /// One tracked download attempt is consumed; `notify` says whether the
    /// host's completion handler is invoked, with this `success` flag.
    Completed { notify: bool, success: bool },
    /// No allowed download of this URL is in flight: nothing fires.
    Untracked,
    /// The control was torn down; the completion is discarded.
    Dropped,
}

/// Construction-time configuration and registrations are untouched.
pub open spec fn same_retained(a: EmbeddedWebview, b: EmbeddedWebview) -> bool {
    &&& b.parent == a.parent
    &&& b.scope == a.scope
    &&& b.visible == a.visible
    &&& b.focused == a.focused
    &&& b.transparent == a.transparent
    &&& b.autoplay == a.autoplay
    &&& b.clipboard == a.clipboard
    &&& b.accept_first_mouse == a.accept_first_mouse
    &&& b.back_forward_navigation_gestures == a.back_forward_navigation_gestures
    &&& b.zoom_hotkeys_enabled == a.zoom_hotkeys_enabled
    &&& b.devtools_enabled == a.devtools_enabled
    &&& b.clamps_background_alpha == a.clamps_background_alpha
    &&& b.supports_background_color == a.supports_background_color
    &&& b.initial_content == a.initial_content
    &&& b.init_scripts == a.init_scripts
    &&& b.schemes == a.schemes
    &&& b.has_ipc_handler == a.has_ipc_handler
    &&& b.has_navigation_handler == a.has_navigation_handler
    &&& b.has_download_started_handler == a.has_download_started_handler
    &&& b.has_download_completed_handler == a.has_download_completed_handler
    &&& b.has_new_window_handler == a.has_new_window_handler
    &&& b.has_page_load_handler == a.has_page_load_handler
    &&& b.destroyed == a.destroyed
    &&& b.devtools_open == a.devtools_open
    &&& b.pos_x == a.pos_x
    &&& b.pos_y == a.pos_y
    &&& b.background_color == a.background_color
    &&& b.data_wipes@ == a.data_wipes@
}

/// The navigation state is untouched.
pub open spec fn same_nav(a: EmbeddedWebview, b: EmbeddedWebview) -> bool {
    &&& b.pending_nav == a.pending_nav
    &&& b.nav_headers == a.nav_headers
    &&& b.approved_nav == a.approved_nav
    &&& b.current_url == a.current_url
    &&& b.page_phase == a.page_phase
}

/// The script-evaluation correlation state is untouched.
pub open spec fn same_evals(a: EmbeddedWebview, b: EmbeddedWebview) -> bool {
    &&& b.next_token == a.next_token
    &&& b.pending_evals@ == a.pending_evals@
}

/// The custom-protocol responder state is untouched.
pub open spec fn same_responders(a: EmbeddedWebview, b: EmbeddedWebview) -> bool {
    &&& b.next_responder == a.next_responder
    &&& b.pending_responders@ == a.pending_responders@
}

/// The download tracking is untouched.
pub open spec fn same_downloads(a: EmbeddedWebview, b: EmbeddedWebview) -> bool {
    b.downloads_in_flight@ == a.downloads_in_flight@
}

/// The IPC history is untouched.
pub open spec fn same_ipc(a: EmbeddedWebview, b: EmbeddedWebview) -> bool {
    &&& b.ipc_posted@ == a.ipc_posted@
    &&& b.ipc_delivered@ == a.ipc_delivered@
}

/// How `route_request` relates the states before and after it and its
/// outcome: a request whose URL carries a registered scheme is intercepted —
/// never sent to the network — and a fresh single-use responder token is
/// issued for it; every other request goes to the network untouched.
pub open spec fn routes_request(
    pre: EmbeddedWebview,
    url: Seq<char>,
    post: EmbeddedWebview,
    r: RouteOutcome,
) -> bool {
    &&& same_retained(pre, post)
    &&& same_nav(pre, post)
    &&& same_evals(pre, post)
    &&& same_downloads(pre, post)
    &&& same_ipc(pre, post)
    &&& if pre.destroyed {
        &&& r == RouteOutcome::Dropped
        &&& same_responders(pre, post)
    } else if scheme_of(url) matches Some(s) && scheme_registered(
        scheme_views(pre.schemes@),
        s,
    ) {
        &&& r == RouteOutcome::Intercept(pre.next_responder)
        &&& post.pending_responders@ == pre.pending_responders@.push(pre.next_responder)
        &&& post.next_responder == pre.next_responder + 1
    } else {
        &&& r == RouteOutcome::Network
        &&& same_responders(pre, post)
    }
}

/// How `complete_response` relates states and outcome: the first completion
/// of a pending responder is delivered and consumes the token; any later
/// completion of the same token, and any completion after teardown, is a
/// no-op.
pub open spec fn completes_response(
    pre: EmbeddedWebview,
    t: u64,
    post: EmbeddedWebview,
    r: CompletionOutcome,
) -> bool {
    &&& same_retained(pre, post)
    &&& same_nav(pre, post)
    &&& same_evals(pre, post)
    &&& same_downloads(pre, post)
    &&& same_ipc(pre, post)
    &&& post.next_responder == pre.next_responder
    &&& if pre.destroyed {
        &&& r == CompletionOutcome::Dropped
        &&& post.pending_responders@ == pre.pending_responders@
    } else if pre.pending_responders@.contains(t) {
        &&& r == CompletionOutcome::Delivered
        &&& exists|j: int|
            0 <= j < pre.pending_responders@.len() && pre.pending_responders@[j] == t
                && post.pending_responders@ == pre.pending_responders@.remove(j)
    } else {
        &&& r == CompletionOutcome::Stale
        &&& post.pending_responders@ == pre.pending_responders@
    }
}

/// How `deliver_script_result` relates states and outcome: a pending token's
/// callback is invoked exactly once; a token dropped by navigation or
/// teardown is discarded without invocation.
pub open spec fn delivers_script_result(
    pre: EmbeddedWebview,
    t: u64,
    post: EmbeddedWebview,
    r: DeliveryOutcome,
) -> bool {
    &&& same_retained(pre, post)
    &&& same_nav(pre, post)
    &&& same_responders(pre, post)
    &&& same_downloads(pre, post)
    &&& same_ipc(pre, post)
    &&& post.next_token == pre.next_token
    &&& if pre.destroyed {
        &&& r == DeliveryOutcome::Discard
        &&& post.pending_evals@ == pre.pending_evals@
    } else if pre.pending_evals@.contains(t) {
        &&& r == DeliveryOutcome::Invoke
        &&& exists|j: int|
            0 <= j < pre.pending_evals@.len() && pre.pending_evals@[j] == t
                && post.pending_evals@ == pre.pending_evals@.remove(j)
    } else {
        &&& r == DeliveryOutcome::Discard
        &&& post.pending_evals@ == pre.pending_evals@
    }
}

/// How `on_ipc_message` relates states and outcome: every message the page
/// posts is appended to the posted history, and is handed to the registered
/// handler in that same order.
pub open spec fn receives_ipc(
    pre: EmbeddedWebview,
    msg: Seq<char>,
    post: EmbeddedWebview,
    r: IpcOutcome,
) -> bool {
    &&& same_retained(pre, post)
    &&& same_nav(pre, post)
    &&& same_evals(pre, post)
    &&& same_responders(pre, post)
    &&& same_downloads(pre, post)
    &&& if pre.destroyed {
        &&& r == IpcOutcome::Ignore
        &&& same_ipc(pre, post)
    } else {
        &&& post.ipc_posted@ == pre.ipc_posted@.push(msg)
        &&& if pre.has_ipc_handler {
            &&& r == IpcOutcome::Deliver
            &&& post.ipc_delivered@ == pre.ipc_delivered@.push(msg)
        } else {
            &&& r == IpcOutcome::Ignore
            &&& post.ipc_delivered@ == pre.ipc_delivered@
        }
    }
}

/// How `on_navigation_request` relates states and outcome: the host's
/// verdict is consulted first, a missing handler means yes, and a refusal
/// leaves the control untouched.
pub open spec fn decides_navigation(
    pre: EmbeddedWebview,
    url: Seq<char>,
    handler_allows: bool,
    post: EmbeddedWebview,
    allowed: bool,
) -> bool {
    &&& same_retained(pre, post)
    &&& same_evals(pre, post)
    &&& same_responders(pre, post)
    &&& same_downloads(pre, post)
    &&& same_ipc(pre, post)
    &&& post.current_url == pre.current_url
    &&& post.page_phase == pre.page_phase
    &&& post.nav_headers == pre.nav_headers
    &&& if pre.destroyed {
        &&& !allowed
        &&& post.pending_nav == pre.pending_nav
        &&& post.approved_nav == pre.approved_nav
    } else {
        &&& allowed == (!pre.has_navigation_handler || handler_allows)
        &&& if allowed {
            &&& opt_str_view(post.approved_nav) == Some(url)
            &&& post.pending_nav is None
        } else {
            &&& post.pending_nav == pre.pending_nav
            &&& post.approved_nav == pre.approved_nav
        }
    }
}

/// How `on_page_load_started` relates states and outcome: only an approved
/// navigation commits; committing drops every pending script-result callback
/// and opens a fresh per-page IPC history.
pub open spec fn starts_page(
    pre: EmbeddedWebview,
    url: Seq<char>,
    post: EmbeddedWebview,
    r: PageEventOutcome,
) -> bool {
    &&& same_retained(pre, post)
    &&& same_responders(pre, post)
    &&& same_downloads(pre, post)
    &&& post.next_token == pre.next_token
    &&& post.pending_nav == pre.pending_nav
    &&& post.nav_headers == pre.nav_headers
    &&& if !pre.destroyed && opt_str_view(pre.approved_nav) == Some(url) {
        &&& r == (if pre.has_page_load_handler {
            PageEventOutcome::Notify
        } else {
            PageEventOutcome::Silent
        })
        &&& opt_str_view(post.current_url) == Some(url)
        &&& post.approved_nav is None
        &&& post.page_phase == PagePhase::Loading
        &&& post.pending_evals@.len() == 0
        &&& post.ipc_posted@ == Seq::<Seq<char>>::empty()
        &&& post.ipc_delivered@ == Seq::<Seq<char>>::empty()
    } else {
        &&& r == PageEventOutcome::Suppressed
        &&& post.approved_nav == pre.approved_nav
        &&& post.current_url == pre.current_url
        &&& post.page_phase == pre.page_phase
        &&& post.pending_evals@ == pre.pending_evals@
        &&& same_ipc(pre, post)
    }
}

/// How `on_page_load_finished` relates states and outcome: finish is
/// reported only for the page whose load started, so milestones never reach
/// the host out of order within one navigation.
pub open spec fn finishes_page(
    pre: EmbeddedWebview,
    url: Seq<char>,
    post: EmbeddedWebview,
    r: PageEventOutcome,
) -> bool {
    &&& same_retained(pre, post)
    &&& same_evals(pre, post)
    &&& same_responders(pre, post)
    &&& same_downloads(pre, post)
    &&& same_ipc(pre, post)
    &&& post.pending_nav == pre.pending_nav
    &&& post.nav_headers == pre.nav_headers
    &&& post.approved_nav == pre.approved_nav
    &&& post.current_url == pre.current_url
    &&& if !pre.destroyed && pre.page_phase == PagePhase::Loading && opt_str_view(
        pre.current_url,
    ) == Some(url) {
        &&& r == (if pre.has_page_load_handler {
            PageEventOutcome::Notify
        } else {
            PageEventOutcome::Silent
        })
        &&& post.page_phase == PagePhase::Finished
    } else {
        &&& r == PageEventOutcome::Suppressed
        &&& post.page_phase == pre.page_phase
    }
}

/// How `on_download_started` relates states and outcome: the host's
/// verdict is consulted before the engine touches the network, and an
/// allowed start (with an absolute destination) stays tracked until a
/// single completion consumes it.
pub open spec fn starts_download(
    pre: EmbeddedWebview,
    url: Seq<char>,
    handler_allows: bool,
    dest_is_absolute: bool,
    post: EmbeddedWebview,
    allowed: bool,
) -> bool {
    &&& same_retained(pre, post)
    &&& same_nav(pre, post)
    &&& same_evals(pre, post)
    &&& same_responders(pre, post)
    &&& same_ipc(pre, post)
    &&& if pre.destroyed {
        &&& !allowed
        &&& same_downloads(pre, post)
    } else {
        &&& allowed == ((!pre.has_download_started_handler || handler_allows)
            && dest_is_absolute)
        &&& if allowed {
            &&& post.downloads_in_flight@.len() == pre.downloads_in_flight@.len() + 1
            &&& post.downloads_in_flight@.drop_last() == pre.downloads_in_flight@
            &&& post.downloads_in_flight@.last()@ == url
        } else {
            same_downloads(pre, post)
        }
    }
}

/// How `on_download_completed` relates states and outcome: completion fires
/// exactly once per allowed start, consuming one tracked attempt of that
/// URL, and carries the engine's success flag through unchanged.
pub open spec fn finishes_download(
    pre: EmbeddedWebview,
    url: Seq<char>,
    success: bool,
    post: EmbeddedWebview,
    r: DownloadCompletion,
) -> bool {
    &&& same_retained(pre, post)
    &&& same_nav(pre, post)
    &&& same_evals(pre, post)
    &&& same_responders(pre, post)
    &&& same_ipc(pre, post)
    &&& if pre.destroyed {
        &&& r == DownloadCompletion::Dropped
        &&& same_downloads(pre, post)
    } else if exists|j: int|
        0 <= j < pre.downloads_in_flight@.len() && pre.downloads_in_flight@[j]@ == url {
        &&& r == (DownloadCompletion::Completed {
            notify: pre.has_download_completed_handler,
            success,
        })
        &&& exists|j: int|
            0 <= j < pre.downloads_in_flight@.len() && pre.downloads_in_flight@[j]@ == url
                && post.downloads_in_flight@ == pre.downloads_in_flight@.remove(j)
    } else {
        &&& r == DownloadCompletion::Untracked
        &&& same_downloads(pre, post)
    }
}

/// Remove the first occurrence of `t`, reporting whether one was there.
fn remove_token(v: &mut Vec<u64>, t: u64) -> (found: bool)
    ensures
        found <==> old(v)@.contains(t),
        found ==> exists|j: int|
            0 <= j < old(v)@.len() && old(v)@[j] == t && final(v)@ == old(v)@.remove(j),
        !found ==> final(v)@ == old(v)@,
{
    let n = v.len();
    let mut i: usize = 0;
    while i < n
        invariant
            n == v@.len(),
            i <= n,
            v@ == old(v)@,
            forall|k: int| 0 <= k < i ==> v@[k] != t,
        decreases n - i,
    {
        if v[i] == t {
            let _ = v.remove(i);
            return true;
        }
        i = i + 1;
    }
    false
}

/// Remove the first tracked entry whose characters equal `url`, reporting
/// whether one was there.
fn remove_first_url(v: &mut Vec<String>, url: &String) -> (found: bool)
    ensures
        found <==> exists|j: int| 0 <= j < old(v)@.len() && old(v)@[j]@ == url@,
        found ==> exists|j: int|
            0 <= j < old(v)@.len() && old(v)@[j]@ == url@ && final(v)@ == old(v)@.remove(j),
        !found ==> final(v)@ == old(v)@,
{
    let n = v.len();
    let mut i: usize = 0;
    while i < n
        invariant
            n == v@.len(),
            i <= n,
            v@ == old(v)@,
            forall|k: int| 0 <= k < i ==> v@[k]@ != url@,
        decreases n - i,
    {
        if v[i].eq(url) {
            let _ = v.remove(i);
            return true;
        }
        i = i + 1;
    }
    false
}

impl EmbeddedWebview {
    /// Route one resource request raised by the engine, before any fetch
    /// happens: a URL with a registered custom scheme is intercepted and a
    /// fresh single-use responder token issued for it; everything else goes
    /// to the network.
    #[verifier::rlimit(50)]
    pub fn route_request(&mut self, url: &str) -> (r: RouteOutcome)
        requires
            old(self).wf(),
            old(self).next_responder < u64::MAX,
        ensures
            final(self).wf(),
            routes_request(*old(self), url@, *final(self), r),
    {
        if self.destroyed {
            return RouteOutcome::Dropped;
        }
        match parse_scheme(url) {
            Some(s) => match find_scheme(&self.schemes, &s) {
                Some(_idx) => {
                    let t = self.next_responder;
                    self.next_responder = self.next_responder + 1;
                    self.pending_responders.push(t);
                    RouteOutcome::Intercept(t)
                },
                None => RouteOutcome::Network,
            },
            None => RouteOutcome::Network,
        }
    }

    /// Complete the custom-protocol response held under a responder token.
    /// The first completion reaches the engine; completing again, or after
    /// teardown, is a no-op.
    #[verifier::rlimit(50)]
    pub fn complete_response(&mut self, responder: u64) -> (r: CompletionOutcome)
        requires
            old(self).wf(),
        ensures
            final(self).wf(),
            completes_response(*old(self), responder, *final(self), r),
    {
        if self.destroyed {
            return CompletionOutcome::Dropped;
        }
        let found = remove_token(&mut self.pending_responders, responder);
        proof {
            if found {
                let j = choose|j: int|
                    0 <= j < old(self).pending_responders@.len()
                        && old(self).pending_responders@[j] == responder
                        && self.pending_responders@ == old(self).pending_responders@.remove(j);
                old(self).pending_responders@.remove_ensures(j);
            }
        }
        if found {
            CompletionOutcome::Delivered
        } else {
            CompletionOutcome::Stale
        }
    }

    /// Deliver a native script-evaluation result for a correlation token.
    /// The pending callback is invoked at most once, and never after the
    /// page navigated away or the control was torn down.
    #[verifier::rlimit(50)]
    pub fn deliver_script_result(&mut self, token: u64) -> (r: DeliveryOutcome)
        requires
            old(self).wf(),
        ensures
            final(self).wf(),
            delivers_script_result(*old(self), token, *final(self), r),
    {
        if self.destroyed {
            return DeliveryOutcome::Discard;
        }
        let found = remove_token(&mut self.pending_evals, token);
        proof {
            if found {
                let j = choose|j: int|
                    0 <= j < old(self).pending_evals@.len() && old(self).pending_evals@[j]
                        == token && self.pending_evals@ == old(self).pending_evals@.remove(j);
                old(self).pending_evals@.remove_ensures(j);
            }
        }
        if found {
            DeliveryOutcome::Invoke
        } else {
            DeliveryOutcome::Discard
        }
    }

    /// Receive one IPC message the page posted to the host bridge; messages
    /// reach the handler in post order, without merging or dropping.
    #[verifier::rlimit(50)]
    pub fn on_ipc_message(&mut self, message: &str) -> (r: IpcOutcome)
        requires
            old(self).wf(),
        ensures
            final(self).wf(),
            receives_ipc(*old(self), message@, *final(self), r),
    {
        if self.destroyed {
            return IpcOutcome::Ignore;
        }
        self.ipc_posted = Ghost(self.ipc_posted@.push(message@));
        if self.has_ipc_handler {
            self.ipc_delivered = Ghost(self.ipc_delivered@.push(message@));
            IpcOutcome::Deliver
        } else {
            IpcOutcome::Ignore
        }
    }

    /// Gate one navigation the engine asks about, before it proceeds.
    /// `handler_allows` is what the host's navigation-decision handler
    /// returned for this URL; it is ignored when no handler is registered.
    #[verifier::rlimit(50)]
    pub fn on_navigation_request(&mut self, url: &str, handler_allows: bool) -> (allowed:
        bool)
        requires
            old(self).wf(),
        ensures
            final(self).wf(),
            decides_navigation(*old(self), url@, handler_allows, *final(self), allowed),
    {
        if self.destroyed {
            return false;
        }
        let allowed = !self.has_navigation_handler || handler_allows;
        if allowed {
            self.approved_nav = Some(url.to_owned());
            self.pending_nav = None;
        }
        allowed
    }

    /// Gate one request to open a new browsing context; same contract shape
    /// as the navigation gate, with no state of this control involved.
    pub fn on_new_window_request(&self, url: &str, handler_allows: bool) -> (allowed: bool)
        ensures
            allowed == (!self.destroyed && (!self.has_new_window_handler || handler_allows)),
    {
        !self.destroyed && (!self.has_new_window_handler || handler_allows)
    }

    /// The engine reports that the load of `url` started. Only an approved
    /// navigation commits; committing drops pending script-result callbacks
    /// and begins a fresh per-page IPC history.
    #[verifier::rlimit(50)]
    pub fn on_page_load_started(&mut self, url: &str) -> (r: PageEventOutcome)
        requires
            old(self).wf(),
        ensures
            final(self).wf(),
            starts_page(*old(self), url@, *final(self), r),
    {
        if self.destroyed {
            return PageEventOutcome::Suppressed;
        }
        let approved = match &self.approved_nav {
            Some(a) => {
                let u = url.to_owned();
                a.eq(&u)
            },
            None => false,
        };
        if !approved {
            return PageEventOutcome::Suppressed;
        }
        self.current_url = Some(url.to_owned());
        self.approved_nav = None;
        self.page_phase = PagePhase::Loading;
        self.pending_evals.clear();
        self.ipc_posted = Ghost(Seq::empty());
        self.ipc_delivered = Ghost(Seq::empty());
        if self.has_page_load_handler {
            PageEventOutcome::Notify
        } else {
            PageEventOutcome::Silent
        }
    }

    /// The engine reports that the load of `url` finished. Reported to the
    /// host only for the page whose load started, so the two milestones
    /// never arrive out of order within one navigation.
    #[verifier::rlimit(50)]
    pub fn on_page_load_finished(&mut self, url: &str) -> (r: PageEventOutcome)
        requires
            old(self).wf(),
        ensures
            final(self).wf(),
            finishes_page(*old(self), url@, *final(self), r),
    {
        if self.destroyed {
            return PageEventOutcome::Suppressed;
        }
        let loading = match self.page_phase {
            PagePhase::Loading => true,
            _ => false,
        };
        let matches_current = match &self.current_url {
            Some(c) => {
                let u = url.to_owned();
                c.eq(&u)
            },
            None => false,
        };
        if loading && matches_current {
            self.page_phase = PagePhase::Finished;
            if self.has_page_load_handler {
                PageEventOutcome::Notify
            } else {
                PageEventOutcome::Silent
            }
        } else {
            PageEventOutcome::Suppressed
        }
    }

    /// Gate one download the engine wants to begin. `handler_allows` is the
    /// download-started handler's verdict and `dest_is_absolute` says
    /// whether the (possibly rewritten) destination path is absolute, as the
    /// contract demands; an allowed start is tracked until its completion.
    #[verifier::rlimit(50)]
    pub fn on_download_started(
        &mut self,
        url: &str,
        handler_allows: bool,
        dest_is_absolute: bool,
    ) -> (allowed: bool)
        requires
            old(self).wf(),
        ensures
            final(self).wf(),
            starts_download(
                *old(self),
                url@,
                handler_allows,
                dest_is_absolute,
                *final(self),
                allowed,
            ),
    {
        if self.destroyed {
            return false;
        }
        let allowed = (!self.has_download_started_handler || handler_allows)
            && dest_is_absolute;
        if allowed {
            self.downloads_in_flight.push(url.to_owned());
            proof {
                assert(self.downloads_in_flight@.drop_last()
                    =~= old(self).downloads_in_flight@);
            }
        }
        allowed
    }

    /// The engine reports one download of `url` as finished, successfully or
    /// not. Exactly one tracked attempt of that URL is consumed, and the
    /// completion handler fires with the engine's success flag.
    #[verifier::rlimit(50)]
    pub fn on_download_completed(&mut self, url: &str, success: bool) -> (r:
        DownloadCompletion)
        requires
            old(self).wf(),
        ensures
            final(self).wf(),
            finishes_download(*old(self), url@, success, *final(self), r),
    {
        if self.destroyed {
            return DownloadCompletion::Dropped;
        }
        let u = url.to_owned();
        let found = remove_first_url(&mut self.downloads_in_flight, &u);
        if found {
            DownloadCompletion::Completed { notify: self.has_download_completed_handler, success }
        } else {
            DownloadCompletion::Untracked
        }
    }
}

} // verus!
