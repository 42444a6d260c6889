use vstd::prelude::*;
use crate::attrs::{EmbeddedWebViewAttributes, PlatformSpecificWebViewAttributes, WebContext};
use crate::color::{clamped_color, clamped_color_spec, rendered_color_spec, RGBA};
use crate::error::WebviewError;
use crate::handle::WindowHandle;

verus! {

/// The storage scope (cookies, cache, local storage) a control operates
/// under.
#[derive(Clone, Copy, Debug, PartialEq, Eq, Structural)]
pub enum ContextScope {
    /// The scope of an explicitly supplied browsing context; controls built
    /// against contexts with equal ids share it.
    Shared(u64),
    /// The platform's default profile for controls that neither share nor
    /// isolate.
    Standard,
    /// An isolated, ephemeral session: nothing is shared and nothing is
    /// persisted.
    Ephemeral,
}

/// Where the current navigation stands.
#[derive(Clone, Copy, Debug, PartialEq, Eq, Structural)]
pub enum PagePhase {
    /// No page load has been committed yet.
    Idle,
    /// A navigation was approved and its load has started.
    Loading,
    /// The last committed load ran to completion.
    Finished,
}

/// What the control shows first, with the documented precedence: a URL wins
/// over inline HTML when both are supplied, and inline HTML yields a page
/// with an opaque origin.
pub enum InitialContent {
    Blank,
    Url(String),
    Html(String),
}

/// The initial content an attribute set asks for.
pub open spec fn initial_content_spec(a: EmbeddedWebViewAttributes) -> InitialContent {
    match a.url {
        Some(u) => InitialContent::Url(u),
        None => match a.html {
            Some(h) => InitialContent::Html(h),
            None => InitialContent::Blank,
        },
    }
}

/// The characters of an optional string.
pub open spec fn opt_str_view(o: Option<String>) -> Option<Seq<char>> {
    match o {
        Some(s) => Some(s@),
        None => None,
    }
}

/// One embedded browser-engine control: the single handle the host holds.
///
/// The native engine lives with the embedder; the embedder feeds every native
/// callback into the event methods of this type and performs the handler
/// invocations their outcomes prescribe. All fields of the model are public
/// so that contracts can speak of them; the embedder treats them as
/// read-only.
#[verifier::ext_equal]
pub struct EmbeddedWebview {
    // Retained construction-time configuration.
    pub parent: WindowHandle,
    pub scope: ContextScope,
    pub visible: bool,
    pub focused: bool,
    pub transparent: bool,
    pub autoplay: bool,
    pub clipboard: bool,
    pub accept_first_mouse: bool,
    pub back_forward_navigation_gestures: bool,
    pub zoom_hotkeys_enabled: bool,
    pub devtools_enabled: bool,
    pub clamps_background_alpha: bool,
    pub supports_background_color: bool,
    pub initial_content: InitialContent,
    pub init_scripts: Vec<String>,
    // Retained handler registrations; all are released on teardown.
    pub schemes: Vec<String>,
    pub has_ipc_handler: bool,
    pub has_navigation_handler: bool,
    pub has_download_started_handler: bool,
    pub has_download_completed_handler: bool,
    pub has_new_window_handler: bool,
    pub has_page_load_handler: bool,
    // Runtime state.
    pub destroyed: bool,
    pub devtools_open: bool,
    pub pos_x: i32,
    pub pos_y: i32,
    pub background_color: Option<RGBA>,
    pub pending_nav: Option<String>,
    pub nav_headers: Option<Vec<(String, String)>>,
    pub approved_nav: Option<String>,
    pub current_url: Option<String>,
    pub page_phase: PagePhase,
    pub next_token: u64,
    pub pending_evals: Vec<u64>,
    pub next_responder: u64,
    pub pending_responders: Vec<u64>,
    pub downloads_in_flight: Vec<String>,
    // Ghost accounting the dispatch laws are stated over.
    pub ipc_posted: Ghost<Seq<Seq<char>>>,
    pub ipc_delivered: Ghost<Seq<Seq<char>>>,
    pub data_wipes: Ghost<nat>,
}

impl EmbeddedWebview {
    /// Well-formedness: correlation tokens are unique and below their
    /// generators, a torn-down control retains nothing, and a registered IPC
    /// handler has observed exactly what the page posted.
    pub open spec fn wf(self) -> bool {
        &&& forall|i: int, j: int|
            0 <= i < j < self.pending_evals@.len() ==> self.pending_evals@[i]
                != self.pending_evals@[j]
        &&& forall|i: int|
            0 <= i < self.pending_evals@.len() ==> self.pending_evals@[i] < self.next_token
        &&& forall|i: int, j: int|
            0 <= i < j < self.pending_responders@.len() ==> self.pending_responders@[i]
                != self.pending_responders@[j]
        &&& forall|i: int|
            0 <= i < self.pending_responders@.len() ==> self.pending_responders@[i]
                < self.next_responder
        &&& self.has_ipc_handler ==> self.ipc_delivered@ == self.ipc_posted@
        &&& self.destroyed ==> {
            &&& self.pending_evals@.len() == 0
            &&& self.pending_responders@.len() == 0
            &&& self.downloads_in_flight@.len() == 0
            &&& self.schemes@.len() == 0
            &&& !self.has_ipc_handler
            &&& !self.has_navigation_handler
            &&& !self.has_download_started_handler
            &&& !self.has_download_completed_handler
            &&& !self.has_new_window_handler
            &&& !self.has_page_load_handler
            &&& !self.devtools_open
        }
    }
}

/// The browsing-context scope a builder's configuration selects: an
/// incognito control always gets an isolated session, silently overriding
/// any supplied shared context.
pub open spec fn scope_spec(b: EmbeddedWebViewBuilder) -> ContextScope {
    if b.attrs.incognito {
        ContextScope::Ephemeral
    } else {
        match b.web_context {
            Some(id) => ContextScope::Shared(id),
            None => ContextScope::Standard,
        }
    }
}

/// What a successful construction hands back for a given builder.
pub open spec fn builds_to(b: EmbeddedWebViewBuilder, w: EmbeddedWebview) -> bool {
    &&& w.parent == b.parent
    &&& w.scope == scope_spec(b)
    &&& w.visible == b.attrs.visible
    &&& w.focused == b.attrs.focused
    &&& w.transparent == b.attrs.transparent
    &&& w.autoplay == b.attrs.autoplay
    &&& w.clipboard == b.attrs.clipboard
    &&& w.accept_first_mouse == b.attrs.accept_first_mouse
    &&& w.back_forward_navigation_gestures == b.attrs.back_forward_navigation_gestures
    &&& w.zoom_hotkeys_enabled == b.attrs.zoom_hotkeys_enabled
    &&& w.devtools_enabled == b.attrs.devtools
    &&& w.clamps_background_alpha == b.platform_specific.clamps_background_alpha
    &&& w.supports_background_color == b.platform_specific.supports_background_color
    &&& w.initial_content == initial_content_spec(b.attrs)
    &&& w.init_scripts == b.attrs.initialization_scripts
    &&& w.schemes == b.attrs.custom_protocols
    &&& w.has_ipc_handler == b.attrs.ipc_handler
    &&& w.has_navigation_handler == b.attrs.navigation_handler
    &&& w.has_download_started_handler == b.attrs.download_started_handler
    &&& w.has_download_completed_handler == b.attrs.download_completed_handler
    &&& w.has_new_window_handler == b.attrs.new_window_req_handler
    &&& w.has_page_load_handler == b.attrs.on_page_load_handler
    &&& !w.destroyed
    &&& !w.devtools_open
    &&& w.pos_x == (match b.attrs.x {
        Some(v) => v,
        None => 0,
    })
    &&& w.pos_y == (match b.attrs.y {
        Some(v) => v,
        None => 0,
    })
    &&& w.background_color == (match b.attrs.background_color {
        Some(c) => Some(clamped_color_spec(c, b.platform_specific.clamps_background_alpha)),
        None => None::<RGBA>,
    })
    &&& w.pending_nav == b.attrs.url
    &&& w.nav_headers == b.attrs.headers
    &&& w.approved_nav is None
    &&& w.current_url is None
    &&& w.page_phase == PagePhase::Idle
    &&& w.next_token == 0
    &&& w.pending_evals@.len() == 0
    &&& w.next_responder == 0
    &&& w.pending_responders@.len() == 0
    &&& w.downloads_in_flight@.len() == 0
    &&& w.ipc_posted@ == Seq::<Seq<char>>::empty()
    &&& w.ipc_delivered@ == Seq::<Seq<char>>::empty()
    &&& w.data_wipes@ == 0
}

/// Accumulates one attribute set, one platform capability descriptor, the
/// parent window handle, and an optional shared browsing context; consumed
/// by `build`.
pub struct EmbeddedWebViewBuilder {
    pub parent: WindowHandle,
    pub attrs: EmbeddedWebViewAttributes,
    pub platform_specific: PlatformSpecificWebViewAttributes,
    pub web_context: Option<u64>,
}

impl EmbeddedWebViewBuilder {
    /// A builder over the given parent window, with the release-build
    /// default attribute set and default platform capabilities.
    pub fn new(parent: WindowHandle) -> (r: EmbeddedWebViewBuilder)
        ensures
            r.parent == parent,
            r.attrs.is_default_spec(false),
            r.platform_specific == PlatformSpecificWebViewAttributes::default_spec(),
            r.web_context is None,
    {
        EmbeddedWebViewBuilder {
            parent,
            attrs: EmbeddedWebViewAttributes::for_build_mode(false),
            platform_specific: PlatformSpecificWebViewAttributes::default(),
            web_context: None,
        }
    }

    /// Opt this control into the storage scope of `ctx`. Ignored at build
    /// time if the attribute set asks for an incognito session.
    pub fn with_web_context(&mut self, ctx: &WebContext)
        ensures
            *final(self) =~= (EmbeddedWebViewBuilder {
                web_context: Some(ctx.id),
                ..*old(self)
            }),
    {
        self.web_context = Some(ctx.id);
    }

    /// Construct the control: validate the configuration, then hand every
    /// retained registration to the (modelled) backend. Fails with a
    /// distinguishable error when the engine runtime is missing or the
    /// parent handle cannot name a window; nothing partially constructed
    /// escapes a failed build.
    pub fn build(self) -> (r: Result<EmbeddedWebview, WebviewError>)
        ensures
            r is Ok <==> (self.platform_specific.engine_available
                && self.parent.is_valid_spec()),
            r matches Ok(w) ==> builds_to(self, w) && w.wf(),
            r matches Err(e) ==> (e == WebviewError::EngineUnavailable
                <==> !self.platform_specific.engine_available),
            r matches Err(e) ==> (e == WebviewError::InvalidParentHandle
                <==> (self.platform_specific.engine_available
                && !self.parent.is_valid_spec())),
    {
        if !self.platform_specific.engine_available {
            return Err(WebviewError::EngineUnavailable);
        }
        if !self.parent.is_valid() {
            return Err(WebviewError::InvalidParentHandle);
        }
        let EmbeddedWebViewBuilder { parent, attrs, platform_specific, web_context } = self;
        let scope = if attrs.incognito {
            ContextScope::Ephemeral
        } else {
            match web_context {
                Some(id) => ContextScope::Shared(id),
                None => ContextScope::Standard,
            }
        };
        let pending_nav = match &attrs.url {
            Some(u) => Some(u.clone()),
            None => None,
        };
        let initial_content = match attrs.url {
            Some(u) => InitialContent::Url(u),
            None => match attrs.html {
                Some(h) => InitialContent::Html(h),
                None => InitialContent::Blank,
            },
        };
        let background_color = match attrs.background_color {
            Some(c) => Some(clamped_color(c, platform_specific.clamps_background_alpha)),
            None => None,
        };
        let pos_x = match attrs.x {
            Some(v) => v,
            None => 0,
        };
        let pos_y = match attrs.y {
            Some(v) => v,
            None => 0,
        };
        Ok(EmbeddedWebview {
            parent,
            scope,
            visible: attrs.visible,
            focused: attrs.focused,
            transparent: attrs.transparent,
            autoplay: attrs.autoplay,
            clipboard: attrs.clipboard,
            accept_first_mouse: attrs.accept_first_mouse,
            back_forward_navigation_gestures: attrs.back_forward_navigation_gestures,
            zoom_hotkeys_enabled: attrs.zoom_hotkeys_enabled,
            devtools_enabled: attrs.devtools,
            clamps_background_alpha: platform_specific.clamps_background_alpha,
            supports_background_color: platform_specific.supports_background_color,
            initial_content,
            init_scripts: attrs.initialization_scripts,
            schemes: attrs.custom_protocols,
            has_ipc_handler: attrs.ipc_handler,
            has_navigation_handler: attrs.navigation_handler,
            has_download_started_handler: attrs.download_started_handler,
            has_download_completed_handler: attrs.download_completed_handler,
            has_new_window_handler: attrs.new_window_req_handler,
            has_page_load_handler: attrs.on_page_load_handler,
            destroyed: false,
            devtools_open: false,
            pos_x,
            pos_y,
            background_color,
            pending_nav,
            nav_headers: attrs.headers,
            approved_nav: None,
            current_url: None,
            page_phase: PagePhase::Idle,
            next_token: 0,
            pending_evals: Vec::new(),
            next_responder: 0,
            pending_responders: Vec::new(),
            downloads_in_flight: Vec::new(),
            ipc_posted: Ghost(Seq::empty()),
            ipc_delivered: Ghost(Seq::empty()),
            data_wipes: Ghost(0nat),
        })
    }
}

impl EmbeddedWebview {
    /// Construct a control over `parent` with everything at its default.
    pub fn new(parent: WindowHandle) -> (r: Result<EmbeddedWebview, WebviewError>)
        ensures
            r is Ok <==> parent.is_valid_spec(),
            r matches Ok(w) ==> w.wf() && !w.destroyed && w.parent == parent && w.visible
                && w.focused && !w.transparent && w.autoplay,
    {
        EmbeddedWebViewBuilder::new(parent).build()
    }

    /// Move the control inside its parent window.
    #[verifier::rlimit(50)]
    pub fn set_position(&mut self, x: i32, y: i32)
        ensures
            *final(self) =~= (EmbeddedWebview { pos_x: x, pos_y: y, ..*old(self) }),
    {
        self.pos_x = x;
        self.pos_y = y;
    }

    /// The URL of the last committed page, or `about:blank` before any load
    /// committed.
    pub fn url(&self) -> (r: String)
        ensures
            (match self.current_url {
                Some(u) => r@ == u@,
                None => r@ == "about:blank"@,
            }),
    {
        match &self.current_url {
            Some(u) => u.clone(),
            None => "about:blank".to_owned(),
        }
    }

    /// Evaluate script on the current page, discarding any result. Fails
    /// once the control is torn down.
    pub fn evaluate_script(&self, js: &str) -> (r: Result<(), WebviewError>)
        ensures
            r is Ok <==> !self.destroyed,
            r matches Err(e) ==> e == WebviewError::Destroyed,
    {
        if self.destroyed {
            Err(WebviewError::Destroyed)
        } else {
            Ok(())
        }
    }

    /// Evaluate script and ask for its result. Returns the fresh correlation
    /// token under which the embedder keeps the host's result callback; the
    /// eventual native result is matched back through
    /// `deliver_script_result`.
    #[verifier::rlimit(50)]
    pub fn evaluate_script_with_callback(&mut self, js: &str) -> (r: Result<
        u64,
        WebviewError,
    >)
        requires
            old(self).wf(),
            old(self).next_token < u64::MAX,
        ensures
            final(self).wf(),
            r is Ok <==> !old(self).destroyed,
            r matches Ok(t) ==> {
                &&& t == old(self).next_token
                &&& !old(self).pending_evals@.contains(t)
                &&& final(self).pending_evals@ == old(self).pending_evals@.push(t)
                &&& final(self).next_token == old(self).next_token + 1
                &&& *final(self) =~= (EmbeddedWebview {
                    pending_evals: final(self).pending_evals,
                    next_token: final(self).next_token,
                    ..*old(self)
                })
            },
            r is Err ==> *final(self) == *old(self) && r == Err::<u64, WebviewError>(
                WebviewError::Destroyed,
            ),
    {
        if self.destroyed {
            return Err(WebviewError::Destroyed);
        }
        let t = self.next_token;
        self.next_token = self.next_token + 1;
        self.pending_evals.push(t);
        Ok(t)
    }

    /// Launch the print modal for the current content.
    pub fn print(&self) -> (r: Result<(), WebviewError>)
        ensures
            r is Ok <==> !self.destroyed,
            r matches Err(e) ==> e == WebviewError::Destroyed,
    {
        if self.destroyed {
            Err(WebviewError::Destroyed)
        } else {
            Ok(())
        }
    }

    /// Open the web inspector; has effect only while the control is alive
    /// and was built with dev-tools enabled.
    #[verifier::rlimit(50)]
    pub fn open_devtools(&mut self)
        ensures
            *final(self) =~= (EmbeddedWebview {
                devtools_open: old(self).devtools_open || (old(self).devtools_enabled
                    && !old(self).destroyed),
                ..*old(self)
            }),
    {
        if self.devtools_enabled && !self.destroyed {
            self.devtools_open = true;
        }
    }

    /// Close the web inspector.
    #[verifier::rlimit(50)]
    pub fn close_devtools(&mut self)
        ensures
            *final(self) =~= (EmbeddedWebview { devtools_open: false, ..*old(self) }),
    {
        self.devtools_open = false;
    }

    /// Whether the web inspector is currently shown.
    pub fn is_devtools_open(&self) -> (r: bool)
        ensures
            r == self.devtools_open,
    {
        self.devtools_open
    }

    /// Change the background color at runtime. The backend's alpha clamping
    /// rule is applied to what is stored; a backend without runtime
    /// background support reports a distinguishable failure instead of
    /// silently ignoring the call.
    #[verifier::rlimit(50)]
    pub fn set_background_color(&mut self, background_color: RGBA) -> (r: Result<
        (),
        WebviewError,
    >)
        ensures
            r is Ok <==> (!old(self).destroyed && old(self).supports_background_color),
            r is Ok ==> *final(self) =~= (EmbeddedWebview {
                background_color: Some(
                    clamped_color_spec(background_color, old(self).clamps_background_alpha),
                ),
                ..*old(self)
            }),
            r is Err ==> *final(self) == *old(self),
            r matches Err(e) ==> (e == WebviewError::Destroyed <==> old(self).destroyed),
            r matches Err(e) ==> (e == WebviewError::Unsupported <==> (!old(self).destroyed
                && !old(self).supports_background_color)),
    {
        if self.destroyed {
            return Err(WebviewError::Destroyed);
        }
        if !self.supports_background_color {
            return Err(WebviewError::Unsupported);
        }
        let c = clamped_color(background_color, self.clamps_background_alpha);
        self.background_color = Some(c);
        Ok(())
    }

    /// The stored background color as it reaches the screen: its alpha is
    /// honored only when the control was made transparent.
    pub fn rendered_background(&self) -> (r: Option<RGBA>)
        ensures
            (match self.background_color {
                Some(c) => r == Some(rendered_color_spec(c, self.transparent)),
                None => r is None,
            }),
    {
        match self.background_color {
            Some(c) => Some(if self.transparent {
                c
            } else {
                (c.0, c.1, c.2, 255u8)
            }),
            None => None,
        }
    }

    /// Ask the engine to navigate. The request still passes the
    /// navigation-decision gate before anything is fetched.
    #[verifier::rlimit(50)]
    pub fn load_url(&mut self, url: &str) -> (r: Result<(), WebviewError>)
        ensures
            r is Ok <==> !old(self).destroyed,
            r matches Err(e) ==> e == WebviewError::Destroyed && *final(self) == *old(self),
            r is Ok ==> {
                &&& opt_str_view(final(self).pending_nav) == Some(url@)
                &&& final(self).nav_headers is None
                &&& *final(self) =~= (EmbeddedWebview {
                    pending_nav: final(self).pending_nav,
                    nav_headers: None,
                    ..*old(self)
                })
            },
    {
        if self.destroyed {
            return Err(WebviewError::Destroyed);
        }
        self.pending_nav = Some(url.to_owned());
        self.nav_headers = None;
        Ok(())
    }

    /// Ask the engine to navigate, sending the given headers with the
    /// request.
    #[verifier::rlimit(50)]
    pub fn load_url_with_headers(&mut self, url: &str, headers: Vec<(String, String)>) -> (r:
        Result<(), WebviewError>)
        ensures
            r is Ok <==> !old(self).destroyed,
            r is Err ==> *final(self) == *old(self),
            r is Ok ==> {
                &&& opt_str_view(final(self).pending_nav) == Some(url@)
                &&& final(self).nav_headers == Some(headers)
                &&& *final(self) =~= (EmbeddedWebview {
                    pending_nav: final(self).pending_nav,
                    nav_headers: final(self).nav_headers,
                    ..*old(self)
                })
            },
    {
        if self.destroyed {
            return Err(WebviewError::Destroyed);
        }
        self.pending_nav = Some(url.to_owned());
        self.nav_headers = Some(headers);
        Ok(())
    }

    /// Wipe cookies, cache, and storage of this control's scope.
    #[verifier::rlimit(50)]
    pub fn clear_all_browsing_data(&mut self) -> (r: Result<(), WebviewError>)
        ensures
            r is Ok <==> !old(self).destroyed,
            r is Err ==> *final(self) == *old(self),
            r is Ok ==> final(self).data_wipes@ == old(self).data_wipes@ + 1 && *final(self)
                == (EmbeddedWebview { data_wipes: final(self).data_wipes, ..*old(self) }),
    {
        if self.destroyed {
            return Err(WebviewError::Destroyed);
        }
        proof {
            self.data_wipes@ = self.data_wipes@ + 1;
        }
        Ok(())
    }

    /// The native handle of the parent window the control was embedded into.
    pub fn parent(&self) -> (r: isize)
        ensures
            r == self.parent.hwnd,
    {
        self.parent.hwnd
    }

    /// Tear the control down: release the native engine, drop every retained
    /// handler registration, and guarantee that no handler is invoked again,
    /// including for native work already in flight.
    #[verifier::rlimit(50)]
    pub fn destroy(&mut self)
        ensures
            final(self).wf(),
            final(self).destroyed,
            final(self).pending_evals@.len() == 0,
            final(self).pending_responders@.len() == 0,
            final(self).downloads_in_flight@.len() == 0,
            final(self).schemes@.len() == 0,
            *final(self) =~= (EmbeddedWebview {
                destroyed: true,
                devtools_open: false,
                schemes: final(self).schemes,
                pending_evals: final(self).pending_evals,
                pending_responders: final(self).pending_responders,
                downloads_in_flight: final(self).downloads_in_flight,
                has_ipc_handler: false,
                has_navigation_handler: false,
                has_download_started_handler: false,
                has_download_completed_handler: false,
                has_new_window_handler: false,
                has_page_load_handler: false,
                ..*old(self)
            }),
    {
        self.destroyed = true;
        self.devtools_open = false;
        self.schemes.clear();
        self.pending_evals.clear();
        self.pending_responders.clear();
        self.downloads_in_flight.clear();
        self.has_ipc_handler = false;
        self.has_navigation_handler = false;
        self.has_download_started_handler = false;
        self.has_download_completed_handler = false;
        self.has_new_window_handler = false;
        self.has_page_load_handler = false;
    }
}

} // verus!
