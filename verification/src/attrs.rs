use vstd::prelude::*;
use crate::color::RGBA;

verus! {

/// Lifecycle milestones reported to the page-load handler.
#[derive(Clone, Copy, Debug, PartialEq, Eq, Structural)]
pub enum PageLoadEvent {
    /// The engine has started loading a page.
    Started,
    /// The engine has finished loading a page.
    Finished,
}

/// Which proxy protocol an upstream proxy speaks.
#[derive(Clone, Copy, Debug, PartialEq, Eq, Structural)]
pub enum ProxyKind {
    HttpConnect,
    Socks5,
}

/// An upstream proxy applied to all network traffic of a control.
#[derive(Debug)]
pub struct ProxyConfig {
    pub kind: ProxyKind,
    pub host: String,
    pub port: u16,
}

/// A browsing-context scope (cookies, cache, storage) that controls may opt
/// into sharing. Two controls built against contexts with equal `id` operate
/// on the same storage scope.
#[derive(Clone, Copy, Debug, PartialEq, Eq, Structural)]
pub struct WebContext {
    pub id: u64,
}

impl WebContext {
    pub fn new(id: u64) -> (r: WebContext)
        ensures
            r.id == id,
    {
        WebContext { id }
    }
}

/// Backend-specific attributes that the common set cannot express; unset
/// fields fall back to backend defaults.
#[derive(Clone, Copy, Debug)]
pub struct PlatformSpecificWebViewAttributes {
    /// Whether custom-protocol URLs are mapped under an `https` authority
    /// rather than `http` on backends that rewrite such schemes.
    pub https_scheme: bool,
    /// Whether the backend replaces any background alpha other than fully
    /// transparent by fully opaque.
    pub clamps_background_alpha: bool,
    /// Whether the backend implements a runtime background-color change at
    /// all.
    pub supports_background_color: bool,
    /// What probing for the native engine runtime found; construction fails
    /// with a distinguishable error when the runtime is missing.
    pub engine_available: bool,
}

impl PlatformSpecificWebViewAttributes {
    pub open spec fn default_spec() -> PlatformSpecificWebViewAttributes {
        PlatformSpecificWebViewAttributes {
            https_scheme: false,
            clamps_background_alpha: true,
            supports_background_color: true,
            engine_available: true,
        }
    }
}

impl Default for PlatformSpecificWebViewAttributes {
    fn default() -> (r: Self)
        ensures
            r == Self::default_spec(),
    {
        PlatformSpecificWebViewAttributes {
            https_scheme: false,
            clamps_background_alpha: true,
            supports_background_color: true,
            engine_available: true,
        }
    }
}

/// The immutable-once-built bag of configuration a control is constructed
/// from.
///
/// Host-supplied handler closures stay with the embedder; the attribute set
/// records which handlers are present (and, for custom protocols, the scheme
/// each one serves), which is all the dispatch logic reads of them.
pub struct EmbeddedWebViewAttributes {
    pub width: Option<u32>,
    pub height: Option<u32>,
    pub x: Option<i32>,
    pub y: Option<i32>,
    /// A custom user-agent string, if any.
    pub user_agent: Option<String>,
    /// Whether the control is shown at all.
    pub visible: bool,
    /// Whether the control composes translucently over the parent window.
    pub transparent: bool,
    /// The requested background color; its alpha is honored only together
    /// with `transparent`.
    pub background_color: Option<RGBA>,
    /// The URL to load first. Takes precedence over `html` when both are
    /// supplied.
    pub url: Option<String>,
    /// Headers sent along with the initial `url` request.
    pub headers: Option<Vec<(String, String)>>,
    /// Inline HTML to load first; the resulting page has an opaque origin.
    /// Ignored when `url` is also supplied.
    pub html: Option<String>,
    /// Scripts injected, in order, before any page script runs, on every
    /// navigation, for the lifetime of the control.
    pub initialization_scripts: Vec<String>,
    /// The scheme names whose requests the embedder serves instead of the
    /// network. The embedder keeps one handler per listed scheme.
    pub custom_protocols: Vec<String>,
    /// Whether an IPC handler is registered for messages the page posts.
    pub ipc_handler: bool,
    /// Whether a handler gates navigations.
    pub navigation_handler: bool,
    /// Whether a handler gates download starts and may rewrite destinations.
    pub download_started_handler: bool,
    /// Whether a handler observes download completions.
    pub download_completed_handler: bool,
    /// Whether a handler gates requests to open a new browsing context.
    pub new_window_req_handler: bool,
    /// Whether a handler observes page-load lifecycle events.
    pub on_page_load_handler: bool,
    /// Whether the page may read and write the clipboard.
    pub clipboard: bool,
    /// Whether the web inspector may be opened on this control.
    pub devtools: bool,
    /// Whether a click on an inactive window also reaches the page.
    pub accept_first_mouse: bool,
    /// Whether horizontal swipes navigate back and forward.
    pub back_forward_navigation_gestures: bool,
    /// Whether page zooming by hotkeys is enabled.
    pub zoom_hotkeys_enabled: bool,
    /// Whether the control runs in an ephemeral session; a supplied shared
    /// browsing context is then silently ignored.
    pub incognito: bool,
    /// Whether media may play without user interaction.
    pub autoplay: bool,
    /// An upstream proxy for all traffic of the control.
    pub proxy_config: Option<ProxyConfig>,
    /// Whether the control takes keyboard focus when created.
    pub focused: bool,
}

impl EmbeddedWebViewAttributes {
    /// The total default configuration: an unconfigured builder still
    /// produces a valid, visible, blank control. The dev-tools default is the
    /// one documented choice that depends on the build mode, so it is passed
    /// in explicitly.
    pub open spec fn is_default_spec(self, debug_build: bool) -> bool {
        &&& self.width is None
        &&& self.height is None
        &&& self.x is None
        &&& self.y is None
        &&& self.user_agent is None
        &&& self.visible
        &&& !self.transparent
        &&& self.background_color is None
        &&& self.url is None
        &&& self.headers is None
        &&& self.html is None
        &&& self.initialization_scripts@ =~= Seq::<String>::empty()
        &&& self.custom_protocols@ =~= Seq::<String>::empty()
        &&& !self.ipc_handler
        &&& !self.navigation_handler
        &&& !self.download_started_handler
        &&& !self.download_completed_handler
        &&& !self.new_window_req_handler
        &&& !self.on_page_load_handler
        &&& !self.clipboard
        &&& self.devtools == debug_build
        &&& !self.accept_first_mouse
        &&& !self.back_forward_navigation_gestures
        &&& !self.zoom_hotkeys_enabled
        &&& !self.incognito
        &&& self.autoplay
        &&& self.proxy_config is None
        &&& self.focused
    }

    /// The default attribute set for the given build mode: dev-tools are
    /// enabled by default in a debug build and disabled otherwise.
    pub fn for_build_mode(debug_build: bool) -> (r: EmbeddedWebViewAttributes)
        ensures
            r.is_default_spec(debug_build),
    {
        EmbeddedWebViewAttributes {
            width: None,
            height: None,
            x: None,
            y: None,
            user_agent: None,
            visible: true,
            transparent: false,
            background_color: None,
            url: None,
            headers: None,
            html: None,
            initialization_scripts: Vec::new(),
            custom_protocols: Vec::new(),
            ipc_handler: false,
            navigation_handler: false,
            download_started_handler: false,
            download_completed_handler: false,
            new_window_req_handler: false,
            on_page_load_handler: false,
            clipboard: false,
            devtools: debug_build,
            accept_first_mouse: false,
            back_forward_navigation_gestures: false,
            zoom_hotkeys_enabled: false,
            incognito: false,
            autoplay: true,
            proxy_config: None,
            focused: true,
        }
    }
}

impl Default for EmbeddedWebViewAttributes {
    /// The release-build default; a debug build passes `true` to
    /// `for_build_mode` instead.
    fn default() -> (r: Self)
        ensures
            r.is_default_spec(false),
    {
        Self::for_build_mode(false)
    }
}

} // verus!
