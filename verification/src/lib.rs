//! A backend-agnostic model of an embedded browser-engine control.
//!
//! The crate models the configuration of a webview embedded in a caller-owned
//! window, the builder that constructs one, and the dispatch contracts that
//! every native backend must present to the host: custom-protocol request
//! interception with single-use responders, in-order IPC delivery,
//! script-evaluation result correlation, navigation and download gating, and
//! ordered page-load events. The native engine itself is outside the crate;
//! the embedder feeds its callbacks in as events and performs the handler
//! invocations that the control's transition functions prescribe.

mod attrs;
mod color;
mod dispatch;
mod error;
mod handle;
mod laws;
mod scheme;
mod webview;

pub use attrs::EmbeddedWebViewAttributes;
pub use attrs::PageLoadEvent;
pub use attrs::PlatformSpecificWebViewAttributes;
pub use attrs::ProxyConfig;
pub use attrs::ProxyKind;
pub use attrs::WebContext;
pub use color::clamped_color;
pub use color::RGBA;
pub use dispatch::CompletionOutcome;
pub use dispatch::DeliveryOutcome;
pub use dispatch::DownloadCompletion;
pub use dispatch::IpcOutcome;
pub use dispatch::PageEventOutcome;
pub use dispatch::RouteOutcome;
pub use error::WebviewError;
pub use handle::WindowHandle;
pub use laws::lemma_allowed_download_completes;
pub use laws::lemma_default_build_observables;
pub use laws::lemma_denied_navigation_never_commits;
pub use laws::lemma_download_completed_exactly_once;
pub use laws::lemma_incognito_always_isolated;
pub use laws::lemma_ipc_delivered_in_post_order;
pub use laws::lemma_navigation_drops_pending_results;
pub use laws::lemma_no_invocation_after_teardown;
pub use laws::lemma_registered_scheme_intercepted;
pub use laws::lemma_responder_completed_exactly_once;
pub use laws::lemma_shared_context_same_scope;
pub use scheme::scheme_of;
pub use webview::ContextScope;
pub use webview::EmbeddedWebViewBuilder;
pub use webview::EmbeddedWebview;
pub use webview::InitialContent;
pub use webview::PagePhase;
