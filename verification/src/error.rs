use vstd::prelude::*;

verus! {

/// Why a construction or a runtime operation failed.
///
/// Construction failures are terminal for the builder invocation that raised
/// them; runtime failures concern only the operation that returned them and
/// leave the control usable.
#[derive(Clone, Copy, Debug, PartialEq, Eq, Structural)]
pub enum WebviewError {
    /// The native engine runtime could not be found on this machine.
    EngineUnavailable,
    /// The parent window handle is structurally invalid for the host platform.
    InvalidParentHandle,
    /// The control has already been torn down.
    Destroyed,
    /// The backend does not support the requested operation at runtime.
    Unsupported,
}

} // verus!
