use vstd::prelude::*;

verus! {

/// The caller-owned native window a control is embedded into, reduced to the
/// integer the host platform uses to name it. A null handle is the one shape
/// the builder can reject without asking the native layer.
#[derive(Clone, Copy, Debug, PartialEq, Eq, Structural)]
pub struct WindowHandle {
    pub hwnd: isize,
}

impl WindowHandle {
    /// Whether the handle can possibly name a window: the platform reserves
    /// zero for "no window".
    pub open spec fn is_valid_spec(self) -> bool {
        self.hwnd != 0
    }

    pub fn new(hwnd: isize) -> (r: WindowHandle)
        ensures
            r.hwnd == hwnd,
    {
        WindowHandle { hwnd }
    }

    pub fn is_valid(&self) -> (r: bool)
        ensures
            r == self.is_valid_spec(),
    {
        self.hwnd != 0
    }
}

} // verus!
