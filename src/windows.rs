use vstd::prelude::*;

verus! {

/// Raw window handle for Win32.
///
/// A field left at zero is one the producer could not supply.
#[non_exhaustive]
#[derive(Debug, Clone, Copy, PartialEq, Eq, Hash, Structural)]
pub struct WindowsHandle {
    /// A Win32 `HWND`.
    pub hwnd: usize,
    /// A Win32 `HINSTANCE`.
    pub hinstance: usize,
}

impl WindowsHandle {
    /// A handle with every field at zero.
    pub fn empty() -> (r: Self)
        ensures
            r.hwnd == 0,
            r.hinstance == 0,
    {
        WindowsHandle { hwnd: 0, hinstance: 0 }
    }

    /// Two handles are equal exactly when every field is equal.
    pub proof fn lemma_eq_iff_fields_eq(a: Self, b: Self)
        ensures
            (a == b) <==> (a.hwnd == b.hwnd && a.hinstance == b.hinstance),
    {
    }
}

/// Raw window handle for WinRT.
///
/// A field left at zero is one the producer could not supply.
#[non_exhaustive]
#[derive(Debug, Clone, Copy, PartialEq, Eq, Hash, Structural)]
pub struct WinRTHandle {
    /// The address of a WinRT `CoreWindow`.
    pub core_window: usize,
}

impl WinRTHandle {
    /// A handle with every field at zero.
    pub fn empty() -> (r: Self)
        ensures
            r.core_window == 0,
    {
        WinRTHandle { core_window: 0 }
    }

    /// Two handles are equal exactly when every field is equal.
    pub proof fn lemma_eq_iff_fields_eq(a: Self, b: Self)
        ensures
            (a == b) <==> (a.core_window == b.core_window),
    {
    }
}

} // verus!
