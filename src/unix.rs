use vstd::prelude::*;

verus! {

/// Raw window handle for Xlib.
///
/// A field left at zero is one the producer could not supply.
#[non_exhaustive]
#[derive(Debug, Clone, Copy, PartialEq, Eq, Hash, Structural)]
pub struct XlibHandle {
    /// An Xlib `Window`.
    pub window: u64,
    /// The address of an Xlib `Display`.
    pub display: usize,
}

impl XlibHandle {
    /// A handle with every field at zero.
    pub fn empty() -> (r: Self)
        ensures
            r.window == 0,
            r.display == 0,
    {
        XlibHandle { window: 0, display: 0 }
    }

    /// Two handles are equal exactly when every field is equal.
    pub proof fn lemma_eq_iff_fields_eq(a: Self, b: Self)
        ensures
            (a == b) <==> (a.window == b.window && a.display == b.display),
    {
    }
}

/// Raw window handle for XCB.
///
/// A field left at zero is one the producer could not supply.
#[non_exhaustive]
#[derive(Debug, Clone, Copy, PartialEq, Eq, Hash, Structural)]
pub struct XcbHandle {
    /// An X11 `xcb_window_t`.
    pub window: u32,
    /// The address of an `xcb_connection_t`.
    pub connection: usize,
}

impl XcbHandle {
    /// A handle with every field at zero.
    pub fn empty() -> (r: Self)
        ensures
            r.window == 0,
            r.connection == 0,
    {
        XcbHandle { window: 0, connection: 0 }
    }

    /// Two handles are equal exactly when every field is equal.
    pub proof fn lemma_eq_iff_fields_eq(a: Self, b: Self)
        ensures
            (a == b) <==> (a.window == b.window && a.connection == b.connection),
    {
    }
}

/// Raw window handle for Wayland.
///
/// A field left at zero is one the producer could not supply.
#[non_exhaustive]
#[derive(Debug, Clone, Copy, PartialEq, Eq, Hash, Structural)]
pub struct WaylandHandle {
    /// The address of a `wl_surface`.
    pub surface: usize,
    /// The address of a `wl_display`.
    pub display: usize,
}

impl WaylandHandle {
    /// A handle with every field at zero.
    pub fn empty() -> (r: Self)
        ensures
            r.surface == 0,
            r.display == 0,
    {
        WaylandHandle { surface: 0, display: 0 }
    }

    /// Two handles are equal exactly when every field is equal.
    pub proof fn lemma_eq_iff_fields_eq(a: Self, b: Self)
        ensures
            (a == b) <==> (a.surface == b.surface && a.display == b.display),
    {
    }
}

} // verus!
