use vstd::prelude::*;

verus! {

/// Raw window handle for AppKit.
///
/// A field left at zero is one the producer could not supply.
#[non_exhaustive]
#[derive(Debug, Clone, Copy, PartialEq, Eq, Hash, Structural)]
pub struct MacOSHandle {
    /// The address of an `NSWindow`.
    pub ns_window: usize,
    /// The address of an `NSView`.
    pub ns_view: usize,
}

impl MacOSHandle {
    /// A handle with every field at zero.
    pub fn empty() -> (r: Self)
        ensures
            r.ns_window == 0,
            r.ns_view == 0,
    {
        MacOSHandle { ns_window: 0, ns_view: 0 }
    }

    /// Two handles are equal exactly when every field is equal.
    pub proof fn lemma_eq_iff_fields_eq(a: Self, b: Self)
        ensures
            (a == b) <==> (a.ns_window == b.ns_window && a.ns_view == b.ns_view),
    {
    }
}

} // verus!
