use vstd::prelude::*;

verus! {

/// Raw window handle for UIKit.
///
/// A field left at zero is one the producer could not supply.
#[non_exhaustive]
#[derive(Debug, Clone, Copy, PartialEq, Eq, Hash, Structural)]
pub struct IOSHandle {
    /// The address of a `UIWindow`.
    pub ui_window: usize,
    /// The address of a `UIView`.
    pub ui_view: usize,
    /// The address of a `UIViewController`.
    pub ui_view_controller: usize,
}

impl IOSHandle {
    /// A handle with every field at zero.
    pub fn empty() -> (r: Self)
        ensures
            r.ui_window == 0,
            r.ui_view == 0,
            r.ui_view_controller == 0,
    {
        IOSHandle { ui_window: 0, ui_view: 0, ui_view_controller: 0 }
    }

    /// Two handles are equal exactly when every field is equal.
    pub proof fn lemma_eq_iff_fields_eq(a: Self, b: Self)
        ensures
            (a == b) <==> (a.ui_window == b.ui_window && a.ui_view == b.ui_view && a.ui_view_controller == b.ui_view_controller),
    {
    }
}

} // verus!
