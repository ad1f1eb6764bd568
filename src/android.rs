use vstd::prelude::*;

verus! {

/// Raw window handle for Android.
///
/// A field left at zero is one the producer could not supply.
#[non_exhaustive]
#[derive(Debug, Clone, Copy, PartialEq, Eq, Hash, Structural)]
pub struct AndroidHandle {
    /// The address of an `ANativeWindow`.
    pub a_native_window: usize,
}

impl AndroidHandle {
    /// A handle with every field at zero.
    pub fn empty() -> (r: Self)
        ensures
            r.a_native_window == 0,
    {
        AndroidHandle { a_native_window: 0 }
    }

    /// Two handles are equal exactly when every field is equal.
    pub proof fn lemma_eq_iff_fields_eq(a: Self, b: Self)
        ensures
            (a == b) <==> (a.a_native_window == b.a_native_window),
    {
    }
}

} // verus!
