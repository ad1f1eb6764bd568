use vstd::prelude::*;

verus! {

/// Raw window handle for Redox's orbital windowing.
///
/// A field left at zero is one the producer could not supply.
#[non_exhaustive]
#[derive(Debug, Clone, Copy, PartialEq, Eq, Hash, Structural)]
pub struct RedoxHandle {
    /// The address of an orbital window.
    pub window: usize,
}

impl RedoxHandle {
    /// A handle with every field at zero.
    pub fn empty() -> (r: Self)
        ensures
            r.window == 0,
    {
        RedoxHandle { window: 0 }
    }

    /// Two handles are equal exactly when every field is equal.
    pub proof fn lemma_eq_iff_fields_eq(a: Self, b: Self)
        ensures
            (a == b) <==> (a.window == b.window),
    {
    }
}

} // verus!
