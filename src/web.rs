use vstd::prelude::*;

verus! {

/// Raw window handle for the web.
///
/// A field left at zero is one the producer could not supply.
#[non_exhaustive]
#[derive(Debug, Clone, Copy, PartialEq, Eq, Hash, Structural)]
pub struct WebHandle {
    /// The id of the canvas element that the window renders into; zero is reserved for none.
    pub id: u32,
}

impl WebHandle {
    /// A handle with every field at zero.
    pub fn empty() -> (r: Self)
        ensures
            r.id == 0,
    {
        WebHandle { id: 0 }
    }

    /// Two handles are equal exactly when every field is equal.
    pub proof fn lemma_eq_iff_fields_eq(a: Self, b: Self)
        ensures
            (a == b) <==> (a.id == b.id),
    {
    }
}

} // verus!
