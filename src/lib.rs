//! Standard types for handing a window's platform-specific raw handle from
//! the library that creates the window to the library that renders into it.
//!
//! Every platform handle struct is non-exhaustive, so fields can be added
//! later without breaking callers. Each provides an `empty` constructor that
//! sets every field to zero; a caller then sets the fields it has.
use vstd::prelude::*;

pub mod android;
pub mod ios;
pub mod macos;
pub mod redox;
pub mod unix;
pub mod web;
pub mod windows;

verus! {

/// A window that can report its platform-specific raw handle.
///
/// # Obligations of an implementer
///
/// Users may assume that every non-zero field of the returned handle is a
/// valid, live handle for this process, and the implementer must make sure
/// of that. A field it cannot supply stays at zero; it should still fill in
/// every field it can.
///
/// The handles returned by `raw_window_handle` must stay the same across
/// calls, unless a platform-specific event says otherwise. Nothing here can
/// check these obligations: each implementation must document how it meets
/// them.
pub trait HasRawWindowHandle {
    fn raw_window_handle(&self) -> RawWindowHandle;
}

/// A raw window handle for one platform.
///
/// More variants may be added later, so a `match` outside this crate needs
/// a catch-all arm.
#[non_exhaustive]
#[derive(Debug, Clone, Copy, PartialEq, Eq, Hash, Structural)]
pub enum RawWindowHandle {
    IOS(ios::IOSHandle),
    MacOS(macos::MacOSHandle),
    Redox(redox::RedoxHandle),
    Xlib(unix::XlibHandle),
    Xcb(unix::XcbHandle),
    Wayland(unix::WaylandHandle),
    Windows(windows::WindowsHandle),
    WinRT(windows::WinRTHandle),
    Web(web::WebHandle),
    Android(android::AndroidHandle),
}

/// Whether two handles are of the same platform and hold equal payloads.
pub open spec fn same_payload(a: RawWindowHandle, b: RawWindowHandle) -> bool {
    match (a, b) {
        (RawWindowHandle::IOS(p), RawWindowHandle::IOS(q)) => p == q,
        (RawWindowHandle::MacOS(p), RawWindowHandle::MacOS(q)) => p == q,
        (RawWindowHandle::Redox(p), RawWindowHandle::Redox(q)) => p == q,
        (RawWindowHandle::Xlib(p), RawWindowHandle::Xlib(q)) => p == q,
        (RawWindowHandle::Xcb(p), RawWindowHandle::Xcb(q)) => p == q,
        (RawWindowHandle::Wayland(p), RawWindowHandle::Wayland(q)) => p == q,
        (RawWindowHandle::Windows(p), RawWindowHandle::Windows(q)) => p == q,
        (RawWindowHandle::WinRT(p), RawWindowHandle::WinRT(q)) => p == q,
        (RawWindowHandle::Web(p), RawWindowHandle::Web(q)) => p == q,
        (RawWindowHandle::Android(p), RawWindowHandle::Android(q)) => p == q,
        _ => false,
    }
}

/// Two raw window handles are equal exactly when they are of the same
/// platform and their payloads are equal.
pub proof fn lemma_handle_eq_iff_same_payload(a: RawWindowHandle, b: RawWindowHandle)
    ensures
        (a == b) <==> same_payload(a, b),
{
}

/// Equality of handles and payloads is reflexive, symmetric and transitive.
pub proof fn lemma_eq_is_equivalence<T>(a: T, b: T, c: T)
    ensures
        a == a,
        (a == b) == (b == a),
        (a == b && b == c) ==> a == c,
{
}

/// A raw window handle that its owner has declared trustworthy.
///
/// Anyone can build any `RawWindowHandle` value, so a bare one says nothing
/// about whether its fields are live handles. Placing it in this wrapper is
/// the explicit assertion that it meets the obligations described on
/// [`HasRawWindowHandle`]; the wrapper then reports it through that trait.
pub struct TrustedWindowHandle {
    raw: RawWindowHandle,
}

impl View for TrustedWindowHandle {
    type V = RawWindowHandle;

    /// The handle that was asserted trustworthy.
    closed spec fn view(&self) -> RawWindowHandle {
        self.raw
    }
}

impl TrustedWindowHandle {
    /// The wrapper that asserting `raw` trustworthy gives.
    pub closed spec fn trusted(raw: RawWindowHandle) -> Self {
        TrustedWindowHandle { raw }
    }

    /// Asserts that `raw` can be trusted.
    ///
    /// The caller takes on the obligations described on
    /// [`HasRawWindowHandle`] for this value: if `raw` breaks them, code
    /// that relies on the wrapper may misbehave.
    pub fn new(raw: RawWindowHandle) -> (r: Self)
        ensures
            r == Self::trusted(raw),
    {
        TrustedWindowHandle { raw }
    }

    /// Asserting a handle trustworthy and reading it back gives the very
    /// handle that was asserted.
    pub proof fn lemma_trusted_round_trip(raw: RawWindowHandle)
        ensures
            Self::trusted(raw)@ == raw,
    {
    }
}

impl HasRawWindowHandle for TrustedWindowHandle {
    fn raw_window_handle(&self) -> (r: RawWindowHandle)
        ensures
            r == self@,
    {
        self.raw
    }
}

} // verus!
