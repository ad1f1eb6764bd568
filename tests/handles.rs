use std::collections::hash_map::DefaultHasher;
use std::collections::HashSet;
use std::hash::{Hash, Hasher};

use raw_window_handle::android::AndroidHandle;
use raw_window_handle::ios::IOSHandle;
use raw_window_handle::macos::MacOSHandle;
use raw_window_handle::redox::RedoxHandle;
use raw_window_handle::unix::{WaylandHandle, XcbHandle, XlibHandle};
use raw_window_handle::web::WebHandle;
use raw_window_handle::windows::{WinRTHandle, WindowsHandle};
use raw_window_handle::{HasRawWindowHandle, RawWindowHandle, TrustedWindowHandle};

fn hash_of<T: Hash>(v: &T) -> u64 {
    let mut h = DefaultHasher::new();
    v.hash(&mut h);
    h.finish()
}

fn xlib(window: u64, display: usize) -> XlibHandle {
    let mut h = XlibHandle::empty();
    h.window = window;
    h.display = display;
    h
}

#[test]
fn empty_payloads_are_all_zero() {
    let h = IOSHandle::empty();
    assert_eq!((h.ui_window, h.ui_view, h.ui_view_controller), (0, 0, 0));
    let h = MacOSHandle::empty();
    assert_eq!((h.ns_window, h.ns_view), (0, 0));
    let h = RedoxHandle::empty();
    assert_eq!(h.window, 0);
    let h = XlibHandle::empty();
    assert_eq!((h.window, h.display), (0, 0));
    let h = XcbHandle::empty();
    assert_eq!((h.window, h.connection), (0, 0));
    let h = WaylandHandle::empty();
    assert_eq!((h.surface, h.display), (0, 0));
    let h = WindowsHandle::empty();
    assert_eq!((h.hwnd, h.hinstance), (0, 0));
    let h = WinRTHandle::empty();
    assert_eq!(h.core_window, 0);
    let h = WebHandle::empty();
    assert_eq!(h.id, 0);
    let h = AndroidHandle::empty();
    assert_eq!(h.a_native_window, 0);
}

#[test]
fn payload_equality_is_fieldwise() {
    let a = xlib(3, 0x1000);
    let b = xlib(3, 0x1000);
    let c = xlib(3, 0x1000);
    assert_eq!(a, a);
    assert_eq!(a, b);
    assert_eq!(b, a);
    assert_eq!(b, c);
    assert_eq!(a, c);
    assert_ne!(a, xlib(4, 0x1000));
    assert_ne!(a, xlib(3, 0x2000));
    assert_eq!(WebHandle::empty(), WebHandle::empty());
    let mut w = WebHandle::empty();
    w.id = 1;
    assert_ne!(w, WebHandle::empty());
}

#[test]
fn union_equality_follows_payloads() {
    assert_eq!(RawWindowHandle::Xlib(xlib(5, 9)), RawWindowHandle::Xlib(xlib(5, 9)));
    assert_ne!(RawWindowHandle::Xlib(xlib(5, 9)), RawWindowHandle::Xlib(xlib(6, 9)));
    assert_ne!(RawWindowHandle::Xlib(xlib(5, 9)), RawWindowHandle::Xlib(xlib(5, 8)));
    let mut way = WaylandHandle::empty();
    way.surface = 5;
    way.display = 9;
    let mut way2 = way;
    way2.display = 10;
    assert_ne!(RawWindowHandle::Wayland(way), RawWindowHandle::Wayland(way2));
    // Equal field values under different platforms are different handles.
    let mut xcb = XcbHandle::empty();
    xcb.window = 5;
    xcb.connection = 9;
    assert_ne!(RawWindowHandle::Xlib(xlib(5, 9)), RawWindowHandle::Xcb(xcb));
    assert_ne!(
        RawWindowHandle::Windows(WindowsHandle::empty()),
        RawWindowHandle::WinRT(WinRTHandle::empty())
    );
}

#[test]
fn hashing_agrees_with_equality() {
    let a = RawWindowHandle::Xlib(xlib(11, 22));
    let b = RawWindowHandle::Xlib(xlib(11, 22));
    assert_eq!(a, b);
    assert_eq!(hash_of(&a), hash_of(&b));
    assert_eq!(hash_of(&xlib(11, 22)), hash_of(&xlib(11, 22)));
    let mut set = HashSet::new();
    assert!(set.insert(a));
    assert!(!set.insert(b));
    assert!(set.insert(RawWindowHandle::Xlib(xlib(11, 23))));
    assert!(set.insert(RawWindowHandle::Android(AndroidHandle::empty())));
    assert!(!set.insert(RawWindowHandle::Android(AndroidHandle::empty())));
    assert_eq!(set.len(), 3);
}

#[test]
fn trusted_handle_reports_its_input() {
    let mut win = WindowsHandle::empty();
    win.hwnd = 0xdead;
    win.hinstance = 0xbeef;
    let raws = [
        RawWindowHandle::Windows(win),
        RawWindowHandle::Web(WebHandle::empty()),
        RawWindowHandle::IOS(IOSHandle::empty()),
        RawWindowHandle::Xlib(xlib(u64::MAX, usize::MAX)),
    ];
    for raw in raws {
        let trusted = TrustedWindowHandle::new(raw);
        assert_eq!(trusted.raw_window_handle(), raw);
        // Repeated queries report the same handle.
        assert_eq!(trusted.raw_window_handle(), trusted.raw_window_handle());
    }
}

fn platform_name(h: &RawWindowHandle) -> &'static str {
    match h {
        RawWindowHandle::Xlib(_) => "xlib",
        RawWindowHandle::Wayland(_) => "wayland",
        _ => "other",
    }
}

#[test]
fn matching_with_a_catch_all_arm() {
    assert_eq!(platform_name(&RawWindowHandle::Xlib(XlibHandle::empty())), "xlib");
    assert_eq!(platform_name(&RawWindowHandle::Wayland(WaylandHandle::empty())), "wayland");
    assert_eq!(platform_name(&RawWindowHandle::Redox(RedoxHandle::empty())), "other");
}

#[test]
fn one_field_set_survives_trust_round_trip() {
    let mut ios = IOSHandle::empty();
    ios.ui_view = 0x42;
    let trusted = TrustedWindowHandle::new(RawWindowHandle::IOS(ios));
    match trusted.raw_window_handle() {
        RawWindowHandle::IOS(h) => {
            assert_eq!(h.ui_view, 0x42);
            assert_eq!(h.ui_window, 0);
            assert_eq!(h.ui_view_controller, 0);
        }
        _ => panic!("expected an iOS handle"),
    }
}
