//! The native window systems a drag can start from, and the kinds of window
//! handle they accept.

use vstd::prelude::*;
use raw_window_handle::RawWindowHandle;

verus! {

/// A native drag-and-drop backend.
#[derive(Debug, Clone, Copy, PartialEq, Eq, Structural)]
pub enum Platform {
    /// macOS dragging sessions.
    AppKit,
    /// GTK drag-and-drop signals.
    Gtk,
    /// Win32 OLE drag-and-drop.
    Win32,
}

/// The native family a window handle belongs to.
#[derive(Debug, Clone, Copy, PartialEq, Eq, Structural)]
pub enum WindowHandleKind {
    /// An `NSWindow`.
    AppKit,
    /// A GTK application window.
    Gtk,
    /// An `HWND`.
    Win32,
    /// Any other window system.
    Other,
}

impl Platform {
    /// The one kind of window handle this backend can drag from.
    pub open spec fn handle_kind(self) -> WindowHandleKind {
        match self {
            Platform::AppKit => WindowHandleKind::AppKit,
            Platform::Gtk => WindowHandleKind::Gtk,
            Platform::Win32 => WindowHandleKind::Win32,
        }
    }

    /// Whether a handle of kind `kind` is one this backend expects.
    pub fn accepts(self, kind: WindowHandleKind) -> (r: bool)
        ensures
            r == (kind == self.handle_kind()),
    {
        match (self, kind) {
            (Platform::AppKit, WindowHandleKind::AppKit) => true,
            (Platform::Gtk, WindowHandleKind::Gtk) => true,
            (Platform::Win32, WindowHandleKind::Win32) => true,
            _ => false,
        }
    }

    /// Whether the native "begin drag" call holds the calling thread until
    /// the user drops or cancels.
    ///
    /// Only Win32 does. There the outcome is known when the call returns; on
    /// the others it arrives later as a native event on the same thread.
    pub fn blocks_until_complete(self) -> (r: bool)
        ensures
            r == (self == Platform::Win32),
    {
        match self {
            Platform::Win32 => true,
            _ => false,
        }
    }

    /// Whether the backend refuses a preview image file that does not exist
    /// before it creates anything. Only AppKit checks eagerly.
    pub fn checks_image_eagerly(self) -> (r: bool)
        ensures
            r == (self == Platform::AppKit),
    {
        match self {
            Platform::AppKit => true,
            _ => false,
        }
    }

    /// Whether the backend can hand provider data to another application.
    /// Only AppKit can; elsewhere a data item is dragged as a dummy.
    pub fn supports_data_provider(self) -> (r: bool)
        ensures
            r == (self == Platform::AppKit),
    {
        match self {
            Platform::AppKit => true,
            _ => false,
        }
    }
}

#[verifier::external_type_specification]
#[verifier::external_body]
pub struct ExRawWindowHandle(RawWindowHandle);

/// The kind of a raw window handle: `AppKit` and `Win32` for the variants
/// of those names, `Other` for every other variant.
pub uninterp spec fn raw_kind_of(handle: RawWindowHandle) -> WindowHandleKind;

/// Tells the variants of `raw_window_handle::RawWindowHandle` apart: `AppKit`
/// and `Win32` map to their own kind, every other variant to `Other`. The
/// result depends on the variant alone; it is never `Gtk`.
#[verifier::external_body]
fn raw_handle_kind(handle: &RawWindowHandle) -> (r: WindowHandleKind)
    ensures
        r == raw_kind_of(*handle),
        r != WindowHandleKind::Gtk,
{
    match handle {
        RawWindowHandle::AppKit(_) => WindowHandleKind::AppKit,
        RawWindowHandle::Win32(_) => WindowHandleKind::Win32,
        _ => WindowHandleKind::Other,
    }
}

impl WindowHandleKind {
    /// The kind of a raw window handle. A raw handle is never of kind `Gtk`:
    /// a GTK window is handed over as the widget itself.
    pub fn of_raw(handle: &RawWindowHandle) -> (r: WindowHandleKind)
        ensures
            r == raw_kind_of(*handle),
            r != WindowHandleKind::Gtk,
    {
        raw_handle_kind(handle)
    }
}

} // verus!
