//! Core of a native drag-and-drop session started out of an application
//! window: the portable payload, preview and outcome types, the adapters that
//! turn a payload into the byte layouts the native drag APIs expect, and the
//! session lifecycle that turns native completion events into exactly one
//! result.
//!
//! Nothing here touches a window system. A backend performs the native calls
//! and reports what happened; every decision between two native calls is made
//! by a function of this crate.

use vstd::prelude::*;

pub mod error;
pub mod image;
pub mod payload;
pub mod pixels;
pub mod platform_impl;
pub mod plugin;
pub mod session;
pub mod text;
pub mod window;

pub use error::Error;
pub use platform_impl::start_drag;
pub use session::DragSession;
pub use window::{Platform, WindowHandleKind};

verus! {

/// How a drag session ended.
///
/// Both values are normal completions; neither is an error.
#[derive(Debug, Clone, Copy, PartialEq, Eq, Structural)]
pub enum DragResult {
    /// The payload was released over a target that accepted it.
    Dropped,
    /// The user released outside a target or pressed escape.
    Cancel,
}

/// Logical position of the cursor, in screen coordinates.
///
/// On Win32 the reported position is physical: with monitors of different
/// scaling the native API cannot tell the two apart.
#[derive(Debug, Clone, Copy, PartialEq, Eq, Structural)]
pub struct CursorPosition {
    pub x: i32,
    pub y: i32,
}

/// Session options.
#[derive(Debug, Clone, Copy, PartialEq, Eq, Structural)]
pub struct Options {
    /// Suppresses the "fly back to origin" animation on cancel or failure.
    pub skip_animatation_on_cancel_or_failure: bool,
}

impl Default for Options {
    fn default() -> (r: Options)
        ensures
            !r.skip_animatation_on_cancel_or_failure,
    {
        Options { skip_animatation_on_cancel_or_failure: false }
    }
}

/// An image definition.
#[derive(Debug)]
pub enum Image {
    /// A path to an image.
    File(String),
    /// Raw encoded bytes of the image.
    Raw(Vec<u8>),
}

/// Item to be dragged.
///
/// `P` is the data provider: a function from a type identifier to the bytes
/// of that type, if it has any. It is called on demand, only while the
/// session that owns it is alive.
pub enum DragItem<P> {
    /// A list of files to be dragged. The paths must be absolute.
    Files(Vec<String>),
    /// Data to share with another application.
    ///
    /// Only AppKit hands the data over. On GTK and Win32 the session is a
    /// dummy drag that shows feedback and completes, with nothing to drop.
    Data { provider: P, types: Vec<String> },
}

impl<P> DragItem<P> {
    /// The file paths of a `Files` item, the empty sequence otherwise.
    pub open spec fn paths(&self) -> Seq<Seq<char>> {
        match self {
            DragItem::Files(paths) => crate::text::views(paths@),
            DragItem::Data { .. } => Seq::empty(),
        }
    }

    /// Whether this item carries a data provider.
    pub fn is_data(&self) -> (r: bool)
        ensures
            r == (self is Data),
    {
        match self {
            DragItem::Files(_) => false,
            DragItem::Data { .. } => true,
        }
    }
}

} // verus!
