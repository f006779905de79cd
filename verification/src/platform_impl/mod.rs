//! The decisions of the three native backends. Each module holds what its
//! backend decides between two native calls; the calls themselves are made
//! by the caller.

use vstd::prelude::*;
use crate::{CursorPosition, DragItem, Image, Options};
use crate::error::Error;
use crate::image::ImageProbe;
use crate::session::{start_outcome, DragSession, SessionState};
use crate::window::{Platform, WindowHandleKind};

pub mod gtk;
pub mod macos;
pub mod windows;

verus! {

/// Creates the session for a drag of `item` out of a window of `platform`.
///
/// Nothing native is touched. `handle` is the kind of the window handle,
/// `image_exists` says whether the file of an `Image::File` exists, and
/// `cursor` is the pointer position as just queried, `None` if the query
/// failed. The checks are made in this order: a handle of another kind than
/// the platform's is refused with `UnsupportedWindowHandle`; on AppKit a
/// missing image file is refused with `ImageNotFound`; an unknown pointer
/// position is refused with `FailedToGetCursorPosition`. Otherwise the
/// session is created, arming, with nothing registered. The provider of a
/// data item is held for the native runtime on AppKit only.
pub fn start_drag<P>(
    platform: Platform,
    handle: WindowHandleKind,
    item: &DragItem<P>,
    image: &Image,
    image_exists: bool,
    cursor: Option<CursorPosition>,
    options: Options,
) -> (r: Result<DragSession, Error>)
    ensures
        match r {
            Ok(session) => session@.wf() && start_outcome(
                platform,
                handle,
                ImageProbe::of_spec(*image, image_exists),
                cursor,
                item is Data,
                options,
            ) == Ok::<SessionState, Error>(session@),
            Err(e) => start_outcome(
                platform,
                handle,
                ImageProbe::of_spec(*image, image_exists),
                cursor,
                item is Data,
                options,
            ) == Err::<SessionState, Error>(e),
        },
{
    match platform {
        Platform::AppKit => macos::start_drag(handle, item, image, image_exists, cursor, options),
        Platform::Gtk => gtk::start_drag(handle, item, image, image_exists, cursor, options),
        Platform::Win32 => windows::start_drag(handle, item, image, image_exists, cursor, options),
    }
}

} // verus!
