//! AppKit: the drag is a dragging session of the content view. A source
//! object answers the session's questions and is told when it ends; a data
//! item is served on demand by a pasteboard data provider.

use vstd::prelude::*;
use crate::{CursorPosition, DragItem, DragResult, Image, Options};
use crate::error::Error;
use crate::image::ImageProbe;
use crate::session::{start_outcome, Completion, DragSession, Phase, ProviderSlot, SessionState,
    cleanup_steps};
use crate::window::{Platform, WindowHandleKind};

verus! {

/// `NSDragOperationNone`: the drag was not accepted anywhere.
pub const DRAG_OPERATION_NONE: u64 = 0;

/// `NSDragOperationCopy`.
pub const DRAG_OPERATION_COPY: u64 = 1;

/// `NSDragOperationEvery`.
pub const DRAG_OPERATION_EVERY: u64 = 0xFFFF_FFFF_FFFF_FFFF;

/// `NSDraggingContextOutsideApplication`.
pub const DRAGGING_CONTEXT_OUTSIDE_APPLICATION: u64 = 0;

/// What the source answers when the session asks which operations it
/// allows.
#[derive(Debug, Clone, Copy, PartialEq, Eq, Structural)]
pub struct SourceOperation {
    /// Whether the session animates the image back to its origin on cancel
    /// or failure; set on the session before the mask is returned.
    pub animates_to_start: bool,
    /// The allowed operations.
    pub mask: u64,
}

/// Creates the session for a drag out of an AppKit window.
///
/// `image_exists` says whether the file of an `Image::File` exists; a
/// missing file is refused with `ImageNotFound` before anything is created.
pub fn start_drag<P>(
    handle: WindowHandleKind,
    item: &DragItem<P>,
    image: &Image,
    image_exists: bool,
    cursor: Option<CursorPosition>,
    options: Options,
) -> (r: Result<DragSession, Error>)
    ensures
        match r {
            Ok(session) => session@.wf() && start_outcome(
                Platform::AppKit,
                handle,
                ImageProbe::of_spec(*image, image_exists),
                cursor,
                item is Data,
                options,
            ) == Ok::<SessionState, Error>(session@),
            Err(e) => start_outcome(
                Platform::AppKit,
                handle,
                ImageProbe::of_spec(*image, image_exists),
                cursor,
                item is Data,
                options,
            ) == Err::<SessionState, Error>(e),
        },
{
    DragSession::start(
        Platform::AppKit,
        handle,
        ImageProbe::of(image, image_exists),
        cursor,
        item.is_data(),
        options,
    )
}

/// Answers `draggingSession:sourceOperationMaskForDraggingContext:`.
///
/// Outside the application only copying is allowed, inside it every
/// operation. The animation back to the origin is switched off if the
/// session was started with `skip_animatation_on_cancel_or_failure`.
pub fn dragging_session(session: &DragSession, context: u64) -> (r: SourceOperation)
    ensures
        r.animates_to_start == !session@.skip_animation,
        r.mask == (if context == 0 {
            1u64
        } else {
            0xFFFF_FFFF_FFFF_FFFFu64
        }),
{
    let mask = if context == DRAGGING_CONTEXT_OUTSIDE_APPLICATION {
        DRAG_OPERATION_COPY
    } else {
        DRAG_OPERATION_EVERY
    };
    SourceOperation { animates_to_start: session.animates_on_cancel_or_failure(), mask }
}

/// The difference `a - b` of two 32-bit integers, wrapped around into
/// their range.
pub open spec fn wrapped_difference(a: i32, b: i32) -> i32 {
    if a - b > i32::MAX {
        (a - b - 0x1_0000_0000) as i32
    } else if a - b < i32::MIN {
        (a - b + 0x1_0000_0000) as i32
    } else {
        (a - b) as i32
    }
}

/// The point where a dragging session ended, in coordinates whose origin is
/// the top left of the main display: AppKit counts `y` from the bottom, so
/// it is taken from the height of the display.
pub open spec fn flipped_position(ended_x: i32, ended_y: i32, screen_height: i32)
    -> CursorPosition {
    CursorPosition { x: ended_x, y: wrapped_difference(screen_height, ended_y) }
}

/// Handles `draggingSession:endedAtPoint:operation:`.
///
/// `ended_x` and `ended_y` are the end point cut to whole numbers,
/// `screen_height` the height of the main display in pixels. The drag was
/// cancelled if `operation` is `NSDragOperationNone`, dropped otherwise.
pub fn dragging_session_end(
    session: &mut DragSession,
    ended_x: i32,
    ended_y: i32,
    screen_height: i32,
    operation: u64,
) -> (r: Option<Completion>)
    ensures
        final(session)@ == old(session)@.completed(
            Some(flipped_position(ended_x, ended_y, screen_height)),
            None,
        ),
        final(session)@.wf(),
        old(session)@.phase != Phase::Active ==> r is None,
        old(session)@.phase == Phase::Active ==> r is Some && r->0.result == (if operation == 0 {
            DragResult::Cancel
        } else {
            DragResult::Dropped
        }) && r->0.cursor_position == flipped_position(ended_x, ended_y, screen_height)
            && r->0.cleanup@ == cleanup_steps(old(session)@.handlers, old(session)@.source_set)
            && r->0.release@ == old(session)@.objects,
{
    let position = CursorPosition { x: ended_x, y: screen_height.wrapping_sub(ended_y) };
    let result = if operation == DRAG_OPERATION_NONE {
        DragResult::Cancel
    } else {
        DragResult::Dropped
    };
    session.complete(result, Some(position), None)
}

/// Answers `pasteboard:item:provideDataForType:`.
///
/// While the runtime holds the provider and the session is live, the
/// provider is called with `data_type` and what it returns is the answer:
/// the bytes to set on the pasteboard item, or `None` to set nothing. In
/// every other state the provider is not called and the answer is `None`:
/// it cannot be called, since nothing is required of it then.
pub fn provide_data<P: Fn(&str) -> Option<Vec<u8>>>(
    session: &DragSession,
    provider: &P,
    data_type: &str,
) -> (r: Option<Vec<u8>>)
    requires
        session@.may_provide() ==> call_requires(*provider, (data_type,)),
    ensures
        session@.may_provide() ==> call_ensures(*provider, (data_type,), r),
        !session@.may_provide() ==> r is None,
{
    if session.may_provide() {
        provider(data_type)
    } else {
        None
    }
}

/// Handles `pasteboardFinishedWithDataProvider:`.
///
/// Returns whether the provider must be destroyed now: `true` on the first
/// notice for a session whose provider the runtime held, `false` otherwise.
pub fn pasteboard_finished(session: &mut DragSession) -> (r: bool)
    ensures
        r == (old(session)@.provider == ProviderSlot::Held),
        final(session)@ == old(session)@.provider_finished(),
        final(session)@.wf(),
{
    session.provider_finished()
}

} // verus!
