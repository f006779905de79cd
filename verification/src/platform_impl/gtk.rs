//! GTK: the drag is begun on an application window, and its end arrives
//! later as a `drag-failed` signal on the window or a `drop-performed`
//! signal on the drag context.

use vstd::prelude::*;
use crate::{CursorPosition, DragItem, DragResult, Image, Options};
use crate::error::Error;
use crate::image::ImageProbe;
use crate::session::{start_outcome, Completion, DragSession, Phase, Rollback, SessionState,
    cleanup_steps, resolved_position};
use crate::window::{Platform, WindowHandleKind};

verus! {

/// Whether GTK goes on to its default handling of a signal.
#[derive(Debug, Clone, Copy, PartialEq, Eq, Structural)]
pub enum Propagation {
    /// The signal is handled; GTK does nothing more. For `drag-failed` this
    /// suppresses the animation of the icon back to its origin.
    Stop,
    /// GTK runs its default handler.
    Proceed,
}

/// What the `drag-failed` handler does and returns.
#[derive(Debug)]
pub struct DropFailed {
    /// The end of the session, if this signal ended it.
    pub completion: Option<Completion>,
    /// What the signal handler returns to GTK.
    pub propagation: Propagation,
}

/// Creates the session for a drag out of a GTK window.
///
/// `image_exists` says whether the file of an `Image::File` exists; GTK
/// goes on without a preview if it does not. A data item is dragged as a
/// dummy: its provider is never called.
pub fn start_drag<P>(
    window: WindowHandleKind,
    item: &DragItem<P>,
    image: &Image,
    image_exists: bool,
    cursor: Option<CursorPosition>,
    options: Options,
) -> (r: Result<DragSession, Error>)
    ensures
        match r {
            Ok(session) => session@.wf() && start_outcome(
                Platform::Gtk,
                window,
                ImageProbe::of_spec(*image, image_exists),
                cursor,
                item is Data,
                options,
            ) == Ok::<SessionState, Error>(session@),
            Err(e) => start_outcome(
                Platform::Gtk,
                window,
                ImageProbe::of_spec(*image, image_exists),
                cursor,
                item is Data,
                options,
            ) == Err::<SessionState, Error>(e),
        },
{
    DragSession::start(
        Platform::Gtk,
        window,
        ImageProbe::of(image, image_exists),
        cursor,
        item.is_data(),
        options,
    )
}

/// Decides on the window's target list once the payload's targets were
/// added: without a list there is nothing to advertise, and setup fails
/// with `EmptyTargetList`.
///
/// `Some` is the rollback to perform before returning its error.
pub fn targets_resolved(session: &mut DragSession, found: bool) -> (r: Option<Rollback>)
    ensures
        final(session)@.wf(),
        found ==> r is None && final(session)@ == old(session)@,
        !found ==> final(session)@ == old(session)@.failed(),
        !found && old(session)@.phase != Phase::Arming ==> r is None,
        !found && old(session)@.phase == Phase::Arming ==> r is Some && r->0.error
            == Error::EmptyTargetList && r->0.cleanup@ == cleanup_steps(
            old(session)@.handlers,
            old(session)@.source_set,
        ) && r->0.release@ == old(session)@.objects,
{
    if found {
        session.well_formed();
        None
    } else {
        session.fail(Error::EmptyTargetList)
    }
}

/// Decides on the result of the native "begin drag" call: a drag context
/// makes the session active, none fails setup with `FailedToStartDrag`.
///
/// `Some` is the rollback to perform before returning its error.
pub fn drag_begun(session: &mut DragSession, accepted: bool) -> (r: Option<Rollback>)
    ensures
        final(session)@.wf(),
        accepted ==> r is None && final(session)@ == old(session)@.activated(),
        !accepted ==> final(session)@ == old(session)@.failed(),
        !accepted && old(session)@.phase != Phase::Arming ==> r is None,
        !accepted && old(session)@.phase == Phase::Arming ==> r is Some && r->0.error
            == Error::FailedToStartDrag && r->0.cleanup@ == cleanup_steps(
            old(session)@.handlers,
            old(session)@.source_set,
        ) && r->0.release@ == old(session)@.objects,
{
    if accepted {
        session.activate();
        None
    } else {
        session.fail(Error::FailedToStartDrag)
    }
}

/// Handles `drag-failed`: the drag was cancelled. `queried` is the pointer
/// position as just queried, `None` if the query failed.
///
/// The handler stops the signal if the session was started with
/// `skip_animatation_on_cancel_or_failure`, and lets it proceed otherwise.
pub fn on_drop_failed(session: &mut DragSession, queried: Option<CursorPosition>) -> (r:
    DropFailed)
    ensures
        final(session)@ == old(session)@.completed(None, queried),
        final(session)@.wf(),
        r.propagation == (if old(session)@.skip_animation {
            Propagation::Stop
        } else {
            Propagation::Proceed
        }),
        old(session)@.phase != Phase::Active ==> r.completion is None,
        old(session)@.phase == Phase::Active ==> r.completion is Some && r.completion->0.result
            == DragResult::Cancel && r.completion->0.cursor_position == resolved_position(
            None,
            queried,
            old(session)@.last_cursor,
        ) && r.completion->0.cleanup@ == cleanup_steps(
            old(session)@.handlers,
            old(session)@.source_set,
        ) && r.completion->0.release@ == old(session)@.objects,
{
    let propagation = if session.animates_on_cancel_or_failure() {
        Propagation::Proceed
    } else {
        Propagation::Stop
    };
    let completion = session.complete(DragResult::Cancel, None, queried);
    DropFailed { completion, propagation }
}

/// Handles `drop-performed`: the payload was dropped. `queried` is the
/// pointer position as just queried, `None` if the query failed.
pub fn on_drop_performed(session: &mut DragSession, queried: Option<CursorPosition>) -> (r:
    Option<Completion>)
    ensures
        final(session)@ == old(session)@.completed(None, queried),
        final(session)@.wf(),
        old(session)@.phase != Phase::Active ==> r is None,
        old(session)@.phase == Phase::Active ==> r is Some && r->0.result == DragResult::Dropped
            && r->0.cursor_position == resolved_position(
            None,
            queried,
            old(session)@.last_cursor,
        ) && r->0.cleanup@ == cleanup_steps(old(session)@.handlers, old(session)@.source_set)
            && r->0.release@ == old(session)@.objects,
{
    session.complete(DragResult::Dropped, None, queried)
}

/// The cursor position from a query of the default seat's pointer: the
/// position it gave, or `FailedToGetCursorPosition` if the display has no
/// seat or the seat no pointer.
pub fn get_cursor_position(pointer: Option<CursorPosition>) -> (r: Result<CursorPosition, Error>)
    ensures
        r == (match pointer {
            Some(position) => Ok::<CursorPosition, Error>(position),
            None => Err::<CursorPosition, Error>(Error::FailedToGetCursorPosition),
        }),
{
    match pointer {
        Some(position) => Ok(position),
        None => Err(Error::FailedToGetCursorPosition),
    }
}

} // verus!
