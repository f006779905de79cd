//! Win32: the drag is an OLE drag-and-drop loop that holds the calling
//! thread until the user drops or cancels. A drop source decides when the
//! loop ends, a data object hands out the file list.

use vstd::prelude::*;
use crate::{CursorPosition, DragItem, DragResult, Image, Options};
use crate::error::Error;
use crate::image::ImageProbe;
use crate::payload::hdrop::{drop_files, drop_files_block, file_list_units};
use crate::payload::utf16::{encode_utf16, encode_wide};
use crate::session::{start_outcome, Completion, DragSession, Phase, Rollback, SessionState,
    cleanup_steps, resolved_position};
use crate::text::views;
use crate::window::{Platform, WindowHandleKind};

pub mod utils;

verus! {

/// `S_OK`: go on dragging.
pub const S_OK: i32 = 0;

/// `DRAGDROP_S_DROP`: end the loop with a drop.
pub const DRAGDROP_S_DROP: i32 = 0x0004_0100;

/// `DRAGDROP_S_CANCEL`: end the loop without a drop.
pub const DRAGDROP_S_CANCEL: i32 = 0x0004_0101;

/// `DRAGDROP_S_USEDEFAULTCURSORS`: let the system draw the cursor.
pub const DRAGDROP_S_USEDEFAULTCURSORS: i32 = 0x0004_0102;

/// `E_NOTIMPL`, `0x80004001`.
pub const E_NOTIMPL: i32 = -2147467263;

/// `DV_E_FORMATETC`, `0x80040064`.
pub const DV_E_FORMATETC: i32 = -2147221404;

/// `OLE_E_ADVISENOTSUPPORTED`, `0x80040003`.
pub const OLE_E_ADVISENOTSUPPORTED: i32 = -2147221501;

/// `MK_LBUTTON`: the left mouse button is down.
pub const MK_LBUTTON: u32 = 1;

/// `CF_HDROP`: the clipboard format of a file list.
pub const CF_HDROP: u16 = 15;

/// `TYMED_HGLOBAL`: the data is handed over in global memory.
pub const TYMED_HGLOBAL: u32 = 1;

/// `DVASPECT_CONTENT`: the data is the content itself.
pub const DVASPECT_CONTENT: u32 = 1;

/// What `QueryContinueDrag` of the source of a file drag answers: cancel on
/// escape, drop when the left button is released, go on otherwise.
pub open spec fn continue_drag(escape_pressed: bool, key_state: u32) -> i32 {
    if escape_pressed {
        0x0004_0101i32
    } else if key_state & 1 == 0 {
        0x0004_0100i32
    } else {
        0i32
    }
}

/// What `QueryContinueDrag` of a dummy source answers: it never drops, so
/// releasing the button cancels too.
pub open spec fn continue_dummy_drag(escape_pressed: bool, key_state: u32) -> i32 {
    if escape_pressed || key_state & 1 == 0 {
        0x0004_0101i32
    } else {
        0i32
    }
}

/// The drop source of a file drag.
#[derive(Debug, Clone, Copy, PartialEq, Eq, Structural)]
pub struct DropSource {}

impl DropSource {
    pub fn new() -> DropSource {
        DropSource {  }
    }

    /// Decides whether the drag goes on, from the state of the escape key
    /// and of the mouse buttons and modifier keys.
    pub fn query_continue_drag(&self, escape_pressed: bool, key_state: u32) -> (r: i32)
        ensures
            r == continue_drag(escape_pressed, key_state),
    {
        if escape_pressed {
            DRAGDROP_S_CANCEL
        } else if (key_state & MK_LBUTTON) == 0 {
            DRAGDROP_S_DROP
        } else {
            S_OK
        }
    }

    /// Leaves the cursor to the system, whatever the drop effect.
    pub fn give_feedback(&self, effect: u32) -> (r: i32)
        ensures
            r == 0x0004_0102i32,
    {
        DRAGDROP_S_USEDEFAULTCURSORS
    }
}

/// The drop source of a dummy drag, which shows feedback but cannot drop.
#[derive(Debug, Clone, Copy, PartialEq, Eq, Structural)]
pub struct DummyDropSource {}

impl DummyDropSource {
    pub fn new() -> DummyDropSource {
        DummyDropSource {  }
    }

    /// Decides whether the drag goes on; it ends only by cancelling.
    pub fn query_continue_drag(&self, escape_pressed: bool, key_state: u32) -> (r: i32)
        ensures
            r == continue_dummy_drag(escape_pressed, key_state),
    {
        if escape_pressed || (key_state & MK_LBUTTON) == 0 {
            DRAGDROP_S_CANCEL
        } else {
            S_OK
        }
    }

    /// Leaves the cursor to the system, whatever the drop effect.
    pub fn give_feedback(&self, effect: u32) -> (r: i32)
        ensures
            r == 0x0004_0102i32,
    {
        DRAGDROP_S_USEDEFAULTCURSORS
    }
}

/// No drag ends with a drop through a dummy source.
pub proof fn law_dummy_source_never_drops(escape_pressed: bool, key_state: u32)
    ensures
        continue_dummy_drag(escape_pressed, key_state) != 0x0004_0100i32,
{
}

/// The part of a `FORMATETC` that decides how data is asked for.
#[derive(Debug, Clone, Copy, PartialEq, Eq, Structural)]
pub struct FormatEtc {
    /// The clipboard format.
    pub cf_format: u16,
    /// The aspect of the data.
    pub aspect: u32,
    /// The storage medium.
    pub tymed: u32,
}

/// Who answers a request made to the data object.
#[derive(Debug, PartialEq, Eq)]
pub enum DataAnswer {
    /// The file list, as the bytes of a global memory block.
    FileList(Vec<u8>),
    /// The inner shell data object answers.
    Inner,
}

/// The data object of a file drag: it hands out its file list itself and
/// leaves every other format to an inner shell data object.
#[derive(Debug)]
pub struct DataObject {
    files: Vec<String>,
}

impl DataObject {
    /// The paths the object holds.
    pub closed spec fn paths(&self) -> Seq<Seq<char>> {
        views(self.files@)
    }

    pub fn new(files: Vec<String>) -> (r: DataObject)
        ensures
            r.paths() == views(files@),
    {
        DataObject { files }
    }

    /// Whether a request is for the file list: a `CF_HDROP` in global
    /// memory, content aspect.
    pub open spec fn supports(format: Option<FormatEtc>) -> bool {
        match format {
            Some(f) => f.tymed == 1 && f.cf_format == 15 && f.aspect == 1,
            None => false,
        }
    }

    /// Whether the object answers a request for `format` itself. `None`
    /// stands for a null pointer.
    pub fn is_supported_format(format: Option<&FormatEtc>) -> (r: bool)
        ensures
            r == Self::supports(
                match format {
                    Some(f) => Some(*f),
                    None => None,
                },
            ),
    {
        match format {
            Some(f) => !(f.tymed != TYMED_HGLOBAL || f.cf_format != CF_HDROP || f.aspect
                != DVASPECT_CONTENT),
            None => false,
        }
    }

    /// The file list as a fresh block: a header that declares wide
    /// characters, then every path in UTF-16 with its NUL, then the closing
    /// NUL. `None` only if the size of the block does not fit in `usize`.
    pub fn clone_drop_hglobal(&self) -> (r: Option<Vec<u8>>)
        ensures
            r matches Some(block) ==> block@ == drop_files_block(self.paths()),
            r is None <==> 20 + 2 * file_list_units(self.paths()).len() > usize::MAX,
    {
        drop_files(&self.files)
    }

    /// Answers `GetData`: the file list for a supported format, the inner
    /// object for every other. `Err` carries `E_OUTOFMEMORY` if the block is
    /// too large to allocate.
    pub fn get_data(&self, format: Option<&FormatEtc>) -> (r: Result<DataAnswer, Error>)
        ensures
            !Self::supports(
                match format {
                    Some(f) => Some(*f),
                    None => None,
                },
            ) ==> r == Ok::<DataAnswer, Error>(DataAnswer::Inner),
            Self::supports(
                match format {
                    Some(f) => Some(*f),
                    None => None,
                },
            ) ==> (match r {
                Ok(DataAnswer::FileList(block)) => block@ == drop_files_block(self.paths()),
                Ok(DataAnswer::Inner) => false,
                Err(e) => e == Error::WindowsError(-2147024882i32) && 20 + 2 * file_list_units(
                    self.paths(),
                ).len() > usize::MAX,
            }),
    {
        if Self::is_supported_format(format) {
            match self.clone_drop_hglobal() {
                Some(block) => Ok(DataAnswer::FileList(block)),
                None => Err(Error::WindowsError(E_OUTOFMEMORY)),
            }
        } else {
            Ok(DataAnswer::Inner)
        }
    }

    /// Answers `QueryGetData`: `S_OK` for a supported format, `None` to let
    /// the inner object answer.
    pub fn query_get_data(&self, format: Option<&FormatEtc>) -> (r: Option<i32>)
        ensures
            r == (if Self::supports(
                match format {
                    Some(f) => Some(*f),
                    None => None,
                },
            ) {
                Some(0i32)
            } else {
                None
            }),
    {
        if Self::is_supported_format(format) {
            Some(S_OK)
        } else {
            None
        }
    }

    /// Answers `GetDataHere`: never supported.
    pub fn get_data_here(&self) -> (r: i32)
        ensures
            r == -2147221404i32,
    {
        DV_E_FORMATETC
    }

    /// Answers `GetCanonicalFormatEtc` and `EnumFormatEtc`: not implemented.
    pub fn not_implemented(&self) -> (r: i32)
        ensures
            r == -2147467263i32,
    {
        E_NOTIMPL
    }

    /// Answers `DAdvise`, `DUnadvise` and `EnumDAdvise`: no advising.
    pub fn advise_not_supported(&self) -> (r: i32)
        ensures
            r == -2147221501i32,
    {
        OLE_E_ADVISENOTSUPPORTED
    }
}

/// `E_OUTOFMEMORY`, `0x8007000E`.
pub const E_OUTOFMEMORY: i32 = -2147024882;

/// The state of the process-wide OLE initialization: it is made on first
/// use, its result is kept, and it is never undone.
#[derive(Debug, Clone, Copy, PartialEq, Eq, Structural)]
pub enum OleInit {
    /// Not initialized yet.
    Pending,
    /// Initialized.
    Ready,
    /// Initialization failed with this `HRESULT`.
    Broken(i32),
}

impl OleInit {
    /// Whether `OleInitialize` must be called now: only the first time.
    pub fn needs_call(&self) -> (r: bool)
        ensures
            r == (*self == OleInit::Pending),
    {
        match self {
            OleInit::Pending => true,
            _ => false,
        }
    }

    /// The state after `OleInitialize` returned `result` (`None` for
    /// success). Only the first result counts.
    pub open spec fn recorded(self, result: Option<i32>) -> OleInit {
        if self == OleInit::Pending {
            match result {
                None => OleInit::Ready,
                Some(code) => OleInit::Broken(code),
            }
        } else {
            self
        }
    }

    /// Records the result of `OleInitialize`, `None` for success.
    pub fn record(&mut self, result: Option<i32>)
        ensures
            *final(self) == old(self).recorded(result),
    {
        if self.needs_call() {
            *self = match result {
                None => OleInit::Ready,
                Some(code) => OleInit::Broken(code),
            };
        }
    }

    /// Whether a drag may go on: the kept error of a failed initialization
    /// stops every drag.
    pub fn check(&self) -> (r: Result<(), Error>)
        ensures
            r == (match *self {
                OleInit::Broken(code) => Err::<(), Error>(Error::WindowsError(code)),
                _ => Ok::<(), Error>(()),
            }),
    {
        match self {
            OleInit::Broken(code) => Err(Error::WindowsError(*code)),
            _ => Ok(()),
        }
    }
}

/// Whatever is recorded later, the first result of the initialization
/// stays.
pub proof fn law_ole_init_once(state: OleInit, first: Option<i32>, second: Option<i32>)
    requires
        state == OleInit::Pending,
    ensures
        state.recorded(first).recorded(second) == state.recorded(first),
        state.recorded(first) != OleInit::Pending,
{
}

/// Creates the session for a drag out of a Win32 window.
///
/// `image_exists` says whether the file of an `Image::File` exists; the
/// drag goes on without a preview if it does not. A data item is dragged as
/// a dummy: its provider is never called.
pub fn start_drag<P>(
    handle: WindowHandleKind,
    item: &DragItem<P>,
    image: &Image,
    image_exists: bool,
    cursor: Option<CursorPosition>,
    options: Options,
) -> (r: Result<DragSession, Error>)
    ensures
        match r {
            Ok(session) => session@.wf() && start_outcome(
                Platform::Win32,
                handle,
                ImageProbe::of_spec(*image, image_exists),
                cursor,
                item is Data,
                options,
            ) == Ok::<SessionState, Error>(session@),
            Err(e) => start_outcome(
                Platform::Win32,
                handle,
                ImageProbe::of_spec(*image, image_exists),
                cursor,
                item is Data,
                options,
            ) == Err::<SessionState, Error>(e),
        },
{
    DragSession::start(
        Platform::Win32,
        handle,
        ImageProbe::of(image, image_exists),
        cursor,
        item.is_data(),
        options,
    )
}

/// Whether the item is dragged with a dummy source over the current
/// folder: a data item is, since OLE cannot hand its data over.
pub fn uses_dummy_source<P>(item: &DragItem<P>) -> (r: bool)
    ensures
        r == (item is Data),
{
    item.is_data()
}

/// The paths handed to the shell for `item`: the files of a file item, the
/// current folder alone (`./`, to be made canonical by the caller) for the
/// dummy drag of a data item.
pub open spec fn dragged_paths<P>(item: DragItem<P>) -> Seq<Seq<char>> {
    match item {
        DragItem::Files(files) => views(files@),
        DragItem::Data { .. } => seq!["./"@],
    }
}

/// The paths handed to the shell for `item`.
pub fn paths_to_drag<P>(item: &DragItem<P>) -> (r: Vec<String>)
    ensures
        views(r@) == dragged_paths(*item),
{
    match item {
        DragItem::Files(files) => {
            let mut paths: Vec<String> = Vec::new();
            let mut i: usize = 0;
            while i < files.len()
                invariant
                    i <= files.len(),
                    views(paths@) == views(files@).take(i as int),
                decreases files.len() - i,
            {
                let path = files[i].clone();
                assert(views(paths@.push(path)) =~= views(files@).take(i as int).push(path@));
                assert(views(files@).take(i + 1) =~= views(files@).take(i as int).push(
                    files@[i as int]@,
                ));
                paths.push(path);
                i += 1;
            }
            assert(views(files@).take(i as int) =~= views(files@));
            paths
        },
        DragItem::Data { .. } => {
            let mut paths: Vec<String> = Vec::new();
            paths.push("./".to_owned());
            assert(views(paths@) =~= seq!["./"@]);
            paths
        },
    }
}

/// Decides on the result of a setup step that reports an `HRESULT`, `None`
/// for success: a failure ends setup with that code.
///
/// `Some` is the rollback to perform before returning its error.
pub fn setup_step(session: &mut DragSession, failure: Option<i32>) -> (r: Option<Rollback>)
    ensures
        final(session)@.wf(),
        failure is None ==> r is None && final(session)@ == old(session)@,
        failure is Some ==> final(session)@ == old(session)@.failed(),
        failure is Some && old(session)@.phase != Phase::Arming ==> r is None,
        failure is Some && old(session)@.phase == Phase::Arming ==> r is Some && r->0.error
            == Error::WindowsError(failure->0) && r->0.cleanup@ == cleanup_steps(
            old(session)@.handlers,
            old(session)@.source_set,
        ) && r->0.release@ == old(session)@.objects,
{
    match failure {
        None => {
            session.well_formed();
            None
        },
        Some(code) => session.fail(Error::WindowsError(code)),
    }
}

/// Handles the return of the drag loop: a drop if it returned
/// `DRAGDROP_S_DROP`, a cancel for every other code. `cursor` is the
/// pointer position as queried after the loop, `None` if the query failed.
pub fn drag_finished(session: &mut DragSession, loop_result: i32, cursor: Option<CursorPosition>)
    -> (r: Option<Completion>)
    ensures
        final(session)@ == old(session)@.completed(None, cursor),
        final(session)@.wf(),
        old(session)@.phase != Phase::Active ==> r is None,
        old(session)@.phase == Phase::Active ==> r is Some && r->0.result == (if loop_result
            == 0x0004_0100i32 {
            DragResult::Dropped
        } else {
            DragResult::Cancel
        }) && r->0.cursor_position == resolved_position(None, cursor, old(session)@.last_cursor)
            && r->0.cleanup@ == cleanup_steps(old(session)@.handlers, old(session)@.source_set)
            && r->0.release@ == old(session)@.objects,
{
    let result = if loop_result == DRAGDROP_S_DROP {
        DragResult::Dropped
    } else {
        DragResult::Cancel
    };
    session.complete(result, None, cursor)
}

/// A path as the NUL-terminated wide string the shell takes.
pub fn get_file_item_id(path: &str) -> (r: Vec<u16>)
    ensures
        r@ == encode_utf16(path@).push(0u16),
{
    let mut wide = encode_wide(path);
    wide.push(0);
    wide
}

} // verus!
