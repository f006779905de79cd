use drag::image::{
    decoder_to_hbitmap, get_drag_image, resolve_preview, BitmapPlan, BitmapSize, DragImage,
    ImageProbe, Preview,
};
use drag::platform_impl::gtk::{self, Propagation};
use drag::platform_impl::macos;
use drag::platform_impl::windows::utils::adjust_canonicalization;
use drag::platform_impl::windows::{
    self, DataAnswer, DataObject, DropSource, DummyDropSource, FormatEtc, OleInit,
};
use drag::session::{Cleanup, Phase, ProviderSlot};
use drag::{
    CursorPosition, DragItem, DragResult, DragSession, Error, Image, Options, Platform,
    WindowHandleKind,
};

type NoProvider = fn(&str) -> Option<Vec<u8>>;

fn one_file() -> DragItem<NoProvider> {
    DragItem::Files(vec!["/tmp/a.png".to_string()])
}

fn at(x: i32, y: i32) -> CursorPosition {
    CursorPosition { x, y }
}

fn gtk_session(skip: bool) -> DragSession {
    gtk::start_drag(
        WindowHandleKind::Gtk,
        &one_file(),
        &Image::Raw(vec![1, 2, 3]),
        false,
        Some(at(1, 1)),
        Options { skip_animatation_on_cancel_or_failure: skip },
    )
    .unwrap()
}

#[test]
fn gtk_empty_target_list_rolls_back() {
    let mut session = gtk_session(false);
    session.source_configured();
    session.register_handler(11);
    assert!(gtk::targets_resolved(&mut session, true).is_none());
    assert_eq!(session.phase(), Phase::Arming);
    let rollback = gtk::targets_resolved(&mut session, false).unwrap();
    assert_eq!(rollback.error, Error::EmptyTargetList);
    assert_eq!(
        rollback.cleanup,
        vec![Cleanup::DisconnectHandler(11), Cleanup::UnsetDragSource]
    );
    assert_eq!(session.phase(), Phase::Failed);
    assert!(gtk::on_drop_performed(&mut session, Some(at(2, 2))).is_none());
}

#[test]
fn gtk_refused_begin_rolls_back() {
    let mut session = gtk_session(false);
    session.source_configured();
    let rollback = gtk::drag_begun(&mut session, false).unwrap();
    assert_eq!(rollback.error, Error::FailedToStartDrag);
    assert_eq!(rollback.cleanup, vec![Cleanup::UnsetDragSource]);
    assert!(gtk::on_drop_failed(&mut session, None).completion.is_none());
}

#[test]
fn gtk_drop_performed_completes_once() {
    let mut session = gtk_session(false);
    session.source_configured();
    session.register_handler(1);
    assert!(gtk::drag_begun(&mut session, true).is_none());
    assert_eq!(session.phase(), Phase::Active);
    session.register_handler(2);
    let done = gtk::on_drop_performed(&mut session, Some(at(120, 340))).unwrap();
    assert_eq!(done.result, DragResult::Dropped);
    assert_eq!(done.cursor_position, at(120, 340));
    assert_eq!(
        done.cleanup,
        vec![
            Cleanup::DisconnectHandler(1),
            Cleanup::DisconnectHandler(2),
            Cleanup::UnsetDragSource
        ]
    );
    assert!(gtk::on_drop_performed(&mut session, Some(at(120, 340))).is_none());
    let late = gtk::on_drop_failed(&mut session, Some(at(0, 0)));
    assert!(late.completion.is_none());
    assert_eq!(late.propagation, Propagation::Proceed);
}

#[test]
fn gtk_drop_failed_cancels_and_decides_the_animation() {
    let mut session = gtk_session(true);
    gtk::drag_begun(&mut session, true);
    let failed = gtk::on_drop_failed(&mut session, None);
    assert_eq!(failed.propagation, Propagation::Stop);
    let done = failed.completion.unwrap();
    assert_eq!(done.result, DragResult::Cancel);
    assert_eq!(done.cursor_position, at(1, 1));

    let mut session = gtk_session(false);
    gtk::drag_begun(&mut session, true);
    let failed = gtk::on_drop_failed(&mut session, Some(at(9, 8)));
    assert_eq!(failed.propagation, Propagation::Proceed);
    assert_eq!(failed.completion.unwrap().cursor_position, at(9, 8));
}

#[test]
fn gtk_cursor_position_query() {
    assert_eq!(gtk::get_cursor_position(Some(at(3, 4))), Ok(at(3, 4)));
    assert_eq!(gtk::get_cursor_position(None), Err(Error::FailedToGetCursorPosition));
}

fn appkit_session<P>(item: &DragItem<P>, skip: bool) -> DragSession {
    macos::start_drag(
        WindowHandleKind::AppKit,
        item,
        &Image::Raw(vec![1, 2, 3]),
        false,
        Some(at(0, 0)),
        Options { skip_animatation_on_cancel_or_failure: skip },
    )
    .unwrap()
}

#[test]
fn appkit_source_operation_mask() {
    let session = appkit_session(&one_file(), false);
    let outside = macos::dragging_session(&session, 0);
    assert_eq!(outside.mask, 1);
    assert!(outside.animates_to_start);
    let inside = macos::dragging_session(&session, 1);
    assert_eq!(inside.mask, u64::MAX);
    let skipping = appkit_session(&one_file(), true);
    assert!(!macos::dragging_session(&skipping, 0).animates_to_start);
}

#[test]
fn appkit_end_flips_the_vertical_axis() {
    let mut session = appkit_session(&one_file(), false);
    session.adopt_object(1);
    session.activate();
    let done = macos::dragging_session_end(&mut session, 120, 740, 1080, 1).unwrap();
    assert_eq!(done.result, DragResult::Dropped);
    assert_eq!(done.cursor_position, at(120, 340));
    assert_eq!(done.release, vec![1]);
    assert!(done.cleanup.is_empty());
    assert!(macos::dragging_session_end(&mut session, 120, 740, 1080, 1).is_none());
}

#[test]
fn appkit_operation_none_is_a_cancel() {
    let mut session = appkit_session(&one_file(), false);
    session.activate();
    let done = macos::dragging_session_end(&mut session, 5, 80, 100, 0).unwrap();
    assert_eq!(done.result, DragResult::Cancel);
    assert_eq!(done.cursor_position, at(5, 20));
    let mut session = appkit_session(&one_file(), false);
    session.activate();
    let done = macos::dragging_session_end(&mut session, 5, 80, 100, 16).unwrap();
    assert_eq!(done.result, DragResult::Dropped);
}

#[test]
fn appkit_end_wraps_on_overflow() {
    let mut session = appkit_session(&one_file(), false);
    session.activate();
    let done = macos::dragging_session_end(&mut session, 0, i32::MIN, 1, 1).unwrap();
    assert_eq!(done.cursor_position, at(0, 1i32.wrapping_sub(i32::MIN)));
    assert_eq!(done.cursor_position.y, i32::MIN + 1);
}

#[test]
fn appkit_provider_serves_requests_while_live() {
    let provider = |data_type: &str| {
        if data_type == "public.utf8-plain-text" {
            Some(b"hello".to_vec())
        } else if data_type == "public.empty" {
            Some(Vec::new())
        } else {
            None
        }
    };
    let item = DragItem::Data { provider, types: vec!["public.utf8-plain-text".to_string()] };
    let mut session = appkit_session(&item, false);
    let provider = match &item {
        DragItem::Data { provider, .. } => provider,
        DragItem::Files(_) => unreachable!(),
    };
    assert_eq!(
        macos::provide_data(&session, provider, "public.utf8-plain-text"),
        Some(b"hello".to_vec())
    );
    assert_eq!(macos::provide_data(&session, provider, "public.empty"), Some(Vec::new()));
    assert_eq!(macos::provide_data(&session, provider, "public.png"), None);
    session.activate();
    assert_eq!(
        macos::provide_data(&session, provider, "public.utf8-plain-text"),
        Some(b"hello".to_vec())
    );
    macos::dragging_session_end(&mut session, 0, 0, 0, 1).unwrap();
    assert_eq!(macos::provide_data(&session, provider, "public.utf8-plain-text"), None);
    assert_eq!(session.provider(), ProviderSlot::Held);
    assert!(macos::pasteboard_finished(&mut session));
    assert!(!macos::pasteboard_finished(&mut session));
    assert_eq!(macos::provide_data(&session, provider, "public.utf8-plain-text"), None);
}

#[test]
fn appkit_provider_is_not_called_after_release_or_without_one() {
    let calls = std::cell::Cell::new(0u32);
    let provider = |_: &str| {
        calls.set(calls.get() + 1);
        Some(vec![1u8])
    };
    let item = DragItem::Data { provider, types: vec!["t".to_string()] };
    let mut session = appkit_session(&item, false);
    let provider = match &item {
        DragItem::Data { provider, .. } => provider,
        DragItem::Files(_) => unreachable!(),
    };
    assert_eq!(macos::provide_data(&session, provider, "t"), Some(vec![1u8]));
    assert_eq!(calls.get(), 1);
    assert!(macos::pasteboard_finished(&mut session));
    assert_eq!(macos::provide_data(&session, provider, "t"), None);
    assert_eq!(calls.get(), 1);
    let files_session = appkit_session(&one_file(), false);
    assert_eq!(macos::provide_data(&files_session, provider, "t"), None);
    assert_eq!(calls.get(), 1);
}

#[test]
fn win32_drop_source_decisions() {
    let source = DropSource::new();
    assert_eq!(source.query_continue_drag(true, 1), windows::DRAGDROP_S_CANCEL);
    assert_eq!(source.query_continue_drag(true, 0), windows::DRAGDROP_S_CANCEL);
    assert_eq!(source.query_continue_drag(false, 0), windows::DRAGDROP_S_DROP);
    assert_eq!(source.query_continue_drag(false, 2), windows::DRAGDROP_S_DROP);
    assert_eq!(source.query_continue_drag(false, 1), windows::S_OK);
    assert_eq!(source.query_continue_drag(false, 9), windows::S_OK);
    assert_eq!(source.give_feedback(1), windows::DRAGDROP_S_USEDEFAULTCURSORS);
    assert_eq!(windows::DRAGDROP_S_DROP, 0x40100);
    assert_eq!(windows::DRAGDROP_S_CANCEL, 0x40101);
    assert_eq!(windows::DRAGDROP_S_USEDEFAULTCURSORS, 0x40102);
}

#[test]
fn win32_dummy_source_never_drops() {
    let source = DummyDropSource::new();
    assert_eq!(source.query_continue_drag(true, 1), windows::DRAGDROP_S_CANCEL);
    assert_eq!(source.query_continue_drag(false, 0), windows::DRAGDROP_S_CANCEL);
    assert_eq!(source.query_continue_drag(false, 4), windows::DRAGDROP_S_CANCEL);
    assert_eq!(source.query_continue_drag(false, 1), windows::S_OK);
    assert_eq!(source.give_feedback(0), windows::DRAGDROP_S_USEDEFAULTCURSORS);
    let data: DragItem<NoProvider> =
        DragItem::Data { provider: |_| None, types: vec!["t".to_string()] };
    assert!(windows::uses_dummy_source(&data));
    assert!(!windows::uses_dummy_source(&one_file()));
}

#[test]
fn win32_data_object_answers_for_the_file_list_only() {
    let hdrop = FormatEtc { cf_format: 15, aspect: 1, tymed: 1 };
    let text = FormatEtc { cf_format: 13, aspect: 1, tymed: 1 };
    let stream = FormatEtc { cf_format: 15, aspect: 1, tymed: 4 };
    let icon = FormatEtc { cf_format: 15, aspect: 4, tymed: 1 };
    assert!(DataObject::is_supported_format(Some(&hdrop)));
    assert!(!DataObject::is_supported_format(Some(&text)));
    assert!(!DataObject::is_supported_format(Some(&stream)));
    assert!(!DataObject::is_supported_format(Some(&icon)));
    assert!(!DataObject::is_supported_format(None));

    let object = DataObject::new(vec!["C:\\a".to_string()]);
    assert_eq!(object.query_get_data(Some(&hdrop)), Some(0));
    assert_eq!(object.query_get_data(Some(&text)), None);
    assert_eq!(object.query_get_data(None), None);
    assert_eq!(object.get_data(Some(&text)), Ok(DataAnswer::Inner));
    assert_eq!(object.get_data(None), Ok(DataAnswer::Inner));
    let mut expected = vec![20u8, 0, 0, 0, 0, 0, 0, 0, 0, 0, 0, 0, 0, 0, 0, 0, 1, 0, 0, 0];
    expected.extend_from_slice(&[b'C', 0, b':', 0, b'\\', 0, b'a', 0, 0, 0, 0, 0]);
    assert_eq!(object.get_data(Some(&hdrop)), Ok(DataAnswer::FileList(expected.clone())));
    assert_eq!(object.clone_drop_hglobal(), Some(expected));
    assert_eq!(object.get_data_here(), 0x80040064u32 as i32);
    assert_eq!(object.not_implemented(), 0x80004001u32 as i32);
    assert_eq!(object.advise_not_supported(), 0x80040003u32 as i32);
    assert_eq!(windows::E_OUTOFMEMORY, 0x8007000Eu32 as i32);
}

#[test]
fn win32_ole_is_initialized_once() {
    let mut ole = OleInit::Pending;
    assert!(ole.needs_call());
    assert_eq!(ole.check(), Ok(()));
    ole.record(None);
    assert_eq!(ole, OleInit::Ready);
    assert!(!ole.needs_call());
    ole.record(Some(-5));
    assert_eq!(ole, OleInit::Ready);
    assert_eq!(ole.check(), Ok(()));

    let mut broken = OleInit::Pending;
    broken.record(Some(-2147467259));
    assert_eq!(broken, OleInit::Broken(-2147467259));
    broken.record(None);
    assert_eq!(broken.check(), Err(Error::WindowsError(-2147467259)));
}

fn win32_session() -> DragSession {
    windows::start_drag(
        WindowHandleKind::Win32,
        &one_file(),
        &Image::Raw(vec![]),
        false,
        Some(at(4, 4)),
        Options::default(),
    )
    .unwrap()
}

#[test]
fn win32_failed_setup_step_carries_the_code() {
    let mut session = win32_session();
    session.adopt_object(3);
    assert!(windows::setup_step(&mut session, None).is_none());
    let rollback = windows::setup_step(&mut session, Some(-2147024891)).unwrap();
    assert_eq!(rollback.error, Error::WindowsError(-2147024891));
    assert_eq!(rollback.release, vec![3]);
    assert!(rollback.cleanup.is_empty());
    assert!(windows::drag_finished(&mut session, windows::DRAGDROP_S_DROP, None).is_none());
}

#[test]
fn win32_loop_result_decides_the_outcome() {
    let mut session = win32_session();
    session.activate();
    let done =
        windows::drag_finished(&mut session, windows::DRAGDROP_S_DROP, Some(at(120, 340))).unwrap();
    assert_eq!(done.result, DragResult::Dropped);
    assert_eq!(done.cursor_position, at(120, 340));
    assert!(windows::drag_finished(&mut session, windows::DRAGDROP_S_DROP, None).is_none());

    let mut session = win32_session();
    session.activate();
    let done = windows::drag_finished(&mut session, windows::DRAGDROP_S_CANCEL, None).unwrap();
    assert_eq!(done.result, DragResult::Cancel);
    assert_eq!(done.cursor_position, at(4, 4));

    let mut session = win32_session();
    session.activate();
    let done = windows::drag_finished(&mut session, windows::E_NOTIMPL, Some(at(1, 2))).unwrap();
    assert_eq!(done.result, DragResult::Cancel);
}

#[test]
fn win32_item_path_is_nul_terminated() {
    assert_eq!(windows::get_file_item_id("C:\\a"), vec![0x43, 0x3A, 0x5C, 0x61, 0]);
    assert_eq!(windows::get_file_item_id(""), vec![0]);
}

#[test]
fn win32_canonical_paths_are_adjusted() {
    assert_eq!(adjust_canonicalization("\\\\?\\C:\\path\\to\\file.txt"), "C:\\path\\to\\file.txt");
    assert_eq!(adjust_canonicalization("C:/path/to/file.txt"), "C:\\path\\to\\file.txt");
    assert_eq!(adjust_canonicalization("//?/C:/a"), "C:\\a");
    assert_eq!(adjust_canonicalization("\\\\?"), "\\\\?");
    assert_eq!(adjust_canonicalization("\\\\?\\"), "");
    assert_eq!(adjust_canonicalization("C:\\\\?\\a"), "C:\\\\?\\a");
    assert_eq!(adjust_canonicalization(""), "");
}

#[test]
fn drag_image_takes_the_bitmap_size_or_the_default() {
    assert_eq!(get_drag_image(None), None);
    assert_eq!(
        get_drag_image(Some(Some(BitmapSize { width: 64, height: 48 }))),
        Some(DragImage { width: 64, height: 48, offset_x: 0, offset_y: 0, color_key: 0 })
    );
    assert_eq!(
        get_drag_image(Some(None)),
        Some(DragImage { width: 128, height: 128, offset_x: 0, offset_y: 0, color_key: 0 })
    );
}

#[test]
fn bitmap_plan_sizes_the_pixel_buffer() {
    assert_eq!(
        decoder_to_hbitmap(3, 2, true),
        Some(BitmapPlan { width: 3, height: 2, stride: 12, buffer_len: 24, convert: false })
    );
    assert_eq!(
        decoder_to_hbitmap(128, 128, false),
        Some(BitmapPlan { width: 128, height: 128, stride: 512, buffer_len: 65536, convert: true })
    );
    assert_eq!(
        decoder_to_hbitmap(0, 7, false),
        Some(BitmapPlan { width: 0, height: 7, stride: 0, buffer_len: 0, convert: true })
    );
    assert_eq!(decoder_to_hbitmap(0x4000_0000, 0, true), None);
    assert_eq!(decoder_to_hbitmap(0x3FFF_FFFF, 1, true).map(|p| p.buffer_len), Some(0xFFFF_FFFC));
    assert_eq!(decoder_to_hbitmap(0x3FFF_FFFF, 2, true), None);
    assert_eq!(decoder_to_hbitmap(65536, 16384, true), None);
    assert_eq!(decoder_to_hbitmap(32768, 32767, true).map(|p| p.stride), Some(131072));
}

#[test]
fn win32_paths_handed_to_the_shell() {
    let files: DragItem<NoProvider> =
        DragItem::Files(vec!["C:\\a".to_string(), "C:\\b".to_string()]);
    assert_eq!(windows::paths_to_drag(&files), vec!["C:\\a".to_string(), "C:\\b".to_string()]);
    let data: DragItem<NoProvider> =
        DragItem::Data { provider: |_| None, types: vec!["t".to_string()] };
    assert_eq!(windows::paths_to_drag(&data), vec!["./".to_string()]);
    let none: DragItem<NoProvider> = DragItem::Files(Vec::new());
    assert!(windows::paths_to_drag(&none).is_empty());
}

#[test]
fn preview_is_decided_after_decoding() {
    assert_eq!(
        resolve_preview(Platform::AppKit, ImageProbe::MissingFile, false),
        Err(Error::ImageNotFound)
    );
    assert_eq!(
        resolve_preview(Platform::AppKit, ImageProbe::MissingFile, true),
        Err(Error::ImageNotFound)
    );
    assert_eq!(resolve_preview(Platform::Gtk, ImageProbe::MissingFile, false), Ok(Preview::Missing));
    assert_eq!(resolve_preview(Platform::Win32, ImageProbe::Raw, false), Ok(Preview::Missing));
    assert_eq!(resolve_preview(Platform::Win32, ImageProbe::Raw, true), Ok(Preview::Custom));
    assert_eq!(
        resolve_preview(Platform::AppKit, ImageProbe::ExistingFile, true),
        Ok(Preview::Custom)
    );
    assert_eq!(resolve_preview(Platform::AppKit, ImageProbe::Raw, false), Ok(Preview::Missing));
}

#[test]
fn cursor_is_queried_only_when_the_event_has_none() {
    assert!(drag::session::needs_cursor_query(None));
    assert!(!drag::session::needs_cursor_query(Some(at(1, 2))));
}
