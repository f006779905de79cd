use drag::image::ImageProbe;
use drag::session::{Cleanup, Phase, ProviderSlot};
use drag::{
    start_drag, CursorPosition, DragItem, DragResult, DragSession, Error, Image, Options,
    Platform, WindowHandleKind,
};

type NoProvider = fn(&str) -> Option<Vec<u8>>;

fn files(paths: &[&str]) -> DragItem<NoProvider> {
    DragItem::Files(paths.iter().map(|p| p.to_string()).collect())
}

fn png() -> Image {
    Image::Raw(vec![0x89, b'P', b'N', b'G', 0x0D, 0x0A, 0x1A, 0x0A])
}

fn at(x: i32, y: i32) -> CursorPosition {
    CursorPosition { x, y }
}

fn started(platform: Platform, handle: WindowHandleKind, options: Options) -> DragSession {
    start_drag(
        platform,
        handle,
        &files(&["/tmp/a.png"]),
        &png(),
        false,
        Some(at(10, 20)),
        options,
    )
    .unwrap()
}

#[test]
fn drop_at_position_fires_once() {
    for (platform, handle) in [
        (Platform::AppKit, WindowHandleKind::AppKit),
        (Platform::Gtk, WindowHandleKind::Gtk),
        (Platform::Win32, WindowHandleKind::Win32),
    ] {
        let mut session = started(platform, handle, Options::default());
        assert_eq!(session.phase(), Phase::Arming);
        assert!(session.activate());
        let done = session.complete(DragResult::Dropped, Some(at(120, 340)), None).unwrap();
        assert_eq!(done.result, DragResult::Dropped);
        assert_eq!(done.cursor_position, at(120, 340));
        assert!(session.complete(DragResult::Dropped, Some(at(120, 340)), None).is_none());
        assert!(session.complete(DragResult::Cancel, None, None).is_none());
        assert_eq!(session.phase(), Phase::Completed);
        assert_eq!(session.last_cursor(), at(120, 340));
    }
}

#[test]
fn cancel_reports_last_known_position() {
    let options = Options { skip_animatation_on_cancel_or_failure: true };
    let mut session = started(Platform::Gtk, WindowHandleKind::Gtk, options);
    assert!(!session.animates_on_cancel_or_failure());
    session.activate();
    let done = session.complete(DragResult::Cancel, None, None).unwrap();
    assert_eq!(done.result, DragResult::Cancel);
    assert_eq!(done.cursor_position, at(10, 20));
    assert!(session.complete(DragResult::Cancel, None, None).is_none());
}

#[test]
fn completion_prefers_reported_then_queried_then_last_known_position() {
    let mut session = started(Platform::Gtk, WindowHandleKind::Gtk, Options::default());
    session.activate();
    session.track_cursor(at(55, 66));
    assert_eq!(session.last_cursor(), at(55, 66));
    let done = session.complete(DragResult::Cancel, None, Some(at(7, 8))).unwrap();
    assert_eq!(done.cursor_position, at(7, 8));

    let mut session = started(Platform::Gtk, WindowHandleKind::Gtk, Options::default());
    session.activate();
    let done = session.complete(DragResult::Cancel, Some(at(1, 2)), Some(at(7, 8))).unwrap();
    assert_eq!(done.cursor_position, at(1, 2));

    let mut session = started(Platform::Gtk, WindowHandleKind::Gtk, Options::default());
    session.activate();
    session.track_cursor(at(55, 66));
    let done = session.complete(DragResult::Cancel, None, None).unwrap();
    assert_eq!(done.cursor_position, at(55, 66));
}

#[test]
fn default_options_animate_back() {
    let session = started(Platform::AppKit, WindowHandleKind::AppKit, Options::default());
    assert!(session.animates_on_cancel_or_failure());
    assert!(!Options::default().skip_animatation_on_cancel_or_failure);
}

#[test]
fn completion_lists_every_registration_in_order() {
    let mut session = started(Platform::Gtk, WindowHandleKind::Gtk, Options::default());
    assert!(session.source_configured());
    assert!(session.register_handler(41));
    assert!(session.adopt_object(900));
    assert!(session.activate());
    assert!(session.register_handler(42));
    assert!(!session.register_handler(41));
    assert!(session.adopt_object(901));
    assert!(!session.adopt_object(900));
    assert_eq!(session.handler_count(), 2);
    assert!(!session.is_clean());
    let done = session.complete(DragResult::Dropped, None, Some(at(3, 4))).unwrap();
    assert_eq!(
        done.cleanup,
        vec![
            Cleanup::DisconnectHandler(41),
            Cleanup::DisconnectHandler(42),
            Cleanup::UnsetDragSource
        ]
    );
    assert_eq!(done.release, vec![900, 901]);
    assert!(session.is_clean());
    assert_eq!(session.handler_count(), 0);
    assert!(!session.is_live());
}

#[test]
fn nothing_is_tracked_after_the_end() {
    let mut session = started(Platform::Gtk, WindowHandleKind::Gtk, Options::default());
    session.activate();
    session.complete(DragResult::Dropped, None, None).unwrap();
    assert!(!session.register_handler(1));
    assert!(!session.adopt_object(2));
    assert!(!session.source_configured());
    assert!(!session.activate());
    session.track_cursor(at(99, 99));
    assert_eq!(session.last_cursor(), at(10, 20));
    assert!(session.is_clean());
    assert!(session.fail(Error::FailedToDrop).is_none());
    assert_eq!(session.phase(), Phase::Completed);
}

#[test]
fn a_new_drag_starts_after_completion() {
    let mut first = started(Platform::Gtk, WindowHandleKind::Gtk, Options::default());
    first.source_configured();
    first.register_handler(1);
    first.activate();
    first.complete(DragResult::Cancel, None, None).unwrap();
    assert!(first.is_clean());
    let mut second = started(Platform::Gtk, WindowHandleKind::Gtk, Options::default());
    assert!(second.register_handler(1));
    assert!(second.activate());
    let done = second.complete(DragResult::Dropped, Some(at(5, 6)), None).unwrap();
    assert_eq!(done.result, DragResult::Dropped);
    assert_eq!(done.cleanup, vec![Cleanup::DisconnectHandler(1)]);
}

#[test]
fn completion_before_the_drag_began_is_ignored() {
    let mut session = started(Platform::Gtk, WindowHandleKind::Gtk, Options::default());
    assert!(session.complete(DragResult::Dropped, None, None).is_none());
    assert_eq!(session.phase(), Phase::Arming);
    assert!(session.activate());
    assert!(!session.activate());
    assert!(session.complete(DragResult::Dropped, None, None).is_some());
}

#[test]
fn failed_setup_rolls_back_and_never_completes() {
    let mut session = started(Platform::Gtk, WindowHandleKind::Gtk, Options::default());
    session.source_configured();
    session.register_handler(5);
    session.adopt_object(77);
    let rollback = session.fail(Error::FailedToStartDrag).unwrap();
    assert_eq!(rollback.error, Error::FailedToStartDrag);
    assert_eq!(
        rollback.cleanup,
        vec![Cleanup::DisconnectHandler(5), Cleanup::UnsetDragSource]
    );
    assert_eq!(rollback.release, vec![77]);
    assert_eq!(session.phase(), Phase::Failed);
    assert!(session.is_clean());
    assert!(session.fail(Error::FailedToStartDrag).is_none());
    assert!(!session.activate());
    assert!(session.complete(DragResult::Dropped, None, None).is_none());
}

#[test]
fn failure_after_the_drag_began_is_ignored() {
    let mut session = started(Platform::Win32, WindowHandleKind::Win32, Options::default());
    session.activate();
    assert!(session.fail(Error::FailedToGetCursorPosition).is_none());
    assert_eq!(session.phase(), Phase::Active);
    assert!(session.complete(DragResult::Cancel, None, None).is_some());
}

#[test]
fn wrong_handle_is_refused() {
    for (platform, handle) in [
        (Platform::Win32, WindowHandleKind::AppKit),
        (Platform::Win32, WindowHandleKind::Gtk),
        (Platform::Win32, WindowHandleKind::Other),
        (Platform::AppKit, WindowHandleKind::Win32),
        (Platform::AppKit, WindowHandleKind::Other),
        (Platform::Gtk, WindowHandleKind::AppKit),
        (Platform::Gtk, WindowHandleKind::Other),
    ] {
        let r = start_drag(
            platform,
            handle,
            &files(&["/tmp/a.png"]),
            &png(),
            false,
            Some(at(0, 0)),
            Options::default(),
        );
        assert_eq!(r.err(), Some(Error::UnsupportedWindowHandle));
    }
}

#[test]
fn wrong_handle_is_reported_before_a_missing_image() {
    let r = start_drag(
        Platform::AppKit,
        WindowHandleKind::Win32,
        &files(&["/tmp/a.png"]),
        &Image::File("/nonexistent.png".to_string()),
        false,
        None,
        Options::default(),
    );
    assert_eq!(r.err(), Some(Error::UnsupportedWindowHandle));
}

#[test]
fn missing_image_file_is_refused_on_appkit_only() {
    let image = Image::File("/nonexistent.png".to_string());
    let r = start_drag(
        Platform::AppKit,
        WindowHandleKind::AppKit,
        &files(&["/tmp/a.png"]),
        &image,
        false,
        Some(at(0, 0)),
        Options::default(),
    );
    assert_eq!(r.err(), Some(Error::ImageNotFound));
    let r = start_drag(
        Platform::AppKit,
        WindowHandleKind::AppKit,
        &files(&["/tmp/a.png"]),
        &image,
        true,
        Some(at(0, 0)),
        Options::default(),
    );
    assert!(r.is_ok());
    for (platform, handle) in
        [(Platform::Gtk, WindowHandleKind::Gtk), (Platform::Win32, WindowHandleKind::Win32)]
    {
        let r = start_drag(
            platform,
            handle,
            &files(&["/tmp/a.png"]),
            &image,
            false,
            Some(at(0, 0)),
            Options::default(),
        );
        assert!(r.is_ok());
    }
}

#[test]
fn unknown_cursor_position_is_refused() {
    let r = start_drag(
        Platform::Gtk,
        WindowHandleKind::Gtk,
        &files(&["/tmp/a.png"]),
        &png(),
        false,
        None,
        Options::default(),
    );
    assert_eq!(r.err(), Some(Error::FailedToGetCursorPosition));
    let r = start_drag(
        Platform::AppKit,
        WindowHandleKind::AppKit,
        &files(&["/tmp/a.png"]),
        &Image::File("/nonexistent.png".to_string()),
        false,
        None,
        Options::default(),
    );
    assert_eq!(r.err(), Some(Error::ImageNotFound));
}

#[test]
fn provider_is_held_on_appkit_only() {
    let provider = |_: &str| Some(vec![1u8]);
    let item = DragItem::Data { provider, types: vec!["text/plain".to_string()] };
    let session = start_drag(
        Platform::AppKit,
        WindowHandleKind::AppKit,
        &item,
        &png(),
        false,
        Some(at(0, 0)),
        Options::default(),
    )
    .unwrap();
    assert_eq!(session.provider(), ProviderSlot::Held);
    assert!(session.may_provide());
    assert_eq!(session.platform(), Platform::AppKit);
    for (platform, handle) in
        [(Platform::Gtk, WindowHandleKind::Gtk), (Platform::Win32, WindowHandleKind::Win32)]
    {
        let session = start_drag(
            platform,
            handle,
            &item,
            &png(),
            false,
            Some(at(0, 0)),
            Options::default(),
        )
        .unwrap();
        assert_eq!(session.provider(), ProviderSlot::Absent);
        assert!(!session.may_provide());
    }
    let session = started(Platform::AppKit, WindowHandleKind::AppKit, Options::default());
    assert_eq!(session.provider(), ProviderSlot::Absent);
}

#[test]
fn provider_is_released_once() {
    let provider = |_: &str| Some(vec![1u8]);
    let item = DragItem::Data { provider, types: vec!["text/plain".to_string()] };
    let mut session = DragSession::start(
        Platform::AppKit,
        WindowHandleKind::AppKit,
        ImageProbe::Raw,
        Some(at(0, 0)),
        item.is_data(),
        Options::default(),
    )
    .unwrap();
    assert!(session.provider_finished());
    assert_eq!(session.provider(), ProviderSlot::Released);
    assert!(!session.provider_finished());
    assert!(!session.may_provide());
}

#[test]
fn image_probe_of_each_image() {
    assert_eq!(ImageProbe::of(&png(), false), ImageProbe::Raw);
    assert_eq!(ImageProbe::of(&png(), true), ImageProbe::Raw);
    let file = Image::File("/tmp/a.png".to_string());
    assert_eq!(ImageProbe::of(&file, true), ImageProbe::ExistingFile);
    assert_eq!(ImageProbe::of(&file, false), ImageProbe::MissingFile);
}

#[test]
fn platform_traits() {
    assert!(Platform::Win32.blocks_until_complete());
    assert!(!Platform::Gtk.blocks_until_complete());
    assert!(!Platform::AppKit.blocks_until_complete());
    assert!(Platform::AppKit.checks_image_eagerly());
    assert!(!Platform::Gtk.checks_image_eagerly());
    assert!(Platform::AppKit.supports_data_provider());
    assert!(!Platform::Win32.supports_data_provider());
    assert!(Platform::Gtk.accepts(WindowHandleKind::Gtk));
    assert!(!Platform::Gtk.accepts(WindowHandleKind::Win32));
}

#[test]
fn error_messages() {
    assert_eq!(Error::UnsupportedWindowHandle.message(), "unsupported window handle");
    assert_eq!(Error::FailedToStartDrag.message(), "failed to start drag");
    assert_eq!(Error::ImageNotFound.message(), "drag image not found");
    assert_eq!(Error::EmptyTargetList.message(), "empty drag target list");
    assert_eq!(Error::FailedToDrop.message(), "failed to drop items");
    assert_eq!(Error::FailedToGetCursorPosition.message(), "failed to get cursor position");
    assert_eq!(Error::Io("no such file".to_string()).message(), "no such file");
    assert_eq!(Error::WindowsError(-2147467263).message(), "0x80004001");
    assert_eq!(Error::WindowsError(-2147467263).code(), Some(-2147467263));
    assert_eq!(Error::ImageNotFound.code(), None);
}
