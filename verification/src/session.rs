//! The lifecycle of one drag session.
//!
//! A session is created by [`DragSession::start`], which touches nothing
//! native. While the backend sets the drag up it reports every native handler
//! it registers and every bridging object it allocates, so that the session
//! knows what has to be undone. The session then ends in exactly one of two
//! ways: a setup step fails and [`DragSession::fail`] hands back the rollback,
//! or the drag begins and the first completion event makes
//! [`DragSession::complete`] hand back the one result for the callback.

use vstd::prelude::*;
use crate::{CursorPosition, DragResult, Options};
use crate::error::Error;
use crate::image::ImageProbe;
use crate::window::{Platform, WindowHandleKind};

verus! {

/// Where a session stands.
#[derive(Debug, Clone, Copy, PartialEq, Eq, Structural)]
pub enum Phase {
    /// Created; the native drag has not begun.
    Arming,
    /// The native drag is running.
    Active,
    /// The result was handed out; everything native is torn down.
    Completed,
    /// Setup failed and was rolled back; no result will ever be handed out.
    Failed,
}

/// Who holds the data provider of the session.
#[derive(Debug, Clone, Copy, PartialEq, Eq, Structural)]
pub enum ProviderSlot {
    /// The session has no provider that the system could call.
    Absent,
    /// The native runtime holds the provider and may request data.
    Held,
    /// The runtime is finished with the provider; it has been destroyed.
    Released,
}

/// One native teardown step.
#[derive(Debug, Clone, Copy, PartialEq, Eq, Structural)]
pub enum Cleanup {
    /// Unregister the native handler with this identifier.
    DisconnectHandler(u64),
    /// Remove the drag-source configuration from the window.
    UnsetDragSource,
}

/// What the backend does when a session completes, in this order: perform
/// `cleanup`, invoke the result callback with `result` and
/// `cursor_position`, then release the bridging objects in `release`.
#[derive(Debug)]
pub struct Completion {
    pub cleanup: Vec<Cleanup>,
    pub result: DragResult,
    pub cursor_position: CursorPosition,
    pub release: Vec<u64>,
}

/// What the backend does when setup fails, in this order: perform `cleanup`,
/// release the bridging objects in `release`, return `error` to the caller.
/// The result callback is not invoked.
#[derive(Debug)]
pub struct Rollback {
    pub cleanup: Vec<Cleanup>,
    pub release: Vec<u64>,
    pub error: Error,
}

/// The state of a session as a mathematical value.
pub struct SessionState {
    pub platform: Platform,
    pub phase: Phase,
    pub skip_animation: bool,
    /// Identifiers of the registered native handlers, oldest first.
    pub handlers: Seq<u64>,
    /// Whether the window carries this session's drag-source configuration.
    pub source_set: bool,
    /// Tokens of the bridging objects the session owns, oldest first.
    pub objects: Seq<u64>,
    pub provider: ProviderSlot,
    /// The last cursor position the session learnt of.
    pub last_cursor: CursorPosition,
}

/// The teardown steps for `handlers`, one `DisconnectHandler` each in
/// registration order, followed by `UnsetDragSource` if `source_set`.
pub open spec fn cleanup_steps(handlers: Seq<u64>, source_set: bool) -> Seq<Cleanup> {
    let disconnects = handlers.map_values(|id: u64| Cleanup::DisconnectHandler(id));
    if source_set {
        disconnects.push(Cleanup::UnsetDragSource)
    } else {
        disconnects
    }
}

/// The position reported with a completion: the one the native event
/// carried; failing that, the one just queried; failing that, the last one
/// known.
pub open spec fn resolved_position(
    reported: Option<CursorPosition>,
    queried: Option<CursorPosition>,
    last_known: CursorPosition,
) -> CursorPosition {
    match reported {
        Some(p) => p,
        None => match queried {
            Some(p) => p,
            None => last_known,
        },
    }
}

/// Whether the backend has to query the cursor position for a completion:
/// it does unless the native event supplied one.
pub fn needs_cursor_query(reported: Option<CursorPosition>) -> (r: bool)
    ensures
        r == (reported is None),
{
    reported.is_none()
}

/// The outcome of `DragSession::start` on the given inputs.
pub open spec fn start_outcome(
    platform: Platform,
    handle: WindowHandleKind,
    image: ImageProbe,
    cursor: Option<CursorPosition>,
    has_provider: bool,
    options: Options,
) -> Result<SessionState, Error> {
    if handle != platform.handle_kind() {
        Err(Error::UnsupportedWindowHandle)
    } else if platform == Platform::AppKit && image == ImageProbe::MissingFile {
        Err(Error::ImageNotFound)
    } else if cursor is None {
        Err(Error::FailedToGetCursorPosition)
    } else {
        Ok(
            SessionState {
                platform,
                phase: Phase::Arming,
                skip_animation: options.skip_animatation_on_cancel_or_failure,
                handlers: Seq::empty(),
                source_set: false,
                objects: Seq::empty(),
                provider: if has_provider && platform == Platform::AppKit {
                    ProviderSlot::Held
                } else {
                    ProviderSlot::Absent
                },
                last_cursor: cursor->0,
            },
        )
    }
}

impl SessionState {
    /// Whether the session can still come to an end.
    pub open spec fn is_live(self) -> bool {
        self.phase == Phase::Arming || self.phase == Phase::Active
    }

    /// Whether the session has left nothing behind: no registered handler,
    /// no drag-source configuration, no bridging object.
    pub open spec fn is_clean(self) -> bool {
        self.handlers.len() == 0 && !self.source_set && self.objects.len() == 0
    }

    /// The invariant of a session: handlers and objects are tracked once
    /// each, and a session that has ended is clean.
    pub open spec fn wf(self) -> bool {
        &&& self.handlers.no_duplicates()
        &&& self.objects.no_duplicates()
        &&& !self.is_live() ==> self.is_clean()
    }

    /// Whether the system may be served data from the provider.
    pub open spec fn may_provide(self) -> bool {
        self.provider == ProviderSlot::Held && self.is_live()
    }

    /// Whether `register_handler` starts tracking `id`.
    pub open spec fn accepts_handler(self, id: u64) -> bool {
        self.is_live() && !self.handlers.contains(id)
    }

    pub open spec fn with_handler(self, id: u64) -> SessionState {
        if self.accepts_handler(id) {
            SessionState { handlers: self.handlers.push(id), ..self }
        } else {
            self
        }
    }

    /// Whether `adopt_object` starts tracking `token`.
    pub open spec fn accepts_object(self, token: u64) -> bool {
        self.is_live() && !self.objects.contains(token)
    }

    pub open spec fn with_object(self, token: u64) -> SessionState {
        if self.accepts_object(token) {
            SessionState { objects: self.objects.push(token), ..self }
        } else {
            self
        }
    }

    pub open spec fn with_source_set(self) -> SessionState {
        if self.is_live() {
            SessionState { source_set: true, ..self }
        } else {
            self
        }
    }

    pub open spec fn activated(self) -> SessionState {
        if self.phase == Phase::Arming {
            SessionState { phase: Phase::Active, ..self }
        } else {
            self
        }
    }

    pub open spec fn with_cursor(self, position: CursorPosition) -> SessionState {
        if self.is_live() {
            SessionState { last_cursor: position, ..self }
        } else {
            self
        }
    }

    pub open spec fn provider_finished(self) -> SessionState {
        if self.provider == ProviderSlot::Held {
            SessionState { provider: ProviderSlot::Released, ..self }
        } else {
            self
        }
    }

    /// The state after a session ended in `phase`: torn down, remembering
    /// `position`.
    pub open spec fn ended(self, phase: Phase, position: CursorPosition) -> SessionState {
        SessionState {
            phase,
            handlers: Seq::empty(),
            source_set: false,
            objects: Seq::empty(),
            last_cursor: position,
            ..self
        }
    }

    /// The state after a completion event.
    pub open spec fn completed(
        self,
        reported: Option<CursorPosition>,
        queried: Option<CursorPosition>,
    ) -> SessionState {
        if self.phase == Phase::Active {
            self.ended(Phase::Completed, resolved_position(reported, queried, self.last_cursor))
        } else {
            self
        }
    }

    /// The state after a setup failure.
    pub open spec fn failed(self) -> SessionState {
        if self.phase == Phase::Arming {
            self.ended(Phase::Failed, self.last_cursor)
        } else {
            self
        }
    }
}

/// A drag session: what it has registered natively, and whether its one
/// result is still owed.
#[derive(Debug)]
pub struct DragSession {
    platform: Platform,
    phase: Phase,
    options: Options,
    handlers: Vec<u64>,
    source_set: bool,
    objects: Vec<u64>,
    provider: ProviderSlot,
    last_cursor: CursorPosition,
}

impl View for DragSession {
    type V = SessionState;

    closed spec fn view(&self) -> SessionState {
        SessionState {
            platform: self.platform,
            phase: self.phase,
            skip_animation: self.options.skip_animatation_on_cancel_or_failure,
            handlers: self.handlers@,
            source_set: self.source_set,
            objects: self.objects@,
            provider: self.provider,
            last_cursor: self.last_cursor,
        }
    }
}

fn contains_id(list: &Vec<u64>, id: u64) -> (r: bool)
    ensures
        r == list@.contains(id),
{
    let mut i: usize = 0;
    while i < list.len()
        invariant
            i <= list.len(),
            forall|j: int| 0 <= j < i ==> list@[j] != id,
        decreases list.len() - i,
    {
        if list[i] == id {
            return true;
        }
        i += 1;
    }
    false
}

fn copy_ids(list: &Vec<u64>) -> (r: Vec<u64>)
    ensures
        r@ == list@,
{
    let r = list.clone();
    assert(r@ =~= list@);
    r
}

fn cleanup_list(handlers: &Vec<u64>, source_set: bool) -> (r: Vec<Cleanup>)
    ensures
        r@ == cleanup_steps(handlers@, source_set),
{
    let mut out: Vec<Cleanup> = Vec::new();
    let mut i: usize = 0;
    while i < handlers.len()
        invariant
            i <= handlers.len(),
            out@ == handlers@.take(i as int).map_values(|id: u64| Cleanup::DisconnectHandler(id)),
        decreases handlers.len() - i,
    {
        out.push(Cleanup::DisconnectHandler(handlers[i]));
        proof {
            let f = |id: u64| Cleanup::DisconnectHandler(id);
            assert(handlers@.take(i + 1) =~= handlers@.take(i as int).push(handlers@[i as int]));
            assert(handlers@.take(i + 1).map_values(f) =~= handlers@.take(i as int).map_values(
                f,
            ).push(f(handlers@[i as int])));
        }
        i += 1;
    }
    assert(handlers@.take(i as int) =~= handlers@);
    if source_set {
        out.push(Cleanup::UnsetDragSource);
    }
    out
}

impl DragSession {
    #[verifier::type_invariant]
    closed spec fn inv(&self) -> bool {
        self@.wf()
    }

    /// Checks what can be checked before anything native is touched, and
    /// creates the session.
    ///
    /// `handle` is the kind of the window handle, `image` what is known of
    /// the preview image, `cursor` the pointer position as just queried
    /// (`None` if the query failed), `has_provider` whether the item is a
    /// data provider. The checks are made in this order: the handle kind,
    /// the image (only AppKit refuses a missing file; elsewhere the drag goes
    /// on without a preview), the cursor position.
    pub fn start(
        platform: Platform,
        handle: WindowHandleKind,
        image: ImageProbe,
        cursor: Option<CursorPosition>,
        has_provider: bool,
        options: Options,
    ) -> (r: Result<DragSession, Error>)
        ensures
            match r {
                Ok(session) => session@.wf() && start_outcome(
                    platform,
                    handle,
                    image,
                    cursor,
                    has_provider,
                    options,
                ) == Ok::<SessionState, Error>(session@),
                Err(e) => start_outcome(platform, handle, image, cursor, has_provider, options)
                    == Err::<SessionState, Error>(e),
            },
    {
        if !platform.accepts(handle) {
            return Err(Error::UnsupportedWindowHandle);
        }
        if platform.checks_image_eagerly() && image == ImageProbe::MissingFile {
            return Err(Error::ImageNotFound);
        }
        match cursor {
            None => Err(Error::FailedToGetCursorPosition),
            Some(position) => {
                let provider = if has_provider && platform.supports_data_provider() {
                    ProviderSlot::Held
                } else {
                    ProviderSlot::Absent
                };
                Ok(
                    DragSession {
                        platform,
                        phase: Phase::Arming,
                        options,
                        handlers: Vec::new(),
                        source_set: false,
                        objects: Vec::new(),
                        provider,
                        last_cursor: position,
                    },
                )
            },
        }
    }

    /// Does nothing; tells the verifier that every session is well formed.
    pub fn well_formed(&self)
        ensures
            self@.wf(),
    {
        proof {
            use_type_invariant(self);
        }
    }

    pub fn platform(&self) -> (r: Platform)
        ensures
            r == self@.platform,
    {
        self.platform
    }

    pub fn phase(&self) -> (r: Phase)
        ensures
            r == self@.phase,
    {
        self.phase
    }

    pub fn last_cursor(&self) -> (r: CursorPosition)
        ensures
            r == self@.last_cursor,
    {
        self.last_cursor
    }

    pub fn provider(&self) -> (r: ProviderSlot)
        ensures
            r == self@.provider,
    {
        self.provider
    }

    /// Whether the session has neither completed nor failed.
    pub fn is_live(&self) -> (r: bool)
        ensures
            r == self@.is_live(),
    {
        match self.phase {
            Phase::Arming => true,
            Phase::Active => true,
            _ => false,
        }
    }

    /// Whether nothing native is left of the session.
    pub fn is_clean(&self) -> (r: bool)
        ensures
            r == self@.is_clean(),
    {
        self.handlers.len() == 0 && !self.source_set && self.objects.len() == 0
    }

    /// The number of native handlers the session has registered.
    pub fn handler_count(&self) -> (r: usize)
        ensures
            r == self@.handlers.len(),
    {
        self.handlers.len()
    }

    /// Whether the native runtime should animate the drag image back to its
    /// origin when the drag is cancelled or fails.
    pub fn animates_on_cancel_or_failure(&self) -> (r: bool)
        ensures
            r == !self@.skip_animation,
    {
        !self.options.skip_animatation_on_cancel_or_failure
    }

    /// Whether a data request may be answered from the provider: the runtime
    /// holds it and the session has not ended.
    pub fn may_provide(&self) -> (r: bool)
        ensures
            r == self@.may_provide(),
    {
        self.provider == ProviderSlot::Held && self.is_live()
    }

    /// Records that the native handler `id` was registered for this session.
    ///
    /// Returns whether the session now tracks it. It does not if the session
    /// has already ended (the caller must unregister the handler at once) or
    /// if `id` is tracked already.
    pub fn register_handler(&mut self, id: u64) -> (r: bool)
        ensures
            r == old(self)@.accepts_handler(id),
            final(self)@ == old(self)@.with_handler(id),
            final(self)@.wf(),
    {
        proof {
            use_type_invariant(&*self);
        }
        if self.is_live() && !contains_id(&self.handlers, id) {
            let mut handlers = copy_ids(&self.handlers);
            handlers.push(id);
            self.handlers = handlers;
            true
        } else {
            false
        }
    }

    /// Records that the bridging object `token` was allocated for this
    /// session and is owned by it.
    ///
    /// Returns whether the session now tracks it. It does not if the session
    /// has already ended (the caller must release the object at once) or if
    /// `token` is tracked already.
    pub fn adopt_object(&mut self, token: u64) -> (r: bool)
        ensures
            r == old(self)@.accepts_object(token),
            final(self)@ == old(self)@.with_object(token),
            final(self)@.wf(),
    {
        proof {
            use_type_invariant(&*self);
        }
        if self.is_live() && !contains_id(&self.objects, token) {
            let mut objects = copy_ids(&self.objects);
            objects.push(token);
            self.objects = objects;
            true
        } else {
            false
        }
    }

    /// Records that the window now carries the drag-source configuration.
    ///
    /// Returns whether the session tracks it; it does not if the session has
    /// already ended, and the caller must then unset the configuration.
    pub fn source_configured(&mut self) -> (r: bool)
        ensures
            r == old(self)@.is_live(),
            final(self)@ == old(self)@.with_source_set(),
            final(self)@.wf(),
    {
        proof {
            use_type_invariant(&*self);
        }
        if self.is_live() {
            self.source_set = true;
            true
        } else {
            false
        }
    }

    /// Records a cursor position reported while the session is live.
    pub fn track_cursor(&mut self, position: CursorPosition)
        ensures
            final(self)@ == old(self)@.with_cursor(position),
            final(self)@.wf(),
    {
        proof {
            use_type_invariant(&*self);
        }
        if self.is_live() {
            self.last_cursor = position;
        }
    }

    /// Records that the native "begin drag" call was accepted.
    ///
    /// Returns whether this call made the session active.
    pub fn activate(&mut self) -> (r: bool)
        ensures
            r == (old(self)@.phase == Phase::Arming),
            final(self)@ == old(self)@.activated(),
            final(self)@.wf(),
    {
        proof {
            use_type_invariant(&*self);
        }
        if self.phase == Phase::Arming {
            self.phase = Phase::Active;
            true
        } else {
            false
        }
    }

    /// Ends setup with `error`.
    ///
    /// While the session is arming, this rolls back: the result lists every
    /// handler and object registered so far, the session is left clean in
    /// phase `Failed`, and no result will ever be handed out. In any other
    /// phase nothing changes and the result is `None`.
    pub fn fail(&mut self, error: Error) -> (r: Option<Rollback>)
        ensures
            final(self)@ == old(self)@.failed(),
            final(self)@.wf(),
            old(self)@.phase != Phase::Arming ==> r is None,
            old(self)@.phase == Phase::Arming ==> r is Some && r->0.error == error
                && r->0.cleanup@ == cleanup_steps(old(self)@.handlers, old(self)@.source_set)
                && r->0.release@ == old(self)@.objects,
    {
        proof {
            use_type_invariant(&*self);
        }
        if self.phase != Phase::Arming {
            return None;
        }
        let cleanup = cleanup_list(&self.handlers, self.source_set);
        let release = copy_ids(&self.objects);
        self.handlers = Vec::new();
        self.objects = Vec::new();
        self.source_set = false;
        self.phase = Phase::Failed;
        Some(Rollback { cleanup, release, error })
    }

    /// Handles a native completion event: `result` as the platform's success
    /// code says, `reported` the position the event carried, `queried` the
    /// position the backend queried if the event carried none.
    ///
    /// The first such event of an active session ends it: the result lists
    /// every registered handler and owned object, and the one result for the
    /// callback; the session is left clean in phase `Completed`. Any other
    /// call changes nothing and returns `None`, so the callback is invoked
    /// exactly once per session that became active, whatever events follow.
    pub fn complete(
        &mut self,
        result: DragResult,
        reported: Option<CursorPosition>,
        queried: Option<CursorPosition>,
    ) -> (r: Option<Completion>)
        ensures
            final(self)@ == old(self)@.completed(reported, queried),
            final(self)@.wf(),
            old(self)@.phase != Phase::Active ==> r is None,
            old(self)@.phase == Phase::Active ==> r is Some && r->0.result == result
                && r->0.cursor_position == resolved_position(
                reported,
                queried,
                old(self)@.last_cursor,
            ) && r->0.cleanup@ == cleanup_steps(old(self)@.handlers, old(self)@.source_set)
                && r->0.release@ == old(self)@.objects,
    {
        proof {
            use_type_invariant(&*self);
        }
        if self.phase != Phase::Active {
            return None;
        }
        let cursor_position = match reported {
            Some(p) => p,
            None => match queried {
                Some(p) => p,
                None => self.last_cursor,
            },
        };
        let cleanup = cleanup_list(&self.handlers, self.source_set);
        let release = copy_ids(&self.objects);
        self.handlers = Vec::new();
        self.objects = Vec::new();
        self.source_set = false;
        self.phase = Phase::Completed;
        self.last_cursor = cursor_position;
        Some(Completion { cleanup, result, cursor_position, release })
    }

    /// Handles the runtime's notice that it is finished with the provider.
    ///
    /// Returns whether the caller must destroy the provider now: `true` the
    /// first time for a session whose provider the runtime held, `false`
    /// ever after and for every other session.
    pub fn provider_finished(&mut self) -> (r: bool)
        ensures
            r == (old(self)@.provider == ProviderSlot::Held),
            final(self)@ == old(self)@.provider_finished(),
            final(self)@.wf(),
    {
        proof {
            use_type_invariant(&*self);
        }
        if self.provider == ProviderSlot::Held {
            self.provider = ProviderSlot::Released;
            true
        } else {
            false
        }
    }
}

/// Anything that can happen to a session once it exists.
pub enum Event {
    /// A native handler was registered.
    Register(u64),
    /// A bridging object was allocated.
    Adopt(u64),
    /// The drag-source configuration was installed.
    SourceConfigured,
    /// A cursor position was reported.
    Cursor(CursorPosition),
    /// The native "begin drag" call was accepted.
    Activate,
    /// A setup step failed.
    Fail,
    /// A native completion event arrived.
    Complete { result: DragResult, reported: Option<CursorPosition>, queried: Option<CursorPosition> },
    /// The runtime is finished with the provider.
    ProviderFinished,
}

impl SessionState {
    /// The state after `event`, as the methods of `DragSession` change it.
    pub open spec fn step(self, event: Event) -> SessionState {
        match event {
            Event::Register(id) => self.with_handler(id),
            Event::Adopt(token) => self.with_object(token),
            Event::SourceConfigured => self.with_source_set(),
            Event::Cursor(position) => self.with_cursor(position),
            Event::Activate => self.activated(),
            Event::Fail => self.failed(),
            Event::Complete { reported, queried, .. } => self.completed(reported, queried),
            Event::ProviderFinished => self.provider_finished(),
        }
    }

    /// Whether `event` makes the session hand out its result, that is,
    /// whether `DragSession::complete` returns `Some`.
    pub open spec fn hands_out(self, event: Event) -> bool {
        event is Complete && self.phase == Phase::Active
    }

    /// The state after `events`, in order.
    pub open spec fn run(self, events: Seq<Event>) -> SessionState
        decreases events.len(),
    {
        if events.len() == 0 {
            self
        } else {
            self.step(events[0]).run(events.drop_first())
        }
    }

    /// How many times the result is handed out while `events` happen.
    pub open spec fn results(self, events: Seq<Event>) -> nat
        decreases events.len(),
    {
        if events.len() == 0 {
            0
        } else {
            (if self.hands_out(events[0]) {
                1nat
            } else {
                0nat
            }) + self.step(events[0]).results(events.drop_first())
        }
    }
}

/// Every event keeps a session well formed.
pub proof fn law_step_preserves_wf(s: SessionState, event: Event)
    requires
        s.wf(),
    ensures
        s.step(event).wf(),
{
    match event {
        Event::Register(id) => {
            if s.accepts_handler(id) {
                assert forall|i: int, j: int|
                    0 <= i < s.handlers.push(id).len() && 0 <= j < s.handlers.push(id).len() && i
                        != j implies s.handlers.push(id)[i] != s.handlers.push(id)[j] by {
                    if i < s.handlers.len() {
                        assert(s.handlers.contains(s.handlers[i]));
                    }
                    if j < s.handlers.len() {
                        assert(s.handlers.contains(s.handlers[j]));
                    }
                }
            }
        },
        Event::Adopt(token) => {
            if s.accepts_object(token) {
                assert forall|i: int, j: int|
                    0 <= i < s.objects.push(token).len() && 0 <= j < s.objects.push(token).len()
                        && i != j implies s.objects.push(token)[i] != s.objects.push(token)[j] by {
                    if i < s.objects.len() {
                        assert(s.objects.contains(s.objects[i]));
                    }
                    if j < s.objects.len() {
                        assert(s.objects.contains(s.objects[j]));
                    }
                }
            }
        },
        _ => {},
    }
}

/// A session that has ended stays as it is, whatever happens, and hands
/// out nothing: after the result callback has fired once it never fires
/// again, and after a failed start it never fires at all.
pub proof fn law_ended_session_is_inert(s: SessionState, events: Seq<Event>)
    requires
        !s.is_live(),
    ensures
        s.results(events) == 0,
        s.run(events).phase == s.phase,
        s.run(events).handlers == s.handlers,
        s.run(events).objects == s.objects,
        s.run(events).source_set == s.source_set,
    decreases events.len(),
{
    if events.len() > 0 {
        law_ended_session_is_inert(s.step(events[0]), events.drop_first());
    }
}

/// The result is handed out at most once, whatever happens to a session
/// and in whatever order.
pub proof fn law_result_at_most_once(s: SessionState, events: Seq<Event>)
    ensures
        s.results(events) <= 1,
    decreases events.len(),
{
    if events.len() > 0 {
        if s.hands_out(events[0]) {
            law_ended_session_is_inert(s.step(events[0]), events.drop_first());
        } else {
            law_result_at_most_once(s.step(events[0]), events.drop_first());
        }
    }
}

/// Once the drag has begun, the result is handed out exactly once as soon
/// as a completion event is among those that follow: never zero times,
/// never twice.
pub proof fn law_result_exactly_once(s: SessionState, events: Seq<Event>)
    requires
        s.phase == Phase::Active,
        exists|i: int| 0 <= i < events.len() && events[i] is Complete,
    ensures
        s.results(events) == 1,
        s.run(events).phase == Phase::Completed,
    decreases events.len(),
{
    let i = choose|i: int| 0 <= i < events.len() && events[i] is Complete;
    if events[0] is Complete {
        law_ended_session_is_inert(s.step(events[0]), events.drop_first());
    } else {
        assert(events.drop_first()[i - 1] == events[i]);
        law_result_exactly_once(s.step(events[0]), events.drop_first());
    }
}

/// A session that has ended has left nothing behind: no native handler is
/// registered, the window carries no drag-source configuration, and no
/// bridging object is owned. The inputs on which a new session starts are
/// therefore the same as before the first, and `start_outcome` depends on no
/// earlier session: a drag can be started again on the same window.
pub proof fn law_rearmable(
    s: SessionState,
    events: Seq<Event>,
    handle: WindowHandleKind,
    image: ImageProbe,
    cursor: CursorPosition,
    has_provider: bool,
    options: Options,
)
    requires
        s.wf(),
        !s.run(events).is_live(),
        handle == s.platform.handle_kind(),
        image != ImageProbe::MissingFile,
    ensures
        s.run(events).is_clean(),
        start_outcome(s.platform, handle, image, Some(cursor), has_provider, options) is Ok,
    decreases events.len(),
{
    if events.len() > 0 {
        law_step_preserves_wf(s, events[0]);
        assert(s.step(events[0]).platform == s.platform);
        law_rearmable(
            s.step(events[0]),
            events.drop_first(),
            handle,
            image,
            cursor,
            has_provider,
            options,
        );
    }
}

/// A window handle of the wrong kind is refused before a session exists,
/// so nothing native is touched and no callback can fire.
pub proof fn law_wrong_handle_is_refused(
    platform: Platform,
    handle: WindowHandleKind,
    image: ImageProbe,
    cursor: Option<CursorPosition>,
    has_provider: bool,
    options: Options,
)
    requires
        handle != platform.handle_kind(),
    ensures
        start_outcome(platform, handle, image, cursor, has_provider, options) == Err::<
            SessionState,
            Error,
        >(Error::UnsupportedWindowHandle),
{
}

/// On AppKit a preview image file that does not exist is refused before a
/// session exists, so no native drag object is created.
pub proof fn law_missing_image_is_refused(
    cursor: Option<CursorPosition>,
    has_provider: bool,
    options: Options,
)
    ensures
        start_outcome(
            Platform::AppKit,
            WindowHandleKind::AppKit,
            ImageProbe::MissingFile,
            cursor,
            has_provider,
            options,
        ) == Err::<SessionState, Error>(Error::ImageNotFound),
{
}

/// The data provider is destroyed at most once: after the runtime's first
/// notice the slot is `Released` and stays so, and no data request is served
/// from it again.
pub proof fn law_provider_released_once(s: SessionState, events: Seq<Event>)
    requires
        s.provider != ProviderSlot::Held,
    ensures
        s.run(events).provider == s.provider,
        !s.run(events).may_provide(),
    decreases events.len(),
{
    if events.len() > 0 {
        law_provider_released_once(s.step(events[0]), events.drop_first());
    }
}

/// After a session has ended no data request is served from the provider,
/// whatever happens.
pub proof fn law_no_data_after_end(s: SessionState, events: Seq<Event>)
    requires
        !s.is_live(),
    ensures
        !s.run(events).may_provide(),
{
    law_ended_session_is_inert(s, events);
}

/// Whether `event` is one that a backend reports while it sets a drag up:
/// a registration, an adopted object, the source configuration or a cursor
/// position.
pub open spec fn is_setup_report(event: Event) -> bool {
    event is Register || event is Adopt || event is SourceConfigured || event is Cursor
}

pub proof fn lemma_run_concat(s: SessionState, first: Seq<Event>, then: Seq<Event>)
    ensures
        s.run(first + then) == s.run(first).run(then),
        s.results(first + then) == s.results(first) + s.run(first).results(then),
    decreases first.len(),
{
    if first.len() == 0 {
        assert(first + then =~= then);
    } else {
        assert((first + then).drop_first() =~= first.drop_first() + then);
        lemma_run_concat(s.step(first[0]), first.drop_first(), then);
    }
}

/// Whatever happens, a session stays well formed.
pub proof fn law_run_preserves_wf(s: SessionState, events: Seq<Event>)
    requires
        s.wf(),
    ensures
        s.run(events).wf(),
    decreases events.len(),
{
    if events.len() > 0 {
        law_step_preserves_wf(s, events[0]);
        law_run_preserves_wf(s.step(events[0]), events.drop_first());
    }
}

proof fn lemma_setup_hands_out_nothing(s: SessionState, setup: Seq<Event>)
    requires
        s.phase == Phase::Arming,
        forall|i: int| 0 <= i < setup.len() ==> is_setup_report(#[trigger] setup[i]),
    ensures
        s.run(setup).phase == Phase::Arming,
        s.results(setup) == 0,
    decreases setup.len(),
{
    if setup.len() > 0 {
        assert(is_setup_report(setup[0]));
        assert forall|i: int| 0 <= i < setup.drop_first().len() implies is_setup_report(
            #[trigger] setup.drop_first()[i],
        ) by {
            assert(setup.drop_first()[i] == setup[i + 1]);
        }
        lemma_setup_hands_out_nothing(s.step(setup[0]), setup.drop_first());
    }
}

/// From start to end: a session that was started, set up with whatever
/// registrations, and whose drag began, hands out its result exactly once
/// as soon as a completion event is among those that follow, whatever else
/// happens and however often completion is signalled. When it has, nothing
/// is registered any more.
pub proof fn law_started_session_completes_once(
    platform: Platform,
    handle: WindowHandleKind,
    image: ImageProbe,
    cursor: Option<CursorPosition>,
    has_provider: bool,
    options: Options,
    setup: Seq<Event>,
    rest: Seq<Event>,
)
    requires
        start_outcome(platform, handle, image, cursor, has_provider, options) is Ok,
        forall|i: int| 0 <= i < setup.len() ==> is_setup_report(#[trigger] setup[i]),
        exists|i: int| 0 <= i < rest.len() && rest[i] is Complete,
    ensures
        ({
            let s = start_outcome(platform, handle, image, cursor, has_provider, options)->Ok_0;
            let events = setup + seq![Event::Activate] + rest;
            s.results(events) == 1 && s.run(events).phase == Phase::Completed && s.run(
                events,
            ).is_clean()
        }),
{
    let s = start_outcome(platform, handle, image, cursor, has_provider, options)->Ok_0;
    let begin = seq![Event::Activate];
    lemma_setup_hands_out_nothing(s, setup);
    let armed = s.run(setup);
    assert(begin.drop_first() =~= Seq::<Event>::empty());
    assert(begin[0] == Event::Activate);
    assert(armed.run(begin) == armed.step(Event::Activate).run(begin.drop_first()));
    assert(armed.step(Event::Activate).results(begin.drop_first()) == 0);
    assert(armed.results(begin) == 0);
    let active = armed.run(begin);
    law_result_exactly_once(active, rest);
    lemma_run_concat(s, setup, begin);
    lemma_run_concat(s, setup + begin, rest);
    law_run_preserves_wf(s, setup + begin + rest);
}

/// Registering a handler that is not tracked yet, while the session is
/// live, appends its identifier: the identifiers tracked before stay, in
/// their order, and the new one comes last. Nothing else changes, and the
/// registration itself hands out no result.
pub proof fn law_registration_appends(s: SessionState, id: u64)
    requires
        s.is_live(),
        !s.handlers.contains(id),
    ensures
        s.step(Event::Register(id)).handlers == s.handlers.push(id),
        s.step(Event::Register(id)).handlers.len() == s.handlers.len() + 1,
        forall|i: int|
            0 <= i < s.handlers.len() ==> s.step(Event::Register(id)).handlers[i] == s.handlers[i],
        s.step(Event::Register(id)) == (SessionState { handlers: s.handlers.push(id), ..s }),
        !s.hands_out(Event::Register(id)),
{
}

/// Whether `event` is one that happens before a session ends without
/// ending it: a setup report or the beginning of the drag.
pub open spec fn keeps_session_live(event: Event) -> bool {
    is_setup_report(event) || event is Activate || event is ProviderFinished
}

/// Until a session ends, no registration is lost: what was tracked stays
/// tracked, in its place, whatever is registered or reported afterwards.
pub proof fn law_registrations_are_kept(s: SessionState, events: Seq<Event>)
    requires
        s.is_live(),
        forall|i: int| 0 <= i < events.len() ==> keeps_session_live(#[trigger] events[i]),
    ensures
        s.run(events).is_live(),
        s.results(events) == 0,
        s.handlers.len() <= s.run(events).handlers.len(),
        forall|i: int| 0 <= i < s.handlers.len() ==> s.run(events).handlers[i] == s.handlers[i],
        s.source_set ==> s.run(events).source_set,
    decreases events.len(),
{
    if events.len() > 0 {
        assert(keeps_session_live(events[0]));
        assert forall|i: int| 0 <= i < events.drop_first().len() implies keeps_session_live(
            #[trigger] events.drop_first()[i],
        ) by {
            assert(events.drop_first()[i] == events[i + 1]);
        }
        let next = s.step(events[0]);
        law_registrations_are_kept(next, events.drop_first());
        assert forall|i: int| 0 <= i < s.handlers.len() implies s.run(events).handlers[i]
            == s.handlers[i] by {
            assert(next.handlers[i] == s.handlers[i]);
        }
    }
}

/// The teardown of a session undoes each registration exactly once: it
/// holds one step for every tracked handler, in the order of registration,
/// then one step for the drag source if it was configured, and no step
/// twice.
pub proof fn law_cleanup_undoes_each_registration_once(handlers: Seq<u64>, source_set: bool)
    requires
        handlers.no_duplicates(),
    ensures
        cleanup_steps(handlers, source_set).len() == handlers.len() + (if source_set {
            1int
        } else {
            0int
        }),
        forall|i: int|
            0 <= i < handlers.len() ==> cleanup_steps(handlers, source_set)[i]
                == Cleanup::DisconnectHandler(handlers[i]),
        source_set ==> cleanup_steps(handlers, source_set).last() == Cleanup::UnsetDragSource,
        cleanup_steps(handlers, source_set).no_duplicates(),
{
    let steps = cleanup_steps(handlers, source_set);
    assert forall|i: int, j: int| 0 <= i < steps.len() && 0 <= j < steps.len() && i
        != j implies steps[i] != steps[j] by {
        if i < handlers.len() && j < handlers.len() {
            assert(handlers[i] != handlers[j]);
        }
    }
}

} // verus!
