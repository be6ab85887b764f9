use vstd::prelude::*;
use crate::bus::{fan_out, frame_fan_out, Delivery, EventBus};
use crate::event::{opt_event_view, EventHandler, PlaybackState, PlayerEvent, PlayerEventView};
use crate::frame::{Frame, FrameRenderer};
use crate::gate::{resolved, GateState};
use crate::metadata::{codecs_known, media_info_to_metadata, spec_metadata, MediaInfo, MediaInfoView, Metadata, MetadataView};

verus! {

/// Cycle numbers run up to this value; a session that reached it starts no more.
pub const LAST_CYCLE: u64 = 0xffff_ffff_ffff_ffff;

/// Abstract state of a session, apart from its handlers and renderers.
pub struct SessionModel<E> {
    pub state: PlaybackState,
    pub gate: GateState,
    /// The ingestion endpoint of the current cycle, if the engine created one.
    pub endpoint: Option<E>,
    /// The engine asked for data since the endpoint was created or last said it had enough.
    pub ready: bool,
    pub input_size: u64,
    pub last_metadata: Option<MetadataView>,
    /// Number of the current (or last) start cycle; 0 before the first start.
    pub cycle: u64,
    /// Engine signals of the current cycle are taken into account.
    pub active: bool,
    /// The session may be started again after a stop.
    pub reusable: bool,
}

impl<E> SessionModel<E> {
    pub open spec fn wf(self) -> bool {
        &&& self.endpoint is Some ==> self.active && self.gate == GateState::Opened
        &&& self.ready ==> self.endpoint is Some
        &&& self.active ==> self.cycle > 0 && self.gate != GateState::Idle
        &&& !self.active ==> self.gate != GateState::Pending
        &&& self.state != PlaybackState::Stopped ==> self.active && self.gate == GateState::Opened
        &&& self.cycle == 0 ==> self.gate == GateState::Idle
    }

    /// A signal tagged with `cycle` is taken into account.
    pub open spec fn accepts(self, cycle: u64) -> bool {
        self.active && self.cycle == cycle
    }

    pub open spec fn can_start(self) -> bool {
        !self.active && (self.cycle == 0 || self.reusable) && self.cycle < LAST_CYCLE
    }
}

pub open spec fn initial_model<E>(reusable: bool) -> SessionModel<E> {
    SessionModel {
        state: PlaybackState::Stopped,
        gate: GateState::Idle,
        endpoint: None,
        ready: false,
        input_size: 0,
        last_metadata: None,
        cycle: 0,
        active: false,
        reusable,
    }
}

pub open spec fn input_size_step<E>(m: SessionModel<E>, size: u64) -> SessionModel<E> {
    SessionModel { input_size: size, ..m }
}

pub open spec fn start_step<E>(m: SessionModel<E>) -> SessionModel<E> {
    if m.can_start() {
        SessionModel {
            gate: GateState::Pending,
            cycle: (m.cycle + 1) as u64,
            active: true,
            last_metadata: None,
            ..m
        }
    } else {
        m
    }
}

/// `play` moves a paused session to `Playing`; any other state stays.
pub open spec fn play_step<E>(m: SessionModel<E>) -> SessionModel<E> {
    if m.state == PlaybackState::Paused {
        SessionModel { state: PlaybackState::Playing, ..m }
    } else {
        m
    }
}

pub open spec fn stop_step<E>(m: SessionModel<E>) -> SessionModel<E> {
    SessionModel {
        state: PlaybackState::Stopped,
        gate: resolved(m.gate, false),
        endpoint: None,
        ready: false,
        last_metadata: None,
        active: false,
        ..m
    }
}

/// The engine's source setup: it yields the endpoint of the cycle, or nothing.
pub open spec fn source_setup_step<E>(m: SessionModel<E>, cycle: u64, endpoint: Option<E>) -> SessionModel<E> {
    if m.accepts(cycle) && m.gate == GateState::Pending {
        match endpoint {
            Some(e) => SessionModel {
                gate: GateState::Opened,
                endpoint: Some(e),
                state: PlaybackState::Paused,
                ..m
            },
            None => SessionModel { gate: GateState::Failed, active: false, ..m },
        }
    } else {
        m
    }
}

/// The stream length to configure on a newly accepted endpoint, if any.
pub open spec fn setup_size<E>(m: SessionModel<E>, cycle: u64, endpoint: Option<E>) -> Option<u64> {
    if m.accepts(cycle) && m.gate == GateState::Pending && endpoint is Some && m.input_size > 0 {
        Some(m.input_size)
    } else {
        None
    }
}

pub open spec fn need_data_step<E>(m: SessionModel<E>, cycle: u64) -> SessionModel<E> {
    if m.accepts(cycle) && m.endpoint is Some {
        SessionModel { ready: true, ..m }
    } else {
        m
    }
}

pub open spec fn enough_data_step<E>(m: SessionModel<E>, cycle: u64) -> SessionModel<E> {
    if m.accepts(cycle) {
        SessionModel { ready: false, ..m }
    } else {
        m
    }
}

pub open spec fn error_step<E>(m: SessionModel<E>, cycle: u64) -> SessionModel<E> {
    if m.accepts(cycle) {
        SessionModel {
            state: PlaybackState::Stopped,
            gate: resolved(m.gate, false),
            endpoint: None,
            ready: false,
            active: false,
            ..m
        }
    } else {
        m
    }
}

/// The descriptor's metadata differs from the cached one and is to be announced.
pub open spec fn metadata_changes<E>(m: SessionModel<E>, cycle: u64, info: MediaInfoView) -> bool {
    m.accepts(cycle) && m.last_metadata != Some(spec_metadata(info))
}

pub open spec fn media_info_step<E>(m: SessionModel<E>, cycle: u64, info: MediaInfoView) -> SessionModel<E> {
    if metadata_changes(m, cycle, info) {
        SessionModel { last_metadata: Some(spec_metadata(info)), ..m }
    } else {
        m
    }
}

pub open spec fn opt_metadata_view(m: Option<Metadata>) -> Option<MetadataView> {
    match m {
        Some(v) => Some(v@),
        None => None,
    }
}

/// Every step keeps a session model well formed.
pub proof fn lemma_steps_keep_wf<E>(m: SessionModel<E>, cycle: u64, size: u64, endpoint: Option<E>, info: MediaInfoView)
    requires
        m.wf(),
    ensures
        input_size_step(m, size).wf(),
        start_step(m).wf(),
        play_step(m).wf(),
        stop_step(m).wf(),
        source_setup_step(m, cycle, endpoint).wf(),
        need_data_step(m, cycle).wf(),
        enough_data_step(m, cycle).wf(),
        error_step(m, cycle).wf(),
        media_info_step(m, cycle, info).wf(),
{
}

/// A fresh session has no ingestion endpoint and is not ready: a push or an
/// end of stream fails before `start`.
pub proof fn lemma_fresh_session_rejects_data<E>(reusable: bool)
    ensures
        initial_model::<E>(reusable).wf(),
        initial_model::<E>(reusable).endpoint is None,
        !initial_model::<E>(reusable).ready,
{
}

/// Two structurally identical descriptors in a row give one announcement at
/// most: the second is absorbed, and the first is announced exactly when it
/// differs from the cached metadata (always, on a freshly started cycle).
pub proof fn lemma_repeated_descriptor_announced_once<E>(m: SessionModel<E>, cycle: u64, d1: MediaInfoView, d2: MediaInfoView)
    requires
        d1 == d2,
    ensures
        !metadata_changes(media_info_step(m, cycle, d1), cycle, d2),
        m.accepts(cycle) ==> (metadata_changes(m, cycle, d1) <==> m.last_metadata != Some(spec_metadata(d1))),
        m.accepts(cycle) && m.last_metadata is None ==> metadata_changes(m, cycle, d1),
{
}

/// A fatal error before the engine created the endpoint fails the start,
/// leaves no endpoint (so pushes and ends of stream fail without reaching the
/// engine), and no later source setup of that cycle creates one.
pub proof fn lemma_startup_failure<E>(m: SessionModel<E>, later: Option<E>)
    requires
        m.wf(),
        m.can_start(),
    ensures
        ({
            let started = start_step(m);
            let failed = error_step(started, started.cycle);
            &&& started.gate == GateState::Pending
            &&& failed.gate == GateState::Failed
            &&& failed.endpoint is None
            &&& !failed.ready
            &&& failed.state == PlaybackState::Stopped
            &&& source_setup_step(failed, started.cycle, later) == failed
        }),
{
}

/// After `stop` the session is stopped with no endpoint, a second `stop`
/// changes nothing, and no engine signal of any cycle changes it or is
/// announced.
pub proof fn lemma_stopped_session_ignores_signals<E>(m: SessionModel<E>, cycle: u64, endpoint: Option<E>, info: MediaInfoView)
    requires
        m.wf(),
    ensures
        ({
            let s = stop_step(m);
            &&& s.wf()
            &&& s.state == PlaybackState::Stopped
            &&& s.endpoint is None
            &&& stop_step(s) == s
            &&& !s.accepts(cycle)
            &&& source_setup_step(s, cycle, endpoint) == s
            &&& need_data_step(s, cycle) == s
            &&& enough_data_step(s, cycle) == s
            &&& error_step(s, cycle) == s
            &&& media_info_step(s, cycle, info) == s
            &&& !metadata_changes(s, cycle, info)
        }),
{
}

/// The state of a session that its lock guards.
pub struct PlayerInner<S, R, E> {
    bus: EventBus<S, R>,
    endpoint: Option<E>,
    input_size: u64,
    last_metadata: Option<Metadata>,
    state: PlaybackState,
    gate: GateState,
    ready: bool,
    cycle: u64,
    active: bool,
    reusable: bool,
}

impl<S, R, E> View for PlayerInner<S, R, E> {
    type V = SessionModel<E>;

    closed spec fn view(&self) -> SessionModel<E> {
        SessionModel {
            state: self.state,
            gate: self.gate,
            endpoint: self.endpoint,
            ready: self.ready,
            input_size: self.input_size,
            last_metadata: opt_metadata_view(self.last_metadata),
            cycle: self.cycle,
            active: self.active,
            reusable: self.reusable,
        }
    }
}

impl<S: EventHandler + Clone, R: FrameRenderer + Clone, E: Clone> PlayerInner<S, R, E> {
    pub closed spec fn bus(&self) -> EventBus<S, R> {
        self.bus
    }

    pub open spec fn wf(&self) -> bool {
        self@.wf()
    }

    pub fn new(reusable: bool) -> (r: Self)
        ensures
            r@ == initial_model::<E>(reusable),
            r.wf(),
            r.bus().subscribers().len() == 0,
            r.bus().renderers().len() == 0,
    {
        PlayerInner {
            bus: EventBus::new(),
            endpoint: None,
            input_size: 0,
            last_metadata: None,
            state: PlaybackState::Stopped,
            gate: GateState::Idle,
            ready: false,
            cycle: 0,
            active: false,
            reusable,
        }
    }

    pub fn register_event_handler(&mut self, handler: S)
        ensures
            final(self)@ == old(self)@,
            final(self).bus().subscribers() == old(self).bus().subscribers().push(handler),
            final(self).bus().renderers() == old(self).bus().renderers(),
    {
        self.bus.register_event_handler(handler);
    }

    pub fn register_frame_renderer(&mut self, renderer: R)
        ensures
            final(self)@ == old(self)@,
            final(self).bus().subscribers() == old(self).bus().subscribers(),
            final(self).bus().renderers() == old(self).bus().renderers().push(renderer),
    {
        self.bus.register_frame_renderer(renderer);
    }

    /// Clones of the handlers and renderers, for delivery outside the lock.
    pub fn snapshot_bus(&self) -> (r: EventBus<S, R>)
        ensures
            r.subscribers().len() == self.bus().subscribers().len(),
            r.renderers().len() == self.bus().renderers().len(),
            forall|i: int|
                0 <= i < self.bus().subscribers().len() ==> cloned(self.bus().subscribers()[i], #[trigger] r.subscribers()[i]),
            forall|i: int|
                0 <= i < self.bus().renderers().len() ==> cloned(self.bus().renderers()[i], #[trigger] r.renderers()[i]),
    {
        self.bus.snapshot()
    }

    pub fn notify(&self, event: PlayerEvent) -> (deliveries: Ghost<Seq<Delivery>>)
        ensures
            deliveries@ == fan_out(self.bus().subscribers().len(), event@),
    {
        self.bus.notify(event)
    }

    pub fn render(&self, frame: Frame) -> (deliveries: Ghost<Seq<Delivery>>)
        ensures
            deliveries@ == frame_fan_out(self.bus().renderers().len(), frame) + fan_out(
                self.bus().subscribers().len(),
                PlayerEventView::FrameUpdated,
            ),
    {
        self.bus.render(frame)
    }

    /// Records the total stream length, handed to the engine when it creates
    /// the endpoint; set it before `start`.
    pub fn set_input_size(&mut self, size: u64)
        requires
            old(self).wf(),
        ensures
            final(self)@ == input_size_step(old(self)@, size),
            final(self).wf(),
            final(self).bus() == old(self).bus(),
    {
        self.input_size = size;
    }

    /// Arms the readiness gate for a new cycle; returns the cycle's number,
    /// with which the engine's signals of that cycle are tagged, or `None`
    /// when the session cannot start now.
    pub fn start(&mut self) -> (r: Option<u64>)
        requires
            old(self).wf(),
        ensures
            final(self)@ == start_step(old(self)@),
            r == (if old(self)@.can_start() { Some((old(self)@.cycle + 1) as u64) } else { None::<u64> }),
            final(self).wf(),
            final(self).bus() == old(self).bus(),
    {
        if !self.active && (self.cycle == 0 || self.reusable) && self.cycle < LAST_CYCLE {
            self.cycle = self.cycle + 1;
            self.gate = GateState::Pending;
            self.active = true;
            self.last_metadata = None;
            Some(self.cycle)
        } else {
            None
        }
    }

    /// The session's side of a play request, which is always passed on to
    /// the engine: a paused session becomes `Playing`; in any other state
    /// (already playing, or stopped) nothing changes here.
    pub fn play(&mut self)
        requires
            old(self).wf(),
        ensures
            final(self)@ == play_step(old(self)@),
            final(self).wf(),
            final(self).bus() == old(self).bus(),
    {
        if self.state == PlaybackState::Paused {
            self.state = PlaybackState::Playing;
        }
    }

    /// Stops the session: releases the endpoint, clears the cached metadata,
    /// cancels a pending start and ignores the cycle's later signals. Returns
    /// whether a cycle was running, i.e. the engine is to be stopped.
    pub fn stop(&mut self) -> (r: bool)
        requires
            old(self).wf(),
        ensures
            final(self)@ == stop_step(old(self)@),
            r == old(self)@.active,
            final(self).wf(),
            final(self).bus() == old(self).bus(),
    {
        let was_active = self.active;
        self.state = PlaybackState::Stopped;
        self.gate.resolve(false);
        self.endpoint = None;
        self.ready = false;
        self.last_metadata = None;
        self.active = false;
        was_active
    }

    /// Source setup of `cycle`. With an endpoint, the session keeps it, the
    /// start succeeds and the result is the stream length to set on it (if
    /// known). Without one, the start fails.
    pub fn set_app_src(&mut self, cycle: u64, appsrc: Option<E>) -> (size: Option<u64>)
        requires
            old(self).wf(),
        ensures
            final(self)@ == source_setup_step(old(self)@, cycle, appsrc),
            size == setup_size(old(self)@, cycle, appsrc),
            final(self).wf(),
            final(self).bus() == old(self).bus(),
    {
        if !(self.active && self.cycle == cycle && self.gate == GateState::Pending) {
            return None;
        }
        match appsrc {
            Some(e) => {
                self.gate = GateState::Opened;
                self.endpoint = Some(e);
                self.state = PlaybackState::Paused;
                if self.input_size > 0 {
                    Some(self.input_size)
                } else {
                    None
                }
            },
            None => {
                self.gate = GateState::Failed;
                self.active = false;
                None
            },
        }
    }

    /// The engine asks for data: the endpoint is ready.
    pub fn need_data(&mut self, cycle: u64)
        requires
            old(self).wf(),
        ensures
            final(self)@ == need_data_step(old(self)@, cycle),
            final(self).wf(),
            final(self).bus() == old(self).bus(),
    {
        if self.active && self.cycle == cycle && self.endpoint.is_some() {
            self.ready = true;
        }
    }

    /// The engine has enough data: the endpoint is not ready.
    pub fn enough_data(&mut self, cycle: u64)
        requires
            old(self).wf(),
        ensures
            final(self)@ == enough_data_step(old(self)@, cycle),
            final(self).wf(),
            final(self).bus() == old(self).bus(),
    {
        if self.active && self.cycle == cycle {
            self.ready = false;
        }
    }

    /// A fatal engine error: the session stops, a pending start fails, and
    /// `Error` is to be emitted.
    pub fn on_error(&mut self, cycle: u64) -> (r: Option<PlayerEvent>)
        requires
            old(self).wf(),
        ensures
            final(self)@ == error_step(old(self)@, cycle),
            opt_event_view(r) == (if old(self)@.accepts(cycle) {
                Some(PlayerEventView::Error)
            } else {
                None::<PlayerEventView>
            }),
            final(self).wf(),
            final(self).bus() == old(self).bus(),
    {
        if !(self.active && self.cycle == cycle) {
            return None;
        }
        self.state = PlaybackState::Stopped;
        self.gate.resolve(false);
        self.endpoint = None;
        self.ready = false;
        self.active = false;
        Some(PlayerEvent::Error)
    }

    /// The engine reached the end of the stream: `EndOfStream` is to be
    /// emitted; the state is left to the caller's `stop`.
    pub fn on_end_of_stream(&self, cycle: u64) -> (r: Option<PlayerEvent>)
        ensures
            opt_event_view(r) == (if self@.accepts(cycle) {
                Some(PlayerEventView::EndOfStream)
            } else {
                None::<PlayerEventView>
            }),
    {
        if self.active && self.cycle == cycle {
            Some(PlayerEvent::EndOfStream)
        } else {
            None
        }
    }

    /// The engine changed state: the change is to be announced.
    pub fn on_state_changed(&self, cycle: u64, state: PlaybackState) -> (r: Option<PlayerEvent>)
        ensures
            opt_event_view(r) == (if self@.accepts(cycle) {
                Some(PlayerEventView::StateChanged(state))
            } else {
                None::<PlayerEventView>
            }),
    {
        if self.active && self.cycle == cycle {
            Some(PlayerEvent::StateChanged(state))
        } else {
            None
        }
    }

    /// The engine updated its descriptor: metadata that differs from the
    /// cached one is cached and to be announced; an equal one is absorbed.
    pub fn on_media_info_updated(&mut self, cycle: u64, info: &MediaInfo) -> (r: Option<PlayerEvent>)
        requires
            old(self).wf(),
            codecs_known(info@),
        ensures
            final(self)@ == media_info_step(old(self)@, cycle, info@),
            opt_event_view(r) == (if metadata_changes(old(self)@, cycle, info@) {
                Some(PlayerEventView::MetadataUpdated(spec_metadata(info@)))
            } else {
                None::<PlayerEventView>
            }),
            final(self).wf(),
            final(self).bus() == old(self).bus(),
    {
        if !(self.active && self.cycle == cycle) {
            return None;
        }
        let metadata = media_info_to_metadata(info);
        let same = match &self.last_metadata {
            Some(last) => *last == metadata,
            None => false,
        };
        if same {
            None
        } else {
            let announced = metadata.duplicate();
            self.last_metadata = Some(metadata);
            Some(PlayerEvent::MetadataUpdated(announced))
        }
    }

    /// Signals tagged with `cycle` are taken into account.
    pub fn accepts(&self, cycle: u64) -> (r: bool)
        ensures
            r == self@.accepts(cycle),
    {
        self.active && self.cycle == cycle
    }

    /// A handle on the ingestion endpoint, if one exists.
    pub fn ingestion_endpoint(&self) -> (r: Option<E>)
        ensures
            r is Some == self@.endpoint is Some,
            r is Some ==> cloned(self@.endpoint->0, r->0),
    {
        match &self.endpoint {
            Some(e) => Some(e.clone()),
            None => None,
        }
    }

    /// The engine is ready to take more data.
    pub fn ready(&self) -> (r: bool)
        ensures
            r == self@.ready,
    {
        self.ready
    }

    pub fn gate(&self) -> (r: GateState)
        ensures
            r == self@.gate,
    {
        self.gate
    }

    pub fn state(&self) -> (r: PlaybackState)
        ensures
            r == self@.state,
    {
        self.state
    }

    /// A copy of the cached metadata.
    pub fn get_metadata(&self) -> (r: Option<Metadata>)
        ensures
            opt_metadata_view(r) == self@.last_metadata,
    {
        match &self.last_metadata {
            Some(m) => Some(m.duplicate()),
            None => None,
        }
    }
}

} // verus!
