use vstd::prelude::*;
use vstd::rwlock::{RwLock, RwLockPredicate};
use std::sync::Arc;
use crate::bus::EventBus;
use crate::event::{EventHandler, PlaybackState, PlayerEvent};
use crate::frame::{Frame, FrameRenderer};
use crate::metadata::{codecs_known, MediaInfo, Metadata};
use crate::session::PlayerInner;

verus! {

/// The lock's invariant: the guarded session state is well formed.
pub struct SessionInvariant;

impl<S: EventHandler + Clone, R: FrameRenderer + Clone, E: Clone> RwLockPredicate<PlayerInner<S, R, E>> for SessionInvariant {
    open spec fn inv(self, v: PlayerInner<S, R, E>) -> bool {
        v.wf()
    }
}

/// A playback session shared between the caller's threads and the engine's
/// callback threads. One lock guards its state; it is held only for the
/// bookkeeping of each operation and never while handlers or renderers run.
///
/// Each method runs the `PlayerInner` operation of the same name under the
/// lock, where its exact effect is stated; what the lock guarantees is that
/// every interleaving keeps the session state well formed.
///
/// `S` is the event handler type, `R` the frame renderer type and `E` the
/// engine's ingestion endpoint handle. Engine signals carry the number of the
/// cycle (returned by `start`) in which they were connected; signals of a
/// stopped cycle are ignored.
#[derive(Clone)]
pub struct Player<S: EventHandler + Clone, R: FrameRenderer + Clone, E: Clone> {
    inner: Arc<RwLock<PlayerInner<S, R, E>, SessionInvariant>>,
}

impl<S: EventHandler + Clone, R: FrameRenderer + Clone, E: Clone> Player<S, R, E> {
    fn with_reuse(reusable: bool) -> Self {
        let inner = PlayerInner::new(reusable);
        Player { inner: Arc::new(RwLock::new(inner, Ghost(SessionInvariant))) }
    }

    /// A stopped session with no engine resources committed, which can be
    /// started once.
    pub fn new() -> Self {
        Self::with_reuse(false)
    }

    /// A stopped session that may be started again after each stop.
    pub fn new_reusable() -> Self {
        Self::with_reuse(true)
    }

    /// Delivers an event, if any, through a snapshot of the handlers.
    fn emit(bus: &EventBus<S, R>, event: Option<PlayerEvent>) {
        match event {
            Some(e) => {
                let _ = bus.notify(e);
            },
            None => {},
        }
    }

    pub fn register_event_handler(&self, handler: S) {
        let (mut inner, handle) = self.inner.acquire_write();
        inner.register_event_handler(handler);
        handle.release_write(inner);
    }

    pub fn register_frame_renderer(&self, renderer: R) {
        let (mut inner, handle) = self.inner.acquire_write();
        inner.register_frame_renderer(renderer);
        handle.release_write(inner);
    }

    pub fn set_input_size(&self, size: u64) {
        let (mut inner, handle) = self.inner.acquire_write();
        inner.set_input_size(size);
        handle.release_write(inner);
    }

    /// Arms the readiness gate of a new cycle and returns its number; the
    /// caller then asks the engine to prepare and waits on `start_outcome`.
    pub fn start(&self) -> Option<u64> {
        let (mut inner, handle) = self.inner.acquire_write();
        let r = inner.start();
        handle.release_write(inner);
        r
    }

    /// `None` while the start is unresolved (or none was requested), else
    /// whether the engine created the ingestion endpoint.
    pub fn start_outcome(&self) -> Option<bool> {
        let h = self.inner.acquire_read();
        let r = h.borrow().gate().outcome();
        h.release_read();
        r
    }

    /// Records a play request; the caller passes every request on to the
    /// engine.
    pub fn play(&self) {
        let (mut inner, handle) = self.inner.acquire_write();
        inner.play();
        handle.release_write(inner);
    }

    /// Idempotent; safe from any thread at any time. Returns whether a cycle
    /// was running, i.e. the engine is to be stopped.
    pub fn stop(&self) -> bool {
        let (mut inner, handle) = self.inner.acquire_write();
        let r = inner.stop();
        handle.release_write(inner);
        r
    }

    /// The endpoint to push into, or `None` when there is none, in which case
    /// a push or an end of stream fails without engine interaction.
    pub fn ingestion_endpoint(&self) -> Option<E> {
        let h = self.inner.acquire_read();
        let r = h.borrow().ingestion_endpoint();
        h.release_read();
        r
    }

    /// Non-blocking: the engine asked for data and has not said it has enough.
    pub fn ready(&self) -> bool {
        let h = self.inner.acquire_read();
        let r = h.borrow().ready();
        h.release_read();
        r
    }

    pub fn state(&self) -> PlaybackState {
        let h = self.inner.acquire_read();
        let r = h.borrow().state();
        h.release_read();
        r
    }

    pub fn get_metadata(&self) -> Option<Metadata> {
        let h = self.inner.acquire_read();
        let r = h.borrow().get_metadata();
        h.release_read();
        r
    }

    /// Engine signal: source setup, with the endpoint it created or none.
    /// Returns the stream length to configure on the endpoint, if any.
    pub fn on_source_setup(&self, cycle: u64, endpoint: Option<E>) -> Option<u64> {
        let (mut inner, handle) = self.inner.acquire_write();
        let r = inner.set_app_src(cycle, endpoint);
        handle.release_write(inner);
        r
    }

    /// Engine signal: need-data.
    pub fn on_need_data(&self, cycle: u64) {
        let (mut inner, handle) = self.inner.acquire_write();
        inner.need_data(cycle);
        handle.release_write(inner);
    }

    /// Engine signal: enough-data.
    pub fn on_enough_data(&self, cycle: u64) {
        let (mut inner, handle) = self.inner.acquire_write();
        inner.enough_data(cycle);
        handle.release_write(inner);
    }

    /// Engine signal: fatal error.
    pub fn on_error(&self, cycle: u64) {
        let (mut inner, handle) = self.inner.acquire_write();
        let event = inner.on_error(cycle);
        let bus = inner.snapshot_bus();
        handle.release_write(inner);
        Self::emit(&bus, event);
    }

    /// Engine signal: end of stream.
    pub fn on_end_of_stream(&self, cycle: u64) {
        let h = self.inner.acquire_read();
        let event = h.borrow().on_end_of_stream(cycle);
        let bus = h.borrow().snapshot_bus();
        h.release_read();
        Self::emit(&bus, event);
    }

    /// Engine signal: state changed.
    pub fn on_state_changed(&self, cycle: u64, state: PlaybackState) {
        let h = self.inner.acquire_read();
        let event = h.borrow().on_state_changed(cycle, state);
        let bus = h.borrow().snapshot_bus();
        h.release_read();
        Self::emit(&bus, event);
    }

    /// Engine signal: media info updated.
    pub fn on_media_info_updated(&self, cycle: u64, info: &MediaInfo)
        requires
            codecs_known(info@),
    {
        let (mut inner, handle) = self.inner.acquire_write();
        let event = inner.on_media_info_updated(cycle, info);
        let bus = inner.snapshot_bus();
        handle.release_write(inner);
        Self::emit(&bus, event);
    }

    /// Engine signal: a decoded frame. Renderers receive it, then handlers
    /// receive `FrameUpdated`.
    pub fn on_new_sample(&self, cycle: u64, frame: Frame) {
        let h = self.inner.acquire_read();
        let accepted = h.borrow().accepts(cycle);
        let bus = h.borrow().snapshot_bus();
        h.release_read();
        if accepted {
            let _ = bus.render(frame);
        }
    }
}

} // verus!
