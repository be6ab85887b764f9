use vstd::prelude::*;
use crate::event::{EventHandler, PlayerEvent, PlayerEventView};
use crate::frame::{Frame, FrameRenderer};

verus! {

/// One hand-over of the bus: a frame to a renderer, or an event to a handler.
pub enum Delivery {
    Frame { renderer: int, width: i32, height: i32, data: Seq<u8> },
    Event { handler: int, event: PlayerEventView },
}

/// Deliveries of one event to `n` handlers: handler `i` receives the `i`-th,
/// equal to the event, in registration order.
pub open spec fn fan_out(n: nat, event: PlayerEventView) -> Seq<Delivery> {
    Seq::new(n, |i: int| Delivery::Event { handler: i, event })
}

/// Deliveries of one frame to `m` renderers: renderer `i` receives the
/// `i`-th, with the frame's dimensions and pixels, in registration order.
pub open spec fn frame_fan_out(m: nat, frame: Frame) -> Seq<Delivery> {
    Seq::new(
        m,
        |i: int|
            Delivery::Frame {
                renderer: i,
                width: frame.spec_width(),
                height: frame.spec_height(),
                data: frame.spec_data(),
            },
    )
}

/// Fanning one event out to `n` handlers makes exactly `n` deliveries, the
/// `i`-th to the `i`-th handler registered, each equal to the event.
pub proof fn lemma_fan_out(n: nat, event: PlayerEventView)
    ensures
        fan_out(n, event).len() == n,
        forall|i: int|
            0 <= i < n ==> #[trigger] fan_out(n, event)[i] == (Delivery::Event { handler: i, event }),
{
}

/// Rendering one frame with `m` renderers and `n` handlers makes `m` frame
/// deliveries, the `i`-th to the `i`-th renderer with the frame's dimensions
/// and pixels, and only after all of them `n` `FrameUpdated` deliveries.
pub proof fn lemma_render_order(m: nat, n: nat, frame: Frame)
    ensures
        ({
            let log = frame_fan_out(m, frame) + fan_out(n, PlayerEventView::FrameUpdated);
            &&& log.len() == m + n
            &&& forall|i: int|
                0 <= i < m ==> #[trigger] log[i] == (Delivery::Frame {
                    renderer: i,
                    width: frame.spec_width(),
                    height: frame.spec_height(),
                    data: frame.spec_data(),
                })
            &&& forall|j: int|
                m <= j < m + n ==> #[trigger] log[j] == (Delivery::Event {
                    handler: j - m,
                    event: PlayerEventView::FrameUpdated,
                })
        }),
{
}

/// A renderer registered after `renderers` receives every frame rendered
/// afterwards, after all of those registered before it.
pub proof fn lemma_later_renderer_receives_frames<R>(renderers: Seq<R>, renderer: R, frame: Frame)
    ensures
        ({
            let log = frame_fan_out(renderers.push(renderer).len(), frame);
            &&& log.len() == renderers.len() + 1
            &&& log[renderers.len() as int] == (Delivery::Frame {
                renderer: renderers.len() as int,
                width: frame.spec_width(),
                height: frame.spec_height(),
                data: frame.spec_data(),
            })
        }),
{
}

/// The registered event handlers and frame renderers, in registration order.
pub struct EventBus<S, R> {
    subscribers: Vec<S>,
    renderers: Vec<R>,
}

impl<S: EventHandler + Clone, R: FrameRenderer + Clone> EventBus<S, R> {
    pub closed spec fn subscribers(&self) -> Seq<S> {
        self.subscribers@
    }

    pub closed spec fn renderers(&self) -> Seq<R> {
        self.renderers@
    }

    pub fn new() -> (r: Self)
        ensures
            r.subscribers().len() == 0,
            r.renderers().len() == 0,
    {
        EventBus { subscribers: Vec::new(), renderers: Vec::new() }
    }

    /// Appends a handler; it receives every event emitted from now on.
    pub fn register_event_handler(&mut self, handler: S)
        ensures
            final(self).subscribers() == old(self).subscribers().push(handler),
            final(self).renderers() == old(self).renderers(),
    {
        self.subscribers.push(handler);
    }

    /// Appends a renderer; it receives every frame rendered from now on.
    pub fn register_frame_renderer(&mut self, renderer: R)
        ensures
            final(self).subscribers() == old(self).subscribers(),
            final(self).renderers() == old(self).renderers().push(renderer),
    {
        self.renderers.push(renderer);
    }

    pub fn subscriber_count(&self) -> (r: usize)
        ensures
            r == self.subscribers().len(),
    {
        self.subscribers.len()
    }

    pub fn renderer_count(&self) -> (r: usize)
        ensures
            r == self.renderers().len(),
    {
        self.renderers.len()
    }

    /// A bus holding clones of the same handlers and renderers, so that
    /// delivery can happen without holding the session's lock.
    pub fn snapshot(&self) -> (r: Self)
        ensures
            r.subscribers().len() == self.subscribers().len(),
            r.renderers().len() == self.renderers().len(),
            forall|i: int| 0 <= i < self.subscribers().len() ==> cloned(self.subscribers()[i], #[trigger] r.subscribers()[i]),
            forall|i: int| 0 <= i < self.renderers().len() ==> cloned(self.renderers()[i], #[trigger] r.renderers()[i]),
    {
        EventBus { subscribers: self.subscribers.clone(), renderers: self.renderers.clone() }
    }

    /// Hands one copy of `event` to each handler, in registration order. The
    /// returned log holds the intended deliveries, one entry appended just
    /// before each handler call: handler index and value handed over.
    pub fn notify(&self, event: PlayerEvent) -> (deliveries: Ghost<Seq<Delivery>>)
        ensures
            deliveries@ == fan_out(self.subscribers().len(), event@),
    {
        let ghost mut log: Seq<Delivery> = Seq::empty();
        let mut i: usize = 0;
        while i < self.subscribers.len()
            invariant
                i <= self.subscribers@.len(),
                log == fan_out(i as nat, event@),
            decreases self.subscribers@.len() - i,
        {
            let copy = event.duplicate();
            proof {
                log = log.push(Delivery::Event { handler: i as int, event: copy@ });
            }
            self.subscribers[i].handle_event(copy);
            i = i + 1;
            assert(log =~= fan_out(i as nat, event@));
        }
        Ghost(log)
    }

    /// Hands the frame to each renderer in registration order, then emits
    /// `FrameUpdated` to every handler. The returned log holds the intended
    /// deliveries in the order of the calls: each renderer's frame (its
    /// dimensions and pixels), then the handlers' events.
    pub fn render(&self, frame: Frame) -> (deliveries: Ghost<Seq<Delivery>>)
        ensures
            deliveries@ == frame_fan_out(self.renderers().len(), frame) + fan_out(
                self.subscribers().len(),
                PlayerEventView::FrameUpdated,
            ),
    {
        let ghost mut log: Seq<Delivery> = Seq::empty();
        let mut i: usize = 0;
        while i < self.renderers.len()
            invariant
                i <= self.renderers@.len(),
                log == frame_fan_out(i as nat, frame),
            decreases self.renderers@.len() - i,
        {
            let copy = frame.duplicate();
            proof {
                log = log.push(
                    Delivery::Frame {
                        renderer: i as int,
                        width: copy.spec_width(),
                        height: copy.spec_height(),
                        data: copy.spec_data(),
                    },
                );
            }
            self.renderers[i].render(copy);
            i = i + 1;
            assert(log =~= frame_fan_out(i as nat, frame));
        }
        let events = self.notify(PlayerEvent::FrameUpdated);
        Ghost(log + events@)
    }
}

} // verus!
