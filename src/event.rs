use vstd::prelude::*;
use crate::metadata::{Metadata, MetadataView};

verus! {

/// Playback state of a session.
#[derive(Clone, Copy, Debug, PartialEq, Eq, Structural)]
pub enum PlaybackState {
    Stopped,
    Paused,
    Playing,
}

/// A notification delivered to every registered event handler.
#[derive(Debug)]
pub enum PlayerEvent {
    EndOfStream,
    MetadataUpdated(Metadata),
    StateChanged(PlaybackState),
    FrameUpdated,
    Error,
}

pub enum PlayerEventView {
    EndOfStream,
    MetadataUpdated(MetadataView),
    StateChanged(PlaybackState),
    FrameUpdated,
    Error,
}

impl View for PlayerEvent {
    type V = PlayerEventView;

    open spec fn view(&self) -> PlayerEventView {
        match self {
            PlayerEvent::EndOfStream => PlayerEventView::EndOfStream,
            PlayerEvent::MetadataUpdated(m) => PlayerEventView::MetadataUpdated(m@),
            PlayerEvent::StateChanged(s) => PlayerEventView::StateChanged(*s),
            PlayerEvent::FrameUpdated => PlayerEventView::FrameUpdated,
            PlayerEvent::Error => PlayerEventView::Error,
        }
    }
}

pub open spec fn opt_event_view(e: Option<PlayerEvent>) -> Option<PlayerEventView> {
    match e {
        Some(ev) => Some(ev@),
        None => None,
    }
}

impl PlayerEvent {
    /// A copy with the same contents, for delivery to one more handler.
    pub fn duplicate(&self) -> (r: PlayerEvent)
        ensures
            r@ == self@,
    {
        match self {
            PlayerEvent::EndOfStream => PlayerEvent::EndOfStream,
            PlayerEvent::MetadataUpdated(m) => PlayerEvent::MetadataUpdated(m.duplicate()),
            PlayerEvent::StateChanged(s) => PlayerEvent::StateChanged(*s),
            PlayerEvent::FrameUpdated => PlayerEvent::FrameUpdated,
            PlayerEvent::Error => PlayerEvent::Error,
        }
    }
}

/// A subscriber to session events: an in-process callback, or a bridge to a
/// channel that crosses a thread or process boundary.
pub trait EventHandler: Send + Sync + 'static {
    fn handle_event(&self, event: PlayerEvent);
}

} // verus!
