use std::sync::{Arc, Mutex};

use playground::bus::EventBus;
use playground::event::{EventHandler, PlaybackState, PlayerEvent};
use playground::frame::{Frame, FrameRenderer};
use playground::metadata::{MediaInfo, Metadata, StreamInfo, VideoStreamInfo};
use playground::player::Player;

/// Records each delivery with the index of the handler that received it.
#[derive(Clone)]
struct Recorder {
    id: usize,
    log: Arc<Mutex<Vec<(usize, PlayerEvent)>>>,
}

impl EventHandler for Recorder {
    fn handle_event(&self, event: PlayerEvent) {
        self.log.lock().unwrap().push((self.id, event));
    }
}

/// Records each frame it receives: renderer index, dimensions and pixels.
#[derive(Clone)]
struct Canvas {
    log: Arc<Mutex<Vec<(usize, i32, i32, Vec<u8>)>>>,
    id: usize,
}

impl FrameRenderer for Canvas {
    fn render(&self, frame: Frame) {
        let pixels = frame.get_data().to_vec();
        self.log.lock().unwrap().push((self.id, frame.get_width(), frame.get_height(), pixels));
    }
}

/// Stands for an engine's ingestion endpoint: it records what is pushed.
#[derive(Clone)]
struct Sink(Arc<Mutex<Vec<Vec<u8>>>>);

type Session = Player<Recorder, Canvas, Sink>;

fn sink() -> Sink {
    Sink(Arc::new(Mutex::new(Vec::new())))
}

fn movie_descriptor() -> MediaInfo {
    MediaInfo {
        duration: 125_000_000_000,
        container_format: Some("mp4".to_string()),
        streams: vec![
            StreamInfo { stream_type: Some("video".to_string()), codec: Some("h264".to_string()) },
            StreamInfo { stream_type: Some("audio".to_string()), codec: Some("aac".to_string()) },
        ],
        video_streams: vec![VideoStreamInfo { width: 1920, height: 1080 }],
    }
}

fn push(p: &Session, chunk: Vec<u8>) -> bool {
    match p.ingestion_endpoint() {
        Some(s) => {
            s.0.lock().unwrap().push(chunk);
            true
        }
        None => false,
    }
}

#[test]
fn push_before_start_fails() {
    let p = Session::new();
    assert!(!push(&p, vec![1, 2, 3]));
    assert!(!p.ready());
    assert_eq!(p.state(), PlaybackState::Stopped);
    assert_eq!(p.start_outcome(), None);
}

#[test]
fn startup_failure_propagates() {
    let p = Session::new();
    let c = p.start().unwrap();
    assert_eq!(p.start_outcome(), None);
    p.on_error(c);
    assert_eq!(p.start_outcome(), Some(false));
    assert_eq!(p.on_source_setup(c, Some(sink())), None);
    assert!(!push(&p, vec![1]));
}

#[test]
fn handshake_then_push() {
    let p = Session::new();
    p.set_input_size(10);
    let c = p.start().unwrap();
    let s = sink();
    assert_eq!(p.on_source_setup(c, Some(s.clone())), Some(10));
    assert_eq!(p.start_outcome(), Some(true));
    assert_eq!(p.state(), PlaybackState::Paused);
    assert!(!p.ready());
    p.on_need_data(c);
    assert!(p.ready());
    assert!(push(&p, vec![1, 2]));
    assert_eq!(*s.0.lock().unwrap(), vec![vec![1u8, 2]]);
    p.on_enough_data(c);
    assert!(!p.ready());
    p.play();
    assert_eq!(p.state(), PlaybackState::Playing);
}

#[test]
fn metadata_fans_out_to_every_handler_in_order() {
    let log = Arc::new(Mutex::new(Vec::new()));
    let p = Session::new();
    for id in 0..3 {
        p.register_event_handler(Recorder { id, log: log.clone() });
    }
    let c = p.start().unwrap();
    p.on_source_setup(c, Some(sink()));
    p.on_media_info_updated(c, &movie_descriptor());
    p.on_media_info_updated(c, &movie_descriptor());
    let expected = Metadata {
        duration: Some(125_000_000_000),
        width: 1920,
        height: 1080,
        format: "mp4".to_string(),
        video_tracks: vec!["h264".to_string()],
        audio_tracks: vec!["aac".to_string()],
    };
    let got = log.lock().unwrap();
    assert_eq!(got.len(), 3);
    for (i, (id, event)) in got.iter().enumerate() {
        assert_eq!(*id, i);
        match event {
            PlayerEvent::MetadataUpdated(m) => assert!(*m == expected),
            _ => panic!("unexpected event"),
        }
    }
    assert!(p.get_metadata().unwrap() == expected);
}

#[test]
fn handlers_registered_later_miss_earlier_events() {
    let log = Arc::new(Mutex::new(Vec::new()));
    let p = Session::new();
    p.register_event_handler(Recorder { id: 0, log: log.clone() });
    let c = p.start().unwrap();
    p.on_source_setup(c, Some(sink()));
    p.on_state_changed(c, PlaybackState::Paused);
    p.register_event_handler(Recorder { id: 1, log: log.clone() });
    p.on_end_of_stream(c);
    let got = log.lock().unwrap();
    assert_eq!(got.len(), 3);
    assert!(matches!(got[0], (0, PlayerEvent::StateChanged(PlaybackState::Paused))));
    assert!(matches!(got[1], (0, PlayerEvent::EndOfStream)));
    assert!(matches!(got[2], (1, PlayerEvent::EndOfStream)));
}

#[test]
fn error_event_reaches_handlers() {
    let log = Arc::new(Mutex::new(Vec::new()));
    let p = Session::new();
    p.register_event_handler(Recorder { id: 0, log: log.clone() });
    let c = p.start().unwrap();
    p.on_source_setup(c, Some(sink()));
    p.play();
    p.on_error(c);
    assert_eq!(p.state(), PlaybackState::Stopped);
    let got = log.lock().unwrap();
    assert_eq!(got.len(), 1);
    assert!(matches!(got[0], (0, PlayerEvent::Error)));
}

#[test]
fn frames_go_to_renderers_then_handlers() {
    let events = Arc::new(Mutex::new(Vec::new()));
    let frames = Arc::new(Mutex::new(Vec::new()));
    let p = Session::new();
    p.register_event_handler(Recorder { id: 0, log: events.clone() });
    p.register_frame_renderer(Canvas { id: 0, log: frames.clone() });
    p.register_frame_renderer(Canvas { id: 1, log: frames.clone() });
    let c = p.start().unwrap();
    p.on_source_setup(c, Some(sink()));
    let pixels: Vec<u8> = (0..8).collect();
    p.on_new_sample(c, Frame::new(2, 1, pixels.clone()));
    p.on_new_sample(c + 1, Frame::new(2, 1, vec![9; 8]));
    assert_eq!(*frames.lock().unwrap(), vec![(0, 2, 1, pixels.clone()), (1, 2, 1, pixels.clone())]);
    let got = events.lock().unwrap();
    assert_eq!(got.len(), 1);
    assert!(matches!(got[0], (0, PlayerEvent::FrameUpdated)));
}

/// Stops the session from inside a handler: the lock is not held while
/// handlers run.
#[derive(Clone)]
struct Stopper(Arc<Mutex<Option<Player<Stopper, Canvas, Sink>>>>);

impl EventHandler for Stopper {
    fn handle_event(&self, event: PlayerEvent) {
        if let PlayerEvent::EndOfStream = event {
            if let Some(p) = self.0.lock().unwrap().as_ref() {
                p.stop();
            }
        }
    }
}

#[test]
fn handler_may_stop_session() {
    let slot: Arc<Mutex<Option<Player<Stopper, Canvas, Sink>>>> = Arc::new(Mutex::new(None));
    let p: Player<Stopper, Canvas, Sink> = Player::new();
    p.register_event_handler(Stopper(slot.clone()));
    *slot.lock().unwrap() = Some(p.clone());
    let c = p.start().unwrap();
    p.on_source_setup(c, Some(sink()));
    p.play();
    p.on_end_of_stream(c);
    assert_eq!(p.state(), PlaybackState::Stopped);
    assert!(p.ingestion_endpoint().is_none());
    slot.lock().unwrap().take();
}

#[test]
fn stop_between_pushes_leaves_session_stopped() {
    let p = Session::new();
    let c = p.start().unwrap();
    p.on_source_setup(c, Some(sink()));
    p.play();
    let pusher = p.clone();
    assert!(push(&pusher, vec![0; 64]));
    p.stop();
    assert!(!push(&pusher, vec![0; 64]));
    assert_eq!(p.state(), PlaybackState::Stopped);
    assert!(p.ingestion_endpoint().is_none());
    p.on_source_setup(c, Some(sink()));
    p.on_need_data(c);
    p.on_media_info_updated(c, &movie_descriptor());
    assert!(p.ingestion_endpoint().is_none());
    assert!(!p.ready());
    assert!(p.get_metadata().is_none());
    assert_eq!(p.state(), PlaybackState::Stopped);
    assert!(!p.stop());
}

#[test]
fn reusable_player_restarts() {
    let p = Session::new_reusable();
    let c = p.start().unwrap();
    p.on_source_setup(c, Some(sink()));
    p.stop();
    let d = p.start().unwrap();
    assert_ne!(c, d);
    assert_eq!(p.start_outcome(), None);
    p.on_error(d);
    assert_eq!(p.start_outcome(), Some(false));
}

/// Notes in one shared journal when it renders and when it is notified.
#[derive(Clone)]
struct Journal(Arc<Mutex<Vec<String>>>, usize);

impl FrameRenderer for Journal {
    fn render(&self, frame: Frame) {
        self.0.lock().unwrap().push(format!("render {} {}x{}", self.1, frame.get_width(), frame.get_height()));
    }
}

impl EventHandler for Journal {
    fn handle_event(&self, event: PlayerEvent) {
        if let PlayerEvent::FrameUpdated = event {
            self.0.lock().unwrap().push(format!("updated {}", self.1));
        }
    }
}

#[test]
fn renderers_run_before_frame_updates() {
    let journal = Arc::new(Mutex::new(Vec::new()));
    let p: Player<Journal, Journal, Sink> = Player::new();
    p.register_frame_renderer(Journal(journal.clone(), 0));
    p.register_event_handler(Journal(journal.clone(), 0));
    p.register_event_handler(Journal(journal.clone(), 1));
    let c = p.start().unwrap();
    p.on_source_setup(c, Some(sink()));
    p.on_new_sample(c, Frame::new(4, 2, vec![0; 32]));
    p.register_frame_renderer(Journal(journal.clone(), 1));
    p.on_new_sample(c, Frame::new(1, 1, vec![0; 4]));
    let got = journal.lock().unwrap().clone();
    let expected = vec![
        "render 0 4x2", "updated 0", "updated 1",
        "render 0 1x1", "render 1 1x1", "updated 0", "updated 1",
    ];
    assert_eq!(got, expected);
}

#[test]
fn bus_snapshot_keeps_handlers() {
    let log = Arc::new(Mutex::new(Vec::new()));
    let mut bus: EventBus<Recorder, Canvas> = EventBus::new();
    bus.register_event_handler(Recorder { id: 0, log: log.clone() });
    bus.register_event_handler(Recorder { id: 1, log: log.clone() });
    let copy = bus.snapshot();
    assert_eq!(copy.subscriber_count(), 2);
    assert_eq!(copy.renderer_count(), 0);
    let _ = copy.notify(PlayerEvent::FrameUpdated);
    let got = log.lock().unwrap();
    assert!(matches!(got[0], (0, PlayerEvent::FrameUpdated)));
    assert!(matches!(got[1], (1, PlayerEvent::FrameUpdated)));
}
