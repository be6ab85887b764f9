use vstd::prelude::*;
use vstd::string::*;

verus! {

/// Duration value that the engine uses for "unknown".
pub const UNKNOWN_DURATION: u64 = 0xffff_ffff_ffff_ffff;

/// One entry of an engine descriptor's stream list.
pub struct StreamInfo {
    /// Type tag of the stream ("audio", "video", ...), if the engine gave one.
    pub stream_type: Option<String>,
    /// Codec identifier, if the engine gave one.
    pub codec: Option<String>,
}

/// Dimensions of one video stream of an engine descriptor.
#[derive(Clone, Copy, Debug, PartialEq, Eq, Structural)]
pub struct VideoStreamInfo {
    pub width: i32,
    pub height: i32,
}

/// The engine's raw descriptor of the media being played, as plain values.
pub struct MediaInfo {
    /// Duration in nanoseconds; `UNKNOWN_DURATION` when unknown.
    pub duration: u64,
    pub container_format: Option<String>,
    pub streams: Vec<StreamInfo>,
    pub video_streams: Vec<VideoStreamInfo>,
}

pub struct StreamInfoView {
    pub stream_type: Option<Seq<char>>,
    pub codec: Option<Seq<char>>,
}

pub struct MediaInfoView {
    pub duration: u64,
    pub container_format: Option<Seq<char>>,
    pub streams: Seq<StreamInfoView>,
    pub video_streams: Seq<VideoStreamInfo>,
}

pub open spec fn opt_str_view(s: Option<String>) -> Option<Seq<char>> {
    match s {
        Some(t) => Some(t@),
        None => None,
    }
}

impl View for StreamInfo {
    type V = StreamInfoView;

    open spec fn view(&self) -> StreamInfoView {
        StreamInfoView { stream_type: opt_str_view(self.stream_type), codec: opt_str_view(self.codec) }
    }
}

impl View for MediaInfo {
    type V = MediaInfoView;

    open spec fn view(&self) -> MediaInfoView {
        MediaInfoView {
            duration: self.duration,
            container_format: opt_str_view(self.container_format),
            streams: self.streams@.map_values(|s: StreamInfo| s@),
            video_streams: self.video_streams@,
        }
    }
}

pub open spec fn audio_tag() -> Seq<char> {
    "audio"@
}

pub open spec fn video_tag() -> Seq<char> {
    "video"@
}

/// A stream whose tag is `kind`.
pub open spec fn is_of_kind(s: StreamInfoView, kind: Seq<char>) -> bool {
    s.stream_type == Some(kind)
}

/// Every audio or video stream of the descriptor names its codec.
pub open spec fn codecs_known(info: MediaInfoView) -> bool {
    forall|i: int|
        0 <= i < info.streams.len() && (is_of_kind(#[trigger] info.streams[i], audio_tag())
            || is_of_kind(info.streams[i], video_tag())) ==> info.streams[i].codec is Some
}

/// Codec identifiers of the streams tagged `kind`, in stream-list order.
pub open spec fn codecs_of_kind(streams: Seq<StreamInfoView>, kind: Seq<char>) -> Seq<Seq<char>>
    decreases streams.len(),
{
    if streams.len() == 0 {
        Seq::empty()
    } else {
        let rest = codecs_of_kind(streams.drop_last(), kind);
        let s = streams.last();
        if is_of_kind(s, kind) {
            rest.push(s.codec.unwrap())
        } else {
            rest
        }
    }
}

/// A stream list with no stream tagged `kind` yields no codec of that kind.
pub proof fn lemma_no_stream_of_kind(streams: Seq<StreamInfoView>, kind: Seq<char>)
    requires
        forall|i: int| 0 <= i < streams.len() ==> !is_of_kind(#[trigger] streams[i], kind),
    ensures
        codecs_of_kind(streams, kind).len() == 0,
    decreases streams.len(),
{
    if streams.len() > 0 {
        let rest = streams.drop_last();
        assert forall|i: int| 0 <= i < rest.len() implies !is_of_kind(#[trigger] rest[i], kind) by {
            assert(rest[i] == streams[i]);
        }
        lemma_no_stream_of_kind(rest, kind);
        assert(!is_of_kind(streams[streams.len() - 1], kind));
    }
}

/// A descriptor without video streams, none of its streams tagged video,
/// gives zero width and height and an empty list of video tracks.
pub proof fn lemma_no_video(info: MediaInfoView)
    requires
        info.video_streams.len() == 0,
        forall|i: int| 0 <= i < info.streams.len() ==> !is_of_kind(#[trigger] info.streams[i], video_tag()),
    ensures
        spec_metadata(info).width == 0,
        spec_metadata(info).height == 0,
        spec_metadata(info).video_tracks.len() == 0,
{
    lemma_no_stream_of_kind(info.streams, video_tag());
}

/// A duration in nanoseconds as whole hours, minutes of the hour and seconds
/// of the minute, for display.
pub fn clock_parts(nanos: u64) -> (r: (u64, u64, u64))
    ensures
        r.0 == nanos / 1_000_000_000 / 60 / 60,
        r.1 == nanos / 1_000_000_000 / 60 % 60,
        r.2 == nanos / 1_000_000_000 % 60,
{
    let seconds: u64 = nanos / 1_000_000_000;
    let minutes: u64 = seconds / 60;
    let hours: u64 = minutes / 60;
    (hours, minutes % 60, seconds % 60)
}

/// Normalized track and duration description of the media.
#[derive(Debug)]
pub struct Metadata {
    /// Duration in nanoseconds, `None` when unknown.
    pub duration: Option<u64>,
    pub width: u32,
    pub height: u32,
    pub format: String,
    pub video_tracks: Vec<String>,
    pub audio_tracks: Vec<String>,
}

pub struct MetadataView {
    pub duration: Option<u64>,
    pub width: u32,
    pub height: u32,
    pub format: Seq<char>,
    pub video_tracks: Seq<Seq<char>>,
    pub audio_tracks: Seq<Seq<char>>,
}

pub open spec fn strs_view(v: Seq<String>) -> Seq<Seq<char>> {
    v.map_values(|s: String| s@)
}

impl View for Metadata {
    type V = MetadataView;

    open spec fn view(&self) -> MetadataView {
        MetadataView {
            duration: self.duration,
            width: self.width,
            height: self.height,
            format: self.format@,
            video_tracks: strs_view(self.video_tracks@),
            audio_tracks: strs_view(self.audio_tracks@),
        }
    }
}

/// What the tracker extracts from a descriptor.
pub open spec fn spec_metadata(info: MediaInfoView) -> MetadataView {
    let has_video = info.video_streams.len() > 0;
    MetadataView {
        duration: if info.duration == UNKNOWN_DURATION { None } else { Some(info.duration) },
        width: if has_video { #[verifier::truncate] (info.video_streams[0].width as u32) } else { 0 },
        height: if has_video { #[verifier::truncate] (info.video_streams[0].height as u32) } else { 0 },
        format: match info.container_format {
            Some(f) => f,
            None => Seq::empty(),
        },
        video_tracks: codecs_of_kind(info.streams, video_tag()),
        audio_tracks: codecs_of_kind(info.streams, audio_tag()),
    }
}

fn copy_string_list(v: &Vec<String>) -> (r: Vec<String>)
    ensures
        strs_view(r@) == strs_view(v@),
{
    let mut r: Vec<String> = Vec::new();
    let mut i: usize = 0;
    while i < v.len()
        invariant
            i <= v@.len(),
            r@.len() == i,
            forall|j: int| 0 <= j < i ==> r@[j]@ == v@[j]@,
        decreases v@.len() - i,
    {
        r.push(v[i].clone());
        i = i + 1;
    }
    assert(strs_view(r@) =~= strs_view(v@));
    r
}

fn string_lists_equal(a: &Vec<String>, b: &Vec<String>) -> (r: bool)
    ensures
        r == (strs_view(a@) == strs_view(b@)),
{
    if a.len() != b.len() {
        assert(strs_view(a@).len() != strs_view(b@).len());
        return false;
    }
    let mut i: usize = 0;
    while i < a.len()
        invariant
            i <= a@.len(),
            a@.len() == b@.len(),
            forall|j: int| 0 <= j < i ==> a@[j]@ == b@[j]@,
        decreases a@.len() - i,
    {
        if a[i] != b[i] {
            assert(strs_view(a@)[i as int] != strs_view(b@)[i as int]);
            return false;
        }
        i = i + 1;
    }
    assert(strs_view(a@) =~= strs_view(b@));
    true
}

impl Metadata {
    /// A copy with the same contents.
    pub fn duplicate(&self) -> (r: Metadata)
        ensures
            r@ == self@,
    {
        Metadata {
            duration: self.duration,
            width: self.width,
            height: self.height,
            format: self.format.clone(),
            video_tracks: copy_string_list(&self.video_tracks),
            audio_tracks: copy_string_list(&self.audio_tracks),
        }
    }
}

impl PartialEq for Metadata {
    fn eq(&self, o: &Metadata) -> (r: bool) {
        self.duration == o.duration && self.width == o.width && self.height == o.height
            && self.format == o.format && string_lists_equal(&self.video_tracks, &o.video_tracks)
            && string_lists_equal(&self.audio_tracks, &o.audio_tracks)
    }
}

impl vstd::std_specs::cmp::PartialEqSpecImpl for Metadata {
    open spec fn obeys_eq_spec() -> bool {
        true
    }

    open spec fn eq_spec(&self, o: &Metadata) -> bool {
        self@ == o@
    }
}

impl Eq for Metadata {

}

impl MediaInfo {
    /// Whether every audio or video stream names its codec, as
    /// `media_info_to_metadata` requires.
    pub fn has_known_codecs(&self) -> (r: bool)
        ensures
            r == codecs_known(self@),
    {
        let audio = String::from_str("audio");
        let video = String::from_str("video");
        let mut i: usize = 0;
        while i < self.streams.len()
            invariant
                i <= self.streams@.len(),
                audio@ == audio_tag(),
                video@ == video_tag(),
                forall|j: int|
                    0 <= j < i && (is_of_kind(#[trigger] self.streams@[j]@, audio_tag())
                        || is_of_kind(self.streams@[j]@, video_tag())) ==> self.streams@[j]@.codec is Some,
            decreases self.streams@.len() - i,
        {
            let s = &self.streams[i];
            let tagged = match &s.stream_type {
                Some(t) => t.eq(&audio) || t.eq(&video),
                None => false,
            };
            if tagged && s.codec.is_none() {
                assert(self@.streams[i as int] == s@);
                return false;
            }
            i = i + 1;
        }
        assert forall|j: int|
            0 <= j < self@.streams.len() && (is_of_kind(#[trigger] self@.streams[j], audio_tag())
                || is_of_kind(self@.streams[j], video_tag())) implies self@.streams[j].codec is Some by {
            assert(self@.streams[j] == self.streams@[j]@);
        }
        true
    }
}

fn codecs_of(streams: &Vec<StreamInfo>, kind: &String) -> (r: Vec<String>)
    requires
        forall|i: int|
            0 <= i < streams@.len() && is_of_kind(#[trigger] streams@[i]@, kind@)
                ==> streams@[i]@.codec is Some,
    ensures
        strs_view(r@) == codecs_of_kind(streams@.map_values(|s: StreamInfo| s@), kind@),
{
    let ghost all = streams@.map_values(|s: StreamInfo| s@);
    let mut r: Vec<String> = Vec::new();
    let mut i: usize = 0;
    while i < streams.len()
        invariant
            i <= streams@.len(),
            all == streams@.map_values(|s: StreamInfo| s@),
            forall|j: int|
                0 <= j < streams@.len() && is_of_kind(#[trigger] streams@[j]@, kind@)
                    ==> streams@[j]@.codec is Some,
            strs_view(r@) == codecs_of_kind(all.subrange(0, i as int), kind@),
        decreases streams@.len() - i,
    {
        let s = &streams[i];
        assert(all.subrange(0, i + 1).drop_last() =~= all.subrange(0, i as int));
        assert(all.subrange(0, i + 1).last() == s@);
        match &s.stream_type {
            Some(t) => {
                if t.eq(kind) {
                    match &s.codec {
                        Some(c) => {
                            r.push(c.clone());
                        },
                        None => {
                            assert(is_of_kind(streams@[i as int]@, kind@));
                        },
                    }
                }
            },
            None => {},
        }
        assert(strs_view(r@) =~= codecs_of_kind(all.subrange(0, i + 1), kind@));
        i = i + 1;
    }
    assert(all.subrange(0, streams@.len() as int) =~= all);
    r
}

/// Extracts the normalized metadata from an engine descriptor: an unknown
/// duration becomes `None`, a missing container format the empty string, the
/// audio and video codec lists follow the stream list's tags, and width and
/// height come from the first video stream (zero without one).
pub fn media_info_to_metadata(media_info: &MediaInfo) -> (r: Metadata)
    requires
        codecs_known(media_info@),
    ensures
        r@ == spec_metadata(media_info@),
{
    let duration = if media_info.duration != UNKNOWN_DURATION {
        Some(media_info.duration)
    } else {
        None
    };
    let format = match &media_info.container_format {
        Some(f) => f.clone(),
        None => String::new(),
    };
    let audio = String::from_str("audio");
    let video = String::from_str("video");
    assert forall|i: int|
        0 <= i < media_info.streams@.len() && (is_of_kind(#[trigger] media_info.streams@[i]@, audio@)
            || is_of_kind(media_info.streams@[i]@, video@)) implies media_info.streams@[i]@.codec is Some by {
        assert(media_info@.streams[i] == media_info.streams@[i]@);
    }
    let audio_tracks = codecs_of(&media_info.streams, &audio);
    let video_tracks = codecs_of(&media_info.streams, &video);
    let mut width: u32 = 0;
    let mut height: u32 = 0;
    if media_info.video_streams.len() > 0 {
        let first = &media_info.video_streams[0];
        width = #[verifier::truncate] (first.width as u32);
        height = #[verifier::truncate] (first.height as u32);
    }
    Metadata { duration, width, height, format, video_tracks, audio_tracks }
}

} // verus!
