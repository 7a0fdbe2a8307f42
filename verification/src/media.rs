use vstd::prelude::*;

use crate::application::{runtime_registered_one, Runtime};
use crate::registration::registered_fire_and_forget;
use crate::callback::{AsCallback, CallbackId, CallbackNoResult};
use crate::error::Error;
use crate::options::{pushed_text, Options, Value};
use crate::payload::{FromPayload, Payload};

verus! {

/// Which category of media tracks an operation applies to.
#[derive(Clone, Copy, PartialEq, Eq, Structural, Debug)]
pub enum MediaStreamTrackKind {
    Video,
    Audio,
    All,
}

impl MediaStreamTrackKind {
    /// The display name of the category.
    pub fn to_string(&self) -> (r: String)
        ensures
            *self == MediaStreamTrackKind::Video ==> r@ == "Video"@,
            *self == MediaStreamTrackKind::Audio ==> r@ == "Audio"@,
            *self == MediaStreamTrackKind::All ==> r@ == "All"@,
    {
        match self {
            MediaStreamTrackKind::Video => "Video".to_owned(),
            MediaStreamTrackKind::Audio => "Audio".to_owned(),
            MediaStreamTrackKind::All => "All".to_owned(),
        }
    }
}

/// One live track of a media stream, reduced to what the track controller
/// reads: the kind the host reports for it, and whether it has been stopped.
///
/// `kind` is `None` for an entry whose kind cannot be resolved at all (the
/// host handed back something that is not a track); such entries are never
/// selected and never stopped.
#[derive(Clone, PartialEq, Eq, Debug)]
pub struct MediaStreamTrack {
    pub kind: Option<String>,
    pub stopped: bool,
}

impl MediaStreamTrack {
    /// A live track whose host-reported kind is `kind`.
    pub fn new(kind: &str) -> (r: Self)
        ensures
            r.kind matches Some(k) && k@ == kind@,
            !r.stopped,
    {
        MediaStreamTrack { kind: Some(kind.to_owned()), stopped: false }
    }

    /// An entry whose kind cannot be resolved; the controller skips it.
    pub fn unresolved() -> (r: Self)
        ensures
            r.kind is None,
            !r.stopped,
    {
        MediaStreamTrack { kind: None, stopped: false }
    }
}

/// A live media stream: the ordered collection of its tracks.
#[derive(Clone, PartialEq, Eq, Debug)]
pub struct MediaStream {
    pub tracks: Vec<MediaStreamTrack>,
}

/// Whether a stop request for `kind` selects `track`: every resolved track
/// when all tracks are requested, otherwise exactly the resolved tracks whose
/// reported kind is the requested one.
pub open spec fn selects(kind: MediaStreamTrackKind, track: MediaStreamTrack) -> bool {
    match track.kind {
        Option::None => false,
        Option::Some(k) => kind is All || (kind is Video && k@ == "video"@) || (kind is Audio
            && k@ == "audio"@),
    }
}

/// `track` after a stop request for `kind`: stopped if it was selected or
/// already stopped, untouched otherwise.
pub open spec fn stopped_track(
    kind: MediaStreamTrackKind,
    track: MediaStreamTrack,
) -> MediaStreamTrack {
    MediaStreamTrack { kind: track.kind, stopped: track.stopped || selects(kind, track) }
}

/// The track list after a stop request for `kind` was applied to every track.
pub open spec fn stopped_tracks(
    kind: MediaStreamTrackKind,
    tracks: Seq<MediaStreamTrack>,
) -> Seq<MediaStreamTrack> {
    tracks.map(|i: int, t: MediaStreamTrack| stopped_track(kind, t))
}

/// What stopping does, track by track: a track is stopped afterwards exactly
/// when it was stopped before or the request selects it, and nothing else
/// about it changes.
pub proof fn lemma_stop_exact(kind: MediaStreamTrackKind, tracks: Seq<MediaStreamTrack>)
    ensures
        stopped_tracks(kind, tracks).len() == tracks.len(),
        forall|i: int|
            0 <= i < tracks.len() ==> #[trigger] stopped_tracks(kind, tracks)[i]
                == (MediaStreamTrack {
                kind: tracks[i].kind,
                stopped: tracks[i].stopped || selects(kind, tracks[i]),
            }),
{
}

/// The track filter is idempotent: stopping the tracks a request selects a
/// second time changes nothing more.
pub proof fn lemma_stop_idempotent(kind: MediaStreamTrackKind, tracks: Seq<MediaStreamTrack>)
    ensures
        stopped_tracks(kind, stopped_tracks(kind, tracks)) == stopped_tracks(kind, tracks),
{
    let once = stopped_tracks(kind, tracks);
    assert forall|i: int| 0 <= i < tracks.len() implies #[trigger] stopped_tracks(kind, once)[i]
        == once[i] by {
        assert(selects(kind, once[i]) == selects(kind, tracks[i]));
    }
    assert(stopped_tracks(kind, once) =~= once);
}

/// Whether a stop request for `kind` selects `track`.
pub fn track_selected(kind: &MediaStreamTrackKind, track: &MediaStreamTrack) -> (r: bool)
    ensures
        r == selects(*kind, *track),
{
    match &track.kind {
        Option::None => false,
        Option::Some(k) => match kind {
            MediaStreamTrackKind::All => true,
            MediaStreamTrackKind::Video => {
                let v = "video".to_owned();
                *k == v
            },
            MediaStreamTrackKind::Audio => {
                let a = "audio".to_owned();
                *k == a
            },
        },
    }
}

impl MediaStream {
    /// A stream over the given tracks.
    pub fn new(tracks: Vec<MediaStreamTrack>) -> (r: Self)
        ensures
            r.tracks == tracks,
    {
        MediaStream { tracks }
    }

    /// Stops every track that a request for `kind` selects and leaves the
    /// others untouched. Stopping an already-stopped track is a no-op.
    pub fn stop_tracks(&mut self, kind: &MediaStreamTrackKind)
        ensures
            final(self).tracks@ == stopped_tracks(*kind, old(self).tracks@),
    {
        let n = self.tracks.len();
        let mut i: usize = 0;
        while i < n
            invariant
                n == self.tracks.len(),
                0 <= i <= n,
                forall|j: int|
                    0 <= j < i ==> self.tracks@[j] == stopped_track(*kind, old(self).tracks@[j]),
                forall|j: int| i <= j < n ==> self.tracks@[j] == old(self).tracks@[j],
            decreases n - i,
        {
            if track_selected(kind, &self.tracks[i]) {
                let track = &mut self.tracks[i];
                track.stopped = true;
            }
            i += 1;
        }
        assert(self.tracks@ =~= stopped_tracks(*kind, old(self).tracks@));
    }
}

/// The video constraints of a capture request: an options bag of the
/// constraint keys the host understands.
#[derive(PartialEq, Eq, Debug)]
pub struct VideoConstraints {
    pub options: Options,
}

impl VideoConstraints {
    /// No constraints.
    pub fn new() -> (r: Self)
        ensures
            r.options@ == Seq::<(Seq<char>, Value)>::empty(),
    {
        VideoConstraints { options: Options::new() }
    }

    /// Requests capture of the desktop source with this identifier.
    pub fn source_id(self, source_id: &str) -> (r: Self)
        ensures
            r.options@.len() == self.options@.len() + 2,
            (forall|i: int| 0 <= i < self.options@.len() ==> r.options@[i] == self.options@[i]),
            r.options@[self.options@.len() as int].0 == "mandatory.chromeMediaSource"@,
            (r.options@[self.options@.len() as int].1 matches Value::Text(s) && s@ == "desktop"@),
            r.options@.last().0 == "mandatory.chromeMediaSourceId"@,
            (r.options@.last().1 matches Value::Text(s) && s@ == source_id@),
    {
        let options = self.options.set(
            "mandatory.chromeMediaSource",
            Value::Text("desktop".to_owned()),
        ).set("mandatory.chromeMediaSourceId", Value::Text(source_id.to_owned()));
        VideoConstraints { options }
    }

    /// The largest acceptable frame width, in pixels.
    pub fn max_width(self, max_width: u32) -> (r: Self)
        ensures
            r.options@ == self.options@.push(("mandatory.maxWidth"@, Value::U32(max_width))),
    {
        VideoConstraints { options: self.options.set("mandatory.maxWidth", Value::U32(max_width)) }
    }

    /// The largest acceptable frame height, in pixels.
    pub fn max_height(self, max_height: u32) -> (r: Self)
        ensures
            r.options@ == self.options@.push(("mandatory.maxHeight"@, Value::U32(max_height))),
    {
        VideoConstraints {
            options: self.options.set("mandatory.maxHeight", Value::U32(max_height)),
        }
    }

    /// A device identifier that is acceptable or required.
    pub fn device_id(self, device_id: &str) -> (r: Self)
        ensures
            pushed_text(self.options@, r.options@, "deviceId"@, device_id@),
    {
        VideoConstraints {
            options: self.options.set("deviceId", Value::Text(device_id.to_owned())),
        }
    }

    /// A group identifier that is acceptable or required.
    pub fn group_id(self, group_id: &str) -> (r: Self)
        ensures
            pushed_text(self.options@, r.options@, "groupId"@, group_id@),
    {
        VideoConstraints { options: self.options.set("groupId", Value::Text(group_id.to_owned())) }
    }

    /// A camera facing that is acceptable or required.
    pub fn facing_mode(self, facing_mode: &str) -> (r: Self)
        ensures
            pushed_text(self.options@, r.options@, "facingMode"@, facing_mode@),
    {
        VideoConstraints {
            options: self.options.set("facingMode", Value::Text(facing_mode.to_owned())),
        }
    }

    /// An acceptable or required frame width, in pixels.
    pub fn width(self, width: u16) -> (r: Self)
        ensures
            r.options@ == self.options@.push(("width"@, Value::U16(width))),
    {
        VideoConstraints { options: self.options.set("width", Value::U16(width)) }
    }

    /// An acceptable or required frame height, in pixels.
    pub fn height(self, height: u16) -> (r: Self)
        ensures
            r.options@ == self.options@.push(("height"@, Value::U16(height))),
    {
        VideoConstraints { options: self.options.set("height", Value::U16(height)) }
    }
}

/// What a capture request asks of the host: ask the device layer for a stream
/// under these constraints and hand the outcome, stream or not, to the
/// registered callback exactly once per attempt.
pub struct UserMediaRequest {
    pub video: VideoConstraints,
    pub audio: Value,
    pub callback: CallbackId,
}

/// Registers `callback` to receive the outcome of a capture request and
/// describes the request: the given video constraints, and the given audio
/// constraints or, when none are given, no audio. Before initialization the
/// registration is refused and no request is produced.
#[verifier::spinoff_prover]
pub fn get_user_media<F>(
    rt: &mut Runtime,
    video_constraints: VideoConstraints,
    audio_constraints: Option<Value>,
    callback: F,
) -> (r: Result<UserMediaRequest, Error>) where F: Fn(Option<MediaStream>) + 'static
    requires
        forall|v: Option<MediaStream>| call_requires(callback, (v,)),
        old(rt).wf(),
        old(rt).can_register(1),
    ensures
        final(rt).wf(),
        match r {
            Ok(req) => {
                &&& req.video == video_constraints
                &&& (req.audio == match audio_constraints {
                    Some(v) => v,
                    None => Value::Bool(false),
                })
                &&& runtime_registered_one(*old(rt), *final(rt), req.callback)
                &&& registered_fire_and_forget::<Option<MediaStream>, F>(
                    old(rt).app.unwrap(),
                    final(rt).app.unwrap(),
                    req.callback,
                    callback,
                )
            },
            Err(e) => {
                &&& e == Error::NotInitialized
                &&& old(rt).app is None
                &&& *final(rt) == *old(rt)
            },
        },
{
    match &mut rt.app {
        Some(a) => {
            let audio = match audio_constraints {
                Some(v) => v,
                None => Value::Bool(false),
            };
            let id = a.callbacks.insert(
                CallbackNoResult::<Option<MediaStream>, F>::boxed(callback),
            );
            Ok(UserMediaRequest { video: video_constraints, audio, callback: id })
        },
        None => Err(Error::NotInitialized),
    }
}

} // verus!
