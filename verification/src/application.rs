use vstd::prelude::*;

use crate::callback::{AsCallback, CallbackId, CallbackMap};
use crate::error::Error;
use crate::media::{stopped_tracks, MediaStream, MediaStreamTrackKind};
use crate::menu::Menu;
use crate::options::Options;
use crate::payload::{FromPayload, MouseEvent, Payload};

verus! {

/// The application singleton: the process-wide owner of the callback
/// registry and of the currently active media stream.
pub struct Application {
    pub callbacks: CallbackMap,
    pub media_stream: Option<MediaStream>,
}

impl Application {
    /// A fresh application: an empty registry, no current stream.
    pub fn new() -> (r: Self)
        ensures
            r.callbacks@ == Map::<u64, Box<dyn AsCallback>>::empty(),
            r.callbacks.spec_next_id() == 0,
            r.callbacks.wf(),
            r.media_stream is None,
    {
        Application { callbacks: CallbackMap::new(), media_stream: None }
    }

    /// Replaces the current-stream slot: last write wins, the previous value
    /// is dropped. The slot only records which stream is active; it does not
    /// own the underlying device.
    pub fn set_media_stream(&mut self, media_stream: Option<MediaStream>) -> (r: Result<
        (),
        Error,
    >)
        ensures
            r == Ok::<(), Error>(()),
            final(self).media_stream == media_stream,
            final(self).callbacks == old(self).callbacks,
    {
        self.media_stream = media_stream;
        Ok(())
    }

    /// Reads the current-stream slot.
    pub fn get_media_stream(&self) -> (r: Result<Option<&MediaStream>, Error>)
        ensures
            match r {
                Ok(v) => match v {
                    Some(s) => self.media_stream == Some(*s),
                    None => self.media_stream is None,
                },
                Err(_) => false,
            },
    {
        Ok(self.media_stream.as_ref())
    }
}

/// The requested kind of a stop operation: all tracks when none was named.
pub open spec fn resolved_kind(track_kind: Option<MediaStreamTrackKind>) -> MediaStreamTrackKind {
    match track_kind {
        Some(k) => k,
        None => MediaStreamTrackKind::All,
    }
}

impl Application {
    /// Stops the tracks of kind `track_kind` (all tracks when `None`): those
    /// of `stream` when one is given, otherwise those of the current stream;
    /// with neither, a no-op that still succeeds. Unselected tracks and
    /// entries whose kind cannot be resolved are left untouched.
    pub fn stop_media_stream(
        &mut self,
        track_kind: Option<MediaStreamTrackKind>,
        stream: &mut Option<MediaStream>,
    ) -> (r: Result<(), Error>)
        ensures
            r == Ok::<(), Error>(()),
            final(self).callbacks == old(self).callbacks,
            match *old(stream) {
                Some(s0) => {
                    &&& *final(self) == *old(self)
                    &&& *final(stream) matches Some(s1) && s1.tracks@ == stopped_tracks(
                        resolved_kind(track_kind),
                        s0.tracks@,
                    )
                },
                None => {
                    &&& *final(stream) is None
                    &&& match old(self).media_stream {
                        Some(s0) => final(self).media_stream matches Some(s1) && s1.tracks@
                            == stopped_tracks(resolved_kind(track_kind), s0.tracks@),
                        None => final(self).media_stream is None,
                    }
                },
            },
    {
        let kind = match track_kind {
            Some(k) => k,
            None => MediaStreamTrackKind::All,
        };
        match stream {
            Some(s) => {
                s.stop_tracks(&kind);
            },
            None => {
                match &mut self.media_stream {
                    Some(s) => {
                        s.stop_tracks(&kind);
                    },
                    None => {},
                }
            },
        }
        Ok(())
    }
}

/// The process-wide slot that holds the application singleton once it is
/// initialized. The host process keeps exactly one value of this type alive;
/// before initialization the slot is observably empty, never invalid.
pub struct Runtime {
    pub app: Option<Application>,
}

/// The initialized application, or `None` before initialization: the free
/// lookup every collaborator goes through.
pub fn app(rt: &Runtime) -> (r: Option<&Application>)
    ensures
        match r {
            Some(a) => rt.app == Some(*a),
            None => rt.app is None,
        },
{
    rt.app.as_ref()
}

impl Runtime {
    /// Whether the registry behind this runtime (if any) is well-formed.
    pub open spec fn wf(&self) -> bool {
        match self.app {
            Some(a) => a.callbacks.wf(),
            None => true,
        }
    }

    /// Whether `n` more callbacks can still be registered without exhausting
    /// the identity space.
    pub open spec fn can_register(&self, n: int) -> bool {
        match self.app {
            Some(a) => a.callbacks.spec_next_id() + n <= u64::MAX,
            None => true,
        }
    }

    /// A runtime in which nothing was initialized yet.
    pub fn new() -> (r: Self)
        ensures
            r.app is None,
            r.wf(),
    {
        Runtime { app: None }
    }

    /// Constructs the application and publishes it in the slot. Calling this
    /// a second time replaces the application: earlier registrations and the
    /// current-stream slot are discarded with the replaced value.
    pub fn initialize(&mut self) -> (r: Result<(), Error>)
        ensures
            r == Ok::<(), Error>(()),
            final(self).app matches Some(a) && a.callbacks@ == Map::<
                u64,
                Box<dyn AsCallback>,
            >::empty() && a.callbacks.spec_next_id() == 0 && a.media_stream is None,
            final(self).wf(),
    {
        self.app = Some(Application::new());
        Ok(())
    }

    /// Whether `n` more callbacks can still be registered: the executable
    /// probe of `can_register` for unverified callers.
    pub fn registrable(&self, n: u64) -> (r: bool)
        ensures
            r == self.can_register(n as int),
    {
        match &self.app {
            Some(a) => a.callbacks.capacity_for(n),
            None => true,
        }
    }

    /// The initialized application, or `None` before initialization. The
    /// result is a function of the slot alone: every lookup on the same state
    /// yields the same application.
    pub fn current(&self) -> (r: Option<&Application>)
        ensures
            match r {
                Some(a) => self.app == Some(*a),
                None => self.app is None,
            },
    {
        self.app.as_ref()
    }
}

/// Exactly one handler was registered: from `rt0` to `rt1` the application's
/// registry gained the entry that owns `h` under the freshly minted `id`, and
/// nothing else about the application changed.
pub open spec fn registered_one(
    rt0: Runtime,
    rt1: Runtime,
    h: Box<dyn AsCallback>,
    id: CallbackId,
) -> bool {
    &&& rt0.app matches Some(a0)
    &&& rt1.app matches Some(a1)
    &&& id.id == a0.callbacks.spec_next_id()
    &&& !a0.callbacks@.contains_key(id.id)
    &&& a1.callbacks@ == a0.callbacks@.insert(id.id, h)
    &&& a1.callbacks.spec_next_id() == a0.callbacks.spec_next_id() + 1
    &&& a1.media_stream == a0.media_stream
}

/// Exactly two handlers were registered, the first under `id1` and then the
/// second under `id2`, both identities freshly minted in that order; nothing
/// else about the application changed.
pub open spec fn registered_two(
    rt0: Runtime,
    rt1: Runtime,
    h1: Box<dyn AsCallback>,
    h2: Box<dyn AsCallback>,
    id1: CallbackId,
    id2: CallbackId,
) -> bool {
    &&& rt0.app matches Some(a0)
    &&& rt1.app matches Some(a1)
    &&& id1.id == a0.callbacks.spec_next_id()
    &&& id2.id == a0.callbacks.spec_next_id() + 1
    &&& !a0.callbacks@.contains_key(id1.id)
    &&& !a0.callbacks@.contains_key(id2.id)
    &&& a1.callbacks@ == a0.callbacks@.insert(id1.id, h1).insert(id2.id, h2)
    &&& a1.callbacks.spec_next_id() == a0.callbacks.spec_next_id() + 2
    &&& a1.media_stream == a0.media_stream
}

/// Exactly one callback was registered with the application, under the
/// freshly minted `id`: the registry gained that entry and kept every other
/// entry, and the current-stream slot did not change.
pub open spec fn app_registered_one(a0: Application, a1: Application, id: CallbackId) -> bool {
    &&& id.id == a0.callbacks.spec_next_id()
    &&& !a0.callbacks@.contains_key(id.id)
    &&& a1.callbacks@.dom() == a0.callbacks@.dom().insert(id.id)
    &&& (forall|k: u64|
        k != id.id && #[trigger] a0.callbacks@.contains_key(k) ==> a1.callbacks@[k]
            == a0.callbacks@[k])
    &&& a1.callbacks.spec_next_id() == a0.callbacks.spec_next_id() + 1
    &&& a1.media_stream == a0.media_stream
}

/// Exactly one callback was registered through the runtime's application,
/// under the freshly minted `id`.
pub open spec fn runtime_registered_one(rt0: Runtime, rt1: Runtime, id: CallbackId) -> bool {
    &&& rt0.app matches Some(a0)
    &&& rt1.app matches Some(a1)
    &&& app_registered_one(a0, a1, id)
}

/// A handle to a host window, reduced to the identity the host assigns it.
#[derive(Clone, Copy, PartialEq, Eq, Structural, Debug)]
pub struct Window {
    pub id: u64,
}

impl FromPayload for Window {
    /// Exactly the window-handle payloads decode; anything else is a failure.
    open spec fn spec_from_payload(p: Payload) -> Result<Self, Error> {
        match p {
            Payload::WindowHandle(id) => Ok(Window { id }),
            _ => Err(Error::DecodeFailure),
        }
    }

    fn from_payload(p: Payload) -> (r: Result<Self, Error>) {
        match p {
            Payload::WindowHandle(id) => Ok(Window { id }),
            _ => Err(Error::DecodeFailure),
        }
    }
}

/// What opening a window asks of the host: open `url` with this
/// configuration and, when a callback identity is attached, hand the created
/// window to that callback.
pub struct WindowOpenRequest {
    pub url: String,
    pub options: Options,
    pub callback: Option<CallbackId>,
}

/// A subscription to a host event: the event's name and the identity of the
/// registered callback the host must invoke for each occurrence.
pub struct EventSubscription {
    pub event: String,
    pub callback: CallbackId,
}

/// What a context menu asks of the host when its subscribed event fires:
/// suppress the host's own menu and pop the attached menu up where the mouse
/// event happened.
#[derive(Clone, Copy, PartialEq, Eq, Structural, Debug)]
pub struct MenuPopupAction {
    pub prevent_default: bool,
    pub x: i32,
    pub y: i32,
}

/// The decision a context menu takes for a mouse event: always suppress the
/// host's own menu and pop up at exactly the event's coordinates.
pub fn context_menu_action(ev: &MouseEvent) -> (r: MenuPopupAction)
    ensures
        r.prevent_default,
        r.x == ev.x,
        r.y == ev.y,
{
    MenuPopupAction { prevent_default: true, x: ev.x, y: ev.y }
}

/// The handler a context menu registers. It accepts exactly the mouse-event
/// payloads; the host performs `context_menu_action` for each of them.
pub struct ContextMenuHandler {}

impl AsCallback for ContextMenuHandler {
    /// Exactly the mouse-event payloads are accepted.
    open spec fn admits(&self, payload: Payload, r: Result<(), Error>) -> bool {
        match MouseEvent::spec_from_payload(payload) {
            Ok(_) => r == Ok::<(), Error>(()),
            Err(e) => r == Err::<(), Error>(e),
        }
    }

    fn call_with(&self, payload: Payload) -> (r: Result<(), Error>) {
        match MouseEvent::from_payload(payload) {
            Ok(_) => Ok(()),
            Err(e) => Err(e),
        }
    }
}

impl ContextMenuHandler {
    /// Boxes the popup handler behind the registry's one capability.
    pub fn boxed() -> (h: Box<ContextMenuHandler>)
        ensures
            (forall|payload: Payload, res: Result<(), Error>| #[trigger] h.admits(payload, res)
                <==> (match MouseEvent::spec_from_payload(payload) {
                Ok(_) => res == Ok::<(), Error>(()),
                Err(e) => res == Err::<(), Error>(e),
            })),
    {
        Box::new(ContextMenuHandler {})
    }
}

/// What a finished context menu asks of the host: build this menu, and invoke
/// the subscribed callback on every occurrence of the named event.
pub struct ContextMenuRequest {
    pub menu: Menu,
    pub subscription: EventSubscription,
}

} // verus!
