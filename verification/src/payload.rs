use vstd::prelude::*;

use crate::error::Error;
use crate::media::MediaStream;

verus! {

/// A boundary-encoded event value, as the host hands it to a callback.
///
/// The host dispatches events as opaque values; a callback decodes the value
/// into the payload type its handler expects. This enum models the shapes
/// that cross the boundary in this crate.
#[derive(Clone, PartialEq, Eq, Debug)]
pub enum Payload {
    /// No payload, or one carrying no data the handlers read.
    Null,
    /// A boolean value.
    Bool(bool),
    /// A text value.
    Text(String),
    /// A mouse event, reduced to the coordinates the handlers read.
    Mouse { x: i32, y: i32 },
    /// A handle to a host window.
    WindowHandle(u64),
    /// A media stream handed back by the host.
    Media(MediaStream),
}

/// A mouse event, reduced to what the handlers read: its coordinates.
#[derive(Clone, Copy, PartialEq, Eq, Structural, Debug)]
pub struct MouseEvent {
    pub x: i32,
    pub y: i32,
}

/// Decoding a boundary payload into the payload type a handler expects.
pub trait FromPayload: Sized {
    /// What decoding yields on each boundary value.
    spec fn spec_from_payload(p: Payload) -> Result<Self, Error>;

    /// Decodes `p`, or reports why it cannot be the expected payload.
    fn from_payload(p: Payload) -> (r: Result<Self, Error>)
        ensures
            r == Self::spec_from_payload(p),
    ;
}

impl FromPayload for Payload {
    /// A handler that takes the raw boundary value decodes trivially.
    open spec fn spec_from_payload(p: Payload) -> Result<Self, Error> {
        Ok(p)
    }

    fn from_payload(p: Payload) -> (r: Result<Self, Error>) {
        Ok(p)
    }
}

impl FromPayload for MouseEvent {
    /// Exactly the mouse-event payloads decode; anything else is a failure.
    open spec fn spec_from_payload(p: Payload) -> Result<Self, Error> {
        match p {
            Payload::Mouse { x, y } => Ok(MouseEvent { x, y }),
            _ => Err(Error::DecodeFailure),
        }
    }

    fn from_payload(p: Payload) -> (r: Result<Self, Error>) {
        match p {
            Payload::Mouse { x, y } => Ok(MouseEvent { x, y }),
            _ => Err(Error::DecodeFailure),
        }
    }
}

impl FromPayload for Option<MediaStream> {
    /// A media-stream payload decodes to the stream; any other value decodes
    /// to `None` rather than failing, mirroring a host result that turned out
    /// not to be a stream.
    open spec fn spec_from_payload(p: Payload) -> Result<Self, Error> {
        match p {
            Payload::Media(s) => Ok(Some(s)),
            _ => Ok(None),
        }
    }

    fn from_payload(p: Payload) -> (r: Result<Self, Error>) {
        match p {
            Payload::Media(s) => Ok(Some(s)),
            _ => Ok(None),
        }
    }
}

} // verus!
