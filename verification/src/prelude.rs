//! The commonly used types of this crate in one import.

pub use crate::application::{app, Application, Runtime};
pub use crate::callback::{AsCallback, Callback, CallbackId, CallbackMap, CallbackNoResult};
pub use crate::error::Error;
pub use crate::media::{MediaStream, MediaStreamTrack, MediaStreamTrackKind, VideoConstraints};
pub use crate::menu::{menu_separator, MenubarBuilder, MenuItemBuilder};
pub use crate::shortcut::ShortcutBuilder;
pub use crate::tray::TrayIconBuilder;
