use vstd::prelude::*;

use crate::application::{registered_one, Runtime};
use crate::callback::{AsCallback, Callback, CallbackId};
use crate::error::Error;
use crate::menu::{Menu, MenuItem};
use crate::options::{pushed_text, Options, Value};
use crate::payload::{FromPayload, MouseEvent, Payload};

verus! {

/// A tray icon: the configuration the host object is built from, the menu
/// and tooltip to set on it, and the identity of its registered click
/// callback, if it has one.
pub struct Tray {
    pub options: Options,
    pub menu: Option<Menu>,
    pub tooltip: Option<String>,
    pub click: Option<CallbackId>,
}

/// Builder for a tray icon: fluent configuration, an optional menu and
/// tooltip, and at most one pending click handler.
pub struct TrayIconBuilder {
    pub options: Options,
    pub menu: Option<Menu>,
    pub tooltip: Option<String>,
    pub listener: Option<Box<dyn AsCallback>>,
}

impl TrayIconBuilder {
    /// A builder with nothing configured.
    pub fn new() -> (r: Self)
        ensures
            r.options@ == Seq::<(Seq<char>, Value)>::empty(),
            r.menu is None,
            r.tooltip is None,
            r.listener is None,
    {
        TrayIconBuilder { options: Options::new(), menu: None, tooltip: None, listener: None }
    }

    fn set(self, key: &str, value: Value) -> (r: Self)
        ensures
            r.options@ == self.options@.push((key@, value)),
            r.menu == self.menu,
            r.tooltip == self.tooltip,
            r.listener == self.listener,
    {
        let TrayIconBuilder { options, menu, tooltip, listener } = self;
        TrayIconBuilder { options: options.set(key, value), menu, tooltip, listener }
    }

    /// Sets the title of the tray icon.
    pub fn title(self, title: &str) -> (r: Self)
        ensures
            pushed_text(self.options@, r.options@, "title"@, title@),
            r.menu == self.menu,
            r.tooltip == self.tooltip,
            r.listener == self.listener,
    {
        self.set("title", Value::Text(title.to_owned()))
    }

    /// Sets the tooltip shown when the tray icon is hovered. The host wants
    /// it both in the configuration and set on the built tray, so the builder
    /// records it twice.
    pub fn tooltip(self, tooltip: &str) -> (r: Self)
        ensures
            pushed_text(self.options@, r.options@, "tooltip"@, tooltip@),
            r.menu == self.menu,
            (r.tooltip matches Some(t) && t@ == tooltip@),
            r.listener == self.listener,
    {
        let with_option = self.set("tooltip", Value::Text(tooltip.to_owned()));
        let TrayIconBuilder { options, menu, tooltip: _, listener } = with_option;
        TrayIconBuilder { options, menu, tooltip: Some(tooltip.to_owned()), listener }
    }

    /// Sets the icon: a path to the icon file.
    pub fn icon(self, icon: &str) -> (r: Self)
        ensures
            pushed_text(self.options@, r.options@, "icon"@, icon@),
            r.menu == self.menu,
            r.tooltip == self.tooltip,
            r.listener == self.listener,
    {
        self.set("icon", Value::Text(icon.to_owned()))
    }

    /// Sets the alternate (active-state) icon.
    pub fn alticon(self, alticon: &str) -> (r: Self)
        ensures
            pushed_text(self.options@, r.options@, "alticon"@, alticon@),
            r.menu == self.menu,
            r.tooltip == self.tooltip,
            r.listener == self.listener,
    {
        self.set("alticon", Value::Text(alticon.to_owned()))
    }

    /// Whether the icon images are treated as styling templates by the host.
    pub fn icons_are_templates(self, icons_are_templates: bool) -> (r: Self)
        ensures
            r.options@ == self.options@.push(
                ("iconsAreTemplates"@, Value::Bool(icons_are_templates)),
            ),
            r.menu == self.menu,
            r.tooltip == self.tooltip,
            r.listener == self.listener,
    {
        self.set("iconsAreTemplates", Value::Bool(icons_are_templates))
    }

    /// Sets the menu the host shows for the tray icon.
    pub fn menu(self, menu: Menu) -> (r: Self)
        ensures
            r.options == self.options,
            (r.menu == Some(menu)),
            r.tooltip == self.tooltip,
            r.listener == self.listener,
    {
        let TrayIconBuilder { options, menu: _, tooltip, listener } = self;
        TrayIconBuilder { options, menu: Some(menu), tooltip, listener }
    }

    /// Records the handler to run when the tray icon is clicked; building
    /// registers it.
    pub fn callback<F>(self, callback: F) -> (r: Self) where
        F: Fn(MouseEvent) -> Result<(), Error> + 'static,

        requires
            forall|v: MouseEvent| call_requires(callback, (v,)),
        ensures
            r.options == self.options,
            r.menu == self.menu,
            r.tooltip == self.tooltip,
            r.listener is Some,
            (forall|payload: Payload, res: Result<(), Error>|
                #[trigger] r.listener.unwrap().admits(payload, res) <==> (match
                    MouseEvent::spec_from_payload(payload) {
                    Ok(v) => call_ensures(callback, (v,), res),
                    Err(e) => res == Err::<(), Error>(e),
                })),
    {
        let TrayIconBuilder { options, menu, tooltip, listener: _ } = self;
        TrayIconBuilder {
            options,
            menu,
            tooltip,
            listener: Some(Callback::<MouseEvent, F>::boxed(callback)),
        }
    }

    /// Builds a menu holding `items`, in order, and sets it as the tray menu.
    pub fn submenus(self, items: Vec<MenuItem>) -> (r: Self)
        ensures
            r.options == self.options,
            (r.menu matches Some(m) && m.items@ == items@),
            r.tooltip == self.tooltip,
            r.listener == self.listener,
    {
        self.menu(Menu { items })
    }

    /// Builds the tray without registering the pending handler, handing the
    /// handler back instead; the caller decides registration. The tray's
    /// click identity is only assigned by that registration.
    pub fn build_impl(self) -> (r: Result<(Tray, Option<Box<dyn AsCallback>>), Error>)
        ensures
            match r {
                Ok((tray, h)) => {
                    &&& tray.options == self.options
                    &&& tray.menu == self.menu
                    &&& tray.tooltip == self.tooltip
                    &&& tray.click is None
                    &&& h == self.listener
                },
                Err(_) => false,
            },
    {
        let TrayIconBuilder { options, menu, tooltip, listener } = self;
        Ok((Tray { options, menu, tooltip, click: None }, listener))
    }

    /// Builds the tray. A pending click handler is registered with the
    /// application first, so the tray is never produced without its handler
    /// being retained; before initialization that registration is refused and
    /// no tray is produced.
    pub fn build(self, rt: &mut Runtime) -> (r: Result<Tray, Error>)
        requires
            old(rt).wf(),
            old(rt).can_register(1),
        ensures
            final(rt).wf(),
            match r {
                Ok(tray) => {
                    &&& tray.options == self.options
                    &&& tray.menu == self.menu
                    &&& tray.tooltip == self.tooltip
                    &&& match self.listener {
                        Some(h) => tray.click matches Some(id) && registered_one(
                            *old(rt),
                            *final(rt),
                            h,
                            id,
                        ),
                        None => *final(rt) == *old(rt) && tray.click is None,
                    }
                },
                Err(e) => {
                    &&& e == Error::NotInitialized
                    &&& self.listener is Some
                    &&& old(rt).app is None
                    &&& *final(rt) == *old(rt)
                },
            },
    {
        let TrayIconBuilder { options, menu, tooltip, listener } = self;
        match listener {
            Some(h) => match &mut rt.app {
                Some(a) => {
                    let id = a.callbacks.insert(h);
                    Ok(Tray { options, menu, tooltip, click: Some(id) })
                },
                None => Err(Error::NotInitialized),
            },
            None => Ok(Tray { options, menu, tooltip, click: None }),
        }
    }

    /// Builds the tray and hands back the pending handler unregistered, like
    /// `build_impl`: the caller decides registration.
    pub fn finalize(self) -> (r: Result<(Tray, Option<Box<dyn AsCallback>>), Error>)
        ensures
            match r {
                Ok((tray, h)) => {
                    &&& tray.options == self.options
                    &&& tray.menu == self.menu
                    &&& tray.tooltip == self.tooltip
                    &&& tray.click is None
                    &&& h == self.listener
                },
                Err(_) => false,
            },
    {
        self.build_impl()
    }
}

} // verus!
