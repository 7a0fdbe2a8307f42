use vstd::prelude::*;

use crate::application::{registered_one, Runtime};
use crate::callback::{AsCallback, Callback, CallbackId};
use crate::error::Error;
use crate::options::{pushed_text, Options, Value};
use crate::payload::Payload;

verus! {

/// The type of a menu item, as the host distinguishes them.
#[derive(Clone, Copy, PartialEq, Eq, Structural, Debug)]
pub enum MenuItemType {
    Normal,
    Checkbox,
    Separator,
}

impl MenuItemType {
    /// The name under which the host knows this item type.
    pub fn as_text(&self) -> (r: &'static str)
        ensures
            *self == MenuItemType::Normal ==> r@ == "normal"@,
            *self == MenuItemType::Checkbox ==> r@ == "checkbox"@,
            *self == MenuItemType::Separator ==> r@ == "separator"@,
    {
        match self {
            MenuItemType::Normal => "normal",
            MenuItemType::Checkbox => "checkbox",
            MenuItemType::Separator => "separator",
        }
    }
}

/// One entry of a menu: the configuration the host object is built from, and
/// the identity of its registered click callback, if it has one.
#[derive(PartialEq, Eq, Debug)]
pub struct MenuItem {
    pub options: Options,
    pub click: Option<CallbackId>,
}

/// A menu: its child items, in exactly the order they were appended.
#[derive(PartialEq, Eq, Debug)]
pub struct Menu {
    pub items: Vec<MenuItem>,
}

impl Menu {
    /// An empty menu.
    pub fn new() -> (r: Self)
        ensures
            r.items@ == Seq::<MenuItem>::empty(),
    {
        Menu { items: Vec::new() }
    }

    /// Appends `item` after the existing children.
    pub fn append(&mut self, item: MenuItem)
        ensures
            final(self).items@ == old(self).items@.push(item),
    {
        self.items.push(item);
    }
}

/// A separator menu item.
pub fn menu_separator() -> (r: MenuItem)
    ensures
        r.options@.len() == 1,
        r.options@.last().0 == "type"@,
        r.options@.last().1 matches Value::Text(s) && s@ == "separator"@,
        r.click is None,
{
    let options = Options::new().set("type", Value::Text("separator".to_owned()));
    MenuItem { options, click: None }
}

/// Builder for one menu item: fluent configuration plus at most one pending
/// click handler, which registration binds to the built item.
pub struct MenuItemBuilder {
    pub options: Options,
    pub listener: Option<Box<dyn AsCallback>>,
}

impl MenuItemBuilder {
    /// A builder with nothing configured.
    pub fn new() -> (r: Self)
        ensures
            r.options@ == Seq::<(Seq<char>, Value)>::empty(),
            r.listener is None,
    {
        MenuItemBuilder { options: Options::new(), listener: None }
    }

    fn set(self, key: &str, value: Value) -> (r: Self)
        ensures
            r.options@ == self.options@.push((key@, value)),
            r.listener == self.listener,
    {
        MenuItemBuilder { options: self.options.set(key, value), listener: self.listener }
    }

    /// Sets the type of the item.
    pub fn set_type(self, t: MenuItemType) -> (r: Self)
        ensures
            pushed_text(
                self.options@,
                r.options@,
                "type"@,
                match t {
                    MenuItemType::Normal => "normal"@,
                    MenuItemType::Checkbox => "checkbox"@,
                    MenuItemType::Separator => "separator"@,
                },
            ),
            r.listener == self.listener,
    {
        let text = t.as_text();
        self.set("type", Value::Text(text.to_owned()))
    }

    /// Sets the label of a normal item or checkbox.
    pub fn label(self, label: &str) -> (r: Self)
        ensures
            pushed_text(self.options@, r.options@, "label"@, label@),
            r.listener == self.listener,
    {
        self.set("label", Value::Text(label.to_owned()))
    }

    /// Sets the icon of a normal item or checkbox.
    pub fn icon(self, icon: &str) -> (r: Self)
        ensures
            pushed_text(self.options@, r.options@, "icon"@, icon@),
            r.listener == self.listener,
    {
        self.set("icon", Value::Text(icon.to_owned()))
    }

    /// Sets the tooltip of a normal item or checkbox.
    pub fn tooltip(self, tooltip: &str) -> (r: Self)
        ensures
            pushed_text(self.options@, r.options@, "tooltip"@, tooltip@),
            r.listener == self.listener,
    {
        self.set("tooltip", Value::Text(tooltip.to_owned()))
    }

    /// Records the handler to run when the item is clicked. The handler is
    /// held pending: building registers it, so the built item never outlives
    /// its registration.
    pub fn callback<F>(self, callback: F) -> (r: Self) where
        F: Fn(Payload) -> Result<(), Error> + 'static,

        requires
            forall|v: Payload| call_requires(callback, (v,)),
        ensures
            r.options == self.options,
            r.listener is Some,
            (forall|payload: Payload, res: Result<(), Error>|
                #[trigger] r.listener.unwrap().admits(payload, res) <==> call_ensures(
                    callback,
                    (payload,),
                    res,
                )),
    {
        MenuItemBuilder {
            options: self.options,
            listener: Some(Callback::<Payload, F>::boxed(callback)),
        }
    }

    /// Whether the item is enabled; the host takes it as enabled by default.
    pub fn enabled(self, enabled: bool) -> (r: Self)
        ensures
            r.options@ == self.options@.push(("enabled"@, Value::Bool(enabled))),
            r.listener == self.listener,
    {
        self.set("enabled", Value::Bool(enabled))
    }

    /// Whether the checkbox is checked; the host takes it as unchecked by
    /// default.
    pub fn checked(self, checked: bool) -> (r: Self)
        ensures
            r.options@ == self.options@.push(("checked"@, Value::Bool(checked))),
            r.listener == self.listener,
    {
        self.set("checked", Value::Bool(checked))
    }

    /// Attaches a submenu.
    pub fn submenu(self, submenu: Menu) -> (r: Self)
        ensures
            r.options@ == self.options@.push(("submenu"@, Value::Menu(submenu))),
            r.listener == self.listener,
    {
        self.set("submenu", Value::Menu(submenu))
    }

    /// Builds a submenu holding `items`, in order, and attaches it.
    pub fn submenus(self, items: Vec<MenuItem>) -> (r: Self)
        ensures
            r.options@.len() == self.options@.len() + 1,
            (forall|i: int| 0 <= i < self.options@.len() ==> r.options@[i] == self.options@[i]),
            r.options@.last().0 == "submenu"@,
            r.options@.last().1 matches Value::Menu(m) && m.items@ == items@,
            r.listener == self.listener,
    {
        let submenu = Menu { items };
        self.set("submenu", Value::Menu(submenu))
    }

    /// The key of the item's keyboard shortcut.
    pub fn key(self, key: &str) -> (r: Self)
        ensures
            pushed_text(self.options@, r.options@, "key"@, key@),
            r.listener == self.listener,
    {
        self.set("key", Value::Text(key.to_owned()))
    }

    /// The modifiers of the item's keyboard shortcut.
    pub fn modifiers(self, modifiers: &str) -> (r: Self)
        ensures
            pushed_text(self.options@, r.options@, "modifiers"@, modifiers@),
            r.listener == self.listener,
    {
        self.set("modifiers", Value::Text(modifiers.to_owned()))
    }

    /// Builds the item. A pending click handler is registered with the
    /// application first, so the item is never produced without its handler
    /// being retained; before initialization that registration is refused and
    /// no item is produced.
    pub fn build(self, rt: &mut Runtime) -> (r: Result<MenuItem, Error>)
        requires
            old(rt).wf(),
            old(rt).can_register(1),
        ensures
            final(rt).wf(),
            match r {
                Ok(item) => item.options == self.options && (match self.listener {
                    Some(h) => item.click matches Some(id) && registered_one(
                        *old(rt),
                        *final(rt),
                        h,
                        id,
                    ),
                    None => *final(rt) == *old(rt) && item.click is None,
                }),
                Err(e) => {
                    &&& e == Error::NotInitialized
                    &&& self.listener is Some
                    &&& old(rt).app is None
                    &&& *final(rt) == *old(rt)
                },
            },
    {
        let MenuItemBuilder { options, listener } = self;
        match listener {
            Some(h) => match &mut rt.app {
                Some(a) => {
                    let id = a.callbacks.insert(h);
                    Ok(MenuItem { options, click: Some(id) })
                },
                None => Err(Error::NotInitialized),
            },
            None => Ok(MenuItem { options, click: None }),
        }
    }

    /// Builds the item without registering the pending handler, handing the
    /// handler back instead: the caller decides when to register it, for
    /// instance together with the other handlers of a menu tree. The item's
    /// click identity is only assigned by that registration.
    pub fn finalize(self) -> (r: Result<(MenuItem, Option<Box<dyn AsCallback>>), Error>)
        ensures
            match r {
                Ok((item, h)) => item.options == self.options && item.click is None && h
                    == self.listener,
                Err(_) => false,
            },
    {
        let MenuItemBuilder { options, listener } = self;
        Ok((MenuItem { options, click: None }, listener))
    }
}

/// What building a menubar asks of the host: create the menubar menu with
/// the platform options and the application name, give it these children in
/// exactly this order, and, when `attach` is set, install it as the process's
/// menu bar.
pub struct MenubarRequest {
    pub mac_options: Options,
    pub app_name: String,
    pub menu: Menu,
    pub attach: bool,
}

/// Builder for the application's menubar: platform options and an ordered
/// sequence of child items.
pub struct MenubarBuilder {
    pub mac_options: Options,
    pub app_name: String,
    pub menu_items: Vec<MenuItem>,
}

impl MenubarBuilder {
    /// A menubar builder for the application named `app_name`.
    pub fn new(app_name: &str) -> (r: Self)
        ensures
            r.mac_options@ == Seq::<(Seq<char>, Value)>::empty(),
            r.app_name@ == app_name@,
            r.menu_items@ == Seq::<MenuItem>::empty(),
    {
        MenubarBuilder {
            mac_options: Options::new(),
            app_name: app_name.to_owned(),
            menu_items: Vec::new(),
        }
    }

    /// On the platform that builds an Edit menu by itself, do not populate it.
    pub fn mac_hide_edit(self, hide: bool) -> (r: Self)
        ensures
            r.mac_options@ == self.mac_options@.push(("hideEdit"@, Value::Bool(hide))),
            r.app_name == self.app_name,
            r.menu_items == self.menu_items,
    {
        let MenubarBuilder { mac_options, app_name, menu_items } = self;
        MenubarBuilder { mac_options: mac_options.set("hideEdit", Value::Bool(hide)), app_name, menu_items }
    }

    /// On the platform that builds a Window menu by itself, do not populate
    /// it.
    pub fn mac_hide_window(self, hide: bool) -> (r: Self)
        ensures
            r.mac_options@ == self.mac_options@.push(("hideWindow"@, Value::Bool(hide))),
            r.app_name == self.app_name,
            r.menu_items == self.menu_items,
    {
        let MenubarBuilder { mac_options, app_name, menu_items } = self;
        MenubarBuilder { mac_options: mac_options.set("hideWindow", Value::Bool(hide)), app_name, menu_items }
    }

    /// Appends a child menu item after the ones already appended.
    pub fn append(self, menu_item: MenuItem) -> (r: Self)
        ensures
            r.menu_items@ == self.menu_items@.push(menu_item),
            r.mac_options == self.mac_options,
            r.app_name == self.app_name,
    {
        let MenubarBuilder { mac_options, app_name, mut menu_items } = self;
        menu_items.push(menu_item);
        MenubarBuilder { mac_options, app_name, menu_items }
    }

    /// Builds the menubar: the produced menu holds the appended items in
    /// exactly the order they were appended, and the request carries whether
    /// the host shall attach it to the window.
    pub fn build(self, attach: bool) -> (r: Result<MenubarRequest, Error>)
        ensures
            match r {
                Ok(req) => {
                    &&& req.menu.items@ == self.menu_items@
                    &&& req.mac_options == self.mac_options
                    &&& req.app_name == self.app_name
                    &&& req.attach == attach
                },
                Err(_) => false,
            },
    {
        let MenubarBuilder { mac_options, app_name, menu_items } = self;
        Ok(MenubarRequest { mac_options, app_name, menu: Menu { items: menu_items }, attach })
    }
}

} // verus!
