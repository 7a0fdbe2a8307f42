use std::cell::RefCell;
use std::rc::Rc;

use workflow_nw::application::{context_menu_action, Application, Runtime};
use workflow_nw::error::Error;
use workflow_nw::media::{get_user_media, MediaStream, VideoConstraints};
use workflow_nw::menu::{menu_separator, MenuItemBuilder, MenuItemType, MenubarBuilder};
use workflow_nw::options::{Options, Value};
use workflow_nw::payload::{MouseEvent, Payload};
use workflow_nw::shortcut::ShortcutBuilder;
use workflow_nw::tray::TrayIconBuilder;

fn initialized() -> Runtime {
    let mut rt = Runtime::new();
    rt.initialize().unwrap();
    rt
}

fn registry_len(rt: &Runtime) -> usize {
    rt.app.as_ref().unwrap().callbacks.len()
}

fn labeled(label: &str) -> workflow_nw::menu::MenuItem {
    MenuItemBuilder::new().label(label).finalize().unwrap().0
}

#[test]
fn menu_item_with_callback_fails_before_initialize() {
    let mut rt = Runtime::new();
    let r = MenuItemBuilder::new()
        .label("Open")
        .callback(|_p: Payload| -> Result<(), Error> { Ok(()) })
        .build(&mut rt);
    assert_eq!(r.err(), Some(Error::NotInitialized));
    assert!(rt.app.is_none());
}

#[test]
fn menu_item_with_callback_registers_on_build() {
    let mut rt = initialized();
    let item = MenuItemBuilder::new()
        .label("Open")
        .callback(|_p: Payload| -> Result<(), Error> { Ok(()) })
        .build(&mut rt)
        .unwrap();
    let id = item.click.expect("the built item carries its callback identity");
    assert_eq!(registry_len(&rt), 1);
    let a = rt.app.as_ref().unwrap();
    assert!(a.callbacks.get(id).is_some());
    assert_eq!(a.callbacks.get(id).unwrap().call_with(Payload::Null), Ok(()));
}

#[test]
fn menu_item_without_callback_builds_before_initialize() {
    let mut rt = Runtime::new();
    let item = MenuItemBuilder::new().label("About").build(&mut rt).unwrap();
    assert!(item.click.is_none());
    assert!(rt.app.is_none());
}

#[test]
fn menu_item_setters_accumulate_in_order() {
    let item = MenuItemBuilder::new()
        .set_type(MenuItemType::Checkbox)
        .label("Mute")
        .checked(true)
        .enabled(false)
        .key("m")
        .modifiers("ctrl")
        .finalize()
        .unwrap()
        .0;
    let expected = vec![
        ("type".to_string(), Value::Text("checkbox".to_string())),
        ("label".to_string(), Value::Text("Mute".to_string())),
        ("checked".to_string(), Value::Bool(true)),
        ("enabled".to_string(), Value::Bool(false)),
        ("key".to_string(), Value::Text("m".to_string())),
        ("modifiers".to_string(), Value::Text("ctrl".to_string())),
    ];
    assert_eq!(item.options.entries, expected);
}

#[test]
fn menu_append_keeps_order() {
    let mut menu = workflow_nw::menu::Menu::new();
    assert!(menu.items.is_empty());
    menu.append(labeled("first"));
    menu.append(labeled("second"));
    assert_eq!(menu.items, vec![labeled("first"), labeled("second")]);
}

#[test]
fn runtime_capacity_probe() {
    let mut rt = Runtime::new();
    assert!(rt.registrable(2));
    rt.initialize().unwrap();
    assert!(rt.registrable(2));
}

#[test]
fn menu_separator_is_a_separator() {
    let sep = menu_separator();
    assert_eq!(
        sep.options.entries,
        vec![("type".to_string(), Value::Text("separator".to_string()))]
    );
    assert!(sep.click.is_none());
}

#[test]
fn submenu_items_keep_their_order() {
    let mut rt = Runtime::new();
    let parent = MenuItemBuilder::new()
        .label("Parent")
        .submenus(vec![labeled("A"), labeled("B")])
        .build(&mut rt)
        .unwrap();
    match &parent.options.entries.last().unwrap().1 {
        Value::Menu(m) => assert_eq!(m.items, vec![labeled("A"), labeled("B")]),
        other => panic!("expected a submenu, found {:?}", other),
    }
}

#[test]
fn menubar_keeps_item_order() {
    let req = MenubarBuilder::new("demo")
        .mac_hide_edit(true)
        .mac_hide_window(false)
        .append(labeled("A"))
        .append(labeled("B"))
        .append(labeled("C"))
        .build(true)
        .unwrap();
    assert_eq!(req.menu.items, vec![labeled("A"), labeled("B"), labeled("C")]);
    assert_eq!(req.app_name, "demo");
    assert!(req.attach);
    assert_eq!(
        req.mac_options.entries,
        vec![
            ("hideEdit".to_string(), Value::Bool(true)),
            ("hideWindow".to_string(), Value::Bool(false)),
        ]
    );
}

#[test]
fn tray_with_callback_fails_before_initialize() {
    let mut rt = Runtime::new();
    let r = TrayIconBuilder::new()
        .title("tray")
        .callback(|_e: MouseEvent| -> Result<(), Error> { Ok(()) })
        .build(&mut rt);
    assert_eq!(r.err(), Some(Error::NotInitialized));
}

#[test]
fn tray_builds_with_menu_and_tooltip() {
    let mut rt = initialized();
    let tray = TrayIconBuilder::new()
        .title("tray")
        .tooltip("hover text")
        .icon("icon.png")
        .alticon("alt.png")
        .icons_are_templates(false)
        .submenus(vec![labeled("Quit")])
        .callback(|_e: MouseEvent| -> Result<(), Error> { Ok(()) })
        .build(&mut rt)
        .unwrap();
    assert_eq!(tray.tooltip.as_deref(), Some("hover text"));
    assert_eq!(tray.menu.as_ref().unwrap().items, vec![labeled("Quit")]);
    assert!(tray.click.is_some());
    assert_eq!(registry_len(&rt), 1);
}

#[test]
fn tray_finalize_leaves_registration_to_the_caller() {
    let rt = Runtime::new();
    let (tray, handler) = TrayIconBuilder::new()
        .title("tray")
        .callback(|_e: MouseEvent| -> Result<(), Error> { Ok(()) })
        .finalize()
        .unwrap();
    assert!(tray.click.is_none());
    assert!(handler.is_some());
    assert!(rt.app.is_none());
}

#[test]
fn shortcut_with_handlers_fails_before_initialize() {
    let mut rt = Runtime::new();
    let r = ShortcutBuilder::new()
        .key("Ctrl+Shift+Q")
        .active(|_p: Payload| -> Result<(), Error> { Ok(()) })
        .build(&mut rt);
    assert_eq!(r.err(), Some(Error::NotInitialized));

    let r = ShortcutBuilder::new()
        .key("Ctrl+Shift+Q")
        .failed(|_p: Payload| -> Result<(), Error> { Ok(()) })
        .build(&mut rt);
    assert_eq!(r.err(), Some(Error::NotInitialized));
}

#[test]
fn shortcut_registers_both_slots_independently() {
    let mut rt = initialized();
    let sc = ShortcutBuilder::new()
        .key("Ctrl+Shift+Q")
        .active(|_p: Payload| -> Result<(), Error> { Ok(()) })
        .failed(|_p: Payload| -> Result<(), Error> { Err(Error::HostRejected) })
        .build(&mut rt)
        .unwrap();
    let active = sc.active.unwrap();
    let failed = sc.failed.unwrap();
    assert_ne!(active, failed);
    assert_eq!(registry_len(&rt), 2);
    assert_eq!(
        sc.options.entries,
        vec![("key".to_string(), Value::Text("Ctrl+Shift+Q".to_string()))]
    );

    let a = rt.app.as_ref().unwrap();
    assert_eq!(a.callbacks.get(active).unwrap().call_with(Payload::Null), Ok(()));
    assert_eq!(
        a.callbacks.get(failed).unwrap().call_with(Payload::Null),
        Err(Error::HostRejected)
    );
}

#[test]
fn shortcut_without_handlers_builds_anywhere() {
    let mut rt = Runtime::new();
    let sc = ShortcutBuilder::new().key("F5").build(&mut rt).unwrap();
    assert!(sc.active.is_none());
    assert!(sc.failed.is_none());
}

#[test]
fn window_request_carries_url_options_and_callback() {
    let mut rt = initialized();
    let a = rt.app.as_mut().unwrap();
    let opts = Options::new().set("width", Value::U32(800));
    let req = a
        .create_window_with_callback("/index.html", opts, |_w| -> Result<(), Error> { Ok(()) })
        .unwrap();
    assert_eq!(req.url, "/index.html");
    assert_eq!(req.options.entries, vec![("width".to_string(), Value::U32(800))]);
    let id = req.callback.unwrap();
    assert!(a.callbacks.get(id).is_some());
}

#[test]
fn window_callback_receives_the_window_handle() {
    let seen = Rc::new(RefCell::new(None));
    let sink = seen.clone();
    let mut rt = initialized();
    let a = rt.app.as_mut().unwrap();
    let req = a
        .create_window_with_callback("/w.html", Options::new(), move |w| {
            *sink.borrow_mut() = Some(w);
            Ok(())
        })
        .unwrap();
    let id = req.callback.unwrap();
    let a = rt.app.as_ref().unwrap();
    let cb = a.callbacks.get(id).unwrap();
    assert_eq!(cb.call_with(Payload::WindowHandle(7)), Ok(()));
    assert_eq!(*seen.borrow(), Some(workflow_nw::application::Window { id: 7 }));
    // A payload that is not a window handle is a decode failure, surfaced
    // because this callback reports its result.
    assert_eq!(cb.call_with(Payload::Null), Err(Error::DecodeFailure));
}

#[test]
fn window_without_callback_registers_nothing() {
    let req = Application::create_window("/plain.html", Options::new()).unwrap();
    assert_eq!(req.url, "/plain.html");
    assert!(req.callback.is_none());
}

#[test]
fn context_menu_keeps_order_and_subscribes() {
    let mut rt = initialized();
    let a = rt.app.as_mut().unwrap();
    let req = a.create_context_menu(vec![labeled("Copy"), labeled("Paste")]).unwrap();
    assert_eq!(req.menu.items, vec![labeled("Copy"), labeled("Paste")]);
    assert_eq!(req.subscription.event, "contextmenu");
    let cb = a.callbacks.get(req.subscription.callback).unwrap();
    // The popup handler accepts exactly the mouse events.
    assert_eq!(cb.call_with(Payload::Mouse { x: 10, y: 20 }), Ok(()));
    assert_eq!(cb.call_with(Payload::Null), Err(Error::DecodeFailure));
}

#[test]
fn context_menu_subscription_runs_the_given_closure() {
    let seen = Rc::new(RefCell::new(Vec::new()));
    let sink = seen.clone();
    let mut rt = initialized();
    let a = rt.app.as_mut().unwrap();
    let sub = a
        .on_context_menu(move |ev: MouseEvent| -> Result<(), Error> {
            sink.borrow_mut().push((ev.x, ev.y));
            Ok(())
        })
        .unwrap();
    assert_eq!(sub.event, "contextmenu");
    let cb = a.callbacks.get(sub.callback).unwrap();
    // The registered entry wraps exactly the given closure: a mouse payload
    // runs it with the decoded event, anything else is a decode failure.
    assert_eq!(cb.call_with(Payload::Mouse { x: 3, y: 4 }), Ok(()));
    assert_eq!(cb.call_with(Payload::Mouse { x: 5, y: 6 }), Ok(()));
    assert_eq!(cb.call_with(Payload::Text("no".to_string())), Err(Error::DecodeFailure));
    assert_eq!(*seen.borrow(), vec![(3, 4), (5, 6)]);
}

#[test]
fn context_menu_action_uses_the_event_coordinates() {
    let action = context_menu_action(&MouseEvent { x: 42, y: -7 });
    assert!(action.prevent_default);
    assert_eq!(action.x, 42);
    assert_eq!(action.y, -7);
}

#[test]
fn get_user_media_fails_before_initialize() {
    let mut rt = Runtime::new();
    let r = get_user_media(&mut rt, VideoConstraints::new(), None, |_s: Option<MediaStream>| {});
    assert_eq!(r.err(), Some(Error::NotInitialized));
}

#[test]
fn get_user_media_registers_and_defaults_audio_off() {
    let mut rt = initialized();
    let constraints = VideoConstraints::new().source_id("screen:0").max_width(1920);
    let req = get_user_media(&mut rt, constraints, None, |_s: Option<MediaStream>| {}).unwrap();
    assert_eq!(req.audio, Value::Bool(false));
    assert_eq!(
        req.video.options.entries,
        vec![
            (
                "mandatory.chromeMediaSource".to_string(),
                Value::Text("desktop".to_string())
            ),
            (
                "mandatory.chromeMediaSourceId".to_string(),
                Value::Text("screen:0".to_string())
            ),
            ("mandatory.maxWidth".to_string(), Value::U32(1920)),
        ]
    );
    assert!(rt.app.as_ref().unwrap().callbacks.get(req.callback).is_some());
}

#[test]
fn get_user_media_hands_the_stream_to_the_handler() {
    let got = Rc::new(RefCell::new(None));
    let sink = got.clone();
    let mut rt = initialized();
    let req = get_user_media(&mut rt, VideoConstraints::new(), Some(Value::Bool(true)), move |s| {
        *sink.borrow_mut() = s;
    })
    .unwrap();
    assert_eq!(req.audio, Value::Bool(true));
    let a = rt.app.as_ref().unwrap();
    let stream = MediaStream::new(vec![workflow_nw::media::MediaStreamTrack::new("video")]);
    let cb = a.callbacks.get(req.callback).unwrap();
    assert_eq!(cb.call_with(Payload::Media(stream.clone())), Ok(()));
    assert_eq!(got.borrow().as_ref(), Some(&stream));
    // A result that is not a stream decodes to no stream rather than failing.
    assert_eq!(cb.call_with(Payload::Bool(false)), Ok(()));
    assert!(got.borrow().is_none());
}

#[test]
fn video_constraint_setters_accumulate() {
    let v = VideoConstraints::new()
        .device_id("dev")
        .group_id("grp")
        .facing_mode("user")
        .width(640)
        .height(480)
        .max_height(1080);
    assert_eq!(
        v.options.entries,
        vec![
            ("deviceId".to_string(), Value::Text("dev".to_string())),
            ("groupId".to_string(), Value::Text("grp".to_string())),
            ("facingMode".to_string(), Value::Text("user".to_string())),
            ("width".to_string(), Value::U16(640)),
            ("height".to_string(), Value::U16(480)),
            ("mandatory.maxHeight".to_string(), Value::U32(1080)),
        ]
    );
}

#[test]
fn reinitialize_replaces_the_application() {
    let mut rt = initialized();
    MenuItemBuilder::new()
        .callback(|_p: Payload| -> Result<(), Error> { Ok(()) })
        .build(&mut rt)
        .unwrap();
    assert_eq!(registry_len(&rt), 1);
    // The documented policy: initializing again replaces the application,
    // discarding earlier registrations and the current-stream slot.
    rt.initialize().unwrap();
    assert_eq!(registry_len(&rt), 0);
    assert_eq!(rt.app.as_ref().unwrap().get_media_stream(), Ok(None));
}

#[test]
fn shortcut_finalize_leaves_registration_to_the_caller() {
    let (sc, active, failed) = ShortcutBuilder::new()
        .key("F2")
        .active(|_p: Payload| -> Result<(), Error> { Ok(()) })
        .finalize()
        .unwrap();
    assert!(sc.active.is_none());
    assert!(sc.failed.is_none());
    assert!(active.is_some());
    assert!(failed.is_none());
    // The caller registers the handed-back handler itself; only then does an
    // identity exist for it.
    let mut rt = Runtime::new();
    rt.initialize().unwrap();
    let a = rt.app.as_mut().unwrap();
    let id = a.callbacks.insert(active.unwrap());
    assert!(a.callbacks.get(id).is_some());
}

#[test]
fn menu_item_finalize_then_register() {
    let (item, handler) = MenuItemBuilder::new()
        .label("Later")
        .callback(|_p: Payload| -> Result<(), Error> { Ok(()) })
        .finalize()
        .unwrap();
    assert!(item.click.is_none());
    let mut rt = Runtime::new();
    rt.initialize().unwrap();
    let a = rt.app.as_mut().unwrap();
    let id = a.callbacks.insert(handler.unwrap());
    assert_eq!(a.callbacks.get(id).unwrap().call_with(Payload::Null), Ok(()));
}
