use capahub::event::{
    mouse_js_repr, AppShutdown, AppStarted, ClipboardChanged, DynamicEvent, Event, KeyDown,
    KeyEvent, KeyUp, MouseButton, MouseDown, MouseEvent, MouseMove, MouseUp, PluginAction,
    PluginActivate, PluginDisabled, PluginEnabled, PluginLoaded, ShowClipboard,
};
use capahub::js_runtime::{
    ctx_members, handler_call, handler_probe, item_event_repr, js_func_name, level_from_name,
    overlay_reply, shows_intent, CtxMember, JsDispatch,
};
use capahub::plugin_manager::CapabilitiesDecl;
use capahub::logger::LogLevel;

fn me(button: MouseButton, x: i32, y: i32, timestamp: u64) -> MouseEvent {
    MouseEvent { button, x, y, timestamp }
}

#[test]
fn mouse_repr_has_button_position_and_time() {
    let r = mouse_js_repr(&me(MouseButton::Left, -5, 10, 7));
    assert_eq!(r, "{ button: \"Left\", x: -5, y: 10, timestamp: 7 }");
}

#[test]
fn extra_mouse_buttons_read_as_none() {
    let r = mouse_js_repr(&me(MouseButton::X1, 0, 0, 0));
    assert_eq!(r, "{ button: \"None\", x: 0, y: 0, timestamp: 0 }");
    let r = mouse_js_repr(&me(MouseButton::NoButton, 1, 2, 3));
    assert_eq!(r, "{ button: \"None\", x: 1, y: 2, timestamp: 3 }");
}

#[test]
fn mouse_events_are_published_under_their_types() {
    let d = MouseDown(me(MouseButton::Right, 1, 2, 3));
    assert_eq!(d.event_type(), "mouse.down");
    assert_eq!(d.js_repr(), "{ button: \"Right\", x: 1, y: 2, timestamp: 3 }");
    assert_eq!(d.mouse_event().map(|m| m.x), Some(1));
    assert_eq!(MouseMove(me(MouseButton::NoButton, 4, 5, 6)).event_type(), "mouse.move");
    assert_eq!(MouseUp(me(MouseButton::Middle, 4, 5, 6)).event_type(), "mouse.up");
    assert_eq!(
        MouseUp(me(MouseButton::Middle, 4, 5, 6)).js_repr(),
        "{ button: \"Middle\", x: 4, y: 5, timestamp: 6 }"
    );
}

#[test]
fn key_events_carry_code_and_time() {
    let k = KeyDown(KeyEvent { vk_code: 65, pressed: true, timestamp: 99 });
    assert_eq!(k.event_type(), "keyboard.down");
    assert_eq!(k.js_repr(), "{ vk: 65, timestamp: 99 }");
    assert!(k.mouse_event().is_none());
    let k = KeyUp(KeyEvent { vk_code: 13, pressed: false, timestamp: 0 });
    assert_eq!(k.event_type(), "keyboard.up");
    assert_eq!(k.js_repr(), "{ vk: 13, timestamp: 0 }");
}

#[test]
fn lifecycle_events_have_no_argument() {
    assert_eq!(AppStarted.event_type(), "app.started");
    assert_eq!(AppStarted.js_repr(), "");
    assert_eq!(AppShutdown.event_type(), "app.shutdown");
    assert_eq!(PluginLoaded { name: "a".to_string() }.event_type(), "plugin.loaded");
    let e = PluginEnabled { name: "a".to_string(), needs_hook: true };
    assert_eq!(e.event_type(), "plugin.enabled");
    assert_eq!(e.js_repr(), "");
    assert_eq!(PluginDisabled { name: "a".to_string() }.event_type(), "plugin.disabled");
    assert_eq!(ShowClipboard.event_type(), "hotkey.show_clipboard");
    assert_eq!(ShowClipboard.js_repr(), "");
}

#[test]
fn plugin_activate_and_action_reprs() {
    let a = PluginActivate { name: "clip".to_string() };
    assert_eq!(a.event_type(), "plugin.activate");
    assert_eq!(a.js_repr(), "{ name: \"clip\" }");
    let b = PluginAction {
        plugin: "p".to_string(),
        action: "save".to_string(),
        payload: "{\"k\":1}".to_string(),
    };
    assert_eq!(b.event_type(), "plugin.action");
    assert_eq!(b.js_repr(), "{ plugin: \"p\", action: \"save\", payload: \"{\\\"k\\\":1}\" }");
}

#[test]
fn plugin_action_fields_are_escaped() {
    let a = PluginAction {
        plugin: "clip".to_string(),
        action: "co\"py\n".to_string(),
        payload: r#"{"id":7,"p":"a\\b"}"#.to_string(),
    };
    assert_eq!(
        a.js_repr(),
        r#"{ plugin: "clip", action: "co\"py\n", payload: "{\"id\":7,\"p\":\"a\\\\b\"}" }"#
    );
}

#[test]
fn clipboard_text_is_escaped_for_scripts() {
    let c = ClipboardChanged { text: "a\"b\\c\r\nd".to_string() };
    assert_eq!(c.event_type(), "clipboard.changed");
    assert_eq!(c.js_repr(), "\"a\\\"b\\\\c\\nd\"");
    let empty = ClipboardChanged { text: String::new() };
    assert_eq!(empty.js_repr(), "\"\"");
}

#[test]
fn dynamic_event_keeps_its_fields() {
    let d = DynamicEvent { event_type: "clipboard.item_selected", repr: "{ id: 4 }".to_string() };
    assert_eq!(d.event_type(), "clipboard.item_selected");
    assert_eq!(d.js_repr(), "{ id: 4 }");
    assert!(d.mouse_event().is_none());
}

#[test]
fn handler_names_replace_dots() {
    assert_eq!(js_func_name("mouse.down"), "on_mouse_down");
    assert_eq!(js_func_name("clipboard.item_selected"), "on_clipboard_item_selected");
    assert_eq!(js_func_name("plain"), "on_plain");
}

#[test]
fn probe_and_call_scripts() {
    assert_eq!(handler_probe("mouse.up"), "typeof on_mouse_up === 'function'");
    assert_eq!(handler_call("app.started", ""), "on_app_started()");
    assert_eq!(handler_call("plugin.activate", "{ name: \"x\" }"), "on_plugin_activate({ name: \"x\" })");
}

#[test]
fn dispatch_keeps_only_defined_handlers() {
    let subs = vec!["mouse.down".to_string(), "mouse.up".to_string(), "app.started".to_string()];
    let defined = vec![true, false, true];
    let d = JsDispatch::from_probes(&subs, &defined);
    assert!(d.handles("mouse.down"));
    assert!(!d.handles("mouse.up"));
    assert!(d.handles("app.started"));
    assert!(!d.handles("mouse.move"));
    let ev = MouseDown(me(MouseButton::Left, 1, 1, 1));
    assert_eq!(
        d.script_for(&ev),
        Some("on_mouse_down({ button: \"Left\", x: 1, y: 1, timestamp: 1 })".to_string())
    );
    assert_eq!(d.script_for(&MouseUp(me(MouseButton::Left, 1, 1, 1))), None);
    assert_eq!(d.script_for(&AppStarted), Some("on_app_started()".to_string()));
}

#[test]
fn script_log_levels() {
    assert_eq!(level_from_name("debug"), LogLevel::Debug);
    assert_eq!(level_from_name("info"), LogLevel::Info);
    assert_eq!(level_from_name("warn"), LogLevel::Warn);
    assert_eq!(level_from_name("error"), LogLevel::Error);
    assert_eq!(level_from_name("verbose"), LogLevel::Info);
    assert_eq!(level_from_name("ERROR"), LogLevel::Info);
}

#[test]
fn overlay_replies() {
    assert_eq!(overlay_reply(&Some(Ok(12))), "12");
    assert_eq!(overlay_reply(&Some(Err("invalid handle".to_string()))), "error:invalid handle");
    assert_eq!(overlay_reply(&None), "error:no provider");
}

#[test]
fn item_event_argument() {
    assert_eq!(item_event_repr(0), "{ id: 0 }");
    assert_eq!(item_event_repr(18446744073709551615), "{ id: 18446744073709551615 }");
}

#[test]
fn ctx_members_follow_capabilities() {
    let none = CapabilitiesDecl { clipboard: false, input: false, overlay: false, screen: false };
    assert_eq!(
        ctx_members(&none),
        vec![
            CtxMember::Log,
            CtxMember::CommitIntent,
            CtxMember::CloseIntent,
            CtxMember::SaveFileDialog,
            CtxMember::Storage
        ]
    );
    let some = CapabilitiesDecl { clipboard: true, input: false, overlay: true, screen: true };
    assert_eq!(
        ctx_members(&some),
        vec![
            CtxMember::Log,
            CtxMember::CommitIntent,
            CtxMember::CloseIntent,
            CtxMember::SaveFileDialog,
            CtxMember::Clipboard,
            CtxMember::Overlay,
            CtxMember::Screen,
            CtxMember::Storage
        ]
    );
}

#[test]
fn only_window_intents_are_shown() {
    assert!(shows_intent("window"));
    assert!(!shows_intent("Window"));
    assert!(!shows_intent("popup"));
    assert!(!shows_intent(""));
}
