use capahub::event::{Event, MouseButton};
use capahub::hook::{
    button_log_line, classify_mouse_message, dispatch_log_line, key_hook_event, mouse_hook_event,
    should_log_dispatch, HookKeyEvent, HookMouseEvent, MouseAction, MoveLog, MoveThrottle, WM_KEYDOWN, WM_LBUTTONDOWN,
    WM_MOUSEMOVE, WM_RBUTTONUP, WM_SYSKEYDOWN,
};
use capahub::host::{
    hook_needed, hook_unneeded, hotkey_event, install_failed_message, manager_command, name_from_list_line,
    plugin_list_line, plugin_window_title, tray_command, tray_menu_plugin_count, tray_notification,
    HotkeyEvent, ManagerAction, TrayAction,
};
use capahub::input::{key_of_char, named_key, plan_keys, KeyStroke};
use capahub::plugin_manager::{PluginInfo, PluginState};
use capahub::render_intent::{
    compute_position, position_fits, position_from_name, DrawCmd, RenderIntent, WindowConfig, DrawHitArea, DrawText, PopupKeyAction, PopupState,
    WindowPosition, VK_DELETE, VK_DOWN, VK_ESCAPE, VK_RETURN, VK_UP,
};

#[test]
fn modifier_then_letter_presses_the_upper_case_key() {
    let p = plan_keys("^c");
    assert_eq!(p.strokes, vec![KeyStroke::Press(0x11), KeyStroke::Tap(0x43), KeyStroke::Release(0x11)]);
    assert!(!p.stalls);
}

#[test]
fn stacked_modifiers_release_in_reverse_order() {
    let p = plan_keys("+^t");
    assert_eq!(
        p.strokes,
        vec![
            KeyStroke::Press(0x10),
            KeyStroke::Press(0x11),
            KeyStroke::Tap(0x54),
            KeyStroke::Release(0x11),
            KeyStroke::Release(0x10),
        ]
    );
    let p = plan_keys("%{F4}");
    assert_eq!(p.strokes, vec![KeyStroke::Press(0x12), KeyStroke::Tap(0x73), KeyStroke::Release(0x12)]);
}

#[test]
fn plain_text_is_typed_and_named_keys_are_tapped() {
    let p = plan_keys("hi{Enter}");
    assert_eq!(p.strokes, vec![KeyStroke::Unicode('h'), KeyStroke::Unicode('i'), KeyStroke::Tap(0x0D)]);
    let p = plan_keys("{Nope}x");
    assert_eq!(p.strokes, vec![KeyStroke::Unicode('x')]);
    assert!(!p.stalls);
    assert_eq!(plan_keys("").strokes, Vec::new());
}

#[test]
fn unclosed_brace_stalls() {
    let p = plan_keys("a^{Enter");
    assert_eq!(p.strokes, vec![KeyStroke::Unicode('a'), KeyStroke::Press(0x11)]);
    assert!(p.stalls);
}

#[test]
fn key_names_and_letters() {
    assert_eq!(named_key(&"Escape".chars().collect()), Some(0x1B));
    assert_eq!(named_key(&"F12".chars().collect()), Some(0x7B));
    assert_eq!(named_key(&"enter".chars().collect()), None);
    assert_eq!(key_of_char('a'), 0x41);
    assert_eq!(key_of_char('Z'), 0x5A);
    assert_eq!(key_of_char('1'), 0x31);
}

#[test]
fn mouse_messages_are_classified() {
    assert_eq!(classify_mouse_message(WM_MOUSEMOVE), Some((MouseButton::NoButton, MouseAction::Move)));
    assert_eq!(classify_mouse_message(WM_LBUTTONDOWN), Some((MouseButton::Left, MouseAction::Down)));
    assert_eq!(classify_mouse_message(WM_RBUTTONUP), Some((MouseButton::Right, MouseAction::Up)));
    assert_eq!(classify_mouse_message(0x020A), None);
    match mouse_hook_event(WM_LBUTTONDOWN, 3, 4, 5) {
        Some(HookMouseEvent::Down(d)) => {
            assert_eq!(d.event_type(), "mouse.down");
            assert_eq!(d.0.x, 3);
            assert_eq!(d.0.timestamp, 5);
        },
        _ => panic!("expected a mouse down"),
    }
    assert!(mouse_hook_event(0x020A, 0, 0, 0).is_none());
}

#[test]
fn key_messages_are_presses_or_releases() {
    assert!(matches!(key_hook_event(WM_KEYDOWN, 65, 1), HookKeyEvent::Down(_)));
    assert!(matches!(key_hook_event(WM_SYSKEYDOWN, 18, 1), HookKeyEvent::Down(_)));
    match key_hook_event(0x0101, 65, 9) {
        HookKeyEvent::Up(u) => {
            assert_eq!(u.0.vk_code, 65);
            assert!(!u.0.pressed);
        },
        _ => panic!("expected a release"),
    }
}

#[test]
fn hook_log_lines() {
    assert_eq!(button_log_line(MouseButton::Left, MouseAction::Down, 10, -2), "mouse down Left at 10,-2");
    assert_eq!(button_log_line(MouseButton::Middle, MouseAction::Up, 0, 0), "mouse up Middle at 0,0");
    assert_eq!(dispatch_log_line("mouse.down", "clip"), "dispatch mouse.down to clip");
    assert!(should_log_dispatch("mouse.move", 0));
    assert!(!should_log_dispatch("mouse.move", 1));
    assert!(should_log_dispatch("mouse.move", 200));
    assert!(should_log_dispatch("mouse.down", 7));
}

#[test]
fn every_hundredth_move_is_logged() {
    let mut log = MoveLog::new();
    for i in 0..99 {
        assert!(log.on_move(i, 0).is_none());
    }
    assert_eq!(log.on_move(500, 7), Some("mouse move x100 (0,0→500,7)".to_string()));
    assert!(log.on_move(1, 1).is_none());
}

#[test]
fn hotkeys() {
    assert!(matches!(hotkey_event(1), Some(HotkeyEvent::ShowClipboard(_))));
    match hotkey_event(2) {
        Some(HotkeyEvent::Dynamic(d)) => {
            assert_eq!(d.event_type, "screenshot.capture");
            assert_eq!(d.repr, "");
        },
        _ => panic!("expected the screenshot event"),
    }
    match hotkey_event(3) {
        Some(HotkeyEvent::Dynamic(d)) => assert_eq!(d.event_type, "hotkey.f6"),
        _ => panic!("expected the F6 event"),
    }
    assert!(hotkey_event(4).is_none());
}

#[test]
fn tray_clicks_and_commands() {
    assert_eq!(tray_notification(0x0203), TrayAction::OpenManager);
    assert_eq!(tray_notification(0x0205), TrayAction::ShowMenu);
    assert_eq!(tray_notification(0x0200), TrayAction::Nothing);
    assert_eq!(tray_command(1001, 0), TrayAction::ShowLog);
    assert_eq!(tray_command(1002, 0), TrayAction::OpenManager);
    assert_eq!(tray_command(1099, 0), TrayAction::Exit);
    assert_eq!(tray_command(2003, 5), TrayAction::ActivatePlugin(3));
    assert_eq!(tray_command(2005, 5), TrayAction::Nothing);
    assert_eq!(tray_command(7, 5), TrayAction::Nothing);
    assert_eq!(tray_menu_plugin_count(3), 3);
    assert_eq!(tray_menu_plugin_count(250), 100);
}

#[test]
fn manager_window_texts() {
    let info = PluginInfo {
        name: "clip".to_string(),
        version: "0.2.0".to_string(),
        description: String::new(),
        state: PluginState::Enabled,
    };
    let line = plugin_list_line(&info);
    assert_eq!(line, "clip v0.2.0 [Enabled]");
    assert_eq!(name_from_list_line(&line), "clip");
    assert_eq!(name_from_list_line("nospace"), "");
    assert_eq!(plugin_window_title("clip"), "clip - CapaHub");
    assert_eq!(install_failed_message("bad zip"), "Install failed:\nbad zip");
    assert_eq!(manager_command(3010), ManagerAction::Enable);
    assert_eq!(manager_command(3011), ManagerAction::Disable);
    assert_eq!(manager_command(3012), ManagerAction::Delete);
    assert_eq!(manager_command(3013), ManagerAction::Install);
    assert_eq!(manager_command(1), ManagerAction::Nothing);
}

#[test]
fn mouse_hook_follows_the_plugins() {
    assert!(hook_needed(true, false));
    assert!(!hook_needed(true, true));
    assert!(!hook_needed(false, false));
    assert!(hook_unneeded(true, false));
    assert!(!hook_unneeded(true, true));
    assert!(!hook_unneeded(false, false));
}

#[test]
fn popup_positions() {
    assert_eq!(position_from_name("follow_focus"), WindowPosition::FollowFocus);
    assert_eq!(position_from_name("screen_center"), WindowPosition::ScreenCenter);
    assert_eq!(position_from_name("near_cursor"), WindowPosition::NearCursor);
    assert_eq!(compute_position(200, 100, WindowPosition::ScreenCenter, 1920, 1080, 0, 0), (860, 490));
    assert_eq!(compute_position(200, 100, WindowPosition::ScreenCenter, 101, 50, 0, 0), (-49, -25));
    assert_eq!(compute_position(200, 100, WindowPosition::NearCursor, 1920, 1080, 100, 100), (100, 120));
    assert_eq!(compute_position(200, 100, WindowPosition::NearCursor, 1920, 1080, 1900, 1000), (1700, 890));
    assert_eq!(compute_position(200, 100, WindowPosition::NearCursor, 1920, 1080, -50, 1050), (0, 940));
    assert_eq!(compute_position(1, 1, WindowPosition::FollowFocus, 0, 0, 0, 0), (200, 200));
    assert_eq!(compute_position(1, 1, WindowPosition::At { x: -3, y: 9 }, 0, 0, 0, 0), (-3, 9));
}

fn item(y: i32, id: u64) -> DrawCmd {
    DrawCmd::HitArea(DrawHitArea { x: 0, y, width: 100, height: 20, id })
}

fn label() -> DrawCmd {
    DrawCmd::Text(DrawText { x: 0, y: 0, text: "title".to_string(), font_size: 12, color: 0 })
}

#[test]
fn popup_selection_hover_and_keys() {
    let draws = vec![label(), item(0, 10), item(20, 11), item(40, 12)];
    let mut p = PopupState::new(&draws, 9, 1000);
    assert_eq!(p.on_click(), Some(12));
    assert_eq!(p.hit_test(5, 25), Some(1));
    assert_eq!(p.hit_test(100, 25), None);
    assert!(p.on_mouse_move(5, 25));
    assert!(!p.on_mouse_move(6, 26));
    assert_eq!(p.on_click(), Some(11));
    assert!(p.on_mouse_move(500, 500));
    assert_eq!(p.on_key(VK_UP), PopupKeyAction::Moved { repaint: true });
    assert_eq!(p.on_key(VK_RETURN), PopupKeyAction::Choose(Some(11)));
    assert_eq!(p.on_key(VK_DOWN), PopupKeyAction::Moved { repaint: true });
    assert_eq!(p.on_key(VK_DOWN), PopupKeyAction::Moved { repaint: true });
    assert_eq!(p.on_key(VK_DELETE), PopupKeyAction::Delete(Some(12)));
    assert_eq!(p.on_key(VK_ESCAPE), PopupKeyAction::Close);
    assert_eq!(p.on_key(0x41), PopupKeyAction::Unhandled);
    assert!(!p.closes_on_deactivate(1500));
    assert!(p.closes_on_deactivate(1501));
}

#[test]
fn popup_without_items() {
    let draws = vec![label()];
    let mut p = PopupState::new(&draws, 3, 0);
    assert_eq!(p.on_click(), None);
    assert_eq!(p.on_key(VK_DOWN), PopupKeyAction::Moved { repaint: false });
    assert_eq!(p.on_key(VK_RETURN), PopupKeyAction::Choose(None));
    assert!(!p.closes_on_deactivate(10_000));
    let one = vec![item(0, 5)];
    let mut q = PopupState::new(&one, 0, 0);
    assert_eq!(q.on_key(VK_UP), PopupKeyAction::Moved { repaint: false });
    assert_eq!(q.on_click(), Some(5));
}

#[test]
fn mouse_moves_are_published_one_in_three() {
    let mut t = MoveThrottle::new();
    let published: Vec<bool> = (0..7).map(|_| t.on_move()).collect();
    assert_eq!(published, vec![true, false, false, true, false, false, true]);
}

#[test]
fn every_pressed_modifier_is_released() {
    for keys in ["^+%a", "+{Tab}x", "%^{F4}", "abc", "^{Nope}"] {
        let p = plan_keys(keys);
        assert!(!p.stalls);
        let downs = p.strokes.iter().filter(|s| matches!(s, KeyStroke::Press(_))).count();
        let ups = p.strokes.iter().filter(|s| matches!(s, KeyStroke::Release(_))).count();
        assert_eq!(downs, ups);
    }
}

#[test]
fn popup_position_overflow_is_detected() {
    assert!(position_fits(200, 100, WindowPosition::NearCursor, 1920, 1080, 0, 0));
    assert!(!position_fits(200, 100, WindowPosition::ScreenCenter, i32::MIN, 1080, 0, 0));
    assert!(!position_fits(10, 10, WindowPosition::NearCursor, 1920, 1080, 0, i32::MAX));
    assert!(position_fits(u32::MAX, u32::MAX, WindowPosition::FollowFocus, 0, 0, 0, 0));
}

#[test]
fn popup_highlights_the_active_item() {
    let draws = vec![item(0, 1), item(20, 2)];
    let mut p = PopupState::new(&draws, 1, 77);
    assert_eq!(p.opened_at_ms(), 77);
    assert_eq!(p.active_area().map(|a| a.id), Some(2));
    p.on_mouse_move(1, 1);
    assert_eq!(p.active_area().map(|a| a.id), Some(1));
    let empty = PopupState::new(&vec![label()], 0, 0);
    assert!(empty.active_area().is_none());
}

fn ignore_item(_id: u64) {}

#[test]
fn window_request_copy_drops_callbacks_and_selection() {
    let req: RenderIntent<fn(u64), fn(), fn(u8)> = RenderIntent::Window(WindowConfig {
        width: 300,
        height: 200,
        position: WindowPosition::ScreenCenter,
        auto_close: true,
        draws: vec![label(), item(0, 9)],
        selected_index: 1,
        on_hit: Some(ignore_item as fn(u64)),
        on_delete: None,
        on_close: None,
    });
    match req.duplicate() {
        RenderIntent::Window(c) => {
            assert_eq!((c.width, c.height, c.auto_close, c.selected_index), (300, 200, true, 0));
            assert_eq!(c.position, WindowPosition::ScreenCenter);
            assert!(c.on_hit.is_none());
            assert_eq!(c.draws.len(), 2);
            match &c.draws[0] {
                DrawCmd::Text(t) => assert_eq!(t.text, "title"),
                _ => panic!("expected the label"),
            }
            match &c.draws[1] {
                DrawCmd::HitArea(a) => assert_eq!(a.id, 9),
                _ => panic!("expected the item"),
            }
        },
        _ => panic!("expected a window request"),
    }
}
