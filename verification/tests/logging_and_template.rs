use capahub::capability::{
    capture_provider, intent_provider, overlay_provider, paste_provider, read_text_provider, register_capture,
    register_intent, register_overlay, register_paste, register_read_text, register_save_file,
    register_send_keys, save_file_provider, send_keys_provider, set_clipboard_paste_callback,
    set_js_intent_callback, ProviderSlot,
};
use capahub::event::{MouseButton, MouseDown, MouseEvent, MouseMove, MouseUp, ShowClipboard};
use capahub::logger::{format_entry, format_line, set_file_logging, LogEntry, LogLevel, Logger, RING_CAPACITY};
use capahub::template::{TemplatePlugin, LOADED_MESSAGE, UNLOADED_MESSAGE};

#[test]
fn log_lines_have_time_level_plugin_and_message() {
    assert_eq!(
        format_line("2024-01-02 03:04:05", LogLevel::Warn, "core", "careful"),
        "[2024-01-02 03:04:05] [WARN] [core] careful"
    );
    assert_eq!(LogLevel::Debug.label(), "DEBUG");
    assert_eq!(LogLevel::Error.label(), "ERROR");
}

#[test]
fn log_window_line_uses_utc_time() {
    let e = LogEntry { level: LogLevel::Info, message: "hi".to_string(), plugin: "p".to_string(), timestamp: 0 };
    assert_eq!(format_entry(&e), "[1970-01-01 00:00:00] [INFO] [p] hi");
    let e = LogEntry {
        level: LogLevel::Error,
        message: "m".to_string(),
        plugin: "q".to_string(),
        timestamp: 1_700_000_000_000,
    };
    assert_eq!(format_entry(&e), "[2023-11-14 22:13:20] [ERROR] [q] m");
}

#[test]
fn log_records_and_formats() {
    let mut l = Logger::new();
    let out = l.log(LogLevel::Info, "core", "started", 42, "2024-05-06 07:08:09");
    assert_eq!(out.entry.timestamp, 42);
    assert_eq!(out.entry.plugin, "core");
    assert_eq!(out.file_line, Some("[2024-05-06 07:08:09] [INFO] [core] started".to_string()));
    set_file_logging(&mut l, false);
    let out = l.log(LogLevel::Debug, "core", "quiet", 43, "x");
    assert_eq!(out.file_line, None);
    let recent = l.recent(10);
    assert_eq!(recent.len(), 2);
    assert_eq!(recent[0].message, "started");
    assert_eq!(recent[1].message, "quiet");
}

#[test]
fn ring_keeps_the_latest_entries() {
    let mut l = Logger::new();
    set_file_logging(&mut l, false);
    for i in 0..(RING_CAPACITY as u64 + 5) {
        l.log(LogLevel::Info, "p", &format!("m{}", i), i, "t");
    }
    let all = l.recent(RING_CAPACITY + 100);
    assert_eq!(all.len(), RING_CAPACITY);
    assert_eq!(all[0].message, "m5");
    assert_eq!(all[RING_CAPACITY - 1].message, format!("m{}", RING_CAPACITY + 4));
    let last3 = l.recent(3);
    let msgs: Vec<String> = last3.into_iter().map(|e| e.message).collect();
    assert_eq!(msgs, vec![format!("m{}", RING_CAPACITY + 2), format!("m{}", RING_CAPACITY + 3), format!("m{}", RING_CAPACITY + 4)]);
}

#[test]
fn level_helpers_log_at_their_level() {
    let mut l = Logger::new();
    let out = l.warn("core", "disk low", 7, "2024-01-02 03:04:05");
    assert_eq!(out.entry.level, LogLevel::Warn);
    assert_eq!(out.entry.message, "disk low");
    assert_eq!(out.entry.timestamp, 7);
    assert_eq!(out.file_line, Some("[2024-01-02 03:04:05] [WARN] [core] disk low".to_string()));
    assert_eq!(l.error("a", "b", 8, "t").file_line, Some("[t] [ERROR] [a] b".to_string()));
    assert_eq!(l.debug("a", "b", 9, "t").entry.level, LogLevel::Debug);
    assert_eq!(l.info("a", "b", 10, "t").entry.level, LogLevel::Info);
    assert_eq!(l.recent(10).len(), 4);
}

#[test]
fn a_full_ring_drops_only_its_oldest() {
    let mut l = Logger::new();
    set_file_logging(&mut l, false);
    for i in 0..(RING_CAPACITY as u64) {
        l.log(LogLevel::Info, "p", &format!("m{}", i), i, "t");
    }
    assert_eq!(l.recent(usize::MAX).len(), RING_CAPACITY);
    l.log(LogLevel::Error, "q", "new", 0, "t");
    let all = l.recent(usize::MAX);
    assert_eq!(all.len(), RING_CAPACITY);
    assert_eq!(all[0].message, "m1");
    assert_eq!(all[RING_CAPACITY - 2].message, format!("m{}", RING_CAPACITY - 1));
    assert_eq!(all[RING_CAPACITY - 1].message, "new");
    assert_eq!(all[RING_CAPACITY - 1].level, LogLevel::Error);
}

fn at(button: MouseButton, x: i32, y: i32) -> MouseEvent {
    MouseEvent { button, x, y, timestamp: 0 }
}

#[test]
fn template_plugin_follows_right_drags() {
    let mut t = TemplatePlugin::new();
    assert_eq!(t.on_event(&MouseMove(at(MouseButton::NoButton, 1, 1))), None);
    assert_eq!(
        t.on_event(&MouseDown(at(MouseButton::Left, 3, -4))),
        Some("mouse down: button=Left, x=3, y=-4".to_string())
    );
    assert!(!t.tracking);
    assert_eq!(
        t.on_event(&MouseDown(at(MouseButton::Right, 5, 6))),
        Some("mouse down: button=Right, x=5, y=6".to_string())
    );
    assert!(t.tracking);
    assert_eq!(t.on_event(&MouseMove(at(MouseButton::NoButton, 7, 8))), Some("mouse move: x=7, y=8".to_string()));
    assert_eq!(
        t.on_event(&MouseUp(at(MouseButton::Left, 9, 10))),
        Some("mouse up: button=Right, x=9, y=10".to_string())
    );
    assert!(!t.tracking);
    assert_eq!(t.on_event(&MouseUp(at(MouseButton::Right, 0, 0))), None);
    assert_eq!(
        t.on_event(&MouseDown(at(MouseButton::X2, 0, 0))),
        Some("mouse down: button=Other, x=0, y=0".to_string())
    );
    assert_eq!(t.on_event(&ShowClipboard), None);
    assert_eq!(LOADED_MESSAGE, "插件已加载");
    assert_eq!(UNLOADED_MESSAGE, "插件已卸载");
}

#[test]
fn capability_slots_hold_the_last_registration() {
    let mut slot: ProviderSlot<u8> = ProviderSlot::new();
    assert_eq!(intent_provider(&slot), None);
    register_intent(&mut slot, 1);
    assert_eq!(intent_provider(&slot), Some(&1));
    set_js_intent_callback(&mut slot, 2);
    assert_eq!(intent_provider(&slot), Some(&2));

    let mut paste: ProviderSlot<&str> = ProviderSlot::new();
    register_paste(&mut paste, "a");
    set_clipboard_paste_callback(&mut paste, "b");
    assert_eq!(paste_provider(&paste), Some(&"b"));

    let mut s: ProviderSlot<u32> = ProviderSlot::new();
    register_read_text(&mut s, 3);
    assert_eq!(read_text_provider(&s), Some(&3));
    register_save_file(&mut s, 4);
    assert_eq!(save_file_provider(&s), Some(&4));
    register_send_keys(&mut s, 5);
    assert_eq!(send_keys_provider(&s), Some(&5));
    register_overlay(&mut s, 6);
    assert_eq!(overlay_provider(&s), Some(&6));
    register_capture(&mut s, 7);
    assert_eq!(capture_provider(&s), Some(&7));
}

#[test]
fn log_window_time_at_the_calendar_edges() {
    let entry = |timestamp: u64| LogEntry {
        level: LogLevel::Info,
        message: "m".to_string(),
        plugin: "p".to_string(),
        timestamp,
    };
    assert_eq!(format_entry(&entry(947_638_923_004)), "[2000-01-12 01:02:03] [INFO] [p] m");
    assert_eq!(format_entry(&entry(1_709_164_800_000)), "[2024-02-29 00:00:00] [INFO] [p] m");
    assert_eq!(format_entry(&entry(253_402_300_800_000)), "[+10000-01-01 00:00:00] [INFO] [p] m");
    assert_eq!(format_entry(&entry(u64::MAX)), "[1969-12-31 23:59:59] [INFO] [p] m");
    assert_eq!(format_entry(&entry(i64::MAX as u64)), "[unknown] [INFO] [p] m");
}
