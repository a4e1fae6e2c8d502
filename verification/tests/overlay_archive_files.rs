use std::io::Write;

use capahub::bridge::{bridge_action, bridge_event};
use capahub::clipboard::{paste_keys, text_from_wide, wide_with_nul, ClipboardWatch};
use capahub::config::{join_path, Config};
use capahub::icon::{build_ico_with_png, ico_for_png};
use capahub::input::KeyStroke;
use capahub::install::{
    archive_entry, archive_entry_count, archive_manifest, check_install, entry_target, manifest_entry,
    EntryTarget, InstallError,
};
use capahub::overlay::{
    parse_overlay_command, plan_command, to_bgr, OverlayAction, OverlayCommand, OverlayRegistry, ScreenArea,
};
use capahub::screen::{bmp_file, capture_size, screenshot_name};

const SCREEN: ScreenArea = ScreenArea { x: -1920, y: 0, w: 3840, h: 1080 };

#[test]
fn overlay_commands_read_their_fields_with_defaults() {
    assert_eq!(
        parse_overlay_command("{\"cmd\":\"create\",\"x\":10,\"y\":20}"),
        Ok(OverlayCommand::Create { x: 10, y: 20, w: 0, h: 0 })
    );
    assert_eq!(
        parse_overlay_command("{\"cmd\":\"draw_rect\",\"h\":3,\"x\":1,\"y\":2,\"rw\":30,\"rh\":40}"),
        Ok(OverlayCommand::DrawRect { handle: 3, x: 1, y: 2, w: 30, h: 40, color: 0xFF0000, thickness: 2 })
    );
    assert_eq!(
        parse_overlay_command("{\"cmd\":\"draw_line\",\"h\":1,\"x2\":5,\"color\":255,\"thickness\":4}"),
        Ok(OverlayCommand::DrawLine { handle: 1, x1: 0, y1: 0, x2: 5, y2: 0, color: 255, thickness: 4 })
    );
    assert_eq!(parse_overlay_command("{\"cmd\":\"clear\",\"h\":2}"), Ok(OverlayCommand::Clear { handle: 2 }));
    assert_eq!(parse_overlay_command("{\"cmd\":\"freeze\"}"), Ok(OverlayCommand::Freeze { handle: 0 }));
    assert_eq!(parse_overlay_command("{\"cmd\":\"destroy\",\"h\":9}"), Ok(OverlayCommand::Destroy { handle: 9 }));
}

#[test]
fn overlay_refuses_unknown_commands_and_bad_json() {
    assert_eq!(parse_overlay_command("{\"cmd\":\"spin\"}"), Err("unknown cmd: spin".to_string()));
    assert_eq!(parse_overlay_command("{}"), Err("unknown cmd: ".to_string()));
    let e = parse_overlay_command("not json").unwrap_err();
    assert!(!e.is_empty());
    assert!(!e.starts_with("unknown cmd"));
}

#[test]
fn overlay_large_fields_keep_their_low_bits() {
    assert_eq!(
        parse_overlay_command("{\"cmd\":\"create\",\"x\":4294967297}"),
        Ok(OverlayCommand::Create { x: 1, y: 0, w: 0, h: 0 })
    );
    assert_eq!(parse_overlay_command("{\"cmd\":\"clear\",\"h\":-1}"), Ok(OverlayCommand::Clear { handle: 0 }));
}

#[test]
fn colours_swap_red_and_blue() {
    assert_eq!(to_bgr(0x112233), 0x332211);
    assert_eq!(to_bgr(0xFF0000), 0x0000FF);
    assert_eq!(to_bgr(0xAB123456), 0x563412);
}

#[test]
fn overlay_registry_lifecycle() {
    let mut reg: Option<OverlayRegistry<&'static str>> = None;
    let (r, _) = plan_command(&mut reg, "{\"cmd\":\"create\"}", SCREEN).unwrap();
    assert_eq!(r, Err("not initialized".to_string()));
    reg = Some(OverlayRegistry::new());

    let (r, _) = plan_command(&mut reg, "{\"cmd\":\"create\",\"x\":5,\"y\":6,\"w\":100}", SCREEN).unwrap();
    let action = r.unwrap();
    assert_eq!(action, OverlayAction::Create { id: 1, x: -1915, y: 6, w: 100, h: 1080 });
    assert_eq!(action.reply(), 1);
    reg.as_mut().unwrap().insert(1, "window one");
    assert!(reg.as_ref().unwrap().is_open(1));
    assert_eq!(reg.as_ref().unwrap().window(1), Some(&"window one"));

    let (r, _) = plan_command(&mut reg, "{\"cmd\":\"draw_rect\",\"h\":1,\"color\":1193046}", SCREEN).unwrap();
    let action = r.unwrap();
    assert_eq!(
        action,
        OverlayAction::DrawRect { handle: 1, x: 0, y: 0, w: 0, h: 0, bgr: 0x563412, thickness: 2 }
    );
    assert_eq!(action.reply(), 1);
    let (r, _) = plan_command(&mut reg, "{\"cmd\":\"freeze\",\"h\":1}", SCREEN).unwrap();
    assert_eq!(r.unwrap().reply(), 0);
    let (r, _) = plan_command(&mut reg, "{\"cmd\":\"clear\",\"h\":2}", SCREEN).unwrap();
    assert_eq!(r, Err("invalid handle".to_string()));

    let (r, taken) = plan_command(&mut reg, "{\"cmd\":\"destroy\",\"h\":1}", SCREEN).unwrap();
    assert_eq!(r, Ok(OverlayAction::Destroy { handle: 1 }));
    assert_eq!(taken, Some("window one"));
    let (r, _) = plan_command(&mut reg, "{\"cmd\":\"clear\",\"h\":1}", SCREEN).unwrap();
    assert_eq!(r, Err("invalid handle".to_string()));
    let (r, taken) = plan_command(&mut reg, "{\"cmd\":\"destroy\",\"h\":1}", SCREEN).unwrap();
    assert_eq!(r, Ok(OverlayAction::Destroy { handle: 1 }));
    assert_eq!(taken, None);

    let (r, _) = plan_command(&mut reg, "{\"cmd\":\"create\"}", SCREEN).unwrap();
    assert_eq!(r.unwrap().reply(), 2);
}

#[test]
fn overlay_create_that_would_overflow_is_not_planned() {
    let mut reg: Option<OverlayRegistry<u8>> = Some(OverlayRegistry::new());
    let far = ScreenArea { x: 2147483000, y: 0, w: 1, h: 1 };
    assert!(plan_command(&mut reg, "{\"cmd\":\"create\",\"x\":1000}", far).is_none());
    let (r, _) = plan_command(&mut reg, "{\"cmd\":\"create\"}", far).unwrap();
    assert_eq!(r.unwrap().reply(), 1);
}

#[test]
fn bridge_messages_become_plugin_actions() {
    let a = bridge_action("clip", "{\"action\":\"save\",\"data\":{\"k\":[1,2]}}").unwrap();
    assert_eq!(a.plugin, "clip");
    assert_eq!(a.action, "save");
    assert_eq!(a.payload, "{\"k\":[1,2]}");
    let b = bridge_action("clip", "{\"data\":\"x\"}").unwrap();
    assert_eq!(b.action, "");
    assert_eq!(b.payload, "\"x\"");
    let c = bridge_action("clip", "{\"action\":7}").unwrap();
    assert_eq!(c.action, "");
    assert_eq!(c.payload, "null");
    assert!(bridge_action("clip", "{oops").is_none());
    assert!(bridge_event("p", false, Some("a".to_string()), "1".to_string()).is_none());
    let d = bridge_event("p", true, None, "2".to_string()).unwrap();
    assert_eq!((d.plugin.as_str(), d.action.as_str(), d.payload.as_str()), ("p", "", "2"));
}

#[test]
fn clipboard_text_round_trips_through_utf16() {
    let text = "héllo 😀\n";
    let wide = wide_with_nul(text);
    assert_eq!(wide.last(), Some(&0));
    let expected: Vec<u16> = text.encode_utf16().chain(Some(0)).collect();
    assert_eq!(wide, expected);
    assert_eq!(text_from_wide(&wide[..wide.len() - 1]), text);
    assert_eq!(wide_with_nul(""), vec![0]);
}

#[test]
fn unpaired_surrogates_read_as_replacement() {
    assert_eq!(text_from_wide(&[0x61, 0xD800, 0x62]), "a\u{FFFD}b");
    assert_eq!(text_from_wide(&[0xDC00]), "\u{FFFD}");
    assert_eq!(text_from_wide(&[0xD83D, 0xDE00]), "😀");
    assert_eq!(text_from_wide(&[0xD83D]), "\u{FFFD}");
}

#[test]
fn paste_sends_ctrl_v() {
    assert_eq!(
        paste_keys(),
        vec![KeyStroke::Press(0x11), KeyStroke::Press(0x56), KeyStroke::Release(0x56), KeyStroke::Release(0x11)]
    );
}

#[test]
fn own_clipboard_write_is_not_reported() {
    let mut w = ClipboardWatch::new();
    assert!(w.changed());
    w.wrote();
    assert!(!w.changed());
    assert!(w.changed());
}

#[test]
fn bmp_header_layout() {
    let pixels = vec![1u8, 2, 3, 4, 5, 6, 7, 8];
    let f = bmp_file(&pixels, 2, 1);
    assert_eq!(f.len(), 62);
    assert_eq!(&f[0..2], b"BM");
    assert_eq!(&f[2..6], &[62, 0, 0, 0]);
    assert_eq!(&f[10..14], &[54, 0, 0, 0]);
    assert_eq!(&f[14..18], &[40, 0, 0, 0]);
    assert_eq!(&f[18..22], &[2, 0, 0, 0]);
    assert_eq!(&f[22..26], &[0xFF, 0xFF, 0xFF, 0xFF]);
    assert_eq!(&f[26..30], &[1, 0, 32, 0]);
    assert_eq!(&f[34..38], &[8, 0, 0, 0]);
    assert!(f[38..54].iter().all(|b| *b == 0));
    assert_eq!(&f[54..], &pixels[..]);
}

#[test]
fn capture_sizes_and_names() {
    assert_eq!(capture_size(0, -5), (1, 1));
    assert_eq!(capture_size(640, 480), (640, 480));
    assert_eq!(screenshot_name(1700000000123), "screenshot_1700000000123.bmp");
}

#[test]
fn ico_wraps_png() {
    let png = vec![0x89u8, b'P', b'N', b'G'];
    let ico = build_ico_with_png(&png, 4);
    assert_eq!(&ico[0..6], &[0, 0, 1, 0, 1, 0]);
    assert_eq!(&ico[6..14], &[0, 0, 0, 0, 1, 0, 32, 0]);
    assert_eq!(&ico[14..18], &[4, 0, 0, 0]);
    assert_eq!(&ico[18..22], &[22, 0, 0, 0]);
    assert_eq!(&ico[22..], &png[..]);
    assert_eq!(ico_for_png(&png), Some(ico));
}

#[test]
fn config_paths() {
    let c = Config::from_app_data(Some("C:\\Users\\me\\AppData\\Local"));
    assert_eq!(c.data_dir, "C:\\Users\\me\\AppData\\Local\\CapaHub");
    assert_eq!(c.plugins_dir, "C:\\Users\\me\\AppData\\Local\\CapaHub\\plugins");
    assert_eq!(c.logs_dir, "C:\\Users\\me\\AppData\\Local\\CapaHub\\logs");
    assert!(!c.autostart);
    assert_eq!(c.config_file(), "C:\\Users\\me\\AppData\\Local\\CapaHub\\config.toml");
    assert_eq!(c.plugin_dir("clip"), "C:\\Users\\me\\AppData\\Local\\CapaHub\\plugins\\clip");
    let d = Config::from_app_data(None);
    assert_eq!(d.data_dir, "C:\\Users\\Default\\AppData\\Local\\CapaHub");
    assert_eq!(join_path("D:\\", "x"), "D:\\x");
    assert_eq!(join_path("", "x"), "x");
}

#[test]
fn entry_targets() {
    assert!(matches!(entry_target("plugin.toml", "clip"), EntryTarget::Manifest));
    assert!(matches!(entry_target("dir/", "clip"), EntryTarget::Manifest));
    match entry_target("assets/img/a.png", "clip") {
        EntryTarget::Asset(p) => assert_eq!(p, "img/a.png"),
        _ => panic!("expected an asset"),
    }
    match entry_target("pkg\\assets\\b.css", "clip") {
        EntryTarget::Asset(p) => assert_eq!(p, "pkg/assets/b.css"),
        _ => panic!("expected an asset"),
    }
    assert!(matches!(entry_target("bin/clip.dll", "clip"), EntryTarget::Library));
    assert!(matches!(entry_target("other.dll", "clip"), EntryTarget::Skip));
    assert!(matches!(entry_target("web/index.html", "clip"), EntryTarget::Page));
    assert!(matches!(entry_target("README.md", "clip"), EntryTarget::Skip));
}

#[test]
fn manifest_entry_is_the_last_plugin_toml() {
    let names = vec!["plugin.toml".to_string(), "a.txt".to_string(), "plugin.toml".to_string(), "b".to_string()];
    assert_eq!(manifest_entry(&names), Some(2));
    assert_eq!(manifest_entry(&vec!["x/plugin.toml".to_string()]), None);
}

#[test]
fn install_checks() {
    assert!(matches!(check_install("", "clip", false), Err(InstallError::ManifestMissing)));
    match check_install("[plugin]", "clip", true) {
        Err(e) => assert_eq!(e.message(), "Plugin 'clip' already exists"),
        Ok(()) => panic!("expected a refusal"),
    }
    assert!(check_install("[plugin]", "clip", false).is_ok());
    assert_eq!(InstallError::ManifestMissing.message(), "plugin.toml not found in archive");
}

fn archive(entries: &[(&str, &str)]) -> Vec<u8> {
    let mut w = zip::ZipWriter::new(std::io::Cursor::new(Vec::new()));
    let opts = zip::write::SimpleFileOptions::default().compression_method(zip::CompressionMethod::Stored);
    for (name, data) in entries {
        w.start_file(*name, opts).unwrap();
        w.write_all(data.as_bytes()).unwrap();
    }
    w.finish().unwrap().into_inner()
}

#[test]
fn archive_manifest_and_entries() {
    let bytes = archive(&[
        ("docs/guide.txt", "guide"),
        ("assets/logo.png", "PNG"),
        ("plugin.toml", "[plugin]\nname = \"clip\"\n"),
        ("clip.dll", "MZ"),
        ("notes.txt", "skip me"),
    ]);
    assert_eq!(archive_manifest(&bytes), Ok("[plugin]\nname = \"clip\"\n".to_string()));
    assert_eq!(archive_entry_count(&bytes), Ok(5));
    match archive_entry(&bytes, 1, "clip") {
        Ok((EntryTarget::Asset(p), data)) => {
            assert_eq!(p, "logo.png");
            assert_eq!(data, b"PNG".to_vec());
        },
        _ => panic!("expected the asset"),
    }
    match archive_entry(&bytes, 3, "clip") {
        Ok((EntryTarget::Library, data)) => assert_eq!(data, b"MZ".to_vec()),
        _ => panic!("expected the library"),
    }
    match archive_entry(&bytes, 4, "clip") {
        Ok((EntryTarget::Skip, data)) => assert!(data.is_empty()),
        _ => panic!("expected a skipped entry"),
    }
    assert!(archive_entry(&bytes, 9, "clip").is_err());
}

#[test]
fn archive_without_manifest_is_refused() {
    let bytes = archive(&[("index.html", "<html>")]);
    assert_eq!(archive_manifest(&bytes), Err("plugin.toml not found in archive".to_string()));
    let empty_manifest = archive(&[("plugin.toml", "")]);
    assert_eq!(archive_manifest(&empty_manifest), Err("plugin.toml not found in archive".to_string()));
    assert!(archive_manifest(b"not a zip").is_err());
    assert!(archive_entry_count(b"not a zip").is_err());
}

#[test]
fn clipboard_form_has_its_only_zero_at_the_end() {
    let wide = wide_with_nul("a\u{e9}\u{1F600}z\u{FFFF}");
    let zero_at = wide.iter().position(|u| *u == 0);
    assert_eq!(zero_at, Some(wide.len() - 1));
    assert_eq!(text_from_wide(&wide[..wide.len() - 1]), "a\u{e9}\u{1F600}z\u{FFFF}");
}

#[test]
fn join_follows_windows_path_rules() {
    assert_eq!(join_path("C:\\a", "D:\\x"), "D:\\x");
    assert_eq!(join_path("C:\\a", "D:x"), "D:x");
    assert_eq!(join_path("C:\\a\\b", "\\x"), "C:\\x");
    assert_eq!(join_path("C:\\a\\b", "/x"), "C:/x");
    assert_eq!(join_path("\\\\srv\\share\\a", "\\x"), "\\\\srv\\share\\x");
    assert_eq!(join_path("rel\\a", "\\x"), "\\x");
    assert_eq!(join_path("C:\\a", "\\\\srv\\s"), "\\\\srv\\s");
    assert_eq!(join_path("C:", "x"), "C:x");
    assert_eq!(join_path("C:\\a/", "b"), "C:\\a/b");
    assert_eq!(join_path("a", ""), "a\\");
    let c = Config::from_app_data(Some("E:\\Data"));
    assert_eq!(c.plugin_dir("\\evil"), "E:\\evil");
    assert_eq!(c.plugin_dir("clip"), "E:\\Data\\CapaHub\\plugins\\clip");
}
