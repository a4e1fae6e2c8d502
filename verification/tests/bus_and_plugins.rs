use capahub::event::{AppStarted, MouseButton, MouseDown, MouseEvent};
use capahub::eventbus::EventBus;
use capahub::plugin::Plugin;
use capahub::plugin_manager::{
    CapabilitiesDecl, EventDecl, HooksDecl, PluginError, PluginManager, PluginManifest, PluginMeta,
    PluginState,
};
use capahub::storage::{InMemoryStorage, StorageProvider};

struct Probe {
    fail_enable: bool,
    fail_load: bool,
}

impl Plugin for Probe {
    fn on_load(&mut self) -> Result<(), String> {
        if self.fail_load {
            Err("load broke".to_string())
        } else {
            Ok(())
        }
    }

    fn on_enable(&mut self) -> Result<(), String> {
        if self.fail_enable {
            Err("enable broke".to_string())
        } else {
            Ok(())
        }
    }

    fn on_unload(&mut self) {}
}

fn manifest(name: &str, mouse: Option<bool>, subscribes: &[&str]) -> PluginManifest {
    PluginManifest {
        plugin: PluginMeta {
            name: name.to_string(),
            version: "1.0.0".to_string(),
            description: Some(format!("{} plugin", name)),
        },
        hooks: HooksDecl { mouse, keyboard: None },
        events: EventDecl {
            subscribes: subscribes.iter().map(|s| s.to_string()).collect(),
            publishes: Vec::new(),
        },
        capabilities: CapabilitiesDecl { clipboard: false, input: false, overlay: false, screen: false },
    }
}

fn probe() -> Probe {
    Probe { fail_enable: false, fail_load: false }
}

fn handler(_p: &Probe, event_type: &String) -> String {
    format!("handler for {}", event_type)
}

fn down() -> MouseDown {
    MouseDown(MouseEvent { button: MouseButton::Left, x: 0, y: 0, timestamp: 0 })
}

#[test]
fn publish_reaches_subscribers_of_the_type_in_order() {
    let mut bus: EventBus<u32> = EventBus::new();
    let a = bus.subscribe("mouse.down", 1);
    let b = bus.subscribe("app.started", 2);
    let c = bus.subscribe("mouse.down", 3);
    assert!(a < b && b < c);
    let got: Vec<u32> = bus.publish(&down()).into_iter().copied().collect();
    assert_eq!(got, vec![1, 3]);
    let got: Vec<u32> = bus.publish(&AppStarted).into_iter().copied().collect();
    assert_eq!(got, vec![2]);
    assert_eq!(bus.len(), 3);
}

#[test]
fn unsubscribe_removes_only_that_subscription() {
    let mut bus: EventBus<u32> = EventBus::new();
    let a = bus.subscribe("mouse.down", 1);
    let _b = bus.subscribe("mouse.down", 2);
    bus.unsubscribe(a);
    let got: Vec<u32> = bus.publish(&down()).into_iter().copied().collect();
    assert_eq!(got, vec![2]);
    assert!(bus.handler(a).is_none());
    bus.unsubscribe(a);
    bus.unsubscribe(999);
    assert_eq!(bus.len(), 1);
}

#[test]
fn subscribe_then_unsubscribe_restores_the_bus() {
    let mut bus: EventBus<u32> = EventBus::new();
    bus.subscribe("mouse.down", 1);
    let id = bus.subscribe("mouse.down", 2);
    assert_eq!(bus.handler(id), Some(&2));
    bus.unsubscribe(id);
    let got: Vec<u32> = bus.publish(&down()).into_iter().copied().collect();
    assert_eq!(got, vec![1]);
}

#[test]
fn load_refuses_a_second_plugin_of_the_same_name() {
    let mut pm: PluginManager<Probe> = PluginManager::new();
    let ev = pm.load_plugin(manifest("clip", None, &[]), probe(), true);
    assert_eq!(ev.ok().map(|e| e.name), Some("clip".to_string()));
    assert!(pm.has_plugin("clip"));
    match pm.load_plugin(manifest("clip", None, &[]), probe(), true) {
        Err(e) => assert_eq!(e.message(), "Plugin 'clip' already loaded"),
        Ok(_) => panic!("second load accepted"),
    }
    assert_eq!(pm.plugin_names(), vec!["clip".to_string()]);
}

#[test]
fn load_reports_on_load_failure() {
    let mut pm: PluginManager<Probe> = PluginManager::new();
    let r = pm.load_plugin(manifest("bad", None, &[]), Probe { fail_enable: false, fail_load: true }, true);
    match r {
        Err(PluginError::LoadFailed(m)) => assert_eq!(m, "load broke"),
        _ => panic!("expected a load failure"),
    }
    assert!(!pm.has_plugin("bad"));
}

#[test]
fn enable_subscribes_declared_events_and_disable_removes_them() {
    let mut pm: PluginManager<Probe> = PluginManager::new();
    let mut bus: EventBus<String> = EventBus::new();
    pm.load_plugin(manifest("clip", Some(true), &["mouse.down", "app.started"]), probe(), true).ok();
    let ev = pm.enable_plugin(&mut bus, "clip", &handler).ok().unwrap();
    assert_eq!(ev.name, "clip");
    assert!(ev.needs_hook);
    assert_eq!(bus.len(), 2);
    let got: Vec<String> = bus.publish(&down()).into_iter().cloned().collect();
    assert_eq!(got, vec!["handler for mouse.down".to_string()]);
    assert_eq!(pm.names_in_state(PluginState::Enabled), vec!["clip".to_string()]);
    assert_eq!(pm.hook_requests(), vec!["clip".to_string()]);
    assert!(pm.any_hook_requested());

    let again = pm.enable_plugin(&mut bus, "clip", &handler).ok().unwrap();
    assert!(!again.needs_hook);
    assert_eq!(bus.len(), 2);

    let off = pm.disable_plugin(&mut bus, "clip");
    assert_eq!(off.map(|e| e.name), Some("clip".to_string()));
    assert_eq!(bus.len(), 0);
    assert_eq!(pm.names_in_state(PluginState::Disabled), vec!["clip".to_string()]);
    assert!(!pm.any_hook_requested());
    assert!(pm.disable_plugin(&mut bus, "clip").is_none());
}

#[test]
fn enable_errors() {
    let mut pm: PluginManager<Probe> = PluginManager::new();
    let mut bus: EventBus<String> = EventBus::new();
    match pm.enable_plugin(&mut bus, "ghost", &handler) {
        Err(e) => assert_eq!(e.message(), "Plugin not found: ghost"),
        Ok(_) => panic!("enabled a missing plugin"),
    }
    pm.load_plugin(manifest("b", None, &["mouse.down"]), Probe { fail_enable: true, fail_load: false }, true).ok();
    match pm.enable_plugin(&mut bus, "b", &handler) {
        Err(e) => assert_eq!(e.message(), "enable broke"),
        Ok(_) => panic!("enable should fail"),
    }
    assert_eq!(pm.names_in_state(PluginState::Loaded), vec!["b".to_string()]);
    assert_eq!(bus.len(), 0);
}

#[test]
fn delete_removes_plugin_and_its_subscriptions() {
    let mut pm: PluginManager<Probe> = PluginManager::new();
    let mut bus: EventBus<String> = EventBus::new();
    pm.load_plugin(manifest("h", Some(true), &["mouse.down"]), probe(), true).ok();
    pm.load_plugin(manifest("q", None, &["mouse.down"]), probe(), true).ok();
    pm.enable_plugin(&mut bus, "h", &handler).ok();
    pm.enable_plugin(&mut bus, "q", &handler).ok();
    assert_eq!(bus.len(), 2);
    let n = pm.delete_plugin(&mut bus, "h");
    assert_eq!(n.map(|e| e.name), Some("h".to_string()));
    assert_eq!(bus.len(), 1);
    assert_eq!(pm.plugin_names(), vec!["q".to_string()]);
    assert!(pm.delete_plugin(&mut bus, "q").is_none());
    assert!(pm.delete_plugin(&mut bus, "none").is_none());
    assert_eq!(pm.plugin_names().len(), 0);
}

#[test]
fn plugin_list_shows_each_plugin() {
    let mut pm: PluginManager<Probe> = PluginManager::new();
    pm.load_plugin(manifest("a", None, &[]), probe(), false).ok();
    let mut m = manifest("b", None, &[]);
    m.plugin.description = None;
    pm.load_plugin(m, probe(), false).ok();
    let list = pm.plugin_list();
    assert_eq!(list.len(), 2);
    assert_eq!(list[0].name, "a");
    assert_eq!(list[0].version, "1.0.0");
    assert_eq!(list[0].description, "a plugin");
    assert_eq!(list[1].description, "");
    assert_eq!(list[1].state, PluginState::Loaded);
    assert_eq!(pm.count_in_state(PluginState::Loaded), 2);
}

#[test]
fn enable_all_enables_loaded_plugins_in_order() {
    let mut pm: PluginManager<Probe> = PluginManager::new();
    let mut bus: EventBus<String> = EventBus::new();
    pm.load_plugin(manifest("a", Some(true), &["mouse.down"]), probe(), true).ok();
    pm.load_plugin(manifest("b", None, &["app.started"]), Probe { fail_enable: true, fail_load: false }, true).ok();
    pm.load_plugin(manifest("c", None, &["mouse.down", "mouse.up"]), probe(), true).ok();
    assert_eq!(pm.loaded_event_count(), 4);
    let results = pm.enable_all(&mut bus, &handler);
    assert_eq!(results.len(), 3);
    assert_eq!(results[0].as_ref().ok().map(|e| (e.name.clone(), e.needs_hook)), Some(("a".to_string(), true)));
    assert!(results[1].is_err());
    assert_eq!(results[2].as_ref().ok().map(|e| e.name.clone()), Some("c".to_string()));
    assert_eq!(pm.names_in_state(PluginState::Enabled), vec!["a".to_string(), "c".to_string()]);
    assert_eq!(pm.names_in_state(PluginState::Loaded), vec!["b".to_string()]);
    assert_eq!(bus.len(), 3);
    let again = pm.enable_all(&mut bus, &handler);
    assert_eq!(again.len(), 1);
}

#[test]
fn unload_all_empties_manager_and_bus() {
    let mut pm: PluginManager<Probe> = PluginManager::new();
    let mut bus: EventBus<String> = EventBus::new();
    pm.load_plugin(manifest("a", None, &["mouse.down"]), probe(), true).ok();
    pm.load_plugin(manifest("b", None, &["mouse.down"]), probe(), true).ok();
    pm.load_plugin(manifest("c", None, &["app.started"]), probe(), true).ok();
    pm.enable_plugin(&mut bus, "a", &handler).ok();
    pm.enable_plugin(&mut bus, "c", &handler).ok();
    let notices = pm.unload_all(&mut bus);
    let names: Vec<String> = notices.into_iter().map(|n| n.name).collect();
    assert_eq!(names, vec!["a".to_string(), "c".to_string()]);
    assert_eq!(pm.plugin_names().len(), 0);
    assert_eq!(bus.len(), 0);
}

#[test]
fn unload_plugin_keeps_the_others() {
    let mut pm: PluginManager<Probe> = PluginManager::new();
    pm.load_plugin(manifest("a", None, &[]), probe(), true).ok();
    pm.load_plugin(manifest("b", None, &[]), probe(), true).ok();
    assert!(pm.unload_plugin("a"));
    assert!(!pm.unload_plugin("a"));
    assert_eq!(pm.plugin_names(), vec!["b".to_string()]);
}

#[test]
fn storage_reads_back_what_was_written() {
    let mut s = InMemoryStorage::new();
    assert_eq!(s.get("p", "k"), None);
    s.set("p", "k", "v1");
    assert_eq!(s.get("p", "k"), Some("v1".to_string()));
    s.set("p", "k", "v2");
    assert_eq!(s.get("p", "k"), Some("v2".to_string()));
    assert_eq!(s.get("q", "k"), None);
    s.set("q", "k", "other");
    assert_eq!(s.get("p", "k"), Some("v2".to_string()));
    assert_eq!(s.get("q", "k"), Some("other".to_string()));
}

#[test]
fn declared_event_counts() {
    let mut pm: PluginManager<Probe> = PluginManager::new();
    pm.load_plugin(manifest("a", None, &["mouse.down", "mouse.up"]), probe(), true).ok();
    assert_eq!(pm.declared_event_count("a"), 2);
    assert_eq!(pm.declared_event_count("zz"), 0);
}

#[test]
fn storage_read_survives_later_writes_to_other_keys() {
    let mut s = InMemoryStorage::new();
    s.set("a", "k", "1");
    s.set("b", "k", "2");
    s.set("a", "j", "3");
    s.set("c", "x", "4");
    assert_eq!(s.get("a", "k"), Some("1".to_string()));
    assert_eq!(s.get("b", "k"), Some("2".to_string()));
}

#[test]
fn enabling_twice_delivers_each_event_once() {
    let mut pm: PluginManager<Probe> = PluginManager::new();
    let mut bus: EventBus<String> = EventBus::new();
    pm.load_plugin(manifest("clip", Some(true), &["mouse.down"]), probe(), true).ok();
    assert!(pm.enable_plugin(&mut bus, "clip", &handler).is_ok());
    let again = pm.enable_plugin(&mut bus, "clip", &handler).ok().unwrap();
    assert_eq!(again.name, "clip");
    assert!(!again.needs_hook);
    assert_eq!(bus.publish(&down()).len(), 1);
    assert_eq!(pm.names_in_state(PluginState::Enabled), vec!["clip".to_string()]);
}
