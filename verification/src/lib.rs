//! CapaHub: the event bus, plugin registry and capability logic of a desktop
//! plugin platform, with the decisions that its host makes for input,
//! windows and archives.
pub mod text;
pub mod event;
pub mod eventbus;
pub mod plugin;
pub mod plugin_manager;
pub mod storage;
pub mod logger;
pub mod render_intent;
pub mod input;
pub mod js_runtime;
pub mod capability;
pub mod install;
pub mod icon;
pub mod hook;
pub mod host;
pub mod config;
pub mod json;
pub mod overlay;
pub mod bridge;
pub mod clipboard;
pub mod screen;
pub mod template;
