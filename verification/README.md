# CapaHub

CapaHub is a Windows tray host for plugins: one tray icon, one host, any
number of plugins written in JavaScript (`main.js` + `plugin.toml`) or as
native libraries. The host hooks the mouse and keyboard for the plugins that
ask for it, and offers script plugins windows, overlays, the clipboard,
keystrokes, screen captures and key/value storage through a `ctx` object.

## Layout

- `src/` is the library, written in Verus and verified: the event bus, the
  plugin manager, the log ring, storage, the script dispatch rules, the key
  syntax of `ctx.input.sendKeys`, popup and overlay decisions, the clipboard's
  UTF-16 text, plugin archive installation, and the ICO and BMP file formats.
  Each public function carries a `requires`/`ensures` contract, and the laws
  that relate several functions are stated and proved as `law_*` proof
  functions.
- `tests/` runs the library on concrete values.
- `app/` is the Windows program around the library: the message loop, the
  Win32 windows and hooks, the QuickJS engine, SQLite storage, native plugin
  loading, TOML files and WebView2 pages.
