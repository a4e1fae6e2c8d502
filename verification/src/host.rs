//! The desktop host's decisions: what a hotkey publishes, what a tray click
//! or menu command asks for, and the texts of the plugin manager window.
use vstd::prelude::*;
use crate::event::{DynamicEvent, ShowClipboard};
use crate::plugin_manager::{PluginInfo, PluginState};
use crate::text::{chars_of, push_all, push_str, string_from_chars};

verus! {

/// The event a registered hotkey publishes.
pub enum HotkeyEvent {
    ShowClipboard(ShowClipboard),
    Dynamic(DynamicEvent),
}

/// Hotkey 1 (Ctrl+Shift+V) opens the clipboard picker, hotkey 2 (F5) asks
/// for a screenshot and hotkey 3 (F6) is left to plugins; other ids are not
/// the host's.
pub fn hotkey_event(id: i32) -> (r: Option<HotkeyEvent>)
    ensures
        id == 1 ==> r matches Some(HotkeyEvent::ShowClipboard(_)),
        id == 2 ==> (r matches Some(HotkeyEvent::Dynamic(d)) && d.event_type@ == "screenshot.capture"@
            && d.repr@.len() == 0),
        id == 3 ==> (r matches Some(HotkeyEvent::Dynamic(d)) && d.event_type@ == "hotkey.f6"@ && d.repr@.len() == 0),
        id != 1 && id != 2 && id != 3 ==> r is None,
{
    if id == 1 {
        Some(HotkeyEvent::ShowClipboard(ShowClipboard))
    } else if id == 2 {
        Some(HotkeyEvent::Dynamic(DynamicEvent { event_type: "screenshot.capture", repr: String::new() }))
    } else if id == 3 {
        Some(HotkeyEvent::Dynamic(DynamicEvent { event_type: "hotkey.f6", repr: String::new() }))
    } else {
        None
    }
}

pub const WM_LBUTTONDBLCLK: u32 = 0x0203;
pub const WM_RBUTTONUP: u32 = 0x0205;
pub const ID_TRAY_SHOW_LOG: usize = 1001;
pub const ID_TRAY_MANAGER: usize = 1002;
pub const ID_TRAY_EXIT: usize = 1099;
pub const ID_TRAY_PLUGIN_BASE: usize = 2000;

/// At most this many plugins are listed in the tray menu.
pub const TRAY_MENU_PLUGIN_LIMIT: usize = 100;

/// What a tray icon notification or tray menu command asks for.
#[derive(Clone, Copy, Debug, PartialEq, Eq, Structural)]
pub enum TrayAction {
    OpenManager,
    ShowMenu,
    ShowLog,
    Exit,
    /// Activate the plugin at this index of the plugin list.
    ActivatePlugin(usize),
    Nothing,
}

/// A double click on the icon opens the plugin manager; a right click shows
/// the menu.
pub fn tray_notification(mouse_msg: u32) -> (r: TrayAction)
    ensures
        r == if mouse_msg == WM_LBUTTONDBLCLK {
            TrayAction::OpenManager
        } else if mouse_msg == WM_RBUTTONUP {
            TrayAction::ShowMenu
        } else {
            TrayAction::Nothing
        },
{
    if mouse_msg == WM_LBUTTONDBLCLK {
        TrayAction::OpenManager
    } else if mouse_msg == WM_RBUTTONUP {
        TrayAction::ShowMenu
    } else {
        TrayAction::Nothing
    }
}

/// The menu command `id` with `plugin_count` plugins loaded: the fixed items,
/// or the plugin whose menu id is `ID_TRAY_PLUGIN_BASE` plus its index.
pub fn tray_command(id: usize, plugin_count: usize) -> (r: TrayAction)
    ensures
        r == if id == ID_TRAY_SHOW_LOG {
            TrayAction::ShowLog
        } else if id == ID_TRAY_MANAGER {
            TrayAction::OpenManager
        } else if id == ID_TRAY_EXIT {
            TrayAction::Exit
        } else if id >= ID_TRAY_PLUGIN_BASE && id - ID_TRAY_PLUGIN_BASE < plugin_count {
            TrayAction::ActivatePlugin((id - ID_TRAY_PLUGIN_BASE) as usize)
        } else {
            TrayAction::Nothing
        },
{
    if id == ID_TRAY_SHOW_LOG {
        TrayAction::ShowLog
    } else if id == ID_TRAY_MANAGER {
        TrayAction::OpenManager
    } else if id == ID_TRAY_EXIT {
        TrayAction::Exit
    } else if id >= ID_TRAY_PLUGIN_BASE && id - ID_TRAY_PLUGIN_BASE < plugin_count {
        TrayAction::ActivatePlugin(id - ID_TRAY_PLUGIN_BASE)
    } else {
        TrayAction::Nothing
    }
}

/// How many plugins the tray menu lists.
pub fn tray_menu_plugin_count(plugin_count: usize) -> (r: usize)
    ensures
        r == if plugin_count < TRAY_MENU_PLUGIN_LIMIT { plugin_count } else { TRAY_MENU_PLUGIN_LIMIT },
{
    if plugin_count < TRAY_MENU_PLUGIN_LIMIT {
        plugin_count
    } else {
        TRAY_MENU_PLUGIN_LIMIT
    }
}

/// The title of a plugin's web window: `<name> - CapaHub`.
pub fn plugin_window_title(name: &str) -> (r: String)
    ensures
        r@ == name@ + " - CapaHub"@,
{
    let mut buf: Vec<char> = Vec::new();
    push_str(&mut buf, name);
    push_str(&mut buf, " - CapaHub");
    string_from_chars(&buf)
}

/// The label of a plugin state.
pub open spec fn state_label(s: PluginState) -> Seq<char> {
    match s {
        PluginState::Enabled => "Enabled"@,
        PluginState::Disabled => "Disabled"@,
        PluginState::Loaded => "Loaded"@,
        PluginState::Unloaded => "Unloaded"@,
    }
}

/// `<name> v<version> [<state>]`.
pub open spec fn list_line_text(name: Seq<char>, version: Seq<char>, state: PluginState) -> Seq<char> {
    name + " v"@ + version + " ["@ + state_label(state) + "]"@
}

/// The line the plugin manager window lists a plugin with.
pub fn plugin_list_line(info: &PluginInfo) -> (r: String)
    ensures
        r@ == list_line_text(info.name@, info.version@, info.state),
{
    let mut buf: Vec<char> = Vec::new();
    push_str(&mut buf, info.name.as_str());
    push_str(&mut buf, " v");
    push_str(&mut buf, info.version.as_str());
    push_str(&mut buf, " [");
    match info.state {
        PluginState::Enabled => push_str(&mut buf, "Enabled"),
        PluginState::Disabled => push_str(&mut buf, "Disabled"),
        PluginState::Loaded => push_str(&mut buf, "Loaded"),
        PluginState::Unloaded => push_str(&mut buf, "Unloaded"),
    }
    push_str(&mut buf, "]");
    assert(buf@ =~= list_line_text(info.name@, info.version@, info.state));
    string_from_chars(&buf)
}

/// The text before the first space of `line` (nothing when it has no space).
pub open spec fn name_part(line: Seq<char>) -> Seq<char> {
    if exists|i: int| 0 <= i < line.len() && line[i] == ' ' {
        line.take(choose|i: int| 0 <= i < line.len() && line[i] == ' ' && forall|k: int| 0 <= k < i ==> line[k] != ' ')
    } else {
        Seq::empty()
    }
}

/// The plugin name at the start of a plugin list line.
pub fn name_from_list_line(line: &str) -> (r: String)
    ensures
        r@ == name_part(line@),
{
    let cs = chars_of(line);
    let mut i: usize = 0;
    while i < cs.len()
        invariant
            cs@ == line@,
            i <= cs@.len(),
            forall|k: int| 0 <= k < i ==> cs@[k] != ' ',
        decreases cs@.len() - i,
    {
        if cs[i] == ' ' {
            let mut out: Vec<char> = Vec::new();
            let mut k: usize = 0;
            while k < i
                invariant
                    k <= i,
                    i < cs@.len(),
                    out@ == cs@.take(k as int),
                decreases i - k,
            {
                out.push(cs[k]);
                k += 1;
                assert(out@ =~= cs@.take(k as int));
            }
            proof {
                let j = choose|j: int| 0 <= j < line@.len() && line@[j] == ' ' && forall|k: int| 0 <= k < j ==> line@[k] != ' ';
                assert(line@[i as int] == ' ');
                if j < i {
                    assert(cs@[j] != ' ');
                } else if j > i {
                    assert(line@[i as int] != ' ');
                }
            }
            return string_from_chars(&out);
        }
        i += 1;
    }
    let empty: Vec<char> = Vec::new();
    string_from_chars(&empty)
}

pub const ID_BTN_ENABLE: usize = 3010;
pub const ID_BTN_DISABLE: usize = 3011;
pub const ID_BTN_DELETE: usize = 3012;
pub const ID_BTN_INSTALL: usize = 3013;

/// What a plugin manager window button asks for.
#[derive(Clone, Copy, Debug, PartialEq, Eq, Structural)]
pub enum ManagerAction {
    Enable,
    Disable,
    Delete,
    Install,
    Nothing,
}

/// The action of the plugin manager window button with command id `id`.
pub fn manager_command(id: usize) -> (r: ManagerAction)
    ensures
        r == if id == ID_BTN_ENABLE {
            ManagerAction::Enable
        } else if id == ID_BTN_DISABLE {
            ManagerAction::Disable
        } else if id == ID_BTN_DELETE {
            ManagerAction::Delete
        } else if id == ID_BTN_INSTALL {
            ManagerAction::Install
        } else {
            ManagerAction::Nothing
        },
{
    if id == ID_BTN_ENABLE {
        ManagerAction::Enable
    } else if id == ID_BTN_DISABLE {
        ManagerAction::Disable
    } else if id == ID_BTN_DELETE {
        ManagerAction::Delete
    } else if id == ID_BTN_INSTALL {
        ManagerAction::Install
    } else {
        ManagerAction::Nothing
    }
}

/// The message shown when installing fails: `Install failed:` and the
/// reason on the next line.
pub fn install_failed_message(reason: &str) -> (r: String)
    ensures
        r@ == "Install failed:\n"@ + reason@,
{
    let mut buf: Vec<char> = Vec::new();
    push_str(&mut buf, "Install failed:\n");
    let rc = chars_of(reason);
    push_all(&mut buf, &rc);
    string_from_chars(&buf)
}

/// Whether a newly enabled plugin makes the host install the mouse hook: it
/// asks for it and the hook is not installed yet.
pub fn hook_needed(needs_hook: bool, hook_installed: bool) -> (r: bool)
    ensures
        r == (needs_hook && !hook_installed),
{
    needs_hook && !hook_installed
}

/// Whether a plugin leaving makes the host remove the mouse hook: it is
/// installed and no enabled plugin asks for it any more.
pub fn hook_unneeded(hook_installed: bool, any_requested: bool) -> (r: bool)
    ensures
        r == (hook_installed && !any_requested),
{
    hook_installed && !any_requested
}

/// Each plugin state is shown by its own name, and by no other state's: the
/// label is `Enabled`, `Disabled`, `Loaded` or `Unloaded` exactly for that
/// state, so two plugins in different states never show the same label.
pub proof fn law_state_labels_name_their_state(s: PluginState, t: PluginState)
    ensures
        state_label(s) == "Enabled"@ <==> s == PluginState::Enabled,
        state_label(s) == "Disabled"@ <==> s == PluginState::Disabled,
        state_label(s) == "Loaded"@ <==> s == PluginState::Loaded,
        state_label(s) == "Unloaded"@ <==> s == PluginState::Unloaded,
        state_label(s) == state_label(t) <==> s == t,
{
    reveal_strlit("Enabled");
    reveal_strlit("Disabled");
    reveal_strlit("Loaded");
    reveal_strlit("Unloaded");
    assert("Enabled"@[0] == 'E');
    assert("Disabled"@[0] == 'D');
    assert("Loaded"@[0] == 'L');
    assert("Unloaded"@[0] == 'U');
    assert("Enabled"@ != "Disabled"@);
    assert("Enabled"@ != "Loaded"@);
    assert("Enabled"@ != "Unloaded"@);
    assert("Disabled"@ != "Loaded"@);
    assert("Disabled"@ != "Unloaded"@);
    assert("Loaded"@ != "Unloaded"@);
}

} // verus!
