//! Events that travel over the event bus, with the type name each one is
//! published under and the argument text a script handler receives.
use vstd::prelude::*;
use crate::text::{
    decimal, escaped, signed_decimal, push_decimal, push_escaped, push_signed_decimal, push_str,
    string_from_chars,
};

verus! {

/// Something that can be published on the event bus.
pub trait Event {
    /// The type name the event is published under.
    spec fn kind(&self) -> Seq<char>;

    /// The argument text handed to a script handler (empty for none).
    spec fn repr(&self) -> Seq<char>;

    /// The mouse data the event carries, if any.
    spec fn mouse(&self) -> Option<MouseEvent>;

    fn event_type(&self) -> (r: &'static str)
        ensures
            r@ == self.kind(),
    ;

    fn js_repr(&self) -> (r: String)
        ensures
            r@ == self.repr(),
    ;

    fn mouse_event(&self) -> (r: Option<&MouseEvent>)
        ensures
            (match r {
                Some(m) => self.mouse() == Some(*m),
                None => self.mouse() is None,
            }),
    ;
}

/// An event whose type name and script argument are chosen at run time.
pub struct DynamicEvent {
    pub event_type: &'static str,
    pub repr: String,
}

impl Event for DynamicEvent {
    open spec fn kind(&self) -> Seq<char> {
        self.event_type@
    }

    open spec fn repr(&self) -> Seq<char> {
        self.repr@
    }

    open spec fn mouse(&self) -> Option<MouseEvent> {
        None
    }

    fn event_type(&self) -> (r: &'static str) {
        self.event_type
    }

    fn js_repr(&self) -> (r: String) {
        self.repr.clone()
    }

    fn mouse_event(&self) -> (r: Option<&MouseEvent>) {
        None
    }
}

#[derive(Debug, Clone, Copy, PartialEq, Eq, Structural)]
pub enum MouseButton {
    Left,
    Right,
    Middle,
    X1,
    X2,
    NoButton,
}

#[derive(Debug, Clone, Copy)]
pub struct MouseEvent {
    pub button: MouseButton,
    pub x: i32,
    pub y: i32,
    pub timestamp: u64,
}

/// The name a script sees for a mouse button; the extra buttons read as `None`.
pub open spec fn button_name(b: MouseButton) -> Seq<char> {
    match b {
        MouseButton::Left => "Left"@,
        MouseButton::Right => "Right"@,
        MouseButton::Middle => "Middle"@,
        _ => "None"@,
    }
}

/// The script object text of a mouse event:
/// `{ button: "<name>", x: <x>, y: <y>, timestamp: <t> }`.
pub open spec fn mouse_repr(me: MouseEvent) -> Seq<char> {
    "{ button: \""@ + button_name(me.button) + "\", x: "@ + signed_decimal(me.x as int)
        + ", y: "@ + signed_decimal(me.y as int) + ", timestamp: "@ + decimal(
        me.timestamp as nat,
    ) + " }"@
}

/// The script object text of a key event: `{ vk: <code>, timestamp: <t> }`.
pub open spec fn key_repr(ke: KeyEvent) -> Seq<char> {
    "{ vk: "@ + decimal(ke.vk_code as nat) + ", timestamp: "@ + decimal(ke.timestamp as nat) + " }"@
}

fn push_button_name(buf: &mut Vec<char>, b: MouseButton)
    ensures
        final(buf)@ == old(buf)@ + button_name(b),
{
    match b {
        MouseButton::Left => push_str(buf, "Left"),
        MouseButton::Right => push_str(buf, "Right"),
        MouseButton::Middle => push_str(buf, "Middle"),
        _ => push_str(buf, "None"),
    }
}

/// Formats a mouse event as the object a script handler receives.
pub fn mouse_js_repr(me: &MouseEvent) -> (r: String)
    ensures
        r@ == mouse_repr(*me),
{
    let mut buf: Vec<char> = Vec::new();
    push_str(&mut buf, "{ button: \"");
    push_button_name(&mut buf, me.button);
    push_str(&mut buf, "\", x: ");
    push_signed_decimal(&mut buf, me.x as i64);
    push_str(&mut buf, ", y: ");
    push_signed_decimal(&mut buf, me.y as i64);
    push_str(&mut buf, ", timestamp: ");
    push_decimal(&mut buf, me.timestamp);
    push_str(&mut buf, " }");
    assert(buf@ =~= mouse_repr(*me));
    string_from_chars(&buf)
}

fn key_js_repr(ke: &KeyEvent) -> (r: String)
    ensures
        r@ == key_repr(*ke),
{
    let mut buf: Vec<char> = Vec::new();
    push_str(&mut buf, "{ vk: ");
    push_decimal(&mut buf, ke.vk_code as u64);
    push_str(&mut buf, ", timestamp: ");
    push_decimal(&mut buf, ke.timestamp);
    push_str(&mut buf, " }");
    assert(buf@ =~= key_repr(*ke));
    string_from_chars(&buf)
}

fn empty_repr() -> (r: String)
    ensures
        r@ == Seq::<char>::empty(),
{
    String::new()
}

impl Event for MouseEvent {
    open spec fn kind(&self) -> Seq<char> {
        "mouse.event"@
    }

    open spec fn repr(&self) -> Seq<char> {
        Seq::empty()
    }

    open spec fn mouse(&self) -> Option<MouseEvent> {
        Some(*self)
    }

    fn event_type(&self) -> (r: &'static str) {
        "mouse.event"
    }

    fn js_repr(&self) -> (r: String) {
        empty_repr()
    }

    fn mouse_event(&self) -> (r: Option<&MouseEvent>) {
        Some(self)
    }
}

pub struct MouseDown(pub MouseEvent);

impl Event for MouseDown {
    open spec fn kind(&self) -> Seq<char> {
        "mouse.down"@
    }

    open spec fn repr(&self) -> Seq<char> {
        mouse_repr(self.0)
    }

    open spec fn mouse(&self) -> Option<MouseEvent> {
        Some(self.0)
    }

    fn event_type(&self) -> (r: &'static str) {
        "mouse.down"
    }

    fn js_repr(&self) -> (r: String) {
        mouse_js_repr(&self.0)
    }

    fn mouse_event(&self) -> (r: Option<&MouseEvent>) {
        Some(&self.0)
    }
}

pub struct MouseMove(pub MouseEvent);

impl Event for MouseMove {
    open spec fn kind(&self) -> Seq<char> {
        "mouse.move"@
    }

    open spec fn repr(&self) -> Seq<char> {
        mouse_repr(self.0)
    }

    open spec fn mouse(&self) -> Option<MouseEvent> {
        Some(self.0)
    }

    fn event_type(&self) -> (r: &'static str) {
        "mouse.move"
    }

    fn js_repr(&self) -> (r: String) {
        mouse_js_repr(&self.0)
    }

    fn mouse_event(&self) -> (r: Option<&MouseEvent>) {
        Some(&self.0)
    }
}

pub struct MouseUp(pub MouseEvent);

impl Event for MouseUp {
    open spec fn kind(&self) -> Seq<char> {
        "mouse.up"@
    }

    open spec fn repr(&self) -> Seq<char> {
        mouse_repr(self.0)
    }

    open spec fn mouse(&self) -> Option<MouseEvent> {
        Some(self.0)
    }

    fn event_type(&self) -> (r: &'static str) {
        "mouse.up"
    }

    fn js_repr(&self) -> (r: String) {
        mouse_js_repr(&self.0)
    }

    fn mouse_event(&self) -> (r: Option<&MouseEvent>) {
        Some(&self.0)
    }
}

#[derive(Debug, Clone, Copy)]
pub struct KeyEvent {
    pub vk_code: u32,
    pub pressed: bool,
    pub timestamp: u64,
}

pub struct KeyDown(pub KeyEvent);

impl Event for KeyDown {
    open spec fn kind(&self) -> Seq<char> {
        "keyboard.down"@
    }

    open spec fn repr(&self) -> Seq<char> {
        key_repr(self.0)
    }

    open spec fn mouse(&self) -> Option<MouseEvent> {
        None
    }

    fn event_type(&self) -> (r: &'static str) {
        "keyboard.down"
    }

    fn js_repr(&self) -> (r: String) {
        key_js_repr(&self.0)
    }

    fn mouse_event(&self) -> (r: Option<&MouseEvent>) {
        None
    }
}

pub struct KeyUp(pub KeyEvent);

impl Event for KeyUp {
    open spec fn kind(&self) -> Seq<char> {
        "keyboard.up"@
    }

    open spec fn repr(&self) -> Seq<char> {
        key_repr(self.0)
    }

    open spec fn mouse(&self) -> Option<MouseEvent> {
        None
    }

    fn event_type(&self) -> (r: &'static str) {
        "keyboard.up"
    }

    fn js_repr(&self) -> (r: String) {
        key_js_repr(&self.0)
    }

    fn mouse_event(&self) -> (r: Option<&MouseEvent>) {
        None
    }
}

pub struct AppStarted;

impl Event for AppStarted {
    open spec fn kind(&self) -> Seq<char> {
        "app.started"@
    }

    open spec fn repr(&self) -> Seq<char> {
        Seq::empty()
    }

    open spec fn mouse(&self) -> Option<MouseEvent> {
        None
    }

    fn event_type(&self) -> (r: &'static str) {
        "app.started"
    }

    fn js_repr(&self) -> (r: String) {
        empty_repr()
    }

    fn mouse_event(&self) -> (r: Option<&MouseEvent>) {
        None
    }
}

pub struct AppShutdown;

impl Event for AppShutdown {
    open spec fn kind(&self) -> Seq<char> {
        "app.shutdown"@
    }

    open spec fn repr(&self) -> Seq<char> {
        Seq::empty()
    }

    open spec fn mouse(&self) -> Option<MouseEvent> {
        None
    }

    fn event_type(&self) -> (r: &'static str) {
        "app.shutdown"
    }

    fn js_repr(&self) -> (r: String) {
        empty_repr()
    }

    fn mouse_event(&self) -> (r: Option<&MouseEvent>) {
        None
    }
}

pub struct PluginLoaded {
    pub name: String,
}

impl Event for PluginLoaded {
    open spec fn kind(&self) -> Seq<char> {
        "plugin.loaded"@
    }

    open spec fn repr(&self) -> Seq<char> {
        Seq::empty()
    }

    open spec fn mouse(&self) -> Option<MouseEvent> {
        None
    }

    fn event_type(&self) -> (r: &'static str) {
        "plugin.loaded"
    }

    fn js_repr(&self) -> (r: String) {
        empty_repr()
    }

    fn mouse_event(&self) -> (r: Option<&MouseEvent>) {
        None
    }
}

pub struct PluginEnabled {
    pub name: String,
    pub needs_hook: bool,
}

impl Event for PluginEnabled {
    open spec fn kind(&self) -> Seq<char> {
        "plugin.enabled"@
    }

    open spec fn repr(&self) -> Seq<char> {
        Seq::empty()
    }

    open spec fn mouse(&self) -> Option<MouseEvent> {
        None
    }

    fn event_type(&self) -> (r: &'static str) {
        "plugin.enabled"
    }

    fn js_repr(&self) -> (r: String) {
        empty_repr()
    }

    fn mouse_event(&self) -> (r: Option<&MouseEvent>) {
        None
    }
}

pub struct PluginDisabled {
    pub name: String,
}

impl Event for PluginDisabled {
    open spec fn kind(&self) -> Seq<char> {
        "plugin.disabled"@
    }

    open spec fn repr(&self) -> Seq<char> {
        Seq::empty()
    }

    open spec fn mouse(&self) -> Option<MouseEvent> {
        None
    }

    fn event_type(&self) -> (r: &'static str) {
        "plugin.disabled"
    }

    fn js_repr(&self) -> (r: String) {
        empty_repr()
    }

    fn mouse_event(&self) -> (r: Option<&MouseEvent>) {
        None
    }
}

pub struct PluginActivate {
    pub name: String,
}

impl Event for PluginActivate {
    open spec fn kind(&self) -> Seq<char> {
        "plugin.activate"@
    }

    /// `{ name: "<name>" }`, the name taken as it is.
    open spec fn repr(&self) -> Seq<char> {
        "{ name: \""@ + self.name@ + "\" }"@
    }

    open spec fn mouse(&self) -> Option<MouseEvent> {
        None
    }

    fn event_type(&self) -> (r: &'static str) {
        "plugin.activate"
    }

    fn js_repr(&self) -> (r: String) {
        let mut buf: Vec<char> = Vec::new();
        push_str(&mut buf, "{ name: \"");
        push_str(&mut buf, self.name.as_str());
        push_str(&mut buf, "\" }");
        assert(buf@ =~= self.repr());
        string_from_chars(&buf)
    }

    fn mouse_event(&self) -> (r: Option<&MouseEvent>) {
        None
    }
}

pub struct PluginAction {
    pub plugin: String,
    pub action: String,
    pub payload: String,
}

impl Event for PluginAction {
    open spec fn kind(&self) -> Seq<char> {
        "plugin.action"@
    }

    /// `{ plugin: "<p>", action: "<a>", payload: "<d>" }`, each field escaped
    /// as a double-quoted script string literal.
    open spec fn repr(&self) -> Seq<char> {
        "{ plugin: \""@ + escaped(self.plugin@) + "\", action: \""@ + escaped(self.action@)
            + "\", payload: \""@ + escaped(self.payload@) + "\" }"@
    }

    open spec fn mouse(&self) -> Option<MouseEvent> {
        None
    }

    fn event_type(&self) -> (r: &'static str) {
        "plugin.action"
    }

    fn js_repr(&self) -> (r: String) {
        let mut buf: Vec<char> = Vec::new();
        push_str(&mut buf, "{ plugin: \"");
        push_escaped(&mut buf, self.plugin.as_str());
        push_str(&mut buf, "\", action: \"");
        push_escaped(&mut buf, self.action.as_str());
        push_str(&mut buf, "\", payload: \"");
        push_escaped(&mut buf, self.payload.as_str());
        push_str(&mut buf, "\" }");
        assert(buf@ =~= self.repr());
        string_from_chars(&buf)
    }

    fn mouse_event(&self) -> (r: Option<&MouseEvent>) {
        None
    }
}

/// New text appeared on the system clipboard.
pub struct ClipboardChanged {
    pub text: String,
}

impl Event for ClipboardChanged {
    open spec fn kind(&self) -> Seq<char> {
        "clipboard.changed"@
    }

    /// The text as a double-quoted script string literal.
    open spec fn repr(&self) -> Seq<char> {
        "\""@ + escaped(self.text@) + "\""@
    }

    open spec fn mouse(&self) -> Option<MouseEvent> {
        None
    }

    fn event_type(&self) -> (r: &'static str) {
        "clipboard.changed"
    }

    fn js_repr(&self) -> (r: String) {
        let mut buf: Vec<char> = Vec::new();
        push_str(&mut buf, "\"");
        push_escaped(&mut buf, self.text.as_str());
        push_str(&mut buf, "\"");
        assert(buf@ =~= self.repr());
        string_from_chars(&buf)
    }

    fn mouse_event(&self) -> (r: Option<&MouseEvent>) {
        None
    }
}

/// The clipboard picker hotkey was pressed.
pub struct ShowClipboard;

impl Event for ShowClipboard {
    open spec fn kind(&self) -> Seq<char> {
        "hotkey.show_clipboard"@
    }

    open spec fn repr(&self) -> Seq<char> {
        Seq::empty()
    }

    open spec fn mouse(&self) -> Option<MouseEvent> {
        None
    }

    fn event_type(&self) -> (r: &'static str) {
        "hotkey.show_clipboard"
    }

    fn js_repr(&self) -> (r: String) {
        empty_repr()
    }

    fn mouse_event(&self) -> (r: Option<&MouseEvent>) {
        None
    }
}

/// A script sees the left, right and middle buttons by their own names and
/// every other button as `None`.
pub proof fn law_button_names(b: MouseButton)
    ensures
        button_name(b) == "Left"@ <==> b == MouseButton::Left,
        button_name(b) == "Right"@ <==> b == MouseButton::Right,
        button_name(b) == "Middle"@ <==> b == MouseButton::Middle,
        button_name(b) == "None"@ <==> (b == MouseButton::X1 || b == MouseButton::X2 || b == MouseButton::NoButton),
{
    reveal_strlit("Left");
    assert("Left"@.len() == 4);
    assert("Left"@[0] == 'L');
    assert("Left"@[1] == 'e');
    assert("Left"@[2] == 'f');
    assert("Left"@[3] == 't');
    reveal_strlit("Right");
    assert("Right"@.len() == 5);
    assert("Right"@[0] == 'R');
    assert("Right"@[1] == 'i');
    assert("Right"@[2] == 'g');
    assert("Right"@[3] == 'h');
    assert("Right"@[4] == 't');
    reveal_strlit("Middle");
    assert("Middle"@.len() == 6);
    assert("Middle"@[0] == 'M');
    assert("Middle"@[1] == 'i');
    assert("Middle"@[2] == 'd');
    assert("Middle"@[3] == 'd');
    assert("Middle"@[4] == 'l');
    assert("Middle"@[5] == 'e');
    reveal_strlit("None");
    assert("None"@.len() == 4);
    assert("None"@[0] == 'N');
    assert("None"@[1] == 'o');
    assert("None"@[2] == 'n');
    assert("None"@[3] == 'e');
}

} // verus!
