//! What the global input hooks make of a low-level mouse or keyboard
//! message, and how often mouse movement and event dispatch are logged.
use vstd::prelude::*;
use crate::event::{KeyDown, KeyEvent, KeyUp, MouseButton, MouseDown, MouseEvent, MouseMove, MouseUp};
use crate::text::{decimal, push_decimal, push_signed_decimal, push_str, same_text, signed_decimal, string_from_chars};

verus! {

pub const WM_MOUSEMOVE: u32 = 0x0200;
pub const WM_LBUTTONDOWN: u32 = 0x0201;
pub const WM_LBUTTONUP: u32 = 0x0202;
pub const WM_RBUTTONDOWN: u32 = 0x0204;
pub const WM_RBUTTONUP: u32 = 0x0205;
pub const WM_MBUTTONDOWN: u32 = 0x0207;
pub const WM_MBUTTONUP: u32 = 0x0208;
pub const WM_KEYDOWN: u32 = 0x0100;
pub const WM_SYSKEYDOWN: u32 = 0x0104;

/// How many moves make one movement log line.
pub const MOVES_PER_LOG: u32 = 100;

#[derive(Clone, Copy, Debug, PartialEq, Eq, Structural)]
pub enum MouseAction {
    Down,
    Move,
    Up,
}

/// The button and action of a mouse message the hook reports; other
/// messages are passed on untouched.
pub open spec fn mouse_message(msg: u32) -> Option<(MouseButton, MouseAction)> {
    if msg == WM_MOUSEMOVE {
        Some((MouseButton::NoButton, MouseAction::Move))
    } else if msg == WM_LBUTTONDOWN {
        Some((MouseButton::Left, MouseAction::Down))
    } else if msg == WM_LBUTTONUP {
        Some((MouseButton::Left, MouseAction::Up))
    } else if msg == WM_RBUTTONDOWN {
        Some((MouseButton::Right, MouseAction::Down))
    } else if msg == WM_RBUTTONUP {
        Some((MouseButton::Right, MouseAction::Up))
    } else if msg == WM_MBUTTONDOWN {
        Some((MouseButton::Middle, MouseAction::Down))
    } else if msg == WM_MBUTTONUP {
        Some((MouseButton::Middle, MouseAction::Up))
    } else {
        None
    }
}

/// The button and action of a mouse message.
pub fn classify_mouse_message(msg: u32) -> (r: Option<(MouseButton, MouseAction)>)
    ensures
        r == mouse_message(msg),
{
    if msg == WM_MOUSEMOVE {
        Some((MouseButton::NoButton, MouseAction::Move))
    } else if msg == WM_LBUTTONDOWN {
        Some((MouseButton::Left, MouseAction::Down))
    } else if msg == WM_LBUTTONUP {
        Some((MouseButton::Left, MouseAction::Up))
    } else if msg == WM_RBUTTONDOWN {
        Some((MouseButton::Right, MouseAction::Down))
    } else if msg == WM_RBUTTONUP {
        Some((MouseButton::Right, MouseAction::Up))
    } else if msg == WM_MBUTTONDOWN {
        Some((MouseButton::Middle, MouseAction::Down))
    } else if msg == WM_MBUTTONUP {
        Some((MouseButton::Middle, MouseAction::Up))
    } else {
        None
    }
}

/// The event the mouse hook publishes.
pub enum HookMouseEvent {
    Down(MouseDown),
    Move(MouseMove),
    Up(MouseUp),
}

/// The event published for a mouse message at (`x`, `y`) stamped
/// `timestamp`, or nothing for a message the hook passes on.
pub fn mouse_hook_event(msg: u32, x: i32, y: i32, timestamp: u64) -> (r: Option<HookMouseEvent>)
    ensures
        (match (r, mouse_message(msg)) {
            (None, None) => true,
            (Some(e), Some((b, a))) => {
                let me = MouseEvent { button: b, x, y, timestamp };
                match e {
                    HookMouseEvent::Down(d) => a == MouseAction::Down && d.0 == me,
                    HookMouseEvent::Move(m) => a == MouseAction::Move && m.0 == me,
                    HookMouseEvent::Up(u) => a == MouseAction::Up && u.0 == me,
                }
            },
            _ => false,
        }),
{
    match classify_mouse_message(msg) {
        None => None,
        Some((button, action)) => {
            let me = MouseEvent { button, x, y, timestamp };
            match action {
                MouseAction::Down => Some(HookMouseEvent::Down(MouseDown(me))),
                MouseAction::Move => Some(HookMouseEvent::Move(MouseMove(me))),
                MouseAction::Up => Some(HookMouseEvent::Up(MouseUp(me))),
            }
        },
    }
}

/// The name a button message is logged with.
pub open spec fn logged_button(b: MouseButton) -> Seq<char> {
    match b {
        MouseButton::Left => "Left"@,
        MouseButton::Right => "Right"@,
        MouseButton::Middle => "Middle"@,
        _ => "None"@,
    }
}

/// `<x>,<y>`.
pub open spec fn pos_text(x: i32, y: i32) -> Seq<char> {
    signed_decimal(x as int) + ","@ + signed_decimal(y as int)
}

fn push_pos(buf: &mut Vec<char>, x: i32, y: i32)
    ensures
        final(buf)@ == old(buf)@ + pos_text(x, y),
{
    push_signed_decimal(buf, x as i64);
    push_str(buf, ",");
    push_signed_decimal(buf, y as i64);
    assert(final(buf)@ =~= old(buf)@ + pos_text(x, y));
}

/// `mouse <down|up> <button> at <x>,<y>`.
pub open spec fn button_line(button: MouseButton, action: MouseAction, x: i32, y: i32) -> Seq<char> {
    "mouse "@ + (if action == MouseAction::Down { "down"@ } else { "up"@ }) + " "@ + logged_button(button) + " at "@
        + pos_text(x, y)
}

/// The log line of a button press or release.
pub fn button_log_line(button: MouseButton, action: MouseAction, x: i32, y: i32) -> (r: String)
    ensures
        r@ == button_line(button, action, x, y),
{
    let mut buf: Vec<char> = Vec::new();
    push_str(&mut buf, "mouse ");
    if action == MouseAction::Down {
        push_str(&mut buf, "down");
    } else {
        push_str(&mut buf, "up");
    }
    push_str(&mut buf, " ");
    match button {
        MouseButton::Left => push_str(&mut buf, "Left"),
        MouseButton::Right => push_str(&mut buf, "Right"),
        MouseButton::Middle => push_str(&mut buf, "Middle"),
        _ => push_str(&mut buf, "None"),
    }
    push_str(&mut buf, " at ");
    push_pos(&mut buf, x, y);
    assert(buf@ =~= button_line(button, action, x, y));
    string_from_chars(&buf)
}

/// `mouse move x<count> (<start>→<end>)`.
pub open spec fn move_line(count: u32, sx: i32, sy: i32, x: i32, y: i32) -> Seq<char> {
    "mouse move x"@ + decimal(count as nat) + " ("@ + pos_text(sx, sy) + "→"@ + pos_text(x, y) + ")"@
}

/// Counts mouse moves so that only every hundredth one is logged, with the
/// position where the run of moves started.
pub struct MoveLog {
    count: u32,
    start_x: i32,
    start_y: i32,
}

impl MoveLog {
    pub closed spec fn moves(&self) -> u32 {
        self.count
    }

    pub closed spec fn start(&self) -> (i32, i32) {
        (self.start_x, self.start_y)
    }

    #[verifier::type_invariant]
    closed spec fn below_limit(&self) -> bool {
        self.count < MOVES_PER_LOG
    }

    pub fn new() -> (m: Self)
        ensures
            m.moves() == 0,
    {
        MoveLog { count: 0, start_x: 0, start_y: 0 }
    }

    /// Counts a move to (`x`, `y`); the first move of a run records where it
    /// started. The hundredth move yields the line to log and starts a new run.
    pub fn on_move(&mut self, x: i32, y: i32) -> (line: Option<String>)
        ensures
            ({
                let start = if old(self).moves() == 0 { (x, y) } else { old(self).start() };
                let n = old(self).moves() + 1;
                if n >= MOVES_PER_LOG {
                    &&& final(self).moves() == 0
                    &&& line matches Some(l) && l@ == move_line(n as u32, start.0, start.1, x, y)
                } else {
                    &&& final(self).moves() == n
                    &&& final(self).start() == start
                    &&& line is None
                }
            }),
    {
        proof {
            use_type_invariant(&*self);
        }
        if self.count == 0 {
            self.start_x = x;
            self.start_y = y;
        }
        let n = self.count + 1;
        if n >= MOVES_PER_LOG {
            let mut buf: Vec<char> = Vec::new();
            push_str(&mut buf, "mouse move x");
            push_decimal(&mut buf, n as u64);
            push_str(&mut buf, " (");
            push_pos(&mut buf, self.start_x, self.start_y);
            push_str(&mut buf, "→");
            push_pos(&mut buf, x, y);
            push_str(&mut buf, ")");
            assert(buf@ =~= move_line(n, self.start_x, self.start_y, x, y));
            self.count = 0;
            Some(string_from_chars(&buf))
        } else {
            self.count = n;
            None
        }
    }
}

/// Mouse moves are published at a ratio of one in this many.
pub const MOVE_PUBLISH_RATIO: u32 = 3;

/// Whether a move in a run of moves is published, by its place `phase` in
/// its group of `MOVE_PUBLISH_RATIO`: the first of each group is.
pub open spec fn move_published(phase: u32) -> bool {
    phase == 0
}

/// The place in its group of the move after one at `phase`.
pub open spec fn next_phase(phase: u32) -> u32 {
    ((phase + 1) % (MOVE_PUBLISH_RATIO as int)) as u32
}

/// Throttles the mouse moves the hook publishes (3:1): of every three
/// moves, the first is published, and the other two are only counted.
pub struct MoveThrottle {
    phase: u32,
}

impl MoveThrottle {
    /// The place of the next move in its group.
    pub closed spec fn phase(&self) -> u32 {
        self.phase
    }

    #[verifier::type_invariant]
    closed spec fn phase_in_group(&self) -> bool {
        self.phase < MOVE_PUBLISH_RATIO
    }

    /// The next move starts a group.
    pub fn new() -> (t: Self)
        ensures
            t.phase() == 0,
    {
        MoveThrottle { phase: 0 }
    }

    /// Counts a move: whether it is published.
    pub fn on_move(&mut self) -> (publish: bool)
        ensures
            publish == move_published(old(self).phase()),
            final(self).phase() == next_phase(old(self).phase()),
            final(self).phase() < MOVE_PUBLISH_RATIO,
    {
        proof {
            use_type_invariant(&*self);
        }
        let publish = self.phase == 0;
        self.phase = (self.phase + 1) % MOVE_PUBLISH_RATIO;
        publish
    }
}

/// Of any three moves in a row, exactly one is published.
pub proof fn law_one_move_in_three_published(phase: u32)
    requires
        phase < MOVE_PUBLISH_RATIO,
    ensures
        ({
            let a = phase;
            let b = next_phase(a);
            let c = next_phase(b);
            (if move_published(a) { 1int } else { 0 }) + (if move_published(b) { 1int } else { 0 }) + (if move_published(c) { 1int } else { 0 }) == 1
        }),
{
}

/// The event the keyboard hook publishes.
pub enum HookKeyEvent {
    Down(KeyDown),
    Up(KeyUp),
}

/// The event published for a keyboard message: a key-down or system
/// key-down message is a press, anything else a release.
pub fn key_hook_event(msg: u32, vk_code: u32, timestamp: u64) -> (r: HookKeyEvent)
    ensures
        ({
            let pressed = msg == WM_KEYDOWN || msg == WM_SYSKEYDOWN;
            let ke = KeyEvent { vk_code, pressed, timestamp };
            match r {
                HookKeyEvent::Down(d) => pressed && d.0 == ke,
                HookKeyEvent::Up(u) => !pressed && u.0 == ke,
            }
        }),
{
    let pressed = msg == WM_KEYDOWN || msg == WM_SYSKEYDOWN;
    let ke = KeyEvent { vk_code, pressed, timestamp };
    if pressed {
        HookKeyEvent::Down(KeyDown(ke))
    } else {
        HookKeyEvent::Up(KeyUp(ke))
    }
}

/// Whether handing an event to a plugin is logged: every event is, except
/// mouse moves, of which only every hundredth (counting from the first,
/// number 0) is.
pub open spec fn dispatch_logged(event_type: Seq<char>, n: u64) -> bool {
    !(event_type == "mouse.move"@ && n % 100 != 0)
}

/// Whether handing the `n`-th event of this subscription to the plugin is logged.
pub fn should_log_dispatch(event_type: &str, n: u64) -> (r: bool)
    ensures
        r == dispatch_logged(event_type@, n),
{
    !(same_text(event_type, "mouse.move") && n % 100 != 0)
}

/// `dispatch <event type> to <plugin>`.
pub open spec fn dispatch_line(event_type: Seq<char>, plugin: Seq<char>) -> Seq<char> {
    "dispatch "@ + event_type + " to "@ + plugin
}

/// The log line of an event handed to a plugin.
pub fn dispatch_log_line(event_type: &str, plugin: &str) -> (r: String)
    ensures
        r@ == dispatch_line(event_type@, plugin@),
{
    let mut buf: Vec<char> = Vec::new();
    push_str(&mut buf, "dispatch ");
    push_str(&mut buf, event_type);
    push_str(&mut buf, " to ");
    push_str(&mut buf, plugin);
    assert(buf@ =~= dispatch_line(event_type@, plugin@));
    string_from_chars(&buf)
}

/// The hook reads a mouse message by what it says: the three button-up
/// messages, and only they, are releases; the three button-down messages,
/// and only they, are presses; a message names the left, right or middle
/// button exactly when it is that button's down or up message; a move is a
/// move with no button; every other message is passed on.
pub proof fn law_mouse_messages_mean_what_they_say(msg: u32)
    ensures
        (mouse_message(msg) matches Some((_, a)) && a == MouseAction::Up)
            <==> (msg == WM_LBUTTONUP || msg == WM_RBUTTONUP || msg == WM_MBUTTONUP),
        (mouse_message(msg) matches Some((_, a)) && a == MouseAction::Down)
            <==> (msg == WM_LBUTTONDOWN || msg == WM_RBUTTONDOWN || msg == WM_MBUTTONDOWN),
        (mouse_message(msg) matches Some((_, a)) && a == MouseAction::Move) <==> msg == WM_MOUSEMOVE,
        (mouse_message(msg) matches Some((b, _)) && b == MouseButton::Left)
            <==> (msg == WM_LBUTTONDOWN || msg == WM_LBUTTONUP),
        (mouse_message(msg) matches Some((b, _)) && b == MouseButton::Right)
            <==> (msg == WM_RBUTTONDOWN || msg == WM_RBUTTONUP),
        (mouse_message(msg) matches Some((b, _)) && b == MouseButton::Middle)
            <==> (msg == WM_MBUTTONDOWN || msg == WM_MBUTTONUP),
        (mouse_message(msg) matches Some((b, _)) && b == MouseButton::NoButton) <==> msg == WM_MOUSEMOVE,
        mouse_message(msg) is None <==> !(msg == WM_MOUSEMOVE || msg == WM_LBUTTONDOWN || msg == WM_LBUTTONUP
            || msg == WM_RBUTTONDOWN || msg == WM_RBUTTONUP || msg == WM_MBUTTONDOWN || msg == WM_MBUTTONUP),
{
}

} // verus!
