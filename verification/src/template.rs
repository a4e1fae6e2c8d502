//! The template plugin: a starting point for plugin authors that logs the
//! mouse and follows a drag with the right button.
use vstd::prelude::*;
use crate::event::{Event, MouseButton, MouseEvent};
use crate::plugin::Plugin;
use crate::text::{push_signed_decimal, push_str, same_text, signed_decimal, string_from_chars};

verus! {

/// The line logged when the template plugin is loaded.
pub const LOADED_MESSAGE: &'static str = "插件已加载";

/// The line logged when the template plugin is unloaded.
pub const UNLOADED_MESSAGE: &'static str = "插件已卸载";

/// The template plugin's state: whether it follows a right-button drag.
pub struct TemplatePlugin {
    pub tracking: bool,
}

/// The name the template plugin logs for a button.
pub open spec fn template_button(b: MouseButton) -> Seq<char> {
    match b {
        MouseButton::Left => "Left"@,
        MouseButton::Right => "Right"@,
        MouseButton::Middle => "Middle"@,
        _ => "Other"@,
    }
}

/// `x=<x>, y=<y>`.
pub open spec fn position_text(me: MouseEvent) -> Seq<char> {
    "x="@ + signed_decimal(me.x as int) + ", y="@ + signed_decimal(me.y as int)
}

/// The line logged for an event, and whether the plugin follows a drag
/// afterwards: a button press is logged, and a right press starts following;
/// while following, moves are logged and a release is logged and ends it.
pub open spec fn template_step(tracking: bool, kind: Seq<char>, mouse: Option<MouseEvent>) -> (
    Option<Seq<char>>,
    bool,
) {
    if kind == "mouse.down"@ {
        match mouse {
            Some(me) => (
                Some(
                    "mouse down: button="@ + template_button(me.button) + ", "@ + position_text(me),
                ),
                tracking || me.button == MouseButton::Right,
            ),
            None => (None, tracking),
        }
    } else if kind == "mouse.move"@ {
        match mouse {
            Some(me) => if tracking {
                (Some("mouse move: "@ + position_text(me)), tracking)
            } else {
                (None, tracking)
            },
            None => (None, tracking),
        }
    } else if kind == "mouse.up"@ {
        if tracking {
            match mouse {
                Some(me) => (Some("mouse up: button=Right, "@ + position_text(me)), false),
                None => (None, false),
            }
        } else {
            (None, tracking)
        }
    } else {
        (None, tracking)
    }
}

fn push_position(buf: &mut Vec<char>, me: &MouseEvent)
    ensures
        final(buf)@ == old(buf)@ + position_text(*me),
{
    push_str(buf, "x=");
    push_signed_decimal(buf, me.x as i64);
    push_str(buf, ", y=");
    push_signed_decimal(buf, me.y as i64);
    assert(final(buf)@ =~= old(buf)@ + position_text(*me));
}

impl TemplatePlugin {
    /// A fresh template plugin, not following a drag.
    pub fn new() -> (p: Self)
        ensures
            !p.tracking,
    {
        TemplatePlugin { tracking: false }
    }

    /// Handles an event: the debug line to log, if any.
    pub fn on_event<E: Event>(&mut self, event: &E) -> (line: Option<String>)
        ensures
            ({
                let (text, tracking) = template_step(old(self).tracking, event.kind(), event.mouse());
                &&& final(self).tracking == tracking
                &&& match line {
                    Some(l) => text == Some(l@),
                    None => text is None,
                }
            }),
    {
        let kind = event.event_type();
        if same_text(kind, "mouse.down") {
            match event.mouse_event() {
                Some(me) => {
                    let mut buf: Vec<char> = Vec::new();
                    push_str(&mut buf, "mouse down: button=");
                    match me.button {
                        MouseButton::Left => push_str(&mut buf, "Left"),
                        MouseButton::Right => push_str(&mut buf, "Right"),
                        MouseButton::Middle => push_str(&mut buf, "Middle"),
                        _ => push_str(&mut buf, "Other"),
                    }
                    push_str(&mut buf, ", ");
                    push_position(&mut buf, me);
                    if me.button == MouseButton::Right {
                        self.tracking = true;
                    }
                    Some(string_from_chars(&buf))
                },
                None => None,
            }
        } else if same_text(kind, "mouse.move") {
            if self.tracking {
                match event.mouse_event() {
                    Some(me) => {
                        let mut buf: Vec<char> = Vec::new();
                        push_str(&mut buf, "mouse move: ");
                        push_position(&mut buf, me);
                        Some(string_from_chars(&buf))
                    },
                    None => None,
                }
            } else {
                None
            }
        } else if same_text(kind, "mouse.up") {
            if self.tracking {
                self.tracking = false;
                match event.mouse_event() {
                    Some(me) => {
                        let mut buf: Vec<char> = Vec::new();
                        push_str(&mut buf, "mouse up: button=Right, ");
                        push_position(&mut buf, me);
                        Some(string_from_chars(&buf))
                    },
                    None => None,
                }
            } else {
                None
            }
        } else {
            None
        }
    }
}

impl Plugin for TemplatePlugin {
    fn on_unload(&mut self) {
    }
}

} // verus!
