//! The decisions of the script plugin host: which handler function an event
//! calls, the script text that calls it, how a script's log level and
//! overlay replies read, and the slots the host's callbacks are kept in.
use vstd::prelude::*;
use crate::event::Event;
use crate::logger::LogLevel;
use crate::plugin_manager::CapabilitiesDecl;
use crate::text::{texts, 
    chars_of, decimal, push_all, push_decimal, push_str, replace_char, replace_char_in, same_text,
    string_from_chars,
};

verus! {

/// `on_` followed by the event type with its dots turned into underscores.
pub open spec fn handler_name(event_type: Seq<char>) -> Seq<char> {
    "on_"@ + replace_char(event_type, '.', '_')
}

/// The name of the script function that handles `event_type`.
pub fn js_func_name(event_type: &str) -> (r: String)
    ensures
        r@ == handler_name(event_type@),
{
    let mut buf: Vec<char> = Vec::new();
    push_str(&mut buf, "on_");
    let replaced = replace_char_in(event_type, '.', '_');
    push_all(&mut buf, &replaced);
    string_from_chars(&buf)
}

/// The script that tests whether a handler for `event_type` is defined.
pub open spec fn probe_text(event_type: Seq<char>) -> Seq<char> {
    "typeof "@ + handler_name(event_type) + " === 'function'"@
}

/// Builds the script that tests whether a handler for `event_type` is defined.
pub fn handler_probe(event_type: &str) -> (r: String)
    ensures
        r@ == probe_text(event_type@),
{
    let name = js_func_name(event_type);
    let mut buf: Vec<char> = Vec::new();
    push_str(&mut buf, "typeof ");
    push_str(&mut buf, name.as_str());
    push_str(&mut buf, " === 'function'");
    assert(buf@ =~= probe_text(event_type@));
    string_from_chars(&buf)
}

/// The script that calls the handler of `event_type` with the argument text
/// `repr`, or with no argument when `repr` is empty.
pub open spec fn call_text(event_type: Seq<char>, repr: Seq<char>) -> Seq<char> {
    if repr.len() == 0 {
        handler_name(event_type) + "()"@
    } else {
        handler_name(event_type) + "("@ + repr + ")"@
    }
}

/// Builds the script that hands an event to its handler.
pub fn handler_call(event_type: &str, repr: &str) -> (r: String)
    ensures
        r@ == call_text(event_type@, repr@),
{
    let name = js_func_name(event_type);
    let rc = chars_of(repr);
    let mut buf: Vec<char> = Vec::new();
    push_str(&mut buf, name.as_str());
    if rc.len() == 0 {
        push_str(&mut buf, "()");
    } else {
        push_str(&mut buf, "(");
        push_all(&mut buf, &rc);
        push_str(&mut buf, ")");
    }
    assert(buf@ =~= call_text(event_type@, repr@));
    string_from_chars(&buf)
}

/// The event types, among `subscribes`, for which the script defines a
/// handler (`defined[k]` tells for `subscribes[k]`), in order.
pub open spec fn handled_types(subscribes: Seq<Seq<char>>, defined: Seq<bool>) -> Seq<Seq<char>>
    decreases subscribes.len(),
{
    if subscribes.len() == 0 {
        Seq::empty()
    } else {
        let rest = handled_types(subscribes.drop_last(), defined);
        if defined[subscribes.len() - 1] {
            rest.push(subscribes.last())
        } else {
            rest
        }
    }
}

/// Which events a loaded script handles.
pub struct JsDispatch {
    subs: Vec<String>,
}

impl JsDispatch {
    /// The handled event types, in subscription order.
    pub closed spec fn handled(&self) -> Seq<Seq<char>> {
        texts(self.subs@)
    }

    /// Keeps the subscribed event types whose handler the script defines.
    pub fn from_probes(subscribes: &Vec<String>, defined: &Vec<bool>) -> (d: Self)
        requires
            defined@.len() == subscribes@.len(),
        ensures
            d.handled() == handled_types(texts(subscribes@), defined@),
    {
        let ghost all = texts(subscribes@);
        let mut subs: Vec<String> = Vec::new();
        let mut i: usize = 0;
        while i < subscribes.len()
            invariant
                i <= subscribes@.len(),
                defined@.len() == subscribes@.len(),
                all == texts(subscribes@),
                texts(subs@) == handled_types(all.take(i as int), defined@),
            decreases subscribes@.len() - i,
        {
            proof {
                assert(all.take(i + 1).drop_last() =~= all.take(i as int));
            }
            if defined[i] {
                subs.push(subscribes[i].clone());
            }
            i += 1;
            proof {
                assert(texts(subs@) =~= handled_types(all.take(i as int), defined@));
            }
        }
        assert(all.take(i as int) =~= all);
        JsDispatch { subs }
    }

    /// Whether the script handles `event_type`.
    pub fn handles(&self, event_type: &str) -> (r: bool)
        ensures
            r == self.handled().contains(event_type@),
    {
        let mut i: usize = 0;
        while i < self.subs.len()
            invariant
                i <= self.subs@.len(),
                forall|k: int| 0 <= k < i ==> self.subs@[k]@ != event_type@,
            decreases self.subs@.len() - i,
        {
            if same_text(self.subs[i].as_str(), event_type) {
                assert(self.handled()[i as int] == event_type@);
                return true;
            }
            i += 1;
        }
        assert(!self.handled().contains(event_type@)) by {
            if self.handled().contains(event_type@) {
                let k = choose|k: int| 0 <= k < self.handled().len() && self.handled()[k] == event_type@;
                assert(self.subs@[k]@ == event_type@);
            }
        }
        false
    }

    /// The script that hands `event` to its handler, or nothing when the
    /// script does not handle events of its type.
    pub fn script_for<E: Event>(&self, event: &E) -> (r: Option<String>)
        ensures
            (match r {
                Some(s) => self.handled().contains(event.kind()) && s@ == call_text(event.kind(), event.repr()),
                None => !self.handled().contains(event.kind()),
            }),
    {
        let et = event.event_type();
        if !self.handles(et) {
            return None;
        }
        let repr = event.js_repr();
        Some(handler_call(et, repr.as_str()))
    }
}

/// The level a script's log call names: `debug`, `info`, `warn`, `error`,
/// and anything else as info.
pub open spec fn level_named(name: Seq<char>) -> LogLevel {
    if name == "debug"@ {
        LogLevel::Debug
    } else if name == "info"@ {
        LogLevel::Info
    } else if name == "warn"@ {
        LogLevel::Warn
    } else if name == "error"@ {
        LogLevel::Error
    } else {
        LogLevel::Info
    }
}

/// The level a script's log call names.
pub fn level_from_name(name: &str) -> (r: LogLevel)
    ensures
        r == level_named(name@),
{
    if same_text(name, "debug") {
        LogLevel::Debug
    } else if same_text(name, "info") {
        LogLevel::Info
    } else if same_text(name, "warn") {
        LogLevel::Warn
    } else if same_text(name, "error") {
        LogLevel::Error
    } else {
        LogLevel::Info
    }
}

/// What an overlay command returns to the script: the handle in decimal,
/// `error:` and the message, or `error:no provider` when the host has no
/// overlay support.
pub open spec fn overlay_reply_text(outcome: Option<Result<u32, String>>) -> Seq<char> {
    match outcome {
        Some(Ok(h)) => decimal(h as nat),
        Some(Err(e)) => "error:"@ + e@,
        None => "error:no provider"@,
    }
}

/// The text an overlay command returns to the script.
pub fn overlay_reply(outcome: &Option<Result<u32, String>>) -> (r: String)
    ensures
        r@ == overlay_reply_text(*outcome),
{
    let mut buf: Vec<char> = Vec::new();
    match outcome {
        Some(Ok(h)) => push_decimal(&mut buf, *h as u64),
        Some(Err(e)) => {
            push_str(&mut buf, "error:");
            push_str(&mut buf, e.as_str());
        },
        None => push_str(&mut buf, "error:no provider"),
    }
    assert(buf@ =~= overlay_reply_text(*outcome));
    string_from_chars(&buf)
}

/// The argument text of an item event: `{ id: <id> }`.
pub open spec fn item_repr(id: u64) -> Seq<char> {
    "{ id: "@ + decimal(id as nat) + " }"@
}

/// Builds `{ id: <id> }`.
pub fn item_event_repr(id: u64) -> (r: String)
    ensures
        r@ == item_repr(id),
{
    let mut buf: Vec<char> = Vec::new();
    push_str(&mut buf, "{ id: ");
    push_decimal(&mut buf, id);
    push_str(&mut buf, " }");
    assert(buf@ =~= item_repr(id));
    string_from_chars(&buf)
}

/// A member of the `ctx` object a script plugin is given.
#[derive(Debug, Clone, Copy, PartialEq, Eq, Structural)]
pub enum CtxMember {
    Log,
    CommitIntent,
    CloseIntent,
    SaveFileDialog,
    Clipboard,
    Input,
    Overlay,
    Screen,
    Storage,
}

/// `m` when `granted`, nothing otherwise.
pub open spec fn granted_member(granted: bool, m: CtxMember) -> Seq<CtxMember> {
    if granted {
        seq![m]
    } else {
        Seq::empty()
    }
}

/// The members of `ctx`, in the order they are set: logging, the window
/// intents and the save dialog always; `clipboard`, `input`, `overlay` and
/// `screen` only with the capability of that name; storage always.
pub open spec fn ctx_member_list(caps: CapabilitiesDecl) -> Seq<CtxMember> {
    seq![CtxMember::Log, CtxMember::CommitIntent, CtxMember::CloseIntent, CtxMember::SaveFileDialog]
        + granted_member(caps.clipboard, CtxMember::Clipboard) + granted_member(caps.input, CtxMember::Input)
        + granted_member(caps.overlay, CtxMember::Overlay) + granted_member(caps.screen, CtxMember::Screen)
        + seq![CtxMember::Storage]
}

/// The members of `ctx` a plugin with these capabilities is given.
pub fn ctx_members(caps: &CapabilitiesDecl) -> (r: Vec<CtxMember>)
    ensures
        r@ == ctx_member_list(*caps),
{
    let mut r: Vec<CtxMember> = Vec::new();
    r.push(CtxMember::Log);
    r.push(CtxMember::CommitIntent);
    r.push(CtxMember::CloseIntent);
    r.push(CtxMember::SaveFileDialog);
    let ghost base = r@;
    if caps.clipboard {
        r.push(CtxMember::Clipboard);
    }
    let ghost c1 = r@;
    assert(c1 =~= base + granted_member(caps.clipboard, CtxMember::Clipboard));
    if caps.input {
        r.push(CtxMember::Input);
    }
    let ghost c2 = r@;
    assert(c2 =~= c1 + granted_member(caps.input, CtxMember::Input));
    if caps.overlay {
        r.push(CtxMember::Overlay);
    }
    let ghost c3 = r@;
    assert(c3 =~= c2 + granted_member(caps.overlay, CtxMember::Overlay));
    if caps.screen {
        r.push(CtxMember::Screen);
    }
    let ghost c4 = r@;
    assert(c4 =~= c3 + granted_member(caps.screen, CtxMember::Screen));
    r.push(CtxMember::Storage);
    assert(r@ =~= ctx_member_list(*caps));
    r
}

/// Whether `ctx.commit_intent` acts on a request of this kind: only a
/// `window` is shown; any other kind is ignored.
pub fn shows_intent(kind: &str) -> (r: bool)
    ensures
        r == (kind@ == "window"@),
{
    same_text(kind, "window")
}

/// Each capability alone grants its own `ctx` member, whatever the others
/// are: `clipboard`, `input`, `overlay` and `screen` appear exactly when the
/// capability of that name is declared; logging, the window intents, the
/// save dialog and storage are always there; and no member appears twice.
pub proof fn law_each_capability_grants_its_member(caps: CapabilitiesDecl)
    ensures
        ctx_member_list(caps).contains(CtxMember::Clipboard) <==> caps.clipboard,
        ctx_member_list(caps).contains(CtxMember::Input) <==> caps.input,
        ctx_member_list(caps).contains(CtxMember::Overlay) <==> caps.overlay,
        ctx_member_list(caps).contains(CtxMember::Screen) <==> caps.screen,
        ctx_member_list(caps).contains(CtxMember::Log),
        ctx_member_list(caps).contains(CtxMember::CommitIntent),
        ctx_member_list(caps).contains(CtxMember::CloseIntent),
        ctx_member_list(caps).contains(CtxMember::SaveFileDialog),
        ctx_member_list(caps).contains(CtxMember::Storage),
        ctx_member_list(caps).no_duplicates(),
{
    let base = seq![CtxMember::Log, CtxMember::CommitIntent, CtxMember::CloseIntent, CtxMember::SaveFileDialog];
    let c = granted_member(caps.clipboard, CtxMember::Clipboard);
    let i = granted_member(caps.input, CtxMember::Input);
    let o = granted_member(caps.overlay, CtxMember::Overlay);
    let sc = granted_member(caps.screen, CtxMember::Screen);
    let st = seq![CtxMember::Storage];
    let l = ctx_member_list(caps);
    assert(l == base + c + i + o + sc + st);
    let k0 = base.len() as int;
    let k1 = k0 + c.len();
    let k2 = k1 + i.len();
    let k3 = k2 + o.len();
    let k4 = k3 + sc.len();
    assert(l.len() == k4 + 1);
    assert forall|m: int| 0 <= m < l.len() implies #[trigger] l[m] == (if m < k0 {
        base[m]
    } else if m < k1 {
        c[m - k0]
    } else if m < k2 {
        i[m - k1]
    } else if m < k3 {
        o[m - k2]
    } else if m < k4 {
        sc[m - k3]
    } else {
        st[m - k4]
    }) by {}
    assert(l[0] == CtxMember::Log);
    assert(l[1] == CtxMember::CommitIntent);
    assert(l[2] == CtxMember::CloseIntent);
    assert(l[3] == CtxMember::SaveFileDialog);
    assert(l[k4] == CtxMember::Storage);
    if caps.clipboard {
        assert(l[k0] == CtxMember::Clipboard);
    }
    if caps.input {
        assert(l[k1] == CtxMember::Input);
    }
    if caps.overlay {
        assert(l[k2] == CtxMember::Overlay);
    }
    if caps.screen {
        assert(l[k3] == CtxMember::Screen);
    }
}

/// A script names a log level by its lower-case name: `debug`, `warn` and
/// `error` are exactly those levels, and every other name (`info` among
/// them) logs at info.
pub proof fn law_script_level_names(n: Seq<char>)
    ensures
        level_named(n) == LogLevel::Debug <==> n == "debug"@,
        level_named(n) == LogLevel::Warn <==> n == "warn"@,
        level_named(n) == LogLevel::Error <==> n == "error"@,
        level_named(n) == LogLevel::Info <==> (n != "debug"@ && n != "warn"@ && n != "error"@),
        level_named("info"@) == LogLevel::Info,
{
    reveal_strlit("debug");
    assert("debug"@.len() == 5);
    assert("debug"@[0] == 'd');
    assert("debug"@[1] == 'e');
    assert("debug"@[2] == 'b');
    assert("debug"@[3] == 'u');
    assert("debug"@[4] == 'g');
    reveal_strlit("info");
    assert("info"@.len() == 4);
    assert("info"@[0] == 'i');
    assert("info"@[1] == 'n');
    assert("info"@[2] == 'f');
    assert("info"@[3] == 'o');
    reveal_strlit("warn");
    assert("warn"@.len() == 4);
    assert("warn"@[0] == 'w');
    assert("warn"@[1] == 'a');
    assert("warn"@[2] == 'r');
    assert("warn"@[3] == 'n');
    reveal_strlit("error");
    assert("error"@.len() == 5);
    assert("error"@[0] == 'e');
    assert("error"@[1] == 'r');
    assert("error"@[2] == 'r');
    assert("error"@[3] == 'o');
    assert("error"@[4] == 'r');
}

} // verus!
