//! The overlay windows a script draws on: what a JSON command asks for, and
//! the registry of the windows that are open under their handles.
use vstd::prelude::*;
use crate::json::{
    json_error, json_error_text, json_i64_at, json_i64_field, json_str_at, json_str_field,
    json_u64_at, json_u64_field,
};
use crate::text::{push_str, same_text, string_from_chars};

verus! {

/// A command of an overlay script, with the defaults for missing fields
/// filled in. Colours are `0xRRGGBB`.
#[derive(Debug, Clone, Copy, PartialEq, Eq, Structural)]
pub enum OverlayCommand {
    Create { x: i32, y: i32, w: i32, h: i32 },
    Freeze { handle: u32 },
    DrawRect { handle: u32, x: i32, y: i32, w: i32, h: i32, color: u32, thickness: i32 },
    DrawLine { handle: u32, x1: i32, y1: i32, x2: i32, y2: i32, color: u32, thickness: i32 },
    Clear { handle: u32 },
    Destroy { handle: u32 },
}

/// The fields of a command text as the JSON reader found them (`handle` is
/// the field `h` read as an unsigned handle, `h` the same field read as a
/// height).
pub struct OverlayFields {
    pub cmd: Option<String>,
    pub x: Option<i64>,
    pub y: Option<i64>,
    pub w: Option<i64>,
    pub h: Option<i64>,
    pub handle: Option<u64>,
    pub rw: Option<i64>,
    pub rh: Option<i64>,
    pub x1: Option<i64>,
    pub y1: Option<i64>,
    pub x2: Option<i64>,
    pub y2: Option<i64>,
    pub color: Option<u64>,
    pub thickness: Option<u64>,
}

/// The fields of a command text as plain values.
pub struct FieldValues {
    pub cmd: Option<Seq<char>>,
    pub x: Option<i64>,
    pub y: Option<i64>,
    pub w: Option<i64>,
    pub h: Option<i64>,
    pub handle: Option<u64>,
    pub rw: Option<i64>,
    pub rh: Option<i64>,
    pub x1: Option<i64>,
    pub y1: Option<i64>,
    pub x2: Option<i64>,
    pub y2: Option<i64>,
    pub color: Option<u64>,
    pub thickness: Option<u64>,
}

/// The text of an optional string.
pub open spec fn opt_text(o: Option<String>) -> Option<Seq<char>> {
    match o {
        Some(s) => Some(s@),
        None => None,
    }
}

impl View for OverlayFields {
    type V = FieldValues;

    open spec fn view(&self) -> FieldValues {
        FieldValues {
            cmd: opt_text(self.cmd),
            x: self.x,
            y: self.y,
            w: self.w,
            h: self.h,
            handle: self.handle,
            rw: self.rw,
            rh: self.rh,
            x1: self.x1,
            y1: self.y1,
            x2: self.x2,
            y2: self.y2,
            color: self.color,
            thickness: self.thickness,
        }
    }
}

/// The fields the JSON reader finds in `text`.
pub open spec fn fields_in(text: Seq<char>) -> FieldValues {
    FieldValues {
        cmd: json_str_at(text, "cmd"@),
        x: json_i64_at(text, "x"@),
        y: json_i64_at(text, "y"@),
        w: json_i64_at(text, "w"@),
        h: json_i64_at(text, "h"@),
        handle: json_u64_at(text, "h"@),
        rw: json_i64_at(text, "rw"@),
        rh: json_i64_at(text, "rh"@),
        x1: json_i64_at(text, "x1"@),
        y1: json_i64_at(text, "y1"@),
        x2: json_i64_at(text, "x2"@),
        y2: json_i64_at(text, "y2"@),
        color: json_u64_at(text, "color"@),
        thickness: json_u64_at(text, "thickness"@),
    }
}

/// A coordinate field: its low 32 bits, or 0 when missing.
pub open spec fn coord(v: Option<i64>) -> i32 {
    match v {
        Some(n) => n as i32,
        None => 0,
    }
}

/// A handle field: its low 32 bits, or 0 when missing.
pub open spec fn handle_field(v: Option<u64>) -> u32 {
    match v {
        Some(n) => n as u32,
        None => 0,
    }
}

/// A colour field: its low 32 bits, or red (`0xFF0000`) when missing.
pub open spec fn color_field(v: Option<u64>) -> u32 {
    match v {
        Some(n) => n as u32,
        None => 0xFF0000,
    }
}

/// A pen width field: its low 32 bits, or 2 when missing.
pub open spec fn thickness_field(v: Option<u64>) -> i32 {
    match v {
        Some(n) => n as i32,
        None => 2,
    }
}

/// The command named by the `cmd` field (empty when missing).
pub open spec fn cmd_name(f: FieldValues) -> Seq<char> {
    match f.cmd {
        Some(s) => s,
        None => Seq::empty(),
    }
}

/// The command the fields ask for, or the refusal of an unknown name.
pub open spec fn command_of(f: FieldValues) -> Result<OverlayCommand, Seq<char>> {
    let name = cmd_name(f);
    if name == "create"@ {
        Ok(OverlayCommand::Create { x: coord(f.x), y: coord(f.y), w: coord(f.w), h: coord(f.h) })
    } else if name == "freeze"@ {
        Ok(OverlayCommand::Freeze { handle: handle_field(f.handle) })
    } else if name == "draw_rect"@ {
        Ok(
            OverlayCommand::DrawRect {
                handle: handle_field(f.handle),
                x: coord(f.x),
                y: coord(f.y),
                w: coord(f.rw),
                h: coord(f.rh),
                color: color_field(f.color),
                thickness: thickness_field(f.thickness),
            },
        )
    } else if name == "draw_line"@ {
        Ok(
            OverlayCommand::DrawLine {
                handle: handle_field(f.handle),
                x1: coord(f.x1),
                y1: coord(f.y1),
                x2: coord(f.x2),
                y2: coord(f.y2),
                color: color_field(f.color),
                thickness: thickness_field(f.thickness),
            },
        )
    } else if name == "clear"@ {
        Ok(OverlayCommand::Clear { handle: handle_field(f.handle) })
    } else if name == "destroy"@ {
        Ok(OverlayCommand::Destroy { handle: handle_field(f.handle) })
    } else {
        Err("unknown cmd: "@ + name)
    }
}

/// A result with its error taken by its text.
pub open spec fn outcome_text<T>(r: Result<T, String>) -> Result<T, Seq<char>> {
    match r {
        Ok(v) => Ok(v),
        Err(e) => Err(e@),
    }
}

fn coord_of(v: Option<i64>) -> (r: i32)
    ensures
        r == coord(v),
{
    match v {
        Some(n) => n as i32,
        None => 0,
    }
}

fn handle_of(v: Option<u64>) -> (r: u32)
    ensures
        r == handle_field(v),
{
    match v {
        Some(n) => n as u32,
        None => 0,
    }
}

fn color_of(v: Option<u64>) -> (r: u32)
    ensures
        r == color_field(v),
{
    match v {
        Some(n) => n as u32,
        None => 0xFF0000,
    }
}

fn thickness_of(v: Option<u64>) -> (r: i32)
    ensures
        r == thickness_field(v),
{
    match v {
        Some(n) => n as i32,
        None => 2,
    }
}

impl OverlayFields {
    /// Reads the fields of a command text.
    pub fn read(json: &str) -> (f: OverlayFields)
        ensures
            f@ == fields_in(json@),
    {
        OverlayFields {
            cmd: json_str_field(json, "cmd"),
            x: json_i64_field(json, "x"),
            y: json_i64_field(json, "y"),
            w: json_i64_field(json, "w"),
            h: json_i64_field(json, "h"),
            handle: json_u64_field(json, "h"),
            rw: json_i64_field(json, "rw"),
            rh: json_i64_field(json, "rh"),
            x1: json_i64_field(json, "x1"),
            y1: json_i64_field(json, "y1"),
            x2: json_i64_field(json, "x2"),
            y2: json_i64_field(json, "y2"),
            color: json_u64_field(json, "color"),
            thickness: json_u64_field(json, "thickness"),
        }
    }

    /// The command these fields ask for; an unknown name is refused with
    /// `unknown cmd: <name>`.
    pub fn command(&self) -> (r: Result<OverlayCommand, String>)
        ensures
            outcome_text(r) == command_of(self@),
    {
        let name: &str = match &self.cmd {
            Some(s) => s.as_str(),
            None => "",
        };
        proof {
            reveal_strlit("");
        }
        assert(name@ == cmd_name(self@));
        if same_text(name, "create") {
            Ok(
                OverlayCommand::Create {
                    x: coord_of(self.x),
                    y: coord_of(self.y),
                    w: coord_of(self.w),
                    h: coord_of(self.h),
                },
            )
        } else if same_text(name, "freeze") {
            Ok(OverlayCommand::Freeze { handle: handle_of(self.handle) })
        } else if same_text(name, "draw_rect") {
            Ok(
                OverlayCommand::DrawRect {
                    handle: handle_of(self.handle),
                    x: coord_of(self.x),
                    y: coord_of(self.y),
                    w: coord_of(self.rw),
                    h: coord_of(self.rh),
                    color: color_of(self.color),
                    thickness: thickness_of(self.thickness),
                },
            )
        } else if same_text(name, "draw_line") {
            Ok(
                OverlayCommand::DrawLine {
                    handle: handle_of(self.handle),
                    x1: coord_of(self.x1),
                    y1: coord_of(self.y1),
                    x2: coord_of(self.x2),
                    y2: coord_of(self.y2),
                    color: color_of(self.color),
                    thickness: thickness_of(self.thickness),
                },
            )
        } else if same_text(name, "clear") {
            Ok(OverlayCommand::Clear { handle: handle_of(self.handle) })
        } else if same_text(name, "destroy") {
            Ok(OverlayCommand::Destroy { handle: handle_of(self.handle) })
        } else {
            let mut buf: Vec<char> = Vec::new();
            push_str(&mut buf, "unknown cmd: ");
            push_str(&mut buf, name);
            Err(string_from_chars(&buf))
        }
    }
}

/// Reads an overlay command from its JSON text: the parser's message when
/// the text is not JSON, else the command its fields ask for.
pub fn parse_overlay_command(json: &str) -> (r: Result<OverlayCommand, String>)
    ensures
        (match json_error_text(json@) {
            Some(e) => outcome_text(r) == Err::<OverlayCommand, Seq<char>>(e),
            None => outcome_text(r) == command_of(fields_in(json@)),
        }),
{
    match json_error(json) {
        Some(e) => Err(e),
        None => {
            let f = OverlayFields::read(json);
            f.command()
        },
    }
}

/// The colour `0xRRGGBB` as the Windows GDI wants it, `0xBBGGRR` (the top
/// byte is dropped).
pub open spec fn bgr_of(rgb: u32) -> u32 {
    ((rgb % 256) * 65536 + ((rgb / 256) % 256) * 256 + (rgb / 65536) % 256) as u32
}

/// Swaps the red and blue bytes of a colour.
pub fn to_bgr(rgb: u32) -> (r: u32)
    ensures
        r == bgr_of(rgb),
{
    let r = ((rgb & 0xFF) << 16) | (rgb & 0xFF00) | ((rgb >> 16) & 0xFF);
    assert(r == ((rgb % 256) * 65536 + ((rgb / 256) % 256) * 256 + (rgb / 65536) % 256) as u32)
        by (bit_vector)
        requires
            r == ((rgb & 0xFF) << 16) | (rgb & 0xFF00) | ((rgb >> 16) & 0xFF),
    ;
    r
}

/// The virtual screen, which spans all monitors: its origin and size.
#[derive(Debug, Clone, Copy, PartialEq, Eq, Structural)]
pub struct ScreenArea {
    pub x: i32,
    pub y: i32,
    pub w: i32,
    pub h: i32,
}

/// What the host is to do for a command. Coordinates of `Create` are on
/// the screen; colours are `0xBBGGRR`.
#[derive(Debug, Clone, Copy, PartialEq, Eq, Structural)]
pub enum OverlayAction {
    /// Open a window at the given place and size; it is to be registered
    /// under `id` once it exists.
    Create { id: u32, x: i32, y: i32, w: i32, h: i32 },
    /// Copy the screen into the window and make it opaque.
    Freeze { handle: u32 },
    DrawRect { handle: u32, x: i32, y: i32, w: i32, h: i32, bgr: u32, thickness: i32 },
    DrawLine { handle: u32, x1: i32, y1: i32, x2: i32, y2: i32, bgr: u32, thickness: i32 },
    Clear { handle: u32 },
    /// Close the window, if one was open under the handle.
    Destroy { handle: u32 },
}

/// The value a script receives once the action has been carried out: the
/// new handle for `Create`, 0 for `Freeze`, the handle otherwise.
pub open spec fn reply_of(a: OverlayAction) -> u32 {
    match a {
        OverlayAction::Create { id, .. } => id,
        OverlayAction::Freeze { .. } => 0,
        OverlayAction::DrawRect { handle, .. } => handle,
        OverlayAction::DrawLine { handle, .. } => handle,
        OverlayAction::Clear { handle } => handle,
        OverlayAction::Destroy { handle } => handle,
    }
}

impl OverlayAction {
    /// The value a script receives once the action has been carried out.
    pub fn reply(&self) -> (r: u32)
        ensures
            r == reply_of(*self),
    {
        match *self {
            OverlayAction::Create { id, .. } => id,
            OverlayAction::Freeze { .. } => 0,
            OverlayAction::DrawRect { handle, .. } => handle,
            OverlayAction::DrawLine { handle, .. } => handle,
            OverlayAction::Clear { handle } => handle,
            OverlayAction::Destroy { handle } => handle,
        }
    }
}

/// The refusal of a command on a handle that is not open.
pub open spec fn invalid_handle_text() -> Seq<char> {
    "invalid handle"@
}

fn invalid_handle() -> (r: String)
    ensures
        r@ == invalid_handle_text(),
{
    String::from_str("invalid handle")
}

/// A command can be planned without overflow: a new handle is left, and the
/// window's place on the screen fits 32 bits.
pub open spec fn plan_fits(next: u32, cmd: OverlayCommand, screen: ScreenArea) -> bool {
    match cmd {
        OverlayCommand::Create { x, y, .. } => {
            &&& next < u32::MAX
            &&& i32::MIN <= screen.x + x <= i32::MAX
            &&& i32::MIN <= screen.y + y <= i32::MAX
        },
        _ => true,
    }
}

/// The action for a command, given the handles that are open and the next
/// handle to give out. Sizes of 0 mean the whole virtual screen; places are
/// taken from the screen's origin.
pub open spec fn plan_of(open: Set<u32>, next: u32, cmd: OverlayCommand, screen: ScreenArea) -> Result<
    OverlayAction,
    Seq<char>,
> {
    match cmd {
        OverlayCommand::Create { x, y, w, h } => Ok(
            OverlayAction::Create {
                id: next,
                x: (screen.x + x) as i32,
                y: (screen.y + y) as i32,
                w: if w == 0 { screen.w } else { w },
                h: if h == 0 { screen.h } else { h },
            },
        ),
        OverlayCommand::Destroy { handle } => Ok(OverlayAction::Destroy { handle }),
        OverlayCommand::Freeze { handle } => if open.contains(handle) {
            Ok(OverlayAction::Freeze { handle })
        } else {
            Err(invalid_handle_text())
        },
        OverlayCommand::DrawRect { handle, x, y, w, h, color, thickness } => if open.contains(
            handle,
        ) {
            Ok(OverlayAction::DrawRect { handle, x, y, w, h, bgr: bgr_of(color), thickness })
        } else {
            Err(invalid_handle_text())
        },
        OverlayCommand::DrawLine { handle, x1, y1, x2, y2, color, thickness } => if open.contains(
            handle,
        ) {
            Ok(OverlayAction::DrawLine { handle, x1, y1, x2, y2, bgr: bgr_of(color), thickness })
        } else {
            Err(invalid_handle_text())
        },
        OverlayCommand::Clear { handle } => if open.contains(handle) {
            Ok(OverlayAction::Clear { handle })
        } else {
            Err(invalid_handle_text())
        },
    }
}

/// The handles of a list of registered windows.
spec fn ids_of<W>(s: Seq<(u32, W)>) -> Seq<u32> {
    s.map_values(|p: (u32, W)| p.0)
}

/// A list of registered windows as a map from handle to window.
spec fn map_of<W>(s: Seq<(u32, W)>) -> Map<u32, W> {
    Map::new(|h: u32| ids_of(s).contains(h), |h: u32| s[ids_of(s).index_of(h)].1)
}

proof fn lemma_map_of_at<W>(s: Seq<(u32, W)>, k: int)
    requires
        ids_of(s).no_duplicates(),
        0 <= k < s.len(),
    ensures
        map_of(s).contains_key(s[k].0),
        map_of(s)[s[k].0] == s[k].1,
{
    let ids = ids_of(s);
    assert(ids[k] == s[k].0);
    assert(ids.contains(s[k].0));
    let j = ids.index_of(s[k].0);
    assert(0 <= j < ids.len() && ids[j] == s[k].0);
    assert(j == k);
}

proof fn lemma_map_of_push<W>(s: Seq<(u32, W)>, id: u32, w: W)
    requires
        ids_of(s).no_duplicates(),
        !ids_of(s).contains(id),
    ensures
        ids_of(s.push((id, w))) == ids_of(s).push(id),
        ids_of(s.push((id, w))).no_duplicates(),
        map_of(s.push((id, w))) == map_of(s).insert(id, w),
{
    let t = s.push((id, w));
    assert(ids_of(t) =~= ids_of(s).push(id));
    assert forall|a: int, b: int| 0 <= a < b < ids_of(t).len() implies ids_of(t)[a] != ids_of(t)[b] by {
        if b == s.len() {
            assert(ids_of(s)[a] == ids_of(t)[a]);
        } else {
            assert(ids_of(s)[a] == ids_of(t)[a] && ids_of(s)[b] == ids_of(t)[b]);
        }
    }
    assert forall|h: u32| #[trigger] map_of(t).contains_key(h) == map_of(s).insert(id, w).contains_key(h) by {
        if ids_of(t).contains(h) && h != id {
            let k = choose|k: int| 0 <= k < ids_of(t).len() && ids_of(t)[k] == h;
            assert(k < s.len());
            assert(ids_of(s)[k] == h);
        }
        if ids_of(s).contains(h) {
            let k = choose|k: int| 0 <= k < ids_of(s).len() && ids_of(s)[k] == h;
            assert(ids_of(t)[k] == h);
        }
        if h == id {
            assert(ids_of(t)[s.len() as int] == id);
        }
    }
    assert forall|h: u32| #[trigger] map_of(t).contains_key(h) implies map_of(t)[h] == map_of(
        s,
    ).insert(id, w)[h] by {
        let k = choose|k: int| 0 <= k < ids_of(t).len() && ids_of(t)[k] == h;
        lemma_map_of_at(t, k);
        if k < s.len() {
            assert(t[k] == s[k]);
            lemma_map_of_at(s, k);
        }
    }
    assert(map_of(t) =~= map_of(s).insert(id, w));
}

proof fn lemma_map_of_remove<W>(s: Seq<(u32, W)>, i: int)
    requires
        ids_of(s).no_duplicates(),
        0 <= i < s.len(),
    ensures
        ids_of(s.remove(i)) == ids_of(s).remove(i),
        ids_of(s.remove(i)).no_duplicates(),
        map_of(s.remove(i)) == map_of(s).remove(s[i].0),
{
    let t = s.remove(i);
    let h0 = s[i].0;
    assert(ids_of(t) =~= ids_of(s).remove(i));
    assert forall|a: int, b: int| 0 <= a < b < ids_of(t).len() implies ids_of(t)[a] != ids_of(t)[b] by {
        let a2 = if a < i { a } else { a + 1 };
        let b2 = if b < i { b } else { b + 1 };
        assert(ids_of(t)[a] == ids_of(s)[a2]);
        assert(ids_of(t)[b] == ids_of(s)[b2]);
    }
    assert forall|h: u32| #[trigger] map_of(t).contains_key(h) == map_of(s).remove(h0).contains_key(h) by {
        if ids_of(t).contains(h) {
            let k = choose|k: int| 0 <= k < ids_of(t).len() && ids_of(t)[k] == h;
            let k2 = if k < i { k } else { k + 1 };
            assert(ids_of(s)[k2] == h);
            assert(ids_of(s)[i] == h0);
        }
        if ids_of(s).contains(h) && h != h0 {
            let k = choose|k: int| 0 <= k < ids_of(s).len() && ids_of(s)[k] == h;
            assert(k != i);
            let k2 = if k < i { k } else { k - 1 };
            assert(ids_of(t)[k2] == h);
        }
    }
    assert forall|h: u32| #[trigger] map_of(t).contains_key(h) implies map_of(t)[h] == map_of(
        s,
    ).remove(h0)[h] by {
        let k = choose|k: int| 0 <= k < ids_of(t).len() && ids_of(t)[k] == h;
        let k2 = if k < i { k } else { k + 1 };
        assert(t[k] == s[k2]);
        lemma_map_of_at(t, k);
        lemma_map_of_at(s, k2);
    }
    assert(map_of(t) =~= map_of(s).remove(h0));
}

/// The overlay windows that are open, each under the handle it was given.
/// Handles are given out in increasing order from 1 and never twice.
pub struct OverlayRegistry<W> {
    next_id: u32,
    windows: Vec<(u32, W)>,
}

impl<W> OverlayRegistry<W> {
    /// The handles of the open windows, in the order they were registered.
    pub closed spec fn ids(&self) -> Seq<u32> {
        ids_of(self.windows@)
    }

    /// The open windows by handle.
    pub closed spec fn windows(&self) -> Map<u32, W> {
        map_of(self.windows@)
    }

    /// The handle the next created window is given.
    pub closed spec fn next_handle(&self) -> u32 {
        self.next_id
    }

    #[verifier::type_invariant]
    closed spec fn registry_inv(&self) -> bool {
        &&& self.next_id >= 1
        &&& self.ids().no_duplicates()
        &&& forall|i: int| 0 <= i < self.windows@.len() ==> #[trigger] self.windows@[i].0 < self.next_id
    }

    /// No window is open; the first handle is 1.
    pub fn new() -> (r: Self)
        ensures
            r.windows() == Map::<u32, W>::empty(),
            r.next_handle() == 1,
    {
        let r = OverlayRegistry { next_id: 1, windows: Vec::new() };
        assert(r.windows() =~= Map::<u32, W>::empty());
        r
    }

    /// Whether a window is open under `handle`.
    pub fn is_open(&self, handle: u32) -> (r: bool)
        ensures
            r == self.windows().contains_key(handle),
    {
        self.position(handle).is_some()
    }

    fn position(&self, handle: u32) -> (r: Option<usize>)
        ensures
            (match r {
                Some(i) => i < self.windows@.len() && self.windows@[i as int].0 == handle
                    && self.ids().index_of(handle) == i,
                None => !self.ids().contains(handle),
            }),
            r is Some <==> self.windows().contains_key(handle),
    {
        proof {
            use_type_invariant(self);
        }
        let mut i: usize = 0;
        while i < self.windows.len()
            invariant
                i <= self.windows@.len(),
                self.ids().no_duplicates(),
                self.ids().len() == self.windows@.len(),
                forall|j: int| 0 <= j < i ==> #[trigger] self.windows@[j].0 != handle,
            decreases self.windows@.len() - i,
        {
            if self.windows[i].0 == handle {
                proof {
                    assert(self.ids()[i as int] == handle);
                    assert(self.ids().contains(handle));
                    let j = self.ids().index_of(handle);
                    assert(0 <= j < self.ids().len() && self.ids()[j] == handle);
                }
                return Some(i);
            }
            i += 1;
        }
        proof {
            if self.ids().contains(handle) {
                let j = choose|j: int| 0 <= j < self.ids().len() && self.ids()[j] == handle;
                assert(self.windows@[j].0 == handle);
            }
        }
        None
    }

    /// The window open under `handle`, if any.
    pub fn window(&self, handle: u32) -> (r: Option<&W>)
        ensures
            (match r {
                Some(w) => self.windows().contains_key(handle) && *w == self.windows()[handle],
                None => !self.windows().contains_key(handle),
            }),
    {
        match self.position(handle) {
            Some(i) => Some(&self.windows[i].1),
            None => None,
        }
    }

    /// Whether `cmd` can be planned without overflow.
    pub fn can_plan(&self, cmd: OverlayCommand, screen: ScreenArea) -> (r: bool)
        ensures
            r == plan_fits(self.next_handle(), cmd, screen),
    {
        match cmd {
            OverlayCommand::Create { x, y, .. } => {
                self.next_id < u32::MAX && (screen.x as i64 + x as i64) >= i32::MIN as i64 && (
                screen.x as i64 + x as i64) <= i32::MAX as i64 && (screen.y as i64 + y as i64)
                    >= i32::MIN as i64 && (screen.y as i64 + y as i64) <= i32::MAX as i64
            },
            _ => true,
        }
    }

    /// Plans a command. `Create` gives out the next handle; `Destroy` takes
    /// the window out of the registry and hands it back (the handle is
    /// answered whether or not a window was open under it); any other
    /// command on a handle that is not open is refused with `invalid handle`.
    pub fn plan(&mut self, cmd: OverlayCommand, screen: ScreenArea) -> (r: (
        Result<OverlayAction, String>,
        Option<W>,
    ))
        requires
            plan_fits(old(self).next_handle(), cmd, screen),
        ensures
            outcome_text(r.0) == plan_of(
                old(self).windows().dom(),
                old(self).next_handle(),
                cmd,
                screen,
            ),
            registry_after(*old(self), *final(self), cmd, r.1),
            cmd is Create ==> old(self).next_handle() >= 1 && !old(self).windows().contains_key(
                old(self).next_handle(),
            ),
    {
        proof {
            use_type_invariant(&*self);
            if self.ids().contains(self.next_id) {
                let k = choose|k: int| 0 <= k < self.ids().len() && self.ids()[k] == self.next_id;
                assert(self.windows@[k].0 < self.next_id);
            }
        }
        match cmd {
            OverlayCommand::Create { x, y, w, h } => {
                let id = self.next_id;
                self.next_id = self.next_id + 1;
                let action = OverlayAction::Create {
                    id,
                    x: screen.x + x,
                    y: screen.y + y,
                    w: if w == 0 {
                        screen.w
                    } else {
                        w
                    },
                    h: if h == 0 {
                        screen.h
                    } else {
                        h
                    },
                };
                (Ok(action), None)
            },
            OverlayCommand::Destroy { handle } => {
                match self.position(handle) {
                    Some(i) => {
                        let mut ws: Vec<(u32, W)> = Vec::new();
                        std::mem::swap(&mut ws, &mut self.windows);
                        let ghost before = ws@;
                        proof {
                            lemma_map_of_at(before, i as int);
                            lemma_map_of_remove(before, i as int);
                        }
                        let (_, window) = ws.remove(i);
                        assert forall|j: int| 0 <= j < ws@.len() implies #[trigger] ws@[j].0
                            < self.next_id by {
                            let j2 = if j < i { j } else { j + 1 };
                            assert(ws@[j] == before[j2]);
                        }
                        self.windows = ws;
                        (Ok(OverlayAction::Destroy { handle }), Some(window))
                    },
                    None => {
                        assert(old(self).windows().remove(handle) =~= old(self).windows());
                        (Ok(OverlayAction::Destroy { handle }), None)
                    },
                }
            },
            OverlayCommand::Freeze { handle } => {
                if self.is_open(handle) {
                    (Ok(OverlayAction::Freeze { handle }), None)
                } else {
                    (Err(invalid_handle()), None)
                }
            },
            OverlayCommand::DrawRect { handle, x, y, w, h, color, thickness } => {
                if self.is_open(handle) {
                    let bgr = to_bgr(color);
                    (Ok(OverlayAction::DrawRect { handle, x, y, w, h, bgr, thickness }), None)
                } else {
                    (Err(invalid_handle()), None)
                }
            },
            OverlayCommand::DrawLine { handle, x1, y1, x2, y2, color, thickness } => {
                if self.is_open(handle) {
                    let bgr = to_bgr(color);
                    (Ok(OverlayAction::DrawLine { handle, x1, y1, x2, y2, bgr, thickness }), None)
                } else {
                    (Err(invalid_handle()), None)
                }
            },
            OverlayCommand::Clear { handle } => {
                if self.is_open(handle) {
                    (Ok(OverlayAction::Clear { handle }), None)
                } else {
                    (Err(invalid_handle()), None)
                }
            },
        }
    }

    /// Registers the window created for a planned `Create` under its handle.
    pub fn insert(&mut self, id: u32, window: W)
        requires
            id < old(self).next_handle(),
            !old(self).windows().contains_key(id),
        ensures
            final(self).windows() == old(self).windows().insert(id, window),
            final(self).next_handle() == old(self).next_handle(),
    {
        proof {
            use_type_invariant(&*self);
        }
        let mut ws: Vec<(u32, W)> = Vec::new();
        std::mem::swap(&mut ws, &mut self.windows);
        let ghost before = ws@;
        proof {
            lemma_map_of_push(before, id, window);
        }
        ws.push((id, window));
        assert forall|j: int| 0 <= j < ws@.len() implies #[trigger] ws@[j].0 < self.next_id by {
            if j < before.len() {
                assert(ws@[j] == before[j]);
            }
        }
        self.windows = ws;
    }
}

/// How planning `cmd` leaves the registry `after`, starting from `before`,
/// with `taken` the window handed back: the next handle moves on for
/// `Create`; `Destroy` takes the window out; nothing else changes.
pub open spec fn registry_after<W>(
    before: OverlayRegistry<W>,
    after: OverlayRegistry<W>,
    cmd: OverlayCommand,
    taken: Option<W>,
) -> bool {
    &&& after.next_handle() == (if cmd is Create {
        (before.next_handle() + 1) as u32
    } else {
        before.next_handle()
    })
    &&& match cmd {
        OverlayCommand::Destroy { handle } => {
            &&& after.windows() == before.windows().remove(handle)
            &&& taken == (if before.windows().contains_key(handle) {
                Some(before.windows()[handle])
            } else {
                None
            })
        },
        _ => after.windows() == before.windows() && taken is None,
    }
}

/// The refusal of a command that comes before the overlay host is ready.
pub open spec fn not_initialized_text() -> Seq<char> {
    "not initialized"@
}

/// Plans a command text: the parser's message when the text is not JSON,
/// `not initialized` when there is no registry yet, `unknown cmd: <name>`
/// for a command name it does not know, else the plan of the command.
/// Nothing is planned (and nothing changes) when the command would overflow
/// a handle or a screen coordinate.
pub fn plan_command<W>(registry: &mut Option<OverlayRegistry<W>>, json: &str, screen: ScreenArea) -> (r:
    Option<(Result<OverlayAction, String>, Option<W>)>)
    ensures
        (match json_error_text(json@) {
            Some(e) => r is Some && outcome_text(r.unwrap().0) == Err::<OverlayAction, Seq<char>>(e)
                && r.unwrap().1 is None && *final(registry) == *old(registry),
            None => match *old(registry) {
                None => r is Some && outcome_text(r.unwrap().0) == Err::<OverlayAction, Seq<char>>(
                    not_initialized_text(),
                ) && r.unwrap().1 is None && *final(registry) == *old(registry),
                Some(reg) => match command_of(fields_in(json@)) {
                    Err(e) => r is Some && outcome_text(r.unwrap().0) == Err::<OverlayAction, Seq<char>>(e)
                        && r.unwrap().1 is None && *final(registry) == *old(registry),
                    Ok(cmd) => if plan_fits(reg.next_handle(), cmd, screen) {
                        &&& r is Some
                        &&& outcome_text(r.unwrap().0) == plan_of(
                            reg.windows().dom(),
                            reg.next_handle(),
                            cmd,
                            screen,
                        )
                        &&& (*final(registry)) is Some
                        &&& registry_after(reg, (*final(registry))->0, cmd, r.unwrap().1)
                    } else {
                        r is None && *final(registry) == *old(registry)
                    },
                },
            },
        }),
{
    if let Some(e) = json_error(json) {
        return Some((Err(e), None));
    }
    match registry {
        None => Some((Err(String::from_str("not initialized")), None)),
        Some(reg) => match OverlayFields::read(json).command() {
            Err(e) => Some((Err(e), None)),
            Ok(cmd) => {
                if reg.can_plan(cmd, screen) {
                    Some(reg.plan(cmd, screen))
                } else {
                    None
                }
            },
        },
    }
}

/// A handle whose window was destroyed is refused by every command that
/// works on an open window.
pub proof fn law_destroyed_handle_is_invalid(
    open: Set<u32>,
    next: u32,
    handle: u32,
    cmd: OverlayCommand,
    screen: ScreenArea,
)
    requires
        !(cmd is Create),
        !(cmd is Destroy),
        (match cmd {
            OverlayCommand::Freeze { handle: h } => h == handle,
            OverlayCommand::DrawRect { handle: h, .. } => h == handle,
            OverlayCommand::DrawLine { handle: h, .. } => h == handle,
            OverlayCommand::Clear { handle: h } => h == handle,
            _ => true,
        }),
    ensures
        plan_of(open.remove(handle), next, cmd, screen) == Err::<OverlayAction, Seq<char>>(
            invalid_handle_text(),
        ),
{
}

/// A window registered under a handle is found by every command on it.
pub proof fn law_registered_handle_is_valid(
    open: Set<u32>,
    next: u32,
    handle: u32,
    cmd: OverlayCommand,
    screen: ScreenArea,
)
    requires
        (match cmd {
            OverlayCommand::Freeze { handle: h } => h == handle,
            OverlayCommand::DrawRect { handle: h, .. } => h == handle,
            OverlayCommand::DrawLine { handle: h, .. } => h == handle,
            OverlayCommand::Clear { handle: h } => h == handle,
            OverlayCommand::Destroy { handle: h } => h == handle,
            OverlayCommand::Create { .. } => true,
        }),
    ensures
        plan_of(open.insert(handle), next, cmd, screen) is Ok,
{
}

/// Every field of an overlay command is read from the JSON key of its own
/// name: a window's `x`, `y`, `w`, `h`; a rectangle's corner from `x`, `y`
/// and its size from `rw`, `rh`; a line's ends from `x1`, `y1`, `x2`, `y2`;
/// a handle from `h`; colour and pen width from `color` and `thickness`.
/// Any other command name is refused by name.
pub proof fn law_command_fields_come_from_their_keys(t: Seq<char>)
    ensures
        json_str_at(t, "cmd"@) == Some("create"@) ==> command_of(fields_in(t)) == Ok::<OverlayCommand, Seq<char>>(
            OverlayCommand::Create {
                x: coord(json_i64_at(t, "x"@)),
                y: coord(json_i64_at(t, "y"@)),
                w: coord(json_i64_at(t, "w"@)),
                h: coord(json_i64_at(t, "h"@)),
            },
        ),
        json_str_at(t, "cmd"@) == Some("freeze"@) ==> command_of(fields_in(t)) == Ok::<OverlayCommand, Seq<char>>(
            OverlayCommand::Freeze { handle: handle_field(json_u64_at(t, "h"@)) },
        ),
        json_str_at(t, "cmd"@) == Some("draw_rect"@) ==> command_of(fields_in(t)) == Ok::<OverlayCommand, Seq<char>>(
            OverlayCommand::DrawRect {
                handle: handle_field(json_u64_at(t, "h"@)),
                x: coord(json_i64_at(t, "x"@)),
                y: coord(json_i64_at(t, "y"@)),
                w: coord(json_i64_at(t, "rw"@)),
                h: coord(json_i64_at(t, "rh"@)),
                color: color_field(json_u64_at(t, "color"@)),
                thickness: thickness_field(json_u64_at(t, "thickness"@)),
            },
        ),
        json_str_at(t, "cmd"@) == Some("draw_line"@) ==> command_of(fields_in(t)) == Ok::<OverlayCommand, Seq<char>>(
            OverlayCommand::DrawLine {
                handle: handle_field(json_u64_at(t, "h"@)),
                x1: coord(json_i64_at(t, "x1"@)),
                y1: coord(json_i64_at(t, "y1"@)),
                x2: coord(json_i64_at(t, "x2"@)),
                y2: coord(json_i64_at(t, "y2"@)),
                color: color_field(json_u64_at(t, "color"@)),
                thickness: thickness_field(json_u64_at(t, "thickness"@)),
            },
        ),
        json_str_at(t, "cmd"@) == Some("clear"@) ==> command_of(fields_in(t)) == Ok::<OverlayCommand, Seq<char>>(
            OverlayCommand::Clear { handle: handle_field(json_u64_at(t, "h"@)) },
        ),
        json_str_at(t, "cmd"@) == Some("destroy"@) ==> command_of(fields_in(t)) == Ok::<OverlayCommand, Seq<char>>(
            OverlayCommand::Destroy { handle: handle_field(json_u64_at(t, "h"@)) },
        ),
        (forall|n: Seq<char>| json_str_at(t, "cmd"@) == Some(n) ==> n != "create"@ && n != "freeze"@
            && n != "draw_rect"@ && n != "draw_line"@ && n != "clear"@ && n != "destroy"@)
            ==> command_of(fields_in(t)) == Err::<OverlayCommand, Seq<char>>("unknown cmd: "@ + cmd_name(fields_in(t))),
{
    reveal_strlit("create");
    reveal_strlit("freeze");
    reveal_strlit("draw_rect");
    reveal_strlit("draw_line");
    reveal_strlit("clear");
    reveal_strlit("destroy");
    assert("create"@[1] == 'r');
    assert("clear"@[1] == 'l');
    assert("freeze"@[0] == 'f');
    assert("destroy"@[0] == 'd');
    assert("draw_rect"@[0] == 'd');
    assert("draw_rect"@[1] == 'r');
    assert("draw_rect"@[5] == 'r');
    assert("draw_line"@[5] == 'l');
    assert("create"@[0] == 'c');
    assert("clear"@[0] == 'c');
    assert("create"@ != "freeze"@);
    assert("create"@ != "draw_rect"@);
    assert("create"@ != "draw_line"@);
    assert("create"@ != "clear"@);
    assert("create"@ != "destroy"@);
    assert("freeze"@ != "draw_rect"@);
    assert("freeze"@ != "draw_line"@);
    assert("freeze"@ != "clear"@);
    assert("freeze"@ != "destroy"@);
    assert("draw_rect"@ != "draw_line"@);
    assert("draw_rect"@ != "clear"@);
    assert("draw_line"@ != "clear"@);
    assert("clear"@ != "destroy"@);
    assert("destroy"@.len() == 7);
    assert("draw_rect"@.len() == 9);
    assert("draw_rect"@ != "destroy"@);
    assert("draw_line"@ != "destroy"@);
    if json_str_at(t, "cmd"@) is None {
        reveal_strlit("");
        assert(cmd_name(fields_in(t)) =~= Seq::<char>::empty());
    }
}

/// A field that is present is taken by its low 32 bits; a missing one
/// reads as 0 for a coordinate or handle, red (`0xFF0000`) for a colour and
/// 2 for a pen width.
pub proof fn law_fields_and_their_defaults(i: Option<i64>, u: Option<u64>)
    ensures
        coord(i) == (match i {
            Some(n) => n as i32,
            None => 0i32,
        }),
        handle_field(u) == (match u {
            Some(n) => n as u32,
            None => 0u32,
        }),
        color_field(u) == (match u {
            Some(n) => n as u32,
            None => 0xFF0000u32,
        }),
        thickness_field(u) == (match u {
            Some(n) => n as i32,
            None => 2i32,
        }),
{
}

} // verus!
