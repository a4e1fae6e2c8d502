//! What a plugin asks the host to draw, and the decisions of the popup
//! window that shows it: where it opens, which item the pointer is over, and
//! what a key or click does.
use vstd::prelude::*;
use crate::event::{Event, MouseEvent};

verus! {

/// A request to show something. `C` is the item callback (called with an
/// item id), `D` the close callback and `M` the overlay mouse callback.
pub enum RenderIntent<C, D, M> {
    Window(WindowConfig<C, D>),
    Overlay(OverlayConfig<M>),
}

/// A render request published on the event bus.
pub struct RenderIntentEvent<C, D, M>(pub RenderIntent<C, D, M>);

impl<C, D, M> Event for RenderIntentEvent<C, D, M> {
    open spec fn kind(&self) -> Seq<char> {
        "render.intent"@
    }

    open spec fn repr(&self) -> Seq<char> {
        Seq::empty()
    }

    open spec fn mouse(&self) -> Option<MouseEvent> {
        None
    }

    fn event_type(&self) -> (r: &'static str) {
        "render.intent"
    }

    fn js_repr(&self) -> (r: String) {
        String::new()
    }

    fn mouse_event(&self) -> (r: Option<&MouseEvent>) {
        None
    }
}

pub struct WindowConfig<C, D> {
    pub width: u32,
    pub height: u32,
    pub position: WindowPosition,
    pub auto_close: bool,
    pub draws: Vec<DrawCmd>,
    pub selected_index: usize,
    pub on_hit: Option<C>,
    pub on_delete: Option<C>,
    pub on_close: Option<D>,
}

#[derive(Clone, Copy, Debug, PartialEq, Eq, Structural)]
pub enum WindowPosition {
    NearCursor,
    FollowFocus,
    ScreenCenter,
    At { x: i32, y: i32 },
}

pub struct OverlayConfig<M> {
    pub bounds: OverlayBounds,
    pub transparent: bool,
    pub draws: Vec<DrawCmd>,
    pub on_mouse: Option<M>,
}

#[derive(Clone, Copy, Debug, PartialEq, Eq, Structural)]
pub enum OverlayBounds {
    FullScreen,
    Region { x: i32, y: i32, width: u32, height: u32 },
    FollowCursor { width: u32, height: u32, offset_x: i32, offset_y: i32 },
}

#[derive(Clone)]
pub enum DrawCmd {
    Text(DrawText),
    Image(DrawImage),
    Separator(DrawSeparator),
    Rect(DrawRect),
    FillRect(DrawFillRect),
    Line(DrawLine),
    Polyline(DrawPolyline),
    HitArea(DrawHitArea),
    ClearAll,
}

#[derive(Clone)]
pub struct DrawText {
    pub x: i32,
    pub y: i32,
    pub text: String,
    pub font_size: u32,
    pub color: u32,
}

#[derive(Clone)]
pub struct DrawImage {
    pub x: i32,
    pub y: i32,
    pub width: u32,
    pub height: u32,
    pub data: Vec<u8>,
}

#[derive(Clone, Copy)]
pub struct DrawSeparator {
    pub x: i32,
    pub y: i32,
    pub width: u32,
    pub color: u32,
}

#[derive(Clone, Copy)]
pub struct DrawRect {
    pub x: i32,
    pub y: i32,
    pub width: u32,
    pub height: u32,
    pub color: u32,
    pub thickness: u32,
}

#[derive(Clone, Copy)]
pub struct DrawFillRect {
    pub x: i32,
    pub y: i32,
    pub width: u32,
    pub height: u32,
    pub color: u32,
    pub alpha: u8,
}

#[derive(Clone, Copy)]
pub struct DrawLine {
    pub x1: i32,
    pub y1: i32,
    pub x2: i32,
    pub y2: i32,
    pub color: u32,
    pub thickness: u32,
}

#[derive(Clone)]
pub struct DrawPolyline {
    pub points: Vec<(i32, i32)>,
    pub color: u32,
    pub thickness: u32,
}

#[derive(Clone, Copy, Debug, PartialEq, Eq, Structural)]
pub struct DrawHitArea {
    pub x: i32,
    pub y: i32,
    pub width: u32,
    pub height: u32,
    pub id: u64,
}

#[derive(Clone, Copy)]
pub struct OverlayMouseEvent {
    pub button: OverlayMouseButton,
    pub x: i32,
    pub y: i32,
    pub action: OverlayMouseAction,
}

#[derive(Clone, Copy, Debug, PartialEq, Eq, Structural)]
pub enum OverlayMouseButton {
    Left,
    Right,
    Middle,
    NoButton,
}

#[derive(Clone, Copy, Debug, PartialEq, Eq, Structural)]
pub enum OverlayMouseAction {
    Down,
    Move,
    Up,
}

/// Two draw commands draw the same thing.
pub open spec fn same_draw(a: DrawCmd, b: DrawCmd) -> bool {
    match (a, b) {
        (DrawCmd::Text(x), DrawCmd::Text(y)) => {
            &&& x.x == y.x
            &&& x.y == y.y
            &&& x.text@ == y.text@
            &&& x.font_size == y.font_size
            &&& x.color == y.color
        },
        (DrawCmd::Image(x), DrawCmd::Image(y)) => {
            &&& x.x == y.x
            &&& x.y == y.y
            &&& x.width == y.width
            &&& x.height == y.height
            &&& x.data@ == y.data@
        },
        (DrawCmd::Separator(x), DrawCmd::Separator(y)) => x == y,
        (DrawCmd::Rect(x), DrawCmd::Rect(y)) => x == y,
        (DrawCmd::FillRect(x), DrawCmd::FillRect(y)) => x == y,
        (DrawCmd::Line(x), DrawCmd::Line(y)) => x == y,
        (DrawCmd::Polyline(x), DrawCmd::Polyline(y)) => {
            &&& x.points@ == y.points@
            &&& x.color == y.color
            &&& x.thickness == y.thickness
        },
        (DrawCmd::HitArea(x), DrawCmd::HitArea(y)) => x == y,
        (DrawCmd::ClearAll, DrawCmd::ClearAll) => true,
        _ => false,
    }
}

fn copy_bytes(v: &Vec<u8>) -> (r: Vec<u8>)
    ensures
        r@ == v@,
{
    let mut r: Vec<u8> = Vec::new();
    let mut i: usize = 0;
    while i < v.len()
        invariant
            i <= v@.len(),
            r@ == v@.take(i as int),
        decreases v@.len() - i,
    {
        r.push(v[i]);
        i += 1;
        assert(r@ =~= v@.take(i as int));
    }
    assert(v@.take(i as int) =~= v@);
    r
}

fn copy_points(v: &Vec<(i32, i32)>) -> (r: Vec<(i32, i32)>)
    ensures
        r@ == v@,
{
    let mut r: Vec<(i32, i32)> = Vec::new();
    let mut i: usize = 0;
    while i < v.len()
        invariant
            i <= v@.len(),
            r@ == v@.take(i as int),
        decreases v@.len() - i,
    {
        r.push(v[i]);
        i += 1;
        assert(r@ =~= v@.take(i as int));
    }
    assert(v@.take(i as int) =~= v@);
    r
}

impl DrawCmd {
    /// A copy of the command.
    pub fn duplicate(&self) -> (r: DrawCmd)
        ensures
            same_draw(r, *self),
    {
        match self {
            DrawCmd::Text(t) => DrawCmd::Text(
                DrawText { x: t.x, y: t.y, text: t.text.clone(), font_size: t.font_size, color: t.color },
            ),
            DrawCmd::Image(m) => DrawCmd::Image(
                DrawImage { x: m.x, y: m.y, width: m.width, height: m.height, data: copy_bytes(&m.data) },
            ),
            DrawCmd::Separator(x) => DrawCmd::Separator(*x),
            DrawCmd::Rect(x) => DrawCmd::Rect(*x),
            DrawCmd::FillRect(x) => DrawCmd::FillRect(*x),
            DrawCmd::Line(x) => DrawCmd::Line(*x),
            DrawCmd::Polyline(p) => DrawCmd::Polyline(
                DrawPolyline { points: copy_points(&p.points), color: p.color, thickness: p.thickness },
            ),
            DrawCmd::HitArea(x) => DrawCmd::HitArea(*x),
            DrawCmd::ClearAll => DrawCmd::ClearAll,
        }
    }
}

fn copy_draws(v: &Vec<DrawCmd>) -> (r: Vec<DrawCmd>)
    ensures
        r@.len() == v@.len(),
        forall|i: int| 0 <= i < v@.len() ==> same_draw(#[trigger] r@[i], v@[i]),
{
    let mut r: Vec<DrawCmd> = Vec::new();
    let mut i: usize = 0;
    while i < v.len()
        invariant
            i <= v@.len(),
            r@.len() == i,
            forall|k: int| 0 <= k < i ==> same_draw(#[trigger] r@[k], v@[k]),
        decreases v@.len() - i,
    {
        r.push(v[i].duplicate());
        i += 1;
    }
    r
}

impl<C, D, M> RenderIntent<C, D, M> {
    /// A copy of a window request with its selection reset to the first item
    /// and without callbacks. Overlay requests cannot be copied.
    pub fn duplicate(&self) -> (r: Self)
        requires
            self is Window,
        ensures
            (match (r, *self) {
                (RenderIntent::Window(a), RenderIntent::Window(b)) => {
                    &&& a.width == b.width
                    &&& a.height == b.height
                    &&& a.position == b.position
                    &&& a.auto_close == b.auto_close
                    &&& a.draws@.len() == b.draws@.len()
                    &&& forall|i: int| 0 <= i < b.draws@.len() ==> same_draw(#[trigger] a.draws@[i], b.draws@[i])
                    &&& a.selected_index == 0
                    &&& a.on_hit is None
                    &&& a.on_delete is None
                    &&& a.on_close is None
                },
                _ => false,
            }),
    {
        match self {
            RenderIntent::Window(cfg) => RenderIntent::Window(WindowConfig {
                width: cfg.width,
                height: cfg.height,
                position: cfg.position,
                auto_close: cfg.auto_close,
                draws: copy_draws(&cfg.draws),
                selected_index: 0,
                on_hit: None,
                on_delete: None,
                on_close: None,
            }),
            RenderIntent::Overlay(_) => vstd::pervasive::unreached(),
        }
    }
}

/// The placement named by a script: `follow_focus`, `screen_center`, and
/// anything else near the cursor.
pub open spec fn position_named(name: Seq<char>) -> WindowPosition {
    if name == "follow_focus"@ {
        WindowPosition::FollowFocus
    } else if name == "screen_center"@ {
        WindowPosition::ScreenCenter
    } else {
        WindowPosition::NearCursor
    }
}

/// The placement a script names.
pub fn position_from_name(name: &str) -> (r: WindowPosition)
    ensures
        r == position_named(name@),
{
    if crate::text::same_text(name, "follow_focus") {
        WindowPosition::FollowFocus
    } else if crate::text::same_text(name, "screen_center") {
        WindowPosition::ScreenCenter
    } else {
        WindowPosition::NearCursor
    }
}

/// Integer division by two rounding toward zero.
pub open spec fn half_toward_zero(n: int) -> int {
    if n >= 0 {
        n / 2
    } else {
        -((-n) / 2)
    }
}

/// Where a `width` x `height` popup opens on a `screen_w` x `screen_h` screen
/// with the cursor at (`cursor_x`, `cursor_y`): near the cursor it sits 20
/// below the cursor, kept on screen horizontally, and flips above the cursor
/// when it would leave the bottom; centred on screen; at (200, 200) for
/// follow-focus; or at the given point.
pub open spec fn window_origin(
    width: u32,
    height: u32,
    position: WindowPosition,
    screen_w: i32,
    screen_h: i32,
    cursor_x: i32,
    cursor_y: i32,
) -> (int, int) {
    let w = (width as i32) as int;
    let h = (height as i32) as int;
    match position {
        WindowPosition::NearCursor => {
            let right = screen_w - w - 20;
            let x = if cursor_x < right { cursor_x as int } else { right };
            let x = if x > 0 { x } else { 0 };
            let y = if cursor_y + h + 20 > screen_h {
                let above = cursor_y - h - 10;
                if above > 0 { above } else { 0 }
            } else {
                cursor_y + 20
            };
            (x, y)
        },
        WindowPosition::ScreenCenter => (half_toward_zero(screen_w - w), half_toward_zero(screen_h - h)),
        WindowPosition::FollowFocus => (200, 200),
        WindowPosition::At { x, y } => (x as int, y as int),
    }
}

/// The arithmetic of `window_origin` stays within 32-bit integers.
pub open spec fn origin_in_range(
    width: u32,
    height: u32,
    position: WindowPosition,
    screen_w: i32,
    screen_h: i32,
    cursor_x: i32,
    cursor_y: i32,
) -> bool {
    let w = (width as i32) as int;
    let h = (height as i32) as int;
    let fits = |v: int| i32::MIN <= v <= i32::MAX;
    match position {
        WindowPosition::NearCursor => {
            &&& fits(screen_w - w)
            &&& fits(screen_w - w - 20)
            &&& fits(cursor_y + h)
            &&& fits(cursor_y + h + 20)
            &&& (cursor_y + h + 20 > screen_h ==> fits(cursor_y - h) && fits(cursor_y - h - 10))
            &&& (cursor_y + h + 20 <= screen_h ==> fits(cursor_y + 20))
        },
        WindowPosition::ScreenCenter => fits(screen_w - w) && fits(screen_h - h),
        _ => true,
    }
}

/// Whether the arithmetic of placing the popup stays within 32-bit integers
/// (see `origin_in_range`).
pub fn position_fits(
    width: u32,
    height: u32,
    position: WindowPosition,
    screen_w: i32,
    screen_h: i32,
    cursor_x: i32,
    cursor_y: i32,
) -> (r: bool)
    ensures
        r == origin_in_range(width, height, position, screen_w, screen_h, cursor_x, cursor_y),
{
    let w = (width as i32) as i64;
    let h = (height as i32) as i64;
    let sw = screen_w as i64;
    let sh = screen_h as i64;
    let cy = cursor_y as i64;
    let lo = i32::MIN as i64;
    let hi = i32::MAX as i64;
    match position {
        WindowPosition::NearCursor => {
            let below = cy + h + 20 > sh;
            lo <= sw - w && sw - w <= hi && lo <= sw - w - 20 && sw - w - 20 <= hi && lo <= cy + h && cy + h
                <= hi && lo <= cy + h + 20 && cy + h + 20 <= hi && (!below || (lo <= cy - h && cy - h <= hi
                && lo <= cy - h - 10 && cy - h - 10 <= hi)) && (below || (lo <= cy + 20 && cy + 20 <= hi))
        },
        WindowPosition::ScreenCenter => lo <= sw - w && sw - w <= hi && lo <= sh - h && sh - h <= hi,
        _ => true,
    }
}

/// Where the popup opens (see `window_origin`).
pub fn compute_position(
    width: u32,
    height: u32,
    position: WindowPosition,
    screen_w: i32,
    screen_h: i32,
    cursor_x: i32,
    cursor_y: i32,
) -> (r: (i32, i32))
    requires
        origin_in_range(width, height, position, screen_w, screen_h, cursor_x, cursor_y),
    ensures
        (r.0 as int, r.1 as int) == window_origin(width, height, position, screen_w, screen_h, cursor_x, cursor_y),
{
    let w = width as i32;
    let h = height as i32;
    match position {
        WindowPosition::NearCursor => {
            let right = screen_w - w - 20;
            let x = if cursor_x < right { cursor_x } else { right };
            let x = if x > 0 { x } else { 0 };
            let y = if cursor_y + h + 20 > screen_h {
                let above = cursor_y - h - 10;
                if above > 0 { above } else { 0 }
            } else {
                cursor_y + 20
            };
            (x, y)
        },
        WindowPosition::ScreenCenter => {
            let dx = screen_w - w;
            let dy = screen_h - h;
            let x = if dx >= 0 { dx / 2 } else { -((-(dx as i64)) / 2) as i32 };
            let y = if dy >= 0 { dy / 2 } else { -((-(dy as i64)) / 2) as i32 };
            (x, y)
        },
        WindowPosition::FollowFocus => (200, 200),
        WindowPosition::At { x, y } => (x, y),
    }
}

/// Whether the point (`x`, `y`) lies in the area (edges on the left and top
/// included, on the right and bottom excluded).
pub open spec fn area_contains(a: DrawHitArea, x: i32, y: i32) -> bool {
    &&& x >= a.x
    &&& x < a.x + (a.width as i32) as int
    &&& y >= a.y
    &&& y < a.y + (a.height as i32) as int
}

/// The hit areas among the draw commands, in order.
pub open spec fn hit_areas_in(draws: Seq<DrawCmd>) -> Seq<DrawHitArea>
    decreases draws.len(),
{
    if draws.len() == 0 {
        Seq::empty()
    } else {
        let rest = hit_areas_in(draws.drop_last());
        match draws.last() {
            DrawCmd::HitArea(a) => rest.push(a),
            _ => rest,
        }
    }
}

/// The first area of `areas` that contains the point.
pub open spec fn first_hit(areas: Seq<DrawHitArea>, x: i32, y: i32) -> Option<nat>
    decreases areas.len(),
{
    if areas.len() == 0 {
        None
    } else {
        match first_hit(areas.drop_last(), x, y) {
            Some(i) => Some(i),
            None => if area_contains(areas.last(), x, y) {
                Some((areas.len() - 1) as nat)
            } else {
                None
            },
        }
    }
}

/// The keys the popup reacts to.
pub const VK_RETURN: usize = 0x0D;
pub const VK_ESCAPE: usize = 0x1B;
pub const VK_UP: usize = 0x26;
pub const VK_DOWN: usize = 0x28;
pub const VK_DELETE: usize = 0x2E;

/// How long (in milliseconds) a picker stays open after losing focus.
pub const AUTO_CLOSE_GRACE_MS: u64 = 500;

/// What a key press in the popup asks for.
#[derive(Clone, Copy, Debug, PartialEq, Eq, Structural)]
pub enum PopupKeyAction {
    /// Close the popup.
    Close,
    /// Close the popup and report the item with this id as chosen, if the
    /// active index holds an item.
    Choose(Option<u64>),
    /// Close the popup and report the item with this id as deleted, if the
    /// active index holds an item.
    Delete(Option<u64>),
    /// The selection may have moved; repaint when `repaint` is set.
    Moved { repaint: bool },
    /// Leave the key to the default handling.
    Unhandled,
}

/// The state of an open popup.
pub struct PopupState {
    hit_areas: Vec<DrawHitArea>,
    selected_idx: usize,
    hovered_idx: Option<usize>,
    created_at: u64,
}

impl PopupState {
    #[verifier::type_invariant]
    closed spec fn selection_in_list(&self) -> bool {
        self.selected_idx == 0 || self.selected_idx < self.hit_areas@.len()
    }

    pub closed spec fn areas(&self) -> Seq<DrawHitArea> {
        self.hit_areas@
    }

    pub closed spec fn selected(&self) -> nat {
        self.selected_idx as nat
    }

    pub closed spec fn hovered(&self) -> Option<nat> {
        match self.hovered_idx {
            Some(i) => Some(i as nat),
            None => None,
        }
    }

    pub closed spec fn opened_at(&self) -> u64 {
        self.created_at
    }

    /// The item the popup acts on: the hovered one, else the selected one.
    pub open spec fn active(&self) -> nat {
        match self.hovered() {
            Some(i) => i,
            None => self.selected(),
        }
    }

    /// The id of the item at the active index, if there is one.
    pub open spec fn active_id(&self) -> Option<u64> {
        if self.active() < self.areas().len() {
            Some(self.areas()[self.active() as int].id)
        } else {
            None
        }
    }

    /// Opens a popup over `draws`: its items are the hit areas among them,
    /// and the requested selection is clamped to the last item.
    pub fn new(draws: &Vec<DrawCmd>, selected_index: usize, created_at: u64) -> (s: Self)
        ensures
            s.areas() == hit_areas_in(draws@),
            s.selected() == (if s.areas().len() == 0 {
                0
            } else if selected_index < s.areas().len() - 1 {
                selected_index as nat
            } else {
                (s.areas().len() - 1) as nat
            }),
            s.hovered() is None,
            s.opened_at() == created_at,
    {
        let mut areas: Vec<DrawHitArea> = Vec::new();
        let mut i: usize = 0;
        while i < draws.len()
            invariant
                i <= draws@.len(),
                areas@ == hit_areas_in(draws@.take(i as int)),
            decreases draws@.len() - i,
        {
            proof {
                assert(draws@.take(i + 1).drop_last() =~= draws@.take(i as int));
            }
            match &draws[i] {
                DrawCmd::HitArea(a) => {
                    areas.push(*a);
                },
                _ => {},
            }
            i += 1;
        }
        assert(draws@.take(i as int) =~= draws@);
        let last = if areas.len() > 0 {
            areas.len() - 1
        } else {
            0
        };
        let idx = if selected_index < last {
            selected_index
        } else {
            last
        };
        PopupState { hit_areas: areas, selected_idx: idx, hovered_idx: None, created_at }
    }

    /// The first item containing the point.
    pub fn hit_test(&self, x: i32, y: i32) -> (r: Option<usize>)
        ensures
            (match r {
                Some(i) => first_hit(self.areas(), x, y) == Some(i as nat),
                None => first_hit(self.areas(), x, y) is None,
            }),
    {
        let mut i: usize = 0;
        while i < self.hit_areas.len()
            invariant
                i <= self.hit_areas@.len(),
                first_hit(self.hit_areas@.take(i as int), x, y) is None,
            decreases self.hit_areas@.len() - i,
        {
            let a = self.hit_areas[i];
            proof {
                assert(self.hit_areas@.take(i + 1).drop_last() =~= self.hit_areas@.take(i as int));
            }
            let right = a.x as i64 + (a.width as i32) as i64;
            let bottom = a.y as i64 + (a.height as i32) as i64;
            if x >= a.x && (x as i64) < right && y >= a.y && (y as i64) < bottom {
                proof {
                    lemma_first_hit_prefix(self.hit_areas@, i as int + 1, x, y);
                }
                return Some(i);
            }
            i += 1;
        }
        assert(self.hit_areas@.take(i as int) =~= self.hit_areas@);
        None
    }

    /// The pointer moved to (`x`, `y`): the hovered item follows it. Says
    /// whether the hover changed, so that the popup is repainted.
    pub fn on_mouse_move(&mut self, x: i32, y: i32) -> (repaint: bool)
        ensures
            final(self).areas() == old(self).areas(),
            final(self).selected() == old(self).selected(),
            final(self).opened_at() == old(self).opened_at(),
            final(self).hovered() == first_hit(old(self).areas(), x, y),
            repaint == (first_hit(old(self).areas(), x, y) != old(self).hovered()),
    {
        proof {
            use_type_invariant(&*self);
        }
        let h = self.hit_test(x, y);
        let changed = match (h, self.hovered_idx) {
            (Some(a), Some(b)) => a != b,
            (None, None) => false,
            _ => true,
        };
        if changed {
            self.hovered_idx = h;
        }
        changed
    }

    /// When the popup was opened, in milliseconds.
    pub fn opened_at_ms(&self) -> (r: u64)
        ensures
            r == self.opened_at(),
    {
        self.created_at
    }

    /// The item the popup highlights: the hovered item, else the selected one.
    pub fn active_area(&self) -> (r: Option<DrawHitArea>)
        ensures
            r == (if self.active() < self.areas().len() {
                Some(self.areas()[self.active() as int])
            } else {
                None
            }),
    {
        let idx = match self.hovered_idx {
            Some(i) => i,
            None => self.selected_idx,
        };
        if idx < self.hit_areas.len() {
            Some(self.hit_areas[idx])
        } else {
            None
        }
    }

    /// The id of the item a click picks: the hovered item, else the selected one.
    pub fn on_click(&self) -> (r: Option<u64>)
        ensures
            r == self.active_id(),
    {
        let idx = match self.hovered_idx {
            Some(i) => i,
            None => self.selected_idx,
        };
        if idx < self.hit_areas.len() {
            Some(self.hit_areas[idx].id)
        } else {
            None
        }
    }

    /// A key was pressed: Escape closes, Return chooses the active item,
    /// Delete deletes it, and Up/Down move the selection within the list
    /// (only when it has more than one item).
    pub fn on_key(&mut self, vk: usize) -> (r: PopupKeyAction)
        ensures
            final(self).areas() == old(self).areas(),
            final(self).hovered() == old(self).hovered(),
            final(self).opened_at() == old(self).opened_at(),
            vk == VK_ESCAPE ==> r == PopupKeyAction::Close && final(self).selected() == old(self).selected(),
            vk == VK_RETURN ==> r == PopupKeyAction::Choose(old(self).active_id())
                && final(self).selected() == old(self).selected(),
            vk == VK_DELETE ==> r == PopupKeyAction::Delete(old(self).active_id())
                && final(self).selected() == old(self).selected(),
            vk == VK_UP ==> {
                &&& r == PopupKeyAction::Moved { repaint: old(self).areas().len() > 1 }
                &&& final(self).selected() == if old(self).areas().len() > 1 && old(self).selected() > 0 {
                    (old(self).selected() - 1) as nat
                } else {
                    old(self).selected()
                }
            },
            vk == VK_DOWN ==> {
                &&& r == PopupKeyAction::Moved { repaint: old(self).areas().len() > 1 }
                &&& final(self).selected() == if old(self).areas().len() > 1 && old(self).selected() + 1
                    < old(self).areas().len() {
                    old(self).selected() + 1
                } else {
                    old(self).selected()
                }
            },
            vk != VK_ESCAPE && vk != VK_RETURN && vk != VK_DELETE && vk != VK_UP && vk != VK_DOWN ==> r
                == PopupKeyAction::Unhandled && final(self).selected() == old(self).selected(),
    {
        proof {
            use_type_invariant(&*self);
        }
        if vk == VK_ESCAPE {
            PopupKeyAction::Close
        } else if vk == VK_RETURN {
            PopupKeyAction::Choose(self.on_click())
        } else if vk == VK_DELETE {
            PopupKeyAction::Delete(self.on_click())
        } else if vk == VK_UP || vk == VK_DOWN {
            let len = self.hit_areas.len();
            if len > 1 {
                if vk == VK_UP && self.selected_idx > 0 {
                    self.selected_idx = self.selected_idx - 1;
                } else if vk == VK_DOWN && self.selected_idx + 1 < len {
                    self.selected_idx = self.selected_idx + 1;
                }
            }
            PopupKeyAction::Moved { repaint: len > 1 }
        } else {
            PopupKeyAction::Unhandled
        }
    }

    /// Whether losing focus at time `now` closes the popup: only a picker
    /// (a popup with items) closes, and only once its grace time has passed.
    pub fn closes_on_deactivate(&self, now: u64) -> (r: bool)
        requires
            now >= self.opened_at(),
        ensures
            r == (now - self.opened_at() > AUTO_CLOSE_GRACE_MS && self.areas().len() > 0),
    {
        now - self.created_at > AUTO_CLOSE_GRACE_MS && self.hit_areas.len() > 0
    }
}

/// When no area of a prefix contains the point and the next one does, that
/// next one is the first hit.
proof fn lemma_first_hit_prefix(areas: Seq<DrawHitArea>, n: int, x: i32, y: i32)
    requires
        0 < n <= areas.len(),
        first_hit(areas.take(n - 1), x, y) is None,
        area_contains(areas[n - 1], x, y),
    ensures
        first_hit(areas, x, y) == Some((n - 1) as nat),
    decreases areas.len(),
{
    let t = areas.take(n);
    assert(t.drop_last() =~= areas.take(n - 1));
    if n < areas.len() {
        assert(areas.drop_last().take(n) =~= t);
        assert(areas.drop_last().take(n - 1) =~= areas.take(n - 1));
        lemma_first_hit_prefix(areas.drop_last(), n, x, y);
    } else {
        assert(t =~= areas);
    }
}

/// A script names a placement: `follow_focus` and `screen_center` are
/// exactly those placements, and any other name places the window near the
/// cursor.
pub proof fn law_position_names(n: Seq<char>)
    ensures
        position_named(n) == WindowPosition::FollowFocus <==> n == "follow_focus"@,
        position_named(n) == WindowPosition::ScreenCenter <==> n == "screen_center"@,
        position_named(n) == WindowPosition::NearCursor <==> (n != "follow_focus"@ && n != "screen_center"@),
{
    reveal_strlit("follow_focus");
    assert("follow_focus"@.len() == 12);
    assert("follow_focus"@[0] == 'f');
    assert("follow_focus"@[1] == 'o');
    assert("follow_focus"@[2] == 'l');
    assert("follow_focus"@[3] == 'l');
    assert("follow_focus"@[4] == 'o');
    assert("follow_focus"@[5] == 'w');
    assert("follow_focus"@[6] == '_');
    assert("follow_focus"@[7] == 'f');
    assert("follow_focus"@[8] == 'o');
    assert("follow_focus"@[9] == 'c');
    assert("follow_focus"@[10] == 'u');
    assert("follow_focus"@[11] == 's');
    reveal_strlit("screen_center");
    assert("screen_center"@.len() == 13);
    assert("screen_center"@[0] == 's');
    assert("screen_center"@[1] == 'c');
    assert("screen_center"@[2] == 'r');
    assert("screen_center"@[3] == 'e');
    assert("screen_center"@[4] == 'e');
    assert("screen_center"@[5] == 'n');
    assert("screen_center"@[6] == '_');
    assert("screen_center"@[7] == 'c');
    assert("screen_center"@[8] == 'e');
    assert("screen_center"@[9] == 'n');
    assert("screen_center"@[10] == 't');
    assert("screen_center"@[11] == 'e');
    assert("screen_center"@[12] == 'r');
}

} // verus!
