//! The key syntax scripts use to send input, and the keystrokes it stands for.
//!
//! `^` is Ctrl, `+` is Shift and `%` is Alt; they apply to the next key and
//! can be stacked (`+^t`). `{Name}` is a named key such as `{Enter}` or
//! `{F4}`; any other character is typed as it is, or, after a modifier,
//! pressed as the virtual key of its upper-case form.
use vstd::prelude::*;
use crate::text::chars_of;

verus! {

pub const VK_SHIFT: u16 = 0x10;
pub const VK_CONTROL: u16 = 0x11;
pub const VK_MENU: u16 = 0x12;

/// The Windows virtual-key codes of the named keys.
pub const VK_BACK: u16 = 0x08;
pub const VK_TAB: u16 = 0x09;
pub const VK_RETURN: u16 = 0x0D;
pub const VK_ESCAPE: u16 = 0x1B;
pub const VK_SPACE: u16 = 0x20;
pub const VK_END: u16 = 0x23;
pub const VK_HOME: u16 = 0x24;
pub const VK_LEFT: u16 = 0x25;
pub const VK_UP: u16 = 0x26;
pub const VK_RIGHT: u16 = 0x27;
pub const VK_DOWN: u16 = 0x28;
pub const VK_DELETE: u16 = 0x2E;
pub const VK_F1: u16 = 0x70;

/// One thing sent to the keyboard input queue.
#[derive(Clone, Copy, Debug, PartialEq, Eq, Structural)]
pub enum KeyStroke {
    /// Key down of a virtual key.
    Press(u16),
    /// Key up of a virtual key.
    Release(u16),
    /// Key down and key up of a virtual key, sent together.
    Tap(u16),
    /// A character typed as text.
    Unicode(char),
}

/// The keystrokes a key text stands for. `stalls` is set when the text holds
/// an opening brace with no closing brace after it: the sender stops making
/// progress there, after sending `strokes`.
pub struct KeyPlan {
    pub strokes: Vec<KeyStroke>,
    pub stalls: bool,
}

/// The modifier key a prefix character stands for.
pub open spec fn modifier_vk(c: char) -> Option<u16> {
    if c == '^' {
        Some(VK_CONTROL)
    } else if c == '+' {
        Some(VK_SHIFT)
    } else if c == '%' {
        Some(VK_MENU)
    } else {
        None
    }
}

/// The virtual key of a named key.
pub open spec fn named_vk(name: Seq<char>) -> Option<u16> {
    if name == "Enter"@ {
        Some(0x0Du16)
    } else if name == "Backspace"@ {
        Some(0x08u16)
    } else if name == "Tab"@ {
        Some(0x09u16)
    } else if name == "Escape"@ {
        Some(0x1Bu16)
    } else if name == "Space"@ {
        Some(0x20u16)
    } else if name == "Left"@ {
        Some(0x25u16)
    } else if name == "Up"@ {
        Some(0x26u16)
    } else if name == "Right"@ {
        Some(0x27u16)
    } else if name == "Down"@ {
        Some(0x28u16)
    } else if name == "Delete"@ {
        Some(0x2Eu16)
    } else if name == "Home"@ {
        Some(0x24u16)
    } else if name == "End"@ {
        Some(0x23u16)
    } else if name == "F1"@ {
        Some(0x70u16)
    } else if name == "F2"@ {
        Some(0x71u16)
    } else if name == "F3"@ {
        Some(0x72u16)
    } else if name == "F4"@ {
        Some(0x73u16)
    } else if name == "F5"@ {
        Some(0x74u16)
    } else if name == "F6"@ {
        Some(0x75u16)
    } else if name == "F7"@ {
        Some(0x76u16)
    } else if name == "F8"@ {
        Some(0x77u16)
    } else if name == "F9"@ {
        Some(0x78u16)
    } else if name == "F10"@ {
        Some(0x79u16)
    } else if name == "F11"@ {
        Some(0x7Au16)
    } else if name == "F12"@ {
        Some(0x7Bu16)
    } else {
        None
    }
}

/// The code of a character's ASCII upper-case form.
pub open spec fn upper_code(c: char) -> nat {
    let code = c as nat;
    if 97 <= code <= 122 {
        (code - 32) as nat
    } else {
        code
    }
}

/// The virtual key pressed for a character after a modifier: its upper-case
/// code, cut to 16 bits.
pub open spec fn char_vk(c: char) -> u16 {
    (upper_code(c) % 65536) as u16
}

/// The end of the run of modifier characters starting at `i`.
pub open spec fn modifier_run_end(cs: Seq<char>, i: int) -> int
    decreases cs.len() - i,
{
    if i < 0 || i >= cs.len() || modifier_vk(cs[i]) is None {
        i
    } else {
        modifier_run_end(cs, i + 1)
    }
}

/// The first `}` at or after `k`.
pub open spec fn closing_brace(cs: Seq<char>, k: int) -> Option<int>
    decreases cs.len() - k,
{
    if k < 0 || k >= cs.len() {
        None
    } else if cs[k] == '}' {
        Some(k)
    } else {
        closing_brace(cs, k + 1)
    }
}

/// Key downs of the modifiers in `cs[i..j]`, in order.
pub open spec fn presses(cs: Seq<char>, i: int, j: int) -> Seq<KeyStroke> {
    Seq::new((j - i) as nat, |k: int| KeyStroke::Press(modifier_vk(cs[i + k]).unwrap()))
}

/// Key ups of the modifiers in `cs[i..j]`, last one first.
pub open spec fn releases(cs: Seq<char>, i: int, j: int) -> Seq<KeyStroke> {
    Seq::new((j - i) as nat, |k: int| KeyStroke::Release(modifier_vk(cs[j - 1 - k]).unwrap()))
}

/// The tap for a named key, or nothing for an unknown name.
pub open spec fn named_tap(name: Seq<char>) -> Seq<KeyStroke> {
    match named_vk(name) {
        Some(vk) => seq![KeyStroke::Tap(vk)],
        None => Seq::empty(),
    }
}

/// The keystrokes of `cs[i..]`, and whether sending them stalls.
pub open spec fn plan_from(cs: Seq<char>, i: int) -> (Seq<KeyStroke>, bool)
    decreases cs.len() - i,
{
    if i < 0 || i >= cs.len() {
        (Seq::empty(), false)
    } else {
        let j = modifier_run_end(cs, i);
        if j <= i - 1 || j >= cs.len() {
            (Seq::empty(), false)
        } else if cs[j] == '{' {
            match closing_brace(cs, j + 1) {
                Some(q) => {
                    if q <= i || q >= cs.len() {
                        (Seq::empty(), false)
                    } else {
                        let rest = plan_from(cs, q + 1);
                        (presses(cs, i, j) + named_tap(cs.subrange(j + 1, q)) + releases(cs, i, j) + rest.0, rest.1)
                    }
                },
                None => (presses(cs, i, j), true),
            }
        } else {
            let key = if j > i {
                KeyStroke::Tap(char_vk(cs[j]))
            } else {
                KeyStroke::Unicode(cs[j])
            };
            let rest = plan_from(cs, j + 1);
            (presses(cs, i, j).push(key) + releases(cs, i, j) + rest.0, rest.1)
        }
    }
}

/// The keystrokes a whole key text stands for.
pub open spec fn key_plan(keys: Seq<char>) -> (Seq<KeyStroke>, bool) {
    plan_from(keys, 0)
}

proof fn lemma_run_end_bounds(cs: Seq<char>, i: int)
    requires
        0 <= i <= cs.len(),
    ensures
        i <= modifier_run_end(cs, i) <= cs.len(),
        forall|k: int| i <= k < modifier_run_end(cs, i) ==> modifier_vk(#[trigger] cs[k]) is Some,
        modifier_run_end(cs, i) < cs.len() ==> modifier_vk(cs[modifier_run_end(cs, i)]) is None,
    decreases cs.len() - i,
{
    if i < cs.len() && modifier_vk(cs[i]) is Some {
        lemma_run_end_bounds(cs, i + 1);
    }
}

proof fn lemma_closing_brace(cs: Seq<char>, k: int)
    requires
        0 <= k,
    ensures
        (match closing_brace(cs, k) {
            Some(q) => k <= q < cs.len() && cs[q] == '}' && forall|m: int| k <= m < q ==> cs[m] != '}',
            None => forall|m: int| k <= m < cs.len() ==> cs[m] != '}',
        }),
    decreases cs.len() - k,
{
    if k < cs.len() && cs[k] != '}' {
        lemma_closing_brace(cs, k + 1);
    }
}

fn modifier_key(c: char) -> (r: Option<u16>)
    ensures
        r == modifier_vk(c),
{
    if c == '^' {
        Some(VK_CONTROL)
    } else if c == '+' {
        Some(VK_SHIFT)
    } else if c == '%' {
        Some(VK_MENU)
    } else {
        None
    }
}

fn chars_equal(a: &Vec<char>, b: &str) -> (r: bool)
    ensures
        r == (a@ == b@),
{
    let bs = chars_of(b);
    if a.len() != bs.len() {
        return false;
    }
    let mut i: usize = 0;
    while i < a.len()
        invariant
            a@.len() == bs@.len(),
            bs@ == b@,
            i <= a@.len(),
            forall|k: int| 0 <= k < i ==> a@[k] == bs@[k],
        decreases a@.len() - i,
    {
        if a[i] != bs[i] {
            assert(a@[i as int] != bs@[i as int]);
            return false;
        }
        i += 1;
    }
    assert(a@ =~= bs@);
    true
}

/// The virtual key of a named key.
pub fn named_key(name: &Vec<char>) -> (r: Option<u16>)
    ensures
        r == named_vk(name@),
{
    if chars_equal(name, "Enter") {
        Some(0x0D)
    } else if chars_equal(name, "Backspace") {
        Some(0x08)
    } else if chars_equal(name, "Tab") {
        Some(0x09)
    } else if chars_equal(name, "Escape") {
        Some(0x1B)
    } else if chars_equal(name, "Space") {
        Some(0x20)
    } else if chars_equal(name, "Left") {
        Some(0x25)
    } else if chars_equal(name, "Up") {
        Some(0x26)
    } else if chars_equal(name, "Right") {
        Some(0x27)
    } else if chars_equal(name, "Down") {
        Some(0x28)
    } else if chars_equal(name, "Delete") {
        Some(0x2E)
    } else if chars_equal(name, "Home") {
        Some(0x24)
    } else if chars_equal(name, "End") {
        Some(0x23)
    } else if chars_equal(name, "F1") {
        Some(0x70)
    } else if chars_equal(name, "F2") {
        Some(0x71)
    } else if chars_equal(name, "F3") {
        Some(0x72)
    } else if chars_equal(name, "F4") {
        Some(0x73)
    } else if chars_equal(name, "F5") {
        Some(0x74)
    } else if chars_equal(name, "F6") {
        Some(0x75)
    } else if chars_equal(name, "F7") {
        Some(0x76)
    } else if chars_equal(name, "F8") {
        Some(0x77)
    } else if chars_equal(name, "F9") {
        Some(0x78)
    } else if chars_equal(name, "F10") {
        Some(0x79)
    } else if chars_equal(name, "F11") {
        Some(0x7A)
    } else if chars_equal(name, "F12") {
        Some(0x7B)
    } else {
        None
    }
}

/// The virtual key pressed for a character after a modifier.
pub fn key_of_char(c: char) -> (r: u16)
    ensures
        r == char_vk(c),
{
    let code = c as u32;
    let up = if 97 <= code && code <= 122 {
        code - 32
    } else {
        code
    };
    (up % 65536) as u16
}

/// The keystrokes of one key (with its modifiers) starting at `i`, the index
/// after it, and whether sending stalls there.
fn plan_one(cs: &Vec<char>, i: usize) -> (r: (Vec<KeyStroke>, usize, bool))
    requires
        i < cs@.len(),
    ensures
        r.2 ==> r.0@ == plan_from(cs@, i as int).0 && plan_from(cs@, i as int).1,
        !r.2 ==> {
            &&& i < r.1 <= cs@.len()
            &&& r.0@ + plan_from(cs@, r.1 as int).0 == plan_from(cs@, i as int).0
            &&& plan_from(cs@, r.1 as int).1 == plan_from(cs@, i as int).1
        },
{
    proof {
        lemma_run_end_bounds(cs@, i as int);
    }
    let ghost jj = modifier_run_end(cs@, i as int);
    let mut mods: Vec<u16> = Vec::new();
    let mut j: usize = i;
    while j < cs.len()
        invariant_except_break
            i <= j <= cs@.len(),
            modifier_run_end(cs@, j as int) == jj,
            mods@.len() == j - i,
            forall|k: int| 0 <= k < mods@.len() ==> mods@[k] == modifier_vk(cs@[i + k]).unwrap(),
        ensures
            i <= j <= cs@.len(),
            j == jj,
            mods@.len() == j - i,
            forall|k: int| 0 <= k < mods@.len() ==> mods@[k] == modifier_vk(cs@[i + k]).unwrap(),
        decreases cs@.len() - j,
    {
        match modifier_key(cs[j]) {
            Some(vk) => {
                mods.push(vk);
                j += 1;
            },
            None => {
                break;
            },
        }
    }
    let mut out: Vec<KeyStroke> = Vec::new();
    if j >= cs.len() {
        proof {
            assert(plan_from(cs@, i as int).0 =~= Seq::<KeyStroke>::empty());
        }
        return (out, j, false);
    }
    let mut k: usize = 0;
    while k < mods.len()
        invariant
            k <= mods@.len(),
            out@ == presses(cs@, i as int, i + k),
            mods@.len() == j - i,
            forall|m: int| 0 <= m < mods@.len() ==> mods@[m] == modifier_vk(cs@[i + m]).unwrap(),
        decreases mods@.len() - k,
    {
        out.push(KeyStroke::Press(mods[k]));
        k += 1;
        assert(out@ =~= presses(cs@, i as int, i + k));
    }
    assert(out@ == presses(cs@, i as int, j as int));
    let c = cs[j];
    let mut tail: Vec<KeyStroke> = Vec::new();
    let mut k: usize = mods.len();
    while k > 0
        invariant
            k <= mods@.len(),
            tail@ == releases(cs@, i + k, j as int),
            mods@.len() == j - i,
            forall|m: int| 0 <= m < mods@.len() ==> mods@[m] == modifier_vk(cs@[i + m]).unwrap(),
        decreases k,
    {
        k -= 1;
        tail.push(KeyStroke::Release(mods[k]));
        assert(tail@ =~= releases(cs@, i + k, j as int));
    }
    if c == '{' {
        let mut q: usize = j + 1;
        loop
            invariant_except_break
                j + 1 <= q <= cs@.len(),
                closing_brace(cs@, j + 1) == closing_brace(cs@, q as int),
            ensures
                j + 1 <= q <= cs@.len(),
                closing_brace(cs@, j + 1) == closing_brace(cs@, q as int),
                q < cs@.len() ==> cs@[q as int] == '}',
            decreases cs@.len() - q,
        {
            if q >= cs.len() {
                break;
            }
            if cs[q] == '}' {
                break;
            }
            q += 1;
        }
        if q >= cs.len() {
            proof {
                assert(closing_brace(cs@, q as int) is None);
            }
            return (out, j, true);
        }
        let mut name: Vec<char> = Vec::new();
        let mut m: usize = j + 1;
        while m < q
            invariant
                j + 1 <= m <= q,
                q < cs@.len(),
                name@ == cs@.subrange(j + 1, m as int),
            decreases q - m,
        {
            name.push(cs[m]);
            m += 1;
            assert(name@ =~= cs@.subrange(j + 1, m as int));
        }
        match named_key(&name) {
            Some(vk) => {
                out.push(KeyStroke::Tap(vk));
            },
            None => {},
        }
        let ghost before = out@;
        let mut t: usize = 0;
        while t < tail.len()
            invariant
                t <= tail@.len(),
                out@ == before + tail@.take(t as int),
            decreases tail@.len() - t,
        {
            out.push(tail[t]);
            t += 1;
            assert(out@ =~= before + tail@.take(t as int));
        }
        proof {
            assert(tail@.take(t as int) =~= tail@);
            assert(closing_brace(cs@, q as int) == Some(q as int));
            assert(out@ =~= presses(cs@, i as int, j as int) + named_tap(cs@.subrange(j + 1, q as int)) + releases(
                cs@,
                i as int,
                j as int,
            ));
            assert(jj == j);
            assert(cs@[jj] == '{');
            assert(plan_from(cs@, i as int).0 == out@ + plan_from(cs@, q + 1).0);
        }
        (out, q + 1, false)
    } else {
        let ghost pre = out@;
        let key = if mods.len() > 0 {
            KeyStroke::Tap(key_of_char(c))
        } else {
            KeyStroke::Unicode(c)
        };
        out.push(key);
        assert(out@ == pre.push(key));
        assert(key == if j > i { KeyStroke::Tap(char_vk(cs@[j as int])) } else { KeyStroke::Unicode(cs@[j as int]) });
        let ghost before = out@;
        let mut t: usize = 0;
        while t < tail.len()
            invariant
                t <= tail@.len(),
                out@ == before + tail@.take(t as int),
            decreases tail@.len() - t,
        {
            out.push(tail[t]);
            t += 1;
            assert(out@ =~= before + tail@.take(t as int));
        }
        proof {
            assert(tail@.take(t as int) =~= tail@);
            assert(jj == j);
            assert(tail@ == releases(cs@, i as int, j as int));
            assert(out@ == before + tail@);
            assert(out@ =~= presses(cs@, i as int, j as int).push(key) + releases(cs@, i as int, j as int));
            assert(plan_from(cs@, i as int).0 == out@ + plan_from(cs@, j + 1).0);
        }
        (out, j + 1, false)
    }
}

/// The keystrokes a key text stands for (see the module documentation), in
/// the order they are sent.
pub fn plan_keys(keys: &str) -> (r: KeyPlan)
    ensures
        r.strokes@ == key_plan(keys@).0,
        r.stalls == key_plan(keys@).1,
{
    let cs = chars_of(keys);
    let mut out: Vec<KeyStroke> = Vec::new();
    let mut i: usize = 0;
    while i < cs.len()
        invariant_except_break
            i <= cs@.len(),
            cs@ == keys@,
            out@ + plan_from(cs@, i as int).0 == key_plan(keys@).0,
            plan_from(cs@, i as int).1 == key_plan(keys@).1,
        ensures
            out@ == key_plan(keys@).0,
            !key_plan(keys@).1,
        decreases cs@.len() - i,
    {
        let (part, next, stalls) = plan_one(&cs, i);
        let ghost before = out@;
        let mut t: usize = 0;
        while t < part.len()
            invariant
                t <= part@.len(),
                out@ == before + part@.take(t as int),
            decreases part@.len() - t,
        {
            out.push(part[t]);
            t += 1;
            assert(out@ =~= before + part@.take(t as int));
        }
        assert(part@.take(t as int) =~= part@);
        if stalls {
            assert(out@ =~= key_plan(keys@).0);
            return KeyPlan { strokes: out, stalls: true };
        }
        assert(out@ + plan_from(cs@, next as int).0 =~= key_plan(keys@).0);
        i = next;
    }
    KeyPlan { strokes: out, stalls: false }
}

/// How many key downs of virtual keys a run of keystrokes holds.
pub open spec fn press_count(s: Seq<KeyStroke>) -> nat
    decreases s.len(),
{
    if s.len() == 0 {
        0
    } else {
        press_count(s.drop_last()) + if s.last() is Press { 1nat } else { 0nat }
    }
}

/// How many key ups of virtual keys a run of keystrokes holds.
pub open spec fn release_count(s: Seq<KeyStroke>) -> nat
    decreases s.len(),
{
    if s.len() == 0 {
        0
    } else {
        release_count(s.drop_last()) + if s.last() is Release { 1nat } else { 0nat }
    }
}

proof fn lemma_counts_append(a: Seq<KeyStroke>, b: Seq<KeyStroke>)
    ensures
        press_count(a + b) == press_count(a) + press_count(b),
        release_count(a + b) == release_count(a) + release_count(b),
    decreases b.len(),
{
    if b.len() > 0 {
        assert((a + b).drop_last() =~= a + b.drop_last());
        lemma_counts_append(a, b.drop_last());
    } else {
        assert(a + b =~= a);
    }
}

proof fn lemma_counts_push(s: Seq<KeyStroke>, x: KeyStroke)
    ensures
        press_count(s.push(x)) == press_count(s) + if x is Press { 1nat } else { 0nat },
        release_count(s.push(x)) == release_count(s) + if x is Release { 1nat } else { 0nat },
{
    assert(s.push(x).drop_last() =~= s);
    assert(s.push(x).last() == x);
}

proof fn lemma_presses_counts(cs: Seq<char>, i: int, j: int)
    requires
        0 <= i <= j <= cs.len(),
    ensures
        press_count(presses(cs, i, j)) == j - i,
        release_count(presses(cs, i, j)) == 0,
    decreases j - i,
{
    let p = presses(cs, i, j);
    if j > i {
        lemma_presses_counts(cs, i, j - 1);
        assert(p =~= presses(cs, i, j - 1).push(p.last()));
        assert(p.last() is Press);
        lemma_counts_push(presses(cs, i, j - 1), p.last());
    } else {
        assert(p.len() == 0);
    }
}

proof fn lemma_releases_counts(cs: Seq<char>, i: int, j: int)
    requires
        0 <= i <= j <= cs.len(),
    ensures
        press_count(releases(cs, i, j)) == 0,
        release_count(releases(cs, i, j)) == j - i,
    decreases j - i,
{
    let r = releases(cs, i, j);
    if j > i {
        lemma_releases_counts(cs, i + 1, j);
        assert(r =~= releases(cs, i + 1, j).push(r.last()));
        assert(r.last() is Release);
        lemma_counts_push(releases(cs, i + 1, j), r.last());
    } else {
        assert(r.len() == 0);
    }
}

proof fn lemma_key_step(cs: Seq<char>, i: int, j: int, key: KeyStroke)
    requires
        0 <= i <= j < cs.len(),
        !(key is Press),
        !(key is Release),
        press_count(plan_from(cs, j + 1).0) == release_count(plan_from(cs, j + 1).0),
    ensures
        press_count(presses(cs, i, j).push(key) + releases(cs, i, j) + plan_from(cs, j + 1).0)
            == release_count(presses(cs, i, j).push(key) + releases(cs, i, j) + plan_from(cs, j + 1).0),
{
    lemma_presses_counts(cs, i, j);
    lemma_releases_counts(cs, i, j);
    lemma_counts_push(presses(cs, i, j), key);
    lemma_counts_append(presses(cs, i, j).push(key), releases(cs, i, j));
    lemma_counts_append(presses(cs, i, j).push(key) + releases(cs, i, j), plan_from(cs, j + 1).0);
}

proof fn lemma_plan_balanced(cs: Seq<char>, i: int)
    requires
        0 <= i,
        !plan_from(cs, i).1,
    ensures
        press_count(plan_from(cs, i).0) == release_count(plan_from(cs, i).0),
    decreases cs.len() - i,
{
    if i >= cs.len() {
        assert(plan_from(cs, i).0 =~= Seq::<KeyStroke>::empty());
        assert(press_count(Seq::<KeyStroke>::empty()) == 0);
        assert(release_count(Seq::<KeyStroke>::empty()) == 0);
    } else {
        lemma_run_end_bounds(cs, i);
        let j = modifier_run_end(cs, i);
        if j < cs.len() {
            lemma_presses_counts(cs, i, j);
            lemma_releases_counts(cs, i, j);
            if cs[j] == '{' {
                lemma_closing_brace(cs, j + 1);
                match closing_brace(cs, j + 1) {
                    Some(q) => {
                        let rest = plan_from(cs, q + 1);
                        lemma_plan_balanced(cs, q + 1);
                        let tap = named_tap(cs.subrange(j + 1, q));
                        assert(press_count(tap) == 0 && release_count(tap) == 0) by {
                            match named_vk(cs.subrange(j + 1, q)) {
                                Some(vk) => {
                                    assert(tap =~= Seq::<KeyStroke>::empty().push(KeyStroke::Tap(vk)));
                                    lemma_counts_push(Seq::<KeyStroke>::empty(), KeyStroke::Tap(vk));
                                },
                                None => {
                                    assert(tap.len() == 0);
                                },
                            }
                        }
                        lemma_counts_append(presses(cs, i, j), tap);
                        lemma_counts_append(presses(cs, i, j) + tap, releases(cs, i, j));
                        lemma_counts_append(presses(cs, i, j) + tap + releases(cs, i, j), rest.0);
                        assert(q > i && q < cs.len());
                        assert(plan_from(cs, i).0 == presses(cs, i, j) + tap + releases(cs, i, j) + rest.0);
                    },
                    None => {
                        assert(plan_from(cs, i).1);
                    },
                }
            } else {
                lemma_plan_balanced(cs, j + 1);
                if j > i {
                    lemma_key_step(cs, i, j, KeyStroke::Tap(char_vk(cs[j])));
                } else {
                    lemma_key_step(cs, i, j, KeyStroke::Unicode(cs[j]));
                }
            }
        } else {
            assert(plan_from(cs, i).0 =~= Seq::<KeyStroke>::empty());
            assert(press_count(Seq::<KeyStroke>::empty()) == 0);
            assert(release_count(Seq::<KeyStroke>::empty()) == 0);
        }
    }
}

/// A key text that does not stall releases every modifier it presses: its
/// keystrokes hold as many key ups as key downs.
pub proof fn law_modifiers_released(keys: Seq<char>)
    requires
        !key_plan(keys).1,
    ensures
        press_count(key_plan(keys).0) == release_count(key_plan(keys).0),
{
    lemma_plan_balanced(keys, 0);
}

/// Each named key is its Windows virtual key, and each of those keys has
/// exactly one name: `{Left}` is `VK_LEFT`, `{Right}` is `VK_RIGHT`, and so
/// on; `{F<k>}` is `VK_F1 + k - 1`.
pub proof fn law_named_keys_are_their_virtual_keys(n: Seq<char>)
    ensures
        named_vk(n) == Some(VK_RETURN) <==> n == "Enter"@,
        named_vk(n) == Some(VK_BACK) <==> n == "Backspace"@,
        named_vk(n) == Some(VK_TAB) <==> n == "Tab"@,
        named_vk(n) == Some(VK_ESCAPE) <==> n == "Escape"@,
        named_vk(n) == Some(VK_SPACE) <==> n == "Space"@,
        named_vk(n) == Some(VK_LEFT) <==> n == "Left"@,
        named_vk(n) == Some(VK_UP) <==> n == "Up"@,
        named_vk(n) == Some(VK_RIGHT) <==> n == "Right"@,
        named_vk(n) == Some(VK_DOWN) <==> n == "Down"@,
        named_vk(n) == Some(VK_DELETE) <==> n == "Delete"@,
        named_vk(n) == Some(VK_HOME) <==> n == "Home"@,
        named_vk(n) == Some(VK_END) <==> n == "End"@,
        named_vk(n) == Some(VK_F1) <==> n == "F1"@,
        named_vk(n) == Some((VK_F1 + 1) as u16) <==> n == "F2"@,
        named_vk(n) == Some((VK_F1 + 2) as u16) <==> n == "F3"@,
        named_vk(n) == Some((VK_F1 + 3) as u16) <==> n == "F4"@,
        named_vk(n) == Some((VK_F1 + 4) as u16) <==> n == "F5"@,
        named_vk(n) == Some((VK_F1 + 5) as u16) <==> n == "F6"@,
        named_vk(n) == Some((VK_F1 + 6) as u16) <==> n == "F7"@,
        named_vk(n) == Some((VK_F1 + 7) as u16) <==> n == "F8"@,
        named_vk(n) == Some((VK_F1 + 8) as u16) <==> n == "F9"@,
        named_vk(n) == Some((VK_F1 + 9) as u16) <==> n == "F10"@,
        named_vk(n) == Some((VK_F1 + 10) as u16) <==> n == "F11"@,
        named_vk(n) == Some((VK_F1 + 11) as u16) <==> n == "F12"@,
{
    reveal_strlit("Enter");
    reveal_strlit("Backspace");
    reveal_strlit("Tab");
    reveal_strlit("Escape");
    reveal_strlit("Space");
    reveal_strlit("Left");
    reveal_strlit("Up");
    reveal_strlit("Right");
    reveal_strlit("Down");
    reveal_strlit("Delete");
    reveal_strlit("Home");
    reveal_strlit("End");
    reveal_strlit("F1");
    reveal_strlit("F2");
    reveal_strlit("F3");
    reveal_strlit("F4");
    reveal_strlit("F5");
    reveal_strlit("F6");
    reveal_strlit("F7");
    reveal_strlit("F8");
    reveal_strlit("F9");
    reveal_strlit("F10");
    reveal_strlit("F11");
    reveal_strlit("F12");
    assert("Enter"@.len() == 5);
    assert("Enter"@[0] == 'E');
    assert("Backspace"@.len() == 9);
    assert("Backspace"@[0] == 'B');
    assert("Tab"@.len() == 3);
    assert("Tab"@[0] == 'T');
    assert("Escape"@.len() == 6);
    assert("Escape"@[0] == 'E');
    assert("Space"@.len() == 5);
    assert("Space"@[0] == 'S');
    assert("Left"@.len() == 4);
    assert("Left"@[0] == 'L');
    assert("Up"@.len() == 2);
    assert("Up"@[0] == 'U');
    assert("Right"@.len() == 5);
    assert("Right"@[0] == 'R');
    assert("Down"@.len() == 4);
    assert("Down"@[0] == 'D');
    assert("Delete"@.len() == 6);
    assert("Delete"@[0] == 'D');
    assert("Home"@.len() == 4);
    assert("Home"@[0] == 'H');
    assert("End"@.len() == 3);
    assert("End"@[0] == 'E');
    assert("F1"@.len() == 2);
    assert("F1"@[0] == 'F');
    assert("F1"@[1] == '1');
    assert("F2"@.len() == 2);
    assert("F2"@[0] == 'F');
    assert("F2"@[1] == '2');
    assert("F3"@.len() == 2);
    assert("F3"@[0] == 'F');
    assert("F3"@[1] == '3');
    assert("F4"@.len() == 2);
    assert("F4"@[0] == 'F');
    assert("F4"@[1] == '4');
    assert("F5"@.len() == 2);
    assert("F5"@[0] == 'F');
    assert("F5"@[1] == '5');
    assert("F6"@.len() == 2);
    assert("F6"@[0] == 'F');
    assert("F6"@[1] == '6');
    assert("F7"@.len() == 2);
    assert("F7"@[0] == 'F');
    assert("F7"@[1] == '7');
    assert("F8"@.len() == 2);
    assert("F8"@[0] == 'F');
    assert("F8"@[1] == '8');
    assert("F9"@.len() == 2);
    assert("F9"@[0] == 'F');
    assert("F9"@[1] == '9');
    assert("F10"@.len() == 3);
    assert("F10"@[0] == 'F');
    assert("F10"@[1] == '1');
    assert("F10"@[2] == '0');
    assert("F11"@.len() == 3);
    assert("F11"@[0] == 'F');
    assert("F11"@[1] == '1');
    assert("F11"@[2] == '1');
    assert("F12"@.len() == 3);
    assert("F12"@[0] == 'F');
    assert("F12"@[1] == '1');
    assert("F12"@[2] == '2');
}

/// A braced key name sends just that key: `{<name>}` (with no `}` inside the
/// name) plans the tap of the named key, or nothing for an unknown name,
/// and never stalls.
pub proof fn law_braced_name_taps_its_key(name: Seq<char>)
    requires
        !name.contains('}'),
    ensures
        key_plan(seq!['{'] + name + seq!['}']) == (named_tap(name), false),
{
    let cs = seq!['{'] + name + seq!['}'];
    let q: int = name.len() as int + 1;
    assert(cs.len() == name.len() + 2);
    assert(cs[0] == '{');
    assert(cs[q] == '}');
    assert(modifier_vk(cs[0]) is None);
    assert(modifier_run_end(cs, 0) == 0);
    lemma_closing_brace(cs, 1);
    assert forall|m: int| 1 <= m < q implies cs[m] != '}' by {
        assert(cs[m] == name[m - 1]);
        if cs[m] == '}' {
            assert(name.contains('}'));
        }
    }
    assert(closing_brace(cs, 1) == Some(q));
    assert(cs.subrange(1, q) =~= name);
    assert(plan_from(cs, q + 1) == (Seq::<KeyStroke>::empty(), false));
    assert(presses(cs, 0, 0) =~= Seq::<KeyStroke>::empty());
    assert(releases(cs, 0, 0) =~= Seq::<KeyStroke>::empty());
    assert(presses(cs, 0, 0) + named_tap(name) + releases(cs, 0, 0) + Seq::<KeyStroke>::empty() =~= named_tap(name));
}

/// `^` is Ctrl, `+` is Shift and `%` is Alt, and no other character is a
/// modifier.
pub proof fn law_modifier_characters(c: char)
    ensures
        modifier_vk(c) == Some(VK_CONTROL) <==> c == '^',
        modifier_vk(c) == Some(VK_SHIFT) <==> c == '+',
        modifier_vk(c) == Some(VK_MENU) <==> c == '%',
        modifier_vk(c) is None <==> (c != '^' && c != '+' && c != '%'),
{
}

} // verus!
