//! The clipboard: its text in the UTF-16 form Windows keeps it in, the
//! keystrokes that paste it, and telling the host's own clipboard writes
//! apart from those of other programs.
use vstd::prelude::*;
use crate::input::{KeyStroke, VK_CONTROL};
use crate::text::{chars_of, string_from_chars};

verus! {

/// The virtual key of the letter V.
pub const VK_V: u16 = 0x56;

/// The UTF-16 code units of one character: itself below `0x10000`, else a
/// surrogate pair.
pub open spec fn utf16_units(c: char) -> Seq<u16> {
    let v = c as int;
    if v < 0x10000 {
        seq![v as u16]
    } else {
        seq![(0xD800 + (v - 0x10000) / 1024) as u16, (0xDC00 + (v - 0x10000) % 1024) as u16]
    }
}

/// The UTF-16 code units of a text.
pub open spec fn utf16_of(s: Seq<char>) -> Seq<u16>
    decreases s.len(),
{
    if s.len() == 0 {
        Seq::empty()
    } else {
        utf16_of(s.drop_last()) + utf16_units(s.last())
    }
}

pub open spec fn is_high_surrogate(u: u16) -> bool {
    0xD800 <= u <= 0xDBFF
}

pub open spec fn is_low_surrogate(u: u16) -> bool {
    0xDC00 <= u <= 0xDFFF
}

/// The character a surrogate pair stands for.
pub open spec fn pair_char(hi: u16, lo: u16) -> char {
    (0x10000 + (hi - 0xD800) * 1024 + (lo - 0xDC00)) as char
}

/// The text of UTF-16 code units, each unpaired surrogate read as the
/// replacement character U+FFFD.
pub open spec fn utf16_text(u: Seq<u16>) -> Seq<char>
    decreases u.len(),
{
    if u.len() == 0 {
        Seq::empty()
    } else if is_high_surrogate(u[0]) && u.len() > 1 && is_low_surrogate(u[1]) {
        seq![pair_char(u[0], u[1])] + utf16_text(u.subrange(2, u.len() as int))
    } else if is_high_surrogate(u[0]) || is_low_surrogate(u[0]) {
        seq!['\u{FFFD}'] + utf16_text(u.subrange(1, u.len() as int))
    } else {
        seq![u[0] as char] + utf16_text(u.subrange(1, u.len() as int))
    }
}

/// The character with code point `v`, where there is one
/// (`char::from_u32`): every value up to `0x10FFFF` but the surrogates.
#[verifier::external_body]
fn char_from_u32(v: u32) -> (r: Option<char>)
    ensures
        (v <= 0x10FFFF && !(0xD800 <= v <= 0xDFFF)) <==> r is Some,
        r is Some ==> r == Some(v as char),
{
    char::from_u32(v)
}

fn push_units(buf: &mut Vec<u16>, c: char)
    ensures
        final(buf)@ == old(buf)@ + utf16_units(c),
{
    let v = c as u32;
    if v < 0x10000 {
        buf.push(v as u16);
    } else {
        let u = v - 0x10000;
        buf.push((0xD800 + u / 1024) as u16);
        buf.push((0xDC00 + u % 1024) as u16);
    }
    assert(final(buf)@ =~= old(buf)@ + utf16_units(c));
}

/// The text as the clipboard holds it: UTF-16 code units ending in a 0.
pub fn wide_with_nul(text: &str) -> (r: Vec<u16>)
    ensures
        r@ == utf16_of(text@).push(0),
{
    let cs = chars_of(text);
    let mut out: Vec<u16> = Vec::new();
    let mut i: usize = 0;
    while i < cs.len()
        invariant
            i <= cs@.len(),
            cs@ == text@,
            out@ == utf16_of(cs@.take(i as int)),
        decreases cs@.len() - i,
    {
        push_units(&mut out, cs[i]);
        assert(cs@.take(i + 1).drop_last() =~= cs@.take(i as int));
        i += 1;
    }
    assert(cs@.take(i as int) =~= cs@);
    out.push(0);
    out
}

proof fn lemma_text_step(u: Seq<u16>, i: int)
    requires
        0 <= i < u.len(),
    ensures
        utf16_text(u.subrange(i, u.len() as int)) == (if is_high_surrogate(u[i]) && i + 1 < u.len()
            && is_low_surrogate(u[i + 1]) {
            seq![pair_char(u[i], u[i + 1])] + utf16_text(u.subrange(i + 2, u.len() as int))
        } else if is_high_surrogate(u[i]) || is_low_surrogate(u[i]) {
            seq!['\u{FFFD}'] + utf16_text(u.subrange(i + 1, u.len() as int))
        } else {
            seq![u[i] as char] + utf16_text(u.subrange(i + 1, u.len() as int))
        }),
{
    let t = u.subrange(i, u.len() as int);
    assert(t.subrange(1, t.len() as int) =~= u.subrange(i + 1, u.len() as int));
    if t.len() > 1 {
        assert(t.subrange(2, t.len() as int) =~= u.subrange(i + 2, u.len() as int));
    }
}

/// The text of the clipboard's UTF-16 code units (without the ending 0);
/// unpaired surrogates read as U+FFFD.
pub fn text_from_wide(units: &[u16]) -> (r: String)
    ensures
        r@ == utf16_text(units@),
{
    let mut out: Vec<char> = Vec::new();
    let mut i: usize = 0;
    let n = units.len();
    assert(units@.subrange(0, n as int) =~= units@);
    assert(out@ + utf16_text(units@) =~= utf16_text(units@));
    while i < n
        invariant
            n == units@.len(),
            i <= n,
            out@ + utf16_text(units@.subrange(i as int, n as int)) == utf16_text(units@),
        decreases n - i,
    {
        let ghost before = out@;
        proof {
            lemma_text_step(units@, i as int);
        }
        let u = units[i];
        if 0xD800 <= u && u <= 0xDBFF && i + 1 < n && 0xDC00 <= units[i + 1] && units[i + 1] <= 0xDFFF {
            let lo = units[i + 1];
            let v: u32 = 0x10000 + (u as u32 - 0xD800) * 1024 + (lo as u32 - 0xDC00);
            match char_from_u32(v) {
                Some(c) => out.push(c),
                None => {},
            }
            assert(out@ =~= before + seq![pair_char(u, lo)]);
            i += 2;
        } else if 0xD800 <= u && u <= 0xDFFF {
            out.push('\u{FFFD}');
            assert(out@ =~= before + seq!['\u{FFFD}']);
            i += 1;
        } else {
            match char_from_u32(u as u32) {
                Some(c) => out.push(c),
                None => {},
            }
            assert(out@ =~= before + seq![u as char]);
            i += 1;
        }
    }
    assert(units@.subrange(n as int, n as int) =~= Seq::<u16>::empty());
    assert(out@ =~= utf16_text(units@));
    string_from_chars(&out)
}

proof fn lemma_units_then(c: char, rest: Seq<u16>)
    ensures
        utf16_text(utf16_units(c) + rest) == seq![c] + utf16_text(rest),
{
    let u = utf16_units(c) + rest;
    let v = c as int;
    if v < 0x10000 {
        assert(!(0xD800 <= v <= 0xDFFF));
        assert(u[0] == v as u16);
        assert((v as u16) as char == c);
        assert(u.subrange(1, u.len() as int) =~= rest);
    } else {
        let x = v - 0x10000;
        assert(0 <= x < 0x100000);
        assert(x == (x / 1024) * 1024 + x % 1024) by (nonlinear_arith)
            requires
                0 <= x,
        ;
        assert(0 <= x / 1024 < 1024) by (nonlinear_arith)
            requires
                0 <= x < 0x100000,
        ;
        assert(u[0] == (0xD800 + x / 1024) as u16);
        assert(u[1] == (0xDC00 + x % 1024) as u16);
        assert(pair_char(u[0], u[1]) == c);
        assert(u.subrange(2, u.len() as int) =~= rest);
    }
}

proof fn lemma_utf16_of_cons(c: char, s: Seq<char>)
    ensures
        utf16_of(seq![c] + s) == utf16_units(c) + utf16_of(s),
    decreases s.len(),
{
    let t = seq![c] + s;
    assert(t.len() > 0);
    assert(utf16_of(t) == utf16_of(t.drop_last()) + utf16_units(t.last()));
    if s.len() == 0 {
        assert(t.drop_last() =~= Seq::<char>::empty());
        assert(t.last() == c);
        assert(utf16_of(t.drop_last()) == Seq::<u16>::empty());
        assert(utf16_of(t) =~= utf16_units(c));
        assert(utf16_units(c) + utf16_of(s) =~= utf16_units(c));
    } else {
        assert((seq![c] + s).drop_last() =~= seq![c] + s.drop_last());
        assert((seq![c] + s).last() == s.last());
        lemma_utf16_of_cons(c, s.drop_last());
        assert(utf16_units(c) + utf16_of(s.drop_last()) + utf16_units(s.last()) =~= utf16_units(c)
            + (utf16_of(s.drop_last()) + utf16_units(s.last())));
    }
}

/// Reading back the UTF-16 form of a text gives the text: what the host
/// writes to the clipboard is what it reads from it.
pub proof fn law_utf16_round_trip(s: Seq<char>)
    ensures
        utf16_text(utf16_of(s)) == s,
    decreases s.len(),
{
    if s.len() == 0 {
        assert(utf16_text(utf16_of(s)) =~= s);
    } else {
        let c = s[0];
        let rest = s.drop_first();
        assert(s =~= seq![c] + rest);
        lemma_utf16_of_cons(c, rest);
        lemma_units_then(c, utf16_of(rest));
        law_utf16_round_trip(rest);
    }
}

/// The UTF-16 units of a character other than NUL are never 0.
proof fn lemma_units_nonzero(c: char)
    requires
        c != '\0',
    ensures
        forall|i: int| 0 <= i < utf16_units(c).len() ==> utf16_units(c)[i] != 0,
{
    let v = c as int;
    let b = utf16_units(c);
    if v < 0x10000 {
        assert(v != 0);
        assert(b[0] as int == v);
    } else {
        let x = v - 0x10000;
        assert(0 <= x < 0x100000);
        assert(0 <= x / 1024 < 1024) by (nonlinear_arith)
            requires
                0 <= x < 0x100000,
        ;
        assert(b[0] as int == 0xD800 + x / 1024);
        assert(b[1] as int == 0xDC00 + x % 1024);
    }
}

/// A text with no NUL character has no 0 among its UTF-16 units, so the 0
/// that ends the clipboard form is its first 0: reading up to it gives the
/// whole text back.
pub proof fn law_no_nul_no_zero_unit(s: Seq<char>)
    requires
        !s.contains('\0'),
    ensures
        forall|i: int| 0 <= i < utf16_of(s).len() ==> utf16_of(s)[i] != 0,
    decreases s.len(),
{
    if s.len() > 0 {
        let d = s.drop_last();
        let c = s.last();
        assert(!d.contains('\0')) by {
            if d.contains('\0') {
                let k = choose|k: int| 0 <= k < d.len() && d[k] == '\0';
                assert(s[k] == d[k]);
            }
        }
        assert(c == s[s.len() - 1]);
        law_no_nul_no_zero_unit(d);
        lemma_units_nonzero(c);
        let u = utf16_of(s);
        let a = utf16_of(d);
        let b = utf16_units(c);
        assert(u == a + b);
        assert forall|i: int| 0 <= i < u.len() implies u[i] != 0 by {
            if i >= a.len() {
                assert(u[i] == b[i - a.len()]);
            } else {
                assert(u[i] == a[i]);
            }
        }
    }
}

/// The keystrokes that paste: Ctrl down, V down, V up, Ctrl up.
pub fn paste_keys() -> (r: Vec<KeyStroke>)
    ensures
        r@ == seq![
            KeyStroke::Press(VK_CONTROL),
            KeyStroke::Press(VK_V),
            KeyStroke::Release(VK_V),
            KeyStroke::Release(VK_CONTROL),
        ],
{
    let mut r: Vec<KeyStroke> = Vec::new();
    r.push(KeyStroke::Press(VK_CONTROL));
    r.push(KeyStroke::Press(VK_V));
    r.push(KeyStroke::Release(VK_V));
    r.push(KeyStroke::Release(VK_CONTROL));
    assert(r@ =~= seq![
        KeyStroke::Press(VK_CONTROL),
        KeyStroke::Press(VK_V),
        KeyStroke::Release(VK_V),
        KeyStroke::Release(VK_CONTROL),
    ]);
    r
}

/// Tells the host's own clipboard writes apart from those of others: a write
/// by the host marks the next clipboard change as its own, and that change
/// is not reported.
#[derive(Debug, Clone, Copy, PartialEq, Eq, Structural)]
pub struct ClipboardWatch {
    pub self_change: bool,
}

/// The watch after the host wrote to the clipboard.
pub open spec fn after_write(w: ClipboardWatch) -> ClipboardWatch {
    ClipboardWatch { self_change: true }
}

/// The watch after a clipboard change was seen.
pub open spec fn after_change(w: ClipboardWatch) -> ClipboardWatch {
    ClipboardWatch { self_change: false }
}

/// Whether a clipboard change seen in this state is reported.
pub open spec fn reported(w: ClipboardWatch) -> bool {
    !w.self_change
}

impl ClipboardWatch {
    /// No write of the host's own is pending.
    pub fn new() -> (w: Self)
        ensures
            reported(w),
    {
        ClipboardWatch { self_change: false }
    }

    /// The host has written to the clipboard.
    pub fn wrote(&mut self)
        ensures
            *final(self) == after_write(*old(self)),
    {
        self.self_change = true;
    }

    /// The clipboard changed: whether the change is to be reported (it is
    /// not when it is the host's own write, whose mark it clears).
    pub fn changed(&mut self) -> (report: bool)
        ensures
            report == reported(*old(self)),
            *final(self) == after_change(*old(self)),
    {
        let own = self.self_change;
        self.self_change = false;
        !own
    }
}

/// After the host's own write, the first clipboard change is not reported
/// and the one after it is.
pub proof fn law_own_write_is_skipped_once(w: ClipboardWatch)
    ensures
        !reported(after_write(w)),
        reported(after_change(after_write(w))),
{
}

} // verus!
