//! Where the platform keeps its data, plugins and logs.
use vstd::prelude::*;
use crate::text::{chars_of, push_all, push_str, string_from_chars};

verus! {

/// The directory used when the local application data directory is unknown.
pub const FALLBACK_APP_DATA: &'static str = "C:\\Users\\Default\\AppData\\Local";

/// A path separator on Windows.
pub open spec fn is_sep(c: char) -> bool {
    c == '\\' || c == '/'
}

/// A path that starts with a drive, such as `C:`.
pub open spec fn has_drive(s: Seq<char>) -> bool {
    s.len() >= 2 && (('a' <= s[0] <= 'z') || ('A' <= s[0] <= 'Z')) && s[1] == ':'
}

/// A path that starts with `\\` (a share, device or verbatim prefix).
pub open spec fn has_share(s: Seq<char>) -> bool {
    s.len() >= 2 && s[0] == '\\' && s[1] == '\\'
}

/// The index of the first separator of `s` at or after `i` (its length when
/// there is none).
pub open spec fn next_sep(s: Seq<char>, i: int) -> int
    decreases s.len() - i,
{
    if i < 0 || i >= s.len() {
        s.len() as int
    } else if is_sep(s[i]) {
        i
    } else {
        next_sep(s, i + 1)
    }
}

/// How many characters of `s` its prefix takes: a drive `X:`, or
/// `\\server\share` up to the separator after the share; none otherwise.
pub open spec fn prefix_len(s: Seq<char>) -> int {
    if has_drive(s) {
        2
    } else if has_share(s) {
        let a = next_sep(s, 2);
        if a >= s.len() {
            s.len() as int
        } else {
            next_sep(s, a + 1)
        }
    } else {
        0
    }
}

/// `name` pushed onto the directory `base` by Windows path rules: a name
/// with a prefix (a drive or `\\`) replaces `base`; a name that starts with
/// a separator keeps only the prefix of `base`; otherwise a backslash joins
/// them, unless `base` is empty, ends in a separator or is a bare drive.
pub open spec fn joined(base: Seq<char>, name: Seq<char>) -> Seq<char> {
    if has_drive(name) || has_share(name) {
        name
    } else if name.len() > 0 && is_sep(name[0]) {
        base.subrange(0, prefix_len(base)) + name
    } else if base.len() == 0 || is_sep(base.last()) || (has_drive(base) && base.len() == 2) {
        base + name
    } else {
        base + seq!['\\'] + name
    }
}

fn is_sep_exec(c: char) -> (r: bool)
    ensures
        r == is_sep(c),
{
    c == '\\' || c == '/'
}

fn has_drive_exec(s: &Vec<char>) -> (r: bool)
    ensures
        r == has_drive(s@),
{
    s.len() >= 2 && (('a' <= s[0] && s[0] <= 'z') || ('A' <= s[0] && s[0] <= 'Z')) && s[1] == ':'
}

fn has_share_exec(s: &Vec<char>) -> (r: bool)
    ensures
        r == has_share(s@),
{
    s.len() >= 2 && s[0] == '\\' && s[1] == '\\'
}

fn next_sep_exec(s: &Vec<char>, from: usize) -> (r: usize)
    ensures
        r == next_sep(s@, from as int),
        r <= s@.len(),
{
    let mut i = from;
    while i < s.len() && !is_sep_exec(s[i])
        invariant
            from <= i,
            next_sep(s@, i as int) == next_sep(s@, from as int),
        decreases s.len() - i,
    {
        i += 1;
    }
    if i >= s.len() {
        s.len()
    } else {
        i
    }
}

fn prefix_len_exec(s: &Vec<char>) -> (r: usize)
    ensures
        r == prefix_len(s@),
        r <= s@.len(),
{
    if has_drive_exec(s) {
        2
    } else if has_share_exec(s) {
        let a = next_sep_exec(s, 2);
        if a >= s.len() {
            s.len()
        } else {
            next_sep_exec(s, a + 1)
        }
    } else {
        0
    }
}

/// The path of `name` inside the directory `base`, as Windows joins paths.
pub fn join_path(base: &str, name: &str) -> (r: String)
    ensures
        r@ == joined(base@, name@),
{
    let b = chars_of(base);
    let n = chars_of(name);
    let mut buf: Vec<char> = Vec::new();
    if has_drive_exec(&n) || has_share_exec(&n) {
        push_all(&mut buf, &n);
    } else if n.len() > 0 && is_sep_exec(n[0]) {
        let p = prefix_len_exec(&b);
        let mut i: usize = 0;
        while i < p
            invariant
                p <= b@.len(),
                i <= p,
                buf@ == b@.subrange(0, i as int),
            decreases p - i,
        {
            buf.push(b[i]);
            i += 1;
            assert(buf@ =~= b@.subrange(0, i as int));
        }
        push_all(&mut buf, &n);
    } else {
        push_all(&mut buf, &b);
        if !(b.len() == 0 || is_sep_exec(b[b.len() - 1]) || (has_drive_exec(&b) && b.len() == 2)) {
            buf.push('\\');
        }
        push_all(&mut buf, &n);
    }
    assert(buf@ =~= joined(base@, name@));
    string_from_chars(&buf)
}

pub struct Config {
    pub data_dir: String,
    pub plugins_dir: String,
    pub logs_dir: String,
    pub autostart: bool,
}

impl Config {
    /// The default layout under the local application data directory (or
    /// the fallback one when it is unknown): `CapaHub`, with `plugins` and
    /// `logs` inside it, and autostart off.
    pub fn from_app_data(local_app_data: Option<&str>) -> (c: Config)
        ensures
            ({
                let base = match local_app_data {
                    Some(d) => d@,
                    None => FALLBACK_APP_DATA@,
                };
                &&& c.data_dir@ == joined(base, "CapaHub"@)
                &&& c.plugins_dir@ == joined(c.data_dir@, "plugins"@)
                &&& c.logs_dir@ == joined(c.data_dir@, "logs"@)
                &&& !c.autostart
            }),
    {
        let base = match local_app_data {
            Some(d) => d,
            None => FALLBACK_APP_DATA,
        };
        let data_dir = join_path(base, "CapaHub");
        let plugins_dir = join_path(data_dir.as_str(), "plugins");
        let logs_dir = join_path(data_dir.as_str(), "logs");
        Config { data_dir, plugins_dir, logs_dir, autostart: false }
    }

    /// The configuration file: `config.toml` in the data directory.
    pub fn config_file(&self) -> (r: String)
        ensures
            r@ == joined(self.data_dir@, "config.toml"@),
    {
        join_path(self.data_dir.as_str(), "config.toml")
    }

    /// The directory of the plugin named `name`.
    pub fn plugin_dir(&self, name: &str) -> (r: String)
        ensures
            r@ == joined(self.plugins_dir@, name@),
    {
        join_path(self.plugins_dir.as_str(), name)
    }
}

} // verus!
