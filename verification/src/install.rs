//! Installing a plugin from a `.dap` archive: which entry holds the
//! manifest, and where each entry of the archive is written.
use vstd::prelude::*;
use crate::text::{texts, chars_of, push_all, push_str, replace_char, replace_char_in, string_from_chars};

verus! {

/// Where an archive entry goes in the plugin's directory.
#[derive(Debug)]
pub enum EntryTarget {
    /// `plugin.toml`.
    Manifest,
    /// `assets/<relative path>`.
    Asset(String),
    /// `<plugin name>.dll`.
    Library,
    /// `index.html`.
    Page,
    /// Not written.
    Skip,
}

/// Why an archive cannot be installed.
#[derive(Debug)]
pub enum InstallError {
    /// The archive holds no (non-empty) `plugin.toml`.
    ManifestMissing,
    /// A plugin with this name is already installed.
    AlreadyExists(String),
}

pub open spec fn install_error_text(e: InstallError) -> Seq<char> {
    match e {
        InstallError::ManifestMissing => "plugin.toml not found in archive"@,
        InstallError::AlreadyExists(n) => "Plugin '"@ + n@ + "' already exists"@,
    }
}

impl InstallError {
    pub fn message(&self) -> (r: String)
        ensures
            r@ == install_error_text(*self),
    {
        let mut buf: Vec<char> = Vec::new();
        match self {
            InstallError::ManifestMissing => push_str(&mut buf, "plugin.toml not found in archive"),
            InstallError::AlreadyExists(n) => {
                push_str(&mut buf, "Plugin '");
                push_str(&mut buf, n.as_str());
                push_str(&mut buf, "' already exists");
            },
        }
        assert(buf@ =~= install_error_text(*self));
        string_from_chars(&buf)
    }
}

/// An entry name with its backslashes turned into slashes.
pub open spec fn normalized(name: Seq<char>) -> Seq<char> {
    replace_char(name, '\\', '/')
}

/// The part of a path after its last slash (the whole path when it has none).
pub open spec fn last_segment(p: Seq<char>) -> Seq<char>
    decreases p.len(),
{
    if p.len() == 0 || p.last() == '/' {
        Seq::empty()
    } else {
        last_segment(p.drop_last()).push(p.last())
    }
}

/// `pat` occurs in `s` at index `i`.
pub open spec fn occurs_at(s: Seq<char>, pat: Seq<char>, i: int) -> bool {
    0 <= i && i + pat.len() <= s.len() && s.subrange(i, i + pat.len()) == pat
}

/// `pat` occurs somewhere in `s`.
pub open spec fn occurs_in(s: Seq<char>, pat: Seq<char>) -> bool {
    exists|i: int| occurs_at(s, pat, i)
}

/// `s` with every leading copy of `pat` removed.
pub open spec fn trim_leading(s: Seq<char>, pat: Seq<char>) -> Seq<char>
    decreases s.len(),
{
    if pat.len() > 0 && occurs_at(s, pat, 0) {
        trim_leading(s.subrange(pat.len() as int, s.len() as int), pat)
    } else {
        s
    }
}

/// `r` is where an entry named `path` (already normalized) goes when
/// installing the plugin `plugin`: a name ending in a slash, and
/// `plugin.toml`, go to the manifest; names under an `assets/` directory go to
/// the assets directory (see `asset_path`); then the plugin's library and
/// `index.html`, matched by their last segment; anything else is skipped.
pub open spec fn is_target_of(r: EntryTarget, path: Seq<char>, plugin: Seq<char>) -> bool {
    let file = last_segment(path);
    if file.len() == 0 || path == "plugin.toml"@ {
        r is Manifest
    } else if occurs_at(path, "assets/"@, 0) || occurs_in(path, "/assets/"@) {
        r matches EntryTarget::Asset(rel) && rel@ == asset_path(path)
    } else if file == plugin + ".dll"@ {
        r is Library
    } else if file == "index.html"@ {
        r is Page
    } else {
        r is Skip
    }
}

/// The relative path an asset entry is written under.
pub open spec fn asset_path(path: Seq<char>) -> Seq<char> {
    trim_leading(trim_leading(path, "assets/"@), "/"@)
}

fn occurs_at_exec(s: &Vec<char>, pat: &Vec<char>, i: usize) -> (r: bool)
    ensures
        r == occurs_at(s@, pat@, i as int),
{
    if i > s.len() || pat.len() > s.len() - i {
        return false;
    }
    let n = s.len();
    let mut k: usize = 0;
    while k < pat.len()
        invariant
            n == s@.len(),
            i + pat@.len() <= n,
            k <= pat@.len(),
            forall|m: int| 0 <= m < k ==> s@[i + m] == pat@[m],
        decreases pat@.len() - k,
    {
        if s[i + k] != pat[k] {
            assert(s@.subrange(i as int, i + pat@.len())[k as int] != pat@[k as int]);
            return false;
        }
        k += 1;
    }
    assert(s@.subrange(i as int, i + pat@.len()) =~= pat@);
    true
}

fn occurs_in_exec(s: &Vec<char>, pat: &Vec<char>) -> (r: bool)
    ensures
        r == occurs_in(s@, pat@),
{
    let mut i: usize = 0;
    loop
        invariant_except_break
            i <= s@.len(),
            forall|m: int| 0 <= m < i ==> !occurs_at(s@, pat@, m),
        ensures
            forall|m: int| 0 <= m <= s@.len() ==> !occurs_at(s@, pat@, m),
        decreases s@.len() - i,
    {
        if occurs_at_exec(s, pat, i) {
            return true;
        }
        if i == s.len() {
            break;
        }
        i += 1;
    }
    assert forall|m: int| !occurs_at(s@, pat@, m) by {
        if m > s@.len() as int {
        }
    }
    false
}

fn trim_leading_exec(s: &Vec<char>, pat: &Vec<char>) -> (r: Vec<char>)
    ensures
        r@ == trim_leading(s@, pat@),
{
    if pat.len() == 0 {
        let mut out: Vec<char> = Vec::new();
        push_all(&mut out, s);
        return out;
    }
    let mut start: usize = 0;
    let n = s.len();
    assert(s@.subrange(0, s@.len() as int) =~= s@);
    loop
        invariant_except_break
            n == s@.len(),
            pat@.len() > 0,
            start <= s@.len(),
            trim_leading(s@.subrange(start as int, s@.len() as int), pat@) == trim_leading(s@, pat@),
        ensures
            start <= s@.len(),
            trim_leading(s@.subrange(start as int, s@.len() as int), pat@) == trim_leading(s@, pat@),
            !occurs_at(s@.subrange(start as int, s@.len() as int), pat@, 0),
        decreases s@.len() - start,
    {
        let ghost rest = s@.subrange(start as int, s@.len() as int);
        if occurs_at_exec(s, pat, start) {
            proof {
                assert(rest.subrange(0, pat@.len() as int) =~= s@.subrange(start as int, start + pat@.len()));
                assert(rest.subrange(pat@.len() as int, rest.len() as int) =~= s@.subrange(
                    start + pat@.len(),
                    s@.len() as int,
                ));
            }
            start = start + pat.len();
        } else {
            proof {
                if occurs_at(rest, pat@, 0) {
                    assert(rest.subrange(0, pat@.len() as int) =~= s@.subrange(start as int, start + pat@.len()));
                }
            }
            break;
        }
    }
    let mut out: Vec<char> = Vec::new();
    let mut i: usize = start;
    while i < s.len()
        invariant
            start <= i <= s@.len(),
            out@ == s@.subrange(start as int, i as int),
        decreases s@.len() - i,
    {
        out.push(s[i]);
        i += 1;
        assert(out@ =~= s@.subrange(start as int, i as int));
    }
    out
}

fn last_segment_exec(p: &Vec<char>) -> (r: Vec<char>)
    ensures
        r@ == last_segment(p@),
{
    let mut start: usize = p.len();
    assert(p@.take(p@.len() as int) =~= p@);
    assert(last_segment(p@) =~= last_segment(p@.take(start as int)) + p@.subrange(start as int, p@.len() as int));
    while start > 0 && p[start - 1] != '/'
        invariant
            start <= p@.len(),
            last_segment(p@) == last_segment(p@.take(start as int)) + p@.subrange(start as int, p@.len() as int),
        decreases start,
    {
        proof {
            let t = p@.take(start as int);
            assert(t.drop_last() =~= p@.take(start - 1));
            assert(p@.subrange(start - 1, p@.len() as int) =~= seq![p@[start - 1]] + p@.subrange(
                start as int,
                p@.len() as int,
            ));
            assert(last_segment(t) == last_segment(t.drop_last()).push(t.last()));
            assert(last_segment(t.drop_last()).push(t.last()) + p@.subrange(start as int, p@.len() as int) =~= last_segment(
                p@.take(start - 1),
            ) + p@.subrange(start - 1, p@.len() as int));
        }
        start -= 1;
    }
    proof {
        assert(last_segment(p@.take(start as int)) =~= Seq::<char>::empty());
        if start == p@.len() {
            assert(p@.take(start as int) =~= p@);
        }
    }
    let mut out: Vec<char> = Vec::new();
    let mut i: usize = start;
    while i < p.len()
        invariant
            start <= i <= p@.len(),
            out@ == p@.subrange(start as int, i as int),
        decreases p@.len() - i,
    {
        out.push(p[i]);
        i += 1;
        assert(out@ =~= p@.subrange(start as int, i as int));
    }
    assert(last_segment(p@) =~= out@);
    out
}

fn chars_eq(a: &Vec<char>, b: &Vec<char>) -> (r: bool)
    ensures
        r == (a@ == b@),
{
    if a.len() != b.len() {
        return false;
    }
    let r = occurs_at_exec(a, b, 0);
    proof {
        if r {
            assert(a@.subrange(0, b@.len() as int) =~= a@);
        }
        if a@ == b@ {
            assert(a@.subrange(0, b@.len() as int) =~= a@);
        }
    }
    r
}

/// Where the archive entry named `entry_name` is written when installing the
/// plugin `plugin_name` (backslashes in the entry name count as slashes).
pub fn entry_target(entry_name: &str, plugin_name: &str) -> (r: EntryTarget)
    ensures
        is_target_of(r, normalized(entry_name@), plugin_name@),
{
    let path = replace_char_in(entry_name, '\\', '/');
    let file = last_segment_exec(&path);
    let manifest_name = chars_of("plugin.toml");
    if file.len() == 0 || chars_eq(&path, &manifest_name) {
        return EntryTarget::Manifest;
    }
    let assets_prefix = chars_of("assets/");
    let assets_inner = chars_of("/assets/");
    if occurs_at_exec(&path, &assets_prefix, 0) || occurs_in_exec(&path, &assets_inner) {
        let once = trim_leading_exec(&path, &assets_prefix);
        let slash = chars_of("/");
        let rel = trim_leading_exec(&once, &slash);
        return EntryTarget::Asset(string_from_chars(&rel));
    }
    let mut dll: Vec<char> = Vec::new();
    push_str(&mut dll, plugin_name);
    push_str(&mut dll, ".dll");
    if chars_eq(&file, &dll) {
        return EntryTarget::Library;
    }
    let page = chars_of("index.html");
    if chars_eq(&file, &page) {
        return EntryTarget::Page;
    }
    EntryTarget::Skip
}

/// The index of the entry read as the manifest: the last one named
/// `plugin.toml` (backslashes counting as slashes).
pub open spec fn manifest_index(names: Seq<Seq<char>>) -> Option<int>
    decreases names.len(),
{
    if names.len() == 0 {
        None
    } else if normalized(names.last()) == "plugin.toml"@ {
        Some(names.len() - 1)
    } else {
        manifest_index(names.drop_last())
    }
}

/// Which archive entry holds the manifest.
pub fn manifest_entry(names: &Vec<String>) -> (r: Option<usize>)
    ensures
        (match r {
            Some(i) => manifest_index(texts(names@)) == Some(i as int),
            None => manifest_index(texts(names@)) is None,
        }),
{
    let ghost all = texts(names@);
    let manifest_name = chars_of("plugin.toml");
    let mut i: usize = names.len();
    assert(all.take(i as int) =~= all);
    while i > 0
        invariant
            i <= names@.len(),
            all == texts(names@),
            manifest_name@ == "plugin.toml"@,
            manifest_index(all) == manifest_index(all.take(i as int)),
        decreases i,
    {
        let path = replace_char_in(names[i - 1].as_str(), '\\', '/');
        proof {
            assert(all.take(i as int).drop_last() =~= all.take(i - 1));
            assert(all.take(i as int).last() == names@[i - 1]@);
            assert(path@ == normalized(all.take(i as int).last()));
        }
        let hit = chars_eq(&path, &manifest_name);
        proof {
            let t = all.take(i as int);
            assert(t.len() == i);
            assert(manifest_index(t) == if normalized(t.last()) == "plugin.toml"@ {
                Some(t.len() - 1)
            } else {
                manifest_index(t.drop_last())
            });
            assert(manifest_name@ == "plugin.toml"@);
            assert(t.last() == names@[i - 1]@);
            assert(path@ == normalized(names@[i - 1]@));
            assert(hit == (normalized(t.last()) == "plugin.toml"@));
        }
        if hit {
            return Some(i - 1);
        }
        i -= 1;
    }
    None
}

/// Checks what installing needs of the archive and the target: the manifest
/// text must not be empty, and no plugin of that name may exist yet.
pub fn check_install(manifest_text: &str, plugin_name: &str, target_exists: bool) -> (r: Result<(), InstallError>)
    ensures
        manifest_text@.len() == 0 ==> (match r {
            Err(InstallError::ManifestMissing) => true,
            _ => false,
        }),
        manifest_text@.len() > 0 && target_exists ==> (match r {
            Err(InstallError::AlreadyExists(n)) => n@ == plugin_name@,
            _ => false,
        }),
        manifest_text@.len() > 0 && !target_exists ==> r is Ok,
{
    let text = chars_of(manifest_text);
    if text.len() == 0 {
        return Err(InstallError::ManifestMissing);
    }
    if target_exists {
        return Err(InstallError::AlreadyExists(plugin_name.to_owned()));
    }
    Ok(())
}

/// The number of entries of the ZIP archive `archive`, or the reader's
/// message when it cannot be read as one.
pub uninterp spec fn zip_count(archive: Seq<u8>) -> Result<usize, Seq<char>>;

/// The name of entry `index` of the ZIP archive, or the reader's message.
pub uninterp spec fn zip_name(archive: Seq<u8>, index: usize) -> Result<Seq<char>, Seq<char>>;

/// The content of entry `index` of the ZIP archive read as UTF-8 text, or
/// the reader's message.
pub uninterp spec fn zip_text(archive: Seq<u8>, index: usize) -> Result<Seq<char>, Seq<char>>;

/// The content of entry `index` of the ZIP archive, or the reader's message.
pub uninterp spec fn zip_bytes(archive: Seq<u8>, index: usize) -> Result<Seq<u8>, Seq<char>>;

/// Opens the archive with `zip::ZipArchive::new` over the bytes and gives
/// `len()`; an error is given by its `to_string`. Claimed: a function of
/// the bytes alone.
#[verifier::external_body]
fn archive_len(archive: &[u8]) -> (r: Result<usize, String>)
    ensures
        (match r {
            Ok(n) => zip_count(archive@) == Ok::<usize, Seq<char>>(n),
            Err(e) => zip_count(archive@) == Err::<usize, Seq<char>>(e@),
        }),
{
    match zip::ZipArchive::new(std::io::Cursor::new(archive)) {
        Ok(z) => Ok(z.len()),
        Err(e) => Err(e.to_string()),
    }
}

/// Opens the archive with `zip::ZipArchive::new` and gives the `name()` of
/// `by_index(index)`; an error is given by its `to_string`. Claimed: a
/// function of the bytes and the index alone.
#[verifier::external_body]
fn archive_name(archive: &[u8], index: usize) -> (r: Result<String, String>)
    ensures
        (match r {
            Ok(n) => zip_name(archive@, index) == Ok::<Seq<char>, Seq<char>>(n@),
            Err(e) => zip_name(archive@, index) == Err::<Seq<char>, Seq<char>>(e@),
        }),
{
    let mut z = match zip::ZipArchive::new(std::io::Cursor::new(archive)) {
        Ok(z) => z,
        Err(e) => return Err(e.to_string()),
    };
    let name = match z.by_index(index) {
        Ok(entry) => Ok(entry.name().to_string()),
        Err(e) => Err(e.to_string()),
    };
    name
}

/// Opens the archive with `zip::ZipArchive::new` and reads `by_index(index)`
/// with `std::io::Read::read_to_string`; an error is given by its
/// `to_string`. Claimed: a function of the bytes and the index alone.
#[verifier::external_body]
fn archive_text(archive: &[u8], index: usize) -> (r: Result<String, String>)
    ensures
        (match r {
            Ok(t) => zip_text(archive@, index) == Ok::<Seq<char>, Seq<char>>(t@),
            Err(e) => zip_text(archive@, index) == Err::<Seq<char>, Seq<char>>(e@),
        }),
{
    let mut z = match zip::ZipArchive::new(std::io::Cursor::new(archive)) {
        Ok(z) => z,
        Err(e) => return Err(e.to_string()),
    };
    let mut entry = match z.by_index(index) {
        Ok(entry) => entry,
        Err(e) => return Err(e.to_string()),
    };
    let mut text = String::new();
    match std::io::Read::read_to_string(&mut entry, &mut text) {
        Ok(_) => Ok(text),
        Err(e) => Err(e.to_string()),
    }
}

/// Opens the archive with `zip::ZipArchive::new` and reads `by_index(index)`
/// with `std::io::Read::read_to_end`; an error is given by its `to_string`.
/// Claimed: a function of the bytes and the index alone.
#[verifier::external_body]
fn archive_bytes(archive: &[u8], index: usize) -> (r: Result<Vec<u8>, String>)
    ensures
        (match r {
            Ok(b) => zip_bytes(archive@, index) == Ok::<Seq<u8>, Seq<char>>(b@),
            Err(e) => zip_bytes(archive@, index) == Err::<Seq<u8>, Seq<char>>(e@),
        }),
{
    let mut z = match zip::ZipArchive::new(std::io::Cursor::new(archive)) {
        Ok(z) => z,
        Err(e) => return Err(e.to_string()),
    };
    let mut entry = match z.by_index(index) {
        Ok(entry) => entry,
        Err(e) => return Err(e.to_string()),
    };
    let mut data = Vec::new();
    match std::io::Read::read_to_end(&mut entry, &mut data) {
        Ok(_) => Ok(data),
        Err(e) => Err(e.to_string()),
    }
}

/// Reading the first `k` entries for the manifest: the text of the last of
/// them named `plugin.toml` (empty when none is), or the first error met.
pub open spec fn manifest_scan(archive: Seq<u8>, k: usize) -> Result<Seq<char>, Seq<char>>
    decreases k,
{
    if k == 0 {
        Ok(Seq::empty())
    } else {
        match manifest_scan(archive, (k - 1) as usize) {
            Err(e) => Err(e),
            Ok(t) => match zip_name(archive, (k - 1) as usize) {
                Err(e) => Err(e),
                Ok(n) => if normalized(n) == "plugin.toml"@ {
                    zip_text(archive, (k - 1) as usize)
                } else {
                    Ok(t)
                },
            },
        }
    }
}

/// The manifest text of an archive: that of its last entry named
/// `plugin.toml`; refused when the archive cannot be read or has no
/// non-empty manifest.
pub open spec fn archive_manifest_text(archive: Seq<u8>) -> Result<Seq<char>, Seq<char>> {
    match zip_count(archive) {
        Err(e) => Err(e),
        Ok(n) => match manifest_scan(archive, n) {
            Err(e) => Err(e),
            Ok(t) => if t.len() == 0 {
                Err(install_error_text(InstallError::ManifestMissing))
            } else {
                Ok(t)
            },
        },
    }
}

/// Reads the manifest text out of a plugin archive.
pub fn archive_manifest(archive: &[u8]) -> (r: Result<String, String>)
    ensures
        (match r {
            Ok(t) => archive_manifest_text(archive@) == Ok::<Seq<char>, Seq<char>>(t@),
            Err(e) => archive_manifest_text(archive@) == Err::<Seq<char>, Seq<char>>(e@),
        }),
{
    let n = match archive_len(archive) {
        Ok(n) => n,
        Err(e) => return Err(e),
    };
    let manifest_name = chars_of("plugin.toml");
    let mut text = String::new();
    proof {
        reveal_strlit("");
    }
    let mut i: usize = 0;
    while i < n
        invariant
            i <= n,
            zip_count(archive@) == Ok::<usize, Seq<char>>(n),
            manifest_name@ == "plugin.toml"@,
            manifest_scan(archive@, i) == Ok::<Seq<char>, Seq<char>>(text@),
        decreases n - i,
    {
        let name = match archive_name(archive, i) {
            Ok(name) => name,
            Err(e) => {
                assert(manifest_scan(archive@, (i + 1) as usize) == Err::<Seq<char>, Seq<char>>(e@));
                assert(archive_manifest_text(archive@) == Err::<Seq<char>, Seq<char>>(e@)) by {
                    lemma_scan_error_stays(archive@, (i + 1) as usize, n, e@);
                }
                return Err(e);
            },
        };
        let path = replace_char_in(name.as_str(), '\\', '/');
        if chars_eq(&path, &manifest_name) {
            match archive_text(archive, i) {
                Ok(t) => {
                    text = t;
                },
                Err(e) => {
                    assert(manifest_scan(archive@, (i + 1) as usize) == Err::<Seq<char>, Seq<char>>(e@));
                    assert(archive_manifest_text(archive@) == Err::<Seq<char>, Seq<char>>(e@)) by {
                        lemma_scan_error_stays(archive@, (i + 1) as usize, n, e@);
                    }
                    return Err(e);
                },
            }
        }
        i += 1;
    }
    if chars_of(text.as_str()).len() == 0 {
        let e = InstallError::ManifestMissing;
        return Err(e.message());
    }
    Ok(text)
}

proof fn lemma_scan_error_stays(archive: Seq<u8>, k: usize, n: usize, e: Seq<char>)
    requires
        k <= n,
        manifest_scan(archive, k) == Err::<Seq<char>, Seq<char>>(e),
    ensures
        manifest_scan(archive, n) == Err::<Seq<char>, Seq<char>>(e),
    decreases n - k,
{
    if k < n {
        lemma_scan_error_stays(archive, (k + 1) as usize, n, e);
    }
}

/// How many entries a plugin archive has.
pub fn archive_entry_count(archive: &[u8]) -> (r: Result<usize, String>)
    ensures
        (match r {
            Ok(n) => zip_count(archive@) == Ok::<usize, Seq<char>>(n),
            Err(e) => zip_count(archive@) == Err::<usize, Seq<char>>(e@),
        }),
{
    archive_len(archive)
}

/// Entry `index` of a plugin archive as it is to be installed for the plugin
/// `plugin_name`: where it goes and its content (not read, and empty, for an
/// entry that is skipped).
pub fn archive_entry(archive: &[u8], index: usize, plugin_name: &str) -> (r: Result<
    (EntryTarget, Vec<u8>),
    String,
>)
    ensures
        (match zip_name(archive@, index) {
            Err(e) => r matches Err(m) && m@ == e,
            Ok(name) => match r {
                Ok((target, data)) => {
                    &&& is_target_of(target, normalized(name), plugin_name@)
                    &&& if target is Skip {
                        data@.len() == 0
                    } else {
                        zip_bytes(archive@, index) == Ok::<Seq<u8>, Seq<char>>(data@)
                    }
                },
                Err(m) => {
                    &&& !(exists|t: EntryTarget| is_target_of(t, normalized(name), plugin_name@) && t is Skip)
                    &&& zip_bytes(archive@, index) == Err::<Seq<u8>, Seq<char>>(m@)
                },
            },
        }),
{
    let name = match archive_name(archive, index) {
        Ok(name) => name,
        Err(e) => return Err(e),
    };
    let target = entry_target(name.as_str(), plugin_name);
    if let EntryTarget::Skip = target {
        return Ok((target, Vec::new()));
    }
    match archive_bytes(archive, index) {
        Ok(data) => Ok((target, data)),
        Err(e) => {
            proof {
                assert forall|t: EntryTarget| is_target_of(t, normalized(name@), plugin_name@) implies !(t is Skip) by {
                    lemma_target_unique(t, target, normalized(name@), plugin_name@);
                }
            }
            Err(e)
        },
    }
}

proof fn lemma_target_unique(a: EntryTarget, b: EntryTarget, path: Seq<char>, plugin: Seq<char>)
    requires
        is_target_of(a, path, plugin),
        is_target_of(b, path, plugin),
    ensures
        (a is Skip) == (b is Skip),
{
}

} // verus!
