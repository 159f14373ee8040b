//! Desktop entries: the applications that the launcher offers.

use vstd::prelude::*;
use std::path::PathBuf;
use vstd::seq_lib::{to_multiset_insert, to_multiset_remove};
use crate::text::{chars_of, same_text, string_of};

verus! {

/// A file-system path; nothing is known of its inside.
#[verifier::external_type_specification]
#[verifier::external_body]
pub struct ExPathBuf(PathBuf);

#[derive(Clone, Debug)]
pub struct DesktopEntry {
    pub id: String,
    pub name: String,
    pub command: String,
    pub icon: Option<String>,
    /// Pre-resolved icon path for fast rendering
    pub icon_path: Option<PathBuf>,
    pub comment: Option<String>,
    pub categories: Vec<String>,
    pub terminal: bool,
    pub path: PathBuf,
}

impl DesktopEntry {
    pub fn new(
        id: String,
        name: String,
        command: String,
        icon: Option<String>,
        icon_path: Option<PathBuf>,
        comment: Option<String>,
        categories: Vec<String>,
        terminal: bool,
        path: PathBuf,
    ) -> (r: DesktopEntry)
        ensures
            r == (DesktopEntry {
                id,
                name,
                command,
                icon,
                icon_path,
                comment,
                categories,
                terminal,
                path,
            }),
    {
        DesktopEntry { id, name, command, icon, icon_path, comment, categories, terminal, path }
    }

    /// The icon name that has to be looked up for this entry: its icon,
    /// unless a path is already known for it.
    pub fn wanted_icon(&self) -> (r: Option<&String>)
        ensures
            self.icon_path is None && self.icon is Some ==> r is Some && *(r->0) == self.icon->0,
            !(self.icon_path is None && self.icon is Some) ==> r is None,
    {
        if self.icon_path.is_none() {
            self.icon.as_ref()
        } else {
            None
        }
    }
}

/// Trusted: `PathBuf::clone` gives a path equal to the one it is given.
pub assume_specification[ <PathBuf as Clone>::clone ](p: &PathBuf) -> (r: PathBuf)
    ensures
        r == *p,
;

/// The entry `e` once the lookup of its icon has given `found`: an entry
/// that has no icon path takes the one found for its icon, or stays without
/// where it names no icon; an entry that has one keeps it.
pub open spec fn with_icon_path(e: DesktopEntry, found: Option<PathBuf>) -> DesktopEntry {
    if e.icon_path is None {
        DesktopEntry { icon_path: if e.icon is Some { found } else { None }, ..e }
    } else {
        e
    }
}

/// What the lookup gave for the entry at position `i`: nothing where the
/// list of results is too short.
pub open spec fn found_at(found: Seq<Option<PathBuf>>, i: int) -> Option<PathBuf> {
    if 0 <= i < found.len() {
        found[i]
    } else {
        None
    }
}

/// Resolve icon paths for all entries; `found[i]` is what the lookup of the
/// icon of `entries[i]` gave.
pub fn resolve_all_icon_paths(entries: &mut Vec<DesktopEntry>, found: &Vec<Option<PathBuf>>)
    ensures
        final(entries)@.len() == old(entries)@.len(),
        forall|i: int|
            0 <= i < old(entries)@.len() ==> #[trigger] final(entries)@[i] == with_icon_path(
                old(entries)@[i],
                found_at(found@, i),
            ),
{
    let mut i: usize = 0;
    while i < entries.len()
        invariant
            i <= entries.len(),
            entries@.len() == old(entries)@.len(),
            forall|k: int|
                0 <= k < i ==> #[trigger] entries@[k] == with_icon_path(
                    old(entries)@[k],
                    found_at(found@, k),
                ),
            forall|k: int| i <= k < entries@.len() ==> #[trigger] entries@[k] == old(entries)@[k],
        decreases entries.len() - i,
    {
        if entries[i].icon_path.is_none() {
            let resolved = if entries[i].icon.is_some() && i < found.len() {
                match &found[i] {
                    Some(p) => Some(p.clone()),
                    None => None,
                }
            } else {
                None
            };
            entries[i].icon_path = resolved;
        }
        i += 1;
    }
}

/// Finishes the loading of the applications: the scanned entries with their
/// icon paths resolved.
pub fn load_applications(entries: Vec<DesktopEntry>, found: &Vec<Option<PathBuf>>) -> (r: Vec<
    DesktopEntry,
>)
    ensures
        r@.len() == entries@.len(),
        forall|i: int|
            0 <= i < entries@.len() ==> #[trigger] r@[i] == with_icon_path(
                entries@[i],
                found_at(found@, i),
            ),
{
    let mut entries = entries;
    resolve_all_icon_paths(&mut entries, found);
    entries
}

/// The name of the directory that holds desktop entries below a data directory.
pub const APPLICATIONS: &'static str = "applications";

/// The parts of `s` between the occurrences of `sep`: one more than there
/// are occurrences, empty parts included.
pub open spec fn split_on(s: Seq<char>, sep: char) -> Seq<Seq<char>>
    decreases s.len(),
{
    if s.len() == 0 {
        seq![Seq::empty()]
    } else {
        let parts = split_on(s.drop_last(), sep);
        if s.last() == sep {
            parts.push(Seq::empty())
        } else {
            parts.update(parts.len() - 1, parts.last().push(s.last()))
        }
    }
}

/// The applications directory below the data directory `dir`.
pub open spec fn applications_below(dir: Seq<char>) -> Seq<char> {
    if dir.len() == 0 {
        APPLICATIONS@
    } else if dir.last() == '/' {
        dir + APPLICATIONS@
    } else {
        dir.push('/') + APPLICATIONS@
    }
}

/// The directories to scan: the one below the user's data directory first,
/// where there is one; then one for each part of the colon-separated search
/// path, or the two system directories where no search path is set.
pub open spec fn application_dirs(data_home: Option<Seq<char>>, search_path: Option<Seq<char>>) -> Seq<
    Seq<char>,
> {
    let home = match data_home {
        Some(h) => seq![applications_below(h)],
        None => Seq::empty(),
    };
    let rest = match search_path {
        Some(x) => split_on(x, ':').map_values(|d: Seq<char>| applications_below(d)),
        None => seq!["/usr/local/share/applications"@, "/usr/share/applications"@],
    };
    home + rest
}

/// The texts of a list of strings, in order.
pub open spec fn texts(v: Seq<String>) -> Seq<Seq<char>> {
    Seq::new(v.len(), |i: int| v[i]@)
}

/// The character sequences of a list of character vectors, in order.
pub open spec fn parts_of(v: Seq<Vec<char>>) -> Seq<Seq<char>> {
    Seq::new(v.len(), |i: int| v[i]@)
}

/// Splits `s` at each colon.
pub fn split_search_path(s: &str) -> (r: Vec<Vec<char>>)
    ensures
        parts_of(r@) == split_on(s@, ':'),
{
    let src = chars_of(s);
    let mut done: Vec<Vec<char>> = Vec::new();
    let mut cur: Vec<char> = Vec::new();
    let mut i: usize = 0;
    proof {
        assert(src@.take(0) =~= Seq::<char>::empty());
        assert(parts_of(done@).push(cur@) =~= split_on(src@.take(0), ':'));
    }
    while i < src.len()
        invariant
            i <= src.len(),
            parts_of(done@).push(cur@) == split_on(src@.take(i as int), ':'),
        decreases src.len() - i,
    {
        let ghost before = src@.take(i as int);
        let ghost after = src@.take(i + 1);
        let ghost parts = parts_of(done@).push(cur@);
        proof {
            assert(after.drop_last() =~= before);
            assert(after.last() == src@[i as int]);
        }
        let c = src[i];
        if c == ':' {
            done.push(cur);
            cur = Vec::new();
            proof {
                assert(parts_of(done@) =~= parts);
                assert(parts_of(done@).push(cur@) =~= parts.push(Seq::empty()));
            }
        } else {
            cur.push(c);
            proof {
                assert(parts_of(done@).push(cur@) =~= parts.update(
                    parts.len() - 1,
                    parts.last().push(c),
                ));
            }
        }
        i += 1;
    }
    proof {
        assert(src@.take(src.len() as int) =~= src@);
    }
    let ghost parts = parts_of(done@).push(cur@);
    done.push(cur);
    proof {
        assert(parts_of(done@) =~= parts);
    }
    done
}

/// The applications directory below the data directory `dir`.
pub fn applications_dir(dir: &Vec<char>) -> (r: String)
    ensures
        r@ == applications_below(dir@),
{
    let base = string_of(dir);
    let n = dir.len();
    if n == 0 {
        APPLICATIONS.to_owned()
    } else if dir[n - 1] == '/' {
        base.concat(APPLICATIONS)
    } else {
        proof {
            reveal_strlit("/");
            assert("/"@ =~= seq!['/']);
            assert(dir@ + "/"@ =~= dir@.push('/'));
        }
        base.concat("/").concat(APPLICATIONS)
    }
}

/// The directories that are scanned for desktop entries, given the user's
/// data directory and the value of the search path variable.
pub fn get_xdg_application_dirs(data_home: Option<&str>, search_path: Option<&str>) -> (r: Vec<
    String,
>)
    ensures
        texts(r@) == application_dirs(
            match data_home {
                Some(h) => Some(h@),
                None => None,
            },
            match search_path {
                Some(x) => Some(x@),
                None => None,
            },
        ),
{
    let mut dirs: Vec<String> = Vec::new();
    match data_home {
        Some(h) => {
            let home = chars_of(h);
            dirs.push(applications_dir(&home));
        },
        None => {},
    }
    let ghost home = texts(dirs@);
    match search_path {
        Some(x) => {
            let parts = split_search_path(x);
            let ghost want = split_on(x@, ':').map_values(|d: Seq<char>| applications_below(d));
            let mut i: usize = 0;
            while i < parts.len()
                invariant
                    i <= parts.len(),
                    parts_of(parts@) == split_on(x@, ':'),
                    want == split_on(x@, ':').map_values(|d: Seq<char>| applications_below(d)),
                    texts(dirs@) == home + want.take(i as int),
                decreases parts.len() - i,
            {
                let ghost prev = texts(dirs@);
                let d = applications_dir(&parts[i]);
                proof {
                    assert(parts_of(parts@)[i as int] == parts@[i as int]@);
                    assert(d@ == want[i as int]);
                }
                dirs.push(d);
                i += 1;
                proof {
                    assert(texts(dirs@) =~= prev.push(d@));
                    assert(texts(dirs@) =~= home + want.take(i as int));
                }
            }
            proof {
                assert(want.take(parts.len() as int) =~= want);
            }
        },
        None => {
            dirs.push("/usr/local/share/applications".to_owned());
            dirs.push("/usr/share/applications".to_owned());
            proof {
                assert(texts(dirs@) =~= home + seq![
                    "/usr/local/share/applications"@,
                    "/usr/share/applications"@,
                ]);
            }
        },
    }
    dirs
}

/// Whether no two entries of `entries` share an id.
pub open spec fn distinct_ids(entries: Seq<DesktopEntry>) -> bool {
    forall|i: int, j: int|
        0 <= i < j < entries.len() ==> (#[trigger] entries[i]).id@ != (#[trigger] entries[j]).id@
}

/// Whether some entry of `entries` has the id `id`.
pub open spec fn has_id(entries: Seq<DesktopEntry>, id: Seq<char>) -> bool {
    exists|i: int| 0 <= i < entries.len() && (#[trigger] entries[i]).id@ == id
}

/// Whether an entry with the given id is among `entries`.
pub fn contains_id(entries: &Vec<DesktopEntry>, id: &str) -> (r: bool)
    ensures
        r == has_id(entries@, id@),
{
    let mut i: usize = 0;
    while i < entries.len()
        invariant
            i <= entries.len(),
            forall|k: int| 0 <= k < i ==> (#[trigger] entries@[k]).id@ != id@,
        decreases entries.len() - i,
    {
        if same_text(entries[i].id.as_str(), id) {
            return true;
        }
        i += 1;
    }
    false
}

/// Adds an entry found by the scan: the first entry with an id stays, and a
/// later one with the same id is dropped.
pub fn add_scanned(entries: &mut Vec<DesktopEntry>, entry: DesktopEntry)
    requires
        distinct_ids(old(entries)@),
    ensures
        distinct_ids(final(entries)@),
        has_id(old(entries)@, entry.id@) ==> final(entries)@ == old(entries)@,
        !has_id(old(entries)@, entry.id@) ==> final(entries)@ == old(entries)@.push(entry),
{
    if !contains_id(entries, entry.id.as_str()) {
        entries.push(entry);
    }
}

/// The entries of `found` without those whose id an earlier entry has.
pub open spec fn first_by_id(found: Seq<DesktopEntry>) -> Seq<DesktopEntry>
    decreases found.len(),
{
    if found.len() == 0 {
        Seq::empty()
    } else {
        let kept = first_by_id(found.drop_last());
        if has_id(kept, found.last().id@) {
            kept
        } else {
            kept.push(found.last())
        }
    }
}

/// The lower-case form of a text, as the standard library gives it.
pub uninterp spec fn lowercase_of(s: Seq<char>) -> Seq<char>;

/// Trusted: `str::to_lowercase` gives the lower-case form of a text, which
/// depends on the text alone.
#[verifier::external_body]
fn lowercase(s: &str) -> (r: String)
    ensures
        r@ == lowercase_of(s@),
{
    s.to_lowercase()
}

/// Whether `a` comes before `b` or equals it, character by character, a
/// prefix before its extensions.
pub open spec fn lex_le(a: Seq<char>, b: Seq<char>) -> bool
    decreases a.len(),
{
    if a.len() == 0 {
        true
    } else if b.len() == 0 {
        false
    } else if a[0] != b[0] {
        (a[0] as int) < (b[0] as int)
    } else {
        lex_le(a.drop_first(), b.drop_first())
    }
}

/// Trusted: `<=` on string slices orders them lexicographically by the
/// positions of their characters in the code charts.
#[verifier::external_body]
fn text_le(a: &str, b: &str) -> (r: bool)
    ensures
        r == lex_le(a@, b@),
{
    a <= b
}

/// Of two texts, one comes before the other or they are equal.
pub proof fn lemma_lex_total(a: Seq<char>, b: Seq<char>)
    ensures
        lex_le(a, b) || lex_le(b, a),
    decreases a.len(),
{
    if a.len() > 0 && b.len() > 0 {
        if a[0] == b[0] {
            lemma_lex_total(a.drop_first(), b.drop_first());
        }
    }
}

/// The order of texts is transitive.
pub proof fn lemma_lex_transitive(a: Seq<char>, b: Seq<char>, c: Seq<char>)
    requires
        lex_le(a, b),
        lex_le(b, c),
    ensures
        lex_le(a, c),
    decreases a.len(),
{
    if a.len() > 0 && b.len() > 0 && c.len() > 0 && a[0] == b[0] && b[0] == c[0] {
        lemma_lex_transitive(a.drop_first(), b.drop_first(), c.drop_first());
    }
}

/// The text by which an entry is ordered: its name in lower case.
pub open spec fn name_key(e: DesktopEntry) -> Seq<char> {
    lowercase_of(e.name@)
}

/// Whether the entries stand in the order of their lower-case names.
pub open spec fn sorted_by_name(s: Seq<DesktopEntry>) -> bool {
    forall|i: int, j: int|
        0 <= i < j < s.len() ==> lex_le(name_key(#[trigger] s[i]), name_key(#[trigger] s[j]))
}

fn name_le(a: &DesktopEntry, b: &DesktopEntry) -> (r: bool)
    ensures
        r == lex_le(name_key(*a), name_key(*b)),
{
    let x = lowercase(a.name.as_str());
    let y = lowercase(b.name.as_str());
    text_le(x.as_str(), y.as_str())
}

/// Sorts the entries by their lower-case names.
pub fn sort_by_name(entries: &mut Vec<DesktopEntry>)
    ensures
        sorted_by_name(final(entries)@),
        final(entries)@.to_multiset() == old(entries)@.to_multiset(),
{
    let mut i: usize = 0;
    proof {
        assert(entries@.take(0) =~= Seq::<DesktopEntry>::empty());
    }
    while i < entries.len()
        invariant
            i <= entries.len(),
            entries@.to_multiset() == old(entries)@.to_multiset(),
            sorted_by_name(entries@.take(i as int)),
        decreases entries.len() - i,
    {
        let ghost before = entries@;
        let e = entries.remove(i);
        let ghost rest = entries@;
        let mut p: usize = 0;
        while p < i && name_le(&entries[p], &e)
            invariant
                p <= i,
                i <= entries.len(),
                entries@ == rest,
                forall|k: int| 0 <= k < p ==> lex_le(name_key(#[trigger] rest[k]), name_key(e)),
            decreases i - p,
        {
            p += 1;
        }
        entries.insert(p, e);
        proof {
            broadcast use vstd::multiset::group_multiset_axioms;

            to_multiset_remove(before, i as int);
            to_multiset_insert(rest, p as int, e);
            before.to_multiset_ensures();
            assert(before.to_multiset().count(before[i as int]) > 0);
            assert(entries@.to_multiset() =~= before.to_multiset());
            let sorted = before.take(i as int);
            let now = entries@.take(i + 1);
            assert forall|k: int, l: int| 0 <= k < l < now.len() implies lex_le(
                name_key(#[trigger] now[k]),
                name_key(#[trigger] now[l]),
            ) by {
                let a = if k < p { k } else { k - 1 };
                let b = if l < p { l } else { l - 1 };
                if k != p {
                    assert(now[k] == sorted[a]);
                    assert(sorted[a] == rest[a]);
                }
                if l != p {
                    assert(now[l] == sorted[b]);
                    assert(sorted[b] == rest[b]);
                }
                if k == p {
                    assert(sorted[p as int] == rest[p as int]);
                    lemma_lex_total(name_key(rest[p as int]), name_key(e));
                    if b != p {
                        assert(lex_le(name_key(sorted[p as int]), name_key(sorted[b])));
                    } else {
                        lemma_lex_total(name_key(rest[p as int]), name_key(rest[p as int]));
                    }
                    lemma_lex_transitive(name_key(e), name_key(rest[p as int]), name_key(rest[b]));
                } else if l != p {
                    assert(lex_le(name_key(sorted[a]), name_key(sorted[b])));
                }
            }
        }
        i += 1;
    }
    proof {
        assert(entries@.take(entries.len() as int) =~= entries@);
    }
}

/// Finishes a scan of the application directories: of the entries found,
/// in the order in which they were found, the first with each id stays, and
/// the entries that stay are sorted by their lower-case names.
pub fn scan_applications(found: Vec<DesktopEntry>) -> (r: Vec<DesktopEntry>)
    ensures
        sorted_by_name(r@),
        r@.to_multiset() == first_by_id(found@).to_multiset(),
{
    let mut found = found;
    let ghost all = found@;
    let ghost mut k: int = 0;
    let mut kept: Vec<DesktopEntry> = Vec::new();
    proof {
        assert(all.take(0) =~= Seq::<DesktopEntry>::empty());
        assert(all.skip(0) =~= all);
    }
    while found.len() > 0
        invariant
            0 <= k <= all.len(),
            found@ == all.skip(k),
            kept@ == first_by_id(all.take(k)),
            distinct_ids(kept@),
        decreases found.len(),
    {
        let e = found.remove(0);
        proof {
            assert(e == all[k]);
            assert(all.take(k + 1).drop_last() =~= all.take(k));
            assert(all.take(k + 1).last() == e);
            assert(found@ =~= all.skip(k + 1));
            k = k + 1;
        }
        add_scanned(&mut kept, e);
    }
    proof {
        assert(all.take(k) =~= all);
    }
    sort_by_name(&mut kept);
    kept
}

} // verus!
