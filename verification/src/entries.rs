//! Directory listings: permission strings, entry assembly, and the
//! directories-first alphabetical sort.

use vstd::prelude::*;
use vstd::seq_lib::group_to_multiset_ensures;

use crate::path::FsPath;

verus! {

broadcast use group_to_multiset_ensures;

/// One directory entry as the platform reports it, before the library
/// shapes it: bare name, kind, byte size, and the raw mode word.
pub struct RawEntry {
    pub name: String,
    pub is_dir: bool,
    pub size: u64,
    pub mode: u32,
}

/// One entry of the navigation list.
pub struct FsEntry {
    pub path: FsPath,
    pub name: String,
    pub is_dir: bool,
    pub size: u64,
    pub permissions: String,
}

/// The mathematical content of an [`FsEntry`].
pub ghost struct EntryView {
    pub path: Seq<Seq<char>>,
    pub name: Seq<char>,
    pub is_dir: bool,
    pub size: u64,
    pub permissions: Seq<char>,
}

impl View for FsEntry {
    type V = EntryView;

    open spec fn view(&self) -> EntryView {
        EntryView {
            path: self.path@,
            name: self.name@,
            is_dir: self.is_dir,
            size: self.size,
            permissions: self.permissions@,
        }
    }
}

/// The ten characters of the rendered permission string: `d` or `-`,
/// then `rwx`-or-`-` for owner, group and other in turn.
pub open spec fn perm_chars(is_dir: bool, mode: u32) -> Seq<char> {
    seq![
        if is_dir { 'd' } else { '-' },
        if mode & 0o400 != 0 { 'r' } else { '-' },
        if mode & 0o200 != 0 { 'w' } else { '-' },
        if mode & 0o100 != 0 { 'x' } else { '-' },
        if mode & 0o040 != 0 { 'r' } else { '-' },
        if mode & 0o020 != 0 { 'w' } else { '-' },
        if mode & 0o010 != 0 { 'x' } else { '-' },
        if mode & 0o004 != 0 { 'r' } else { '-' },
        if mode & 0o002 != 0 { 'w' } else { '-' },
        if mode & 0o001 != 0 { 'x' } else { '-' },
    ]
}

/// Renders the ten-character permission string for an entry.
pub fn perm_string(is_dir: bool, mode: u32) -> (r: String)
    ensures
        r@ == perm_chars(is_dir, mode),
        r@.len() == 10,
{
    let mut s = String::new();
    s.append(if is_dir { "d" } else { "-" });
    s.append(if mode & 0o400 != 0 { "r" } else { "-" });
    s.append(if mode & 0o200 != 0 { "w" } else { "-" });
    s.append(if mode & 0o100 != 0 { "x" } else { "-" });
    s.append(if mode & 0o040 != 0 { "r" } else { "-" });
    s.append(if mode & 0o020 != 0 { "w" } else { "-" });
    s.append(if mode & 0o010 != 0 { "x" } else { "-" });
    s.append(if mode & 0o004 != 0 { "r" } else { "-" });
    s.append(if mode & 0o002 != 0 { "w" } else { "-" });
    s.append(if mode & 0o001 != 0 { "x" } else { "-" });
    proof {
        reveal_strlit("d");
        reveal_strlit("-");
        reveal_strlit("r");
        reveal_strlit("w");
        reveal_strlit("x");
        assert(s@ =~= perm_chars(is_dir, mode));
    }
    s
}

/// The entry that a raw report from directory `dir` turns into.
pub open spec fn entry_view_of(dir: Seq<Seq<char>>, w: RawEntry) -> EntryView {
    EntryView {
        path: dir.push(w.name@),
        name: w.name@,
        is_dir: w.is_dir,
        size: w.size,
        permissions: perm_chars(w.is_dir, w.mode),
    }
}

/// Shapes one raw report into the entry shown for it.
pub fn make_entry(dir: &FsPath, w: RawEntry) -> (e: FsEntry)
    ensures
        e@ == entry_view_of(dir@, w),
{
    let RawEntry { name, is_dir, size, mode } = w;
    let path = dir.child(name.clone());
    let permissions = perm_string(is_dir, mode);
    FsEntry { path, name, is_dir, size, permissions }
}

/// Lexicographic order on names, by Unicode scalar value; this is the
/// order in which `String` comparison sorts, since UTF-8 byte order
/// agrees with scalar order.
pub open spec fn lex_le(a: Seq<char>, b: Seq<char>) -> bool
    decreases a.len(),
{
    if a.len() == 0 {
        true
    } else if b.len() == 0 {
        false
    } else if a[0] == b[0] {
        lex_le(a.drop_first(), b.drop_first())
    } else {
        (a[0] as u32) < (b[0] as u32)
    }
}

/// The listing order: directories strictly before files, names
/// alphabetically within each group.
pub open spec fn entry_le(a: EntryView, b: EntryView) -> bool {
    if a.is_dir != b.is_dir {
        a.is_dir
    } else {
        lex_le(a.name, b.name)
    }
}

pub open spec fn views_of(s: Seq<FsEntry>) -> Seq<EntryView> {
    s.map(|i: int, e: FsEntry| e@)
}

pub open spec fn sorted_entries(s: Seq<EntryView>) -> bool {
    forall|i: int, j: int| 0 <= i < j < s.len() ==> entry_le(s[i], s[j])
}

pub proof fn lemma_lex_le_refl(a: Seq<char>)
    ensures
        lex_le(a, a),
    decreases a.len(),
{
    if a.len() > 0 {
        lemma_lex_le_refl(a.drop_first());
    }
}

pub proof fn lemma_lex_le_total(a: Seq<char>, b: Seq<char>)
    ensures
        lex_le(a, b) || lex_le(b, a),
    decreases a.len(),
{
    if a.len() > 0 && b.len() > 0 {
        if a[0] == b[0] {
            lemma_lex_le_total(a.drop_first(), b.drop_first());
        } else {
            vstd::utf8::char_u32_cast(a[0], a[0] as u32);
            vstd::utf8::char_u32_cast(b[0], b[0] as u32);
            assert(a[0] as u32 != b[0] as u32);
        }
    }
}

pub proof fn lemma_lex_le_trans(a: Seq<char>, b: Seq<char>, c: Seq<char>)
    requires
        lex_le(a, b),
        lex_le(b, c),
    ensures
        lex_le(a, c),
    decreases a.len(),
{
    if a.len() == 0 {
    } else {
        if a[0] == b[0] {
            if b[0] == c[0] {
                lemma_lex_le_trans(a.drop_first(), b.drop_first(), c.drop_first());
            }
        }
    }
}

pub proof fn lemma_entry_le_total(a: EntryView, b: EntryView)
    ensures
        entry_le(a, b) || entry_le(b, a),
{
    lemma_lex_le_total(a.name, b.name);
}

pub proof fn lemma_entry_le_trans(a: EntryView, b: EntryView, c: EntryView)
    requires
        entry_le(a, b),
        entry_le(b, c),
    ensures
        entry_le(a, c),
{
    if a.is_dir == b.is_dir && b.is_dir == c.is_dir {
        lemma_lex_le_trans(a.name, b.name, c.name);
    }
}

/// Compares two names in listing order.
pub fn name_le(a: &str, b: &str) -> (r: bool)
    ensures
        r == lex_le(a@, b@),
{
    let la = a.unicode_len();
    let lb = b.unicode_len();
    let mut i: usize = 0;
    proof {
        assert(a@.skip(0) =~= a@);
        assert(b@.skip(0) =~= b@);
    }
    loop
        invariant
            i <= la,
            i <= lb,
            la == a@.len(),
            lb == b@.len(),
            lex_le(a@, b@) == lex_le(a@.skip(i as int), b@.skip(i as int)),
        decreases la - i,
    {
        if i >= la {
            proof {
                assert(a@.skip(i as int) =~= Seq::<char>::empty());
            }
            return true;
        }
        if i >= lb {
            proof {
                assert(b@.skip(i as int) =~= Seq::<char>::empty());
                assert(a@.skip(i as int).len() > 0);
            }
            return false;
        }
        let ca = a.get_char(i);
        let cb = b.get_char(i);
        proof {
            assert(a@.skip(i as int)[0] == ca);
            assert(b@.skip(i as int)[0] == cb);
        }
        if ca != cb {
            return (ca as u32) < (cb as u32);
        }
        proof {
            assert(a@.skip(i as int).drop_first() =~= a@.skip(i + 1));
            assert(b@.skip(i as int).drop_first() =~= b@.skip(i + 1));
        }
        i += 1;
    }
}

/// Compares two entries in listing order.
pub fn entry_le_exec(a: &FsEntry, b: &FsEntry) -> (r: bool)
    ensures
        r == entry_le(a@, b@),
{
    if a.is_dir != b.is_dir {
        a.is_dir
    } else {
        name_le(a.name.as_str(), b.name.as_str())
    }
}

proof fn lemma_views_push(s: Seq<FsEntry>, e: FsEntry)
    ensures
        views_of(s.push(e)) == views_of(s).push(e@),
{
    assert(views_of(s.push(e)) =~= views_of(s).push(e@));
}

proof fn lemma_views_remove(s: Seq<FsEntry>, i: int)
    requires
        0 <= i < s.len(),
    ensures
        views_of(s.remove(i)) == views_of(s).remove(i),
{
    assert(views_of(s.remove(i)) =~= views_of(s).remove(i));
}

/// The index of a minimal entry in listing order.
fn min_index(v: &Vec<FsEntry>) -> (m: usize)
    requires
        v.len() > 0,
    ensures
        m < v.len(),
        forall|j: int| 0 <= j < v@.len() ==> entry_le(v@[m as int]@, v@[j]@),
{
    let mut m: usize = 0;
    let mut i: usize = 1;
    proof {
        lemma_lex_le_refl(v@[0]@.name);
    }
    while i < v.len()
        invariant
            m < i,
            i <= v.len(),
            forall|j: int| 0 <= j < i ==> entry_le(v@[m as int]@, v@[j]@),
        decreases v.len() - i,
    {
        if entry_le_exec(&v[i], &v[m]) {
            proof {
                assert forall|j: int| 0 <= j < i implies entry_le(v@[i as int]@, v@[j]@) by {
                    lemma_entry_le_trans(v@[i as int]@, v@[m as int]@, v@[j]@);
                }
                lemma_lex_le_refl(v@[i as int]@.name);
            }
            m = i;
        } else {
            proof {
                lemma_entry_le_total(v@[m as int]@, v@[i as int]@);
            }
        }
        i += 1;
    }
    m
}

/// Sorts entries into listing order: directories first, then files,
/// each group alphabetically by name.  The result holds exactly the
/// entries given, in sorted order.
pub fn sort_entries(v: Vec<FsEntry>) -> (r: Vec<FsEntry>)
    ensures
        sorted_entries(views_of(r@)),
        views_of(r@).to_multiset() == views_of(v@).to_multiset(),
{
    let ghost all = views_of(v@).to_multiset();
    let mut rest = v;
    let mut out: Vec<FsEntry> = Vec::new();
    proof {
        assert(views_of(out@) =~= Seq::<EntryView>::empty());
        assert(views_of(out@).to_multiset().add(views_of(rest@).to_multiset()) =~= all);
    }
    while rest.len() > 0
        invariant
            sorted_entries(views_of(out@)),
            forall|i: int, j: int|
                0 <= i < out@.len() && 0 <= j < rest@.len() ==> entry_le(
                    views_of(out@)[i],
                    views_of(rest@)[j],
                ),
            views_of(out@).to_multiset().add(views_of(rest@).to_multiset()) == all,
        decreases rest.len(),
    {
        let m = min_index(&rest);
        let ghost old_out = out@;
        let ghost old_rest = rest@;
        let e = rest.remove(m);
        out.push(e);
        proof {
            lemma_views_remove(old_rest, m as int);
            lemma_views_push(old_out, e);
            let vo = views_of(old_out);
            let vr = views_of(old_rest);
            assert(views_of(rest@) == vr.remove(m as int));
            assert(views_of(out@) == vo.push(e@));
            assert(e@ == vr[m as int]);
            // order: everything already placed is at most e, and e is at most
            // everything that remains
            assert forall|i: int, j: int|
                0 <= i < out@.len() && 0 <= j < rest@.len() implies entry_le(
                views_of(out@)[i],
                views_of(rest@)[j],
            ) by {
                let x = views_of(out@)[i];
                let y = views_of(rest@)[j];
                if j < m {
                    assert(y == vr[j]);
                } else {
                    assert(y == vr[j + 1]);
                }
                if i < vo.len() {
                    assert(x == vo[i]);
                    lemma_entry_le_trans(x, e@, y);
                } else {
                    assert(x == e@);
                }
            }
            assert forall|i: int, j: int|
                0 <= i < j < views_of(out@).len() implies entry_le(
                views_of(out@)[i],
                views_of(out@)[j],
            ) by {
                if j == vo.len() {
                    assert(views_of(out@)[i] == vo[i]);
                    assert(entry_le(vo[i], vr[m as int]));
                }
            }
            assert(sorted_entries(views_of(out@)));
            // the multiset of entries is preserved
            assert(vr.contains(vr[m as int]));
            assert(vr.to_multiset().count(e@) > 0);
            assert(views_of(out@).to_multiset().add(views_of(rest@).to_multiset()) =~= vo.to_multiset().add(
                vr.to_multiset(),
            ));
        }
    }
    proof {
        assert(views_of(rest@) =~= Seq::<EntryView>::empty());
        assert(views_of(out@).to_multiset().add(views_of(rest@).to_multiset())
            =~= views_of(out@).to_multiset());
    }
    out
}

/// Assembles and sorts the listing of directory `dir` from the raw
/// reports of its entries.  The result holds exactly one shaped entry
/// per report, in listing order.
pub fn build_listing(dir: &FsPath, raw: Vec<RawEntry>) -> (r: Vec<FsEntry>)
    ensures
        sorted_entries(views_of(r@)),
        views_of(r@).to_multiset() == raw@.map(
            |i: int, w: RawEntry| entry_view_of(dir@, w),
        ).to_multiset(),
{
    let ghost orig = raw@;
    let ghost shaped = orig.map(|i: int, w: RawEntry| entry_view_of(dir@, w));
    let mut raw = raw;
    let mut made: Vec<FsEntry> = Vec::new();
    proof {
        assert(views_of(made@) =~= shaped.take(0));
        assert(raw@ == orig.skip(0));
    }
    while raw.len() > 0
        invariant
            raw@.len() <= orig.len(),
            raw@ == orig.skip(orig.len() - raw@.len()),
            shaped == orig.map(|i: int, w: RawEntry| entry_view_of(dir@, w)),
            views_of(made@) == shaped.take(orig.len() - raw@.len()),
        decreases raw.len(),
    {
        let ghost k = orig.len() - raw@.len();
        let ghost old_made = made@;
        let w = raw.remove(0);
        proof {
            assert(w == orig[k]);
        }
        let e = make_entry(dir, w);
        made.push(e);
        proof {
            lemma_views_push(old_made, e);
            assert(raw@ =~= orig.skip(k + 1));
            assert(views_of(made@) =~= shaped.take(k + 1));
        }
    }
    proof {
        assert(views_of(made@) =~= shaped);
    }
    sort_entries(made)
}

/// The listing partition law: in a sorted listing every directory stands
/// strictly before every file, and within the directories, as within the
/// files, the names ascend alphabetically.
pub proof fn lemma_listing_partitioned(s: Seq<EntryView>)
    requires
        sorted_entries(s),
    ensures
        forall|i: int, j: int|
            0 <= i < s.len() && 0 <= j < s.len() && s[i].is_dir && !s[j].is_dir ==> i < j,
        forall|i: int, j: int|
            0 <= i < j < s.len() && s[i].is_dir == s[j].is_dir ==> lex_le(s[i].name, s[j].name),
{
    assert forall|i: int, j: int|
        0 <= i < s.len() && 0 <= j < s.len() && s[i].is_dir && !s[j].is_dir implies i < j by {
        if j < i {
            assert(entry_le(s[j], s[i]));
        }
    }
    assert forall|i: int, j: int|
        0 <= i < j < s.len() && s[i].is_dir == s[j].is_dir implies lex_le(
        s[i].name,
        s[j].name,
    ) by {
        assert(entry_le(s[i], s[j]));
    }
}

} // verus!
