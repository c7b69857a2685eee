//! Fingerprint engine: a deterministic content digest over the set of files
//! in a project directory.
//!
//! Each file is a (relative path, content) entry. The digest is the SHA3-256
//! hash, in hex, of the concatenated `path ++ content` bytes of every entry,
//! taken in descending lexicographic order of (path, content). Sorting before
//! hashing makes the digest independent of the order in which the filesystem
//! enumerated the files.

use crypto::digest::Digest;
use vstd::prelude::*;

verus! {

use vstd::multiset::Multiset;
use vstd::relations::{sorted_by, total_ordering};
use vstd::seq_lib::lemma_sorted_unique;
use vstd::utf8::encode_utf8;
use crate::bytes::{
    bytes_le, bytes_le_exec, bytes_eq, clone_bytes,
    lemma_bytes_le_from_refl, lemma_bytes_le_from_total,
    lemma_bytes_le_from_antisym, lemma_bytes_le_from_trans,
    push_bytes, string_bytes,
};
use crate::exclusion::{excluded_spec, in_metadata_dir, ExclusionRules};

/// One file of the tree: its path relative to the project root (as UTF-8
/// bytes) and its content.
pub struct TreeEntry {
    pub path: Vec<u8>,
    pub content: Vec<u8>,
}

impl View for TreeEntry {
    type V = (Seq<u8>, Seq<u8>);

    open spec fn view(&self) -> (Seq<u8>, Seq<u8>) {
        (self.path@, self.content@)
    }
}

/// The views of a sequence of entries.
pub open spec fn entries_view(s: Seq<TreeEntry>) -> Seq<(Seq<u8>, Seq<u8>)> {
    s.map_values(|e: TreeEntry| e.view())
}

/// `x` may stand before `y` in the canonical (descending) entry order:
/// descending lexicographic on the path, ties broken descending on the
/// content. A real directory never holds two entries with one path, so the
/// tie-break only serves to make the order total.
pub open spec fn entry_le(x: (Seq<u8>, Seq<u8>), y: (Seq<u8>, Seq<u8>)) -> bool {
    if x.0 == y.0 {
        bytes_le(y.1, x.1)
    } else {
        bytes_le(y.0, x.0)
    }
}

/// `entry_le` as a first-class relation.
pub open spec fn entry_le_fn() -> spec_fn((Seq<u8>, Seq<u8>), (Seq<u8>, Seq<u8>)) -> bool {
    |x: (Seq<u8>, Seq<u8>), y: (Seq<u8>, Seq<u8>)| entry_le(x, y)
}

pub proof fn lemma_entry_le_refl(x: (Seq<u8>, Seq<u8>))
    ensures
        entry_le(x, x),
{
    lemma_bytes_le_from_refl(x.1, 0);
}

pub proof fn lemma_entry_le_total(x: (Seq<u8>, Seq<u8>), y: (Seq<u8>, Seq<u8>))
    ensures
        entry_le(x, y) || entry_le(y, x),
{
    if x.0 == y.0 {
        lemma_bytes_le_from_total(x.1, y.1, 0);
    } else {
        lemma_bytes_le_from_total(x.0, y.0, 0);
    }
}

pub proof fn lemma_entry_le_antisym(x: (Seq<u8>, Seq<u8>), y: (Seq<u8>, Seq<u8>))
    requires
        entry_le(x, y),
        entry_le(y, x),
    ensures
        x == y,
{
    if x.0 == y.0 {
        lemma_bytes_le_from_antisym(y.1, x.1, 0);
    } else {
        lemma_bytes_le_from_antisym(y.0, x.0, 0);
        assert(false);
    }
}

pub proof fn lemma_entry_le_trans(x: (Seq<u8>, Seq<u8>), y: (Seq<u8>, Seq<u8>), z: (Seq<u8>, Seq<u8>))
    requires
        entry_le(x, y),
        entry_le(y, z),
    ensures
        entry_le(x, z),
{
    if x.0 == y.0 && y.0 == z.0 {
        lemma_bytes_le_from_trans(z.1, y.1, x.1, 0);
    } else if x.0 == y.0 {
        assert(entry_le(x, z)) by {
            assert(bytes_le(z.0, y.0));
            assert(z.0 != x.0);
        }
    } else if y.0 == z.0 {
        assert(bytes_le(z.0, x.0));
        assert(z.0 != x.0);
    } else {
        lemma_bytes_le_from_trans(z.0, y.0, x.0, 0);
        if x.0 == z.0 {
            lemma_bytes_le_from_antisym(y.0, x.0, 0);
            assert(false);
        }
    }
}

/// The canonical entry order is a total order, so sorting by it yields one
/// canonical arrangement of any multiset of entries.
pub proof fn lemma_entry_le_total_ordering()
    ensures
        total_ordering(entry_le_fn()),
{
    let r = entry_le_fn();
    assert forall|x: (Seq<u8>, Seq<u8>)| #[trigger] r(x, x) by {
        lemma_entry_le_refl(x);
    }
    assert forall|x: (Seq<u8>, Seq<u8>), y: (Seq<u8>, Seq<u8>)|
        #[trigger] r(x, y) && #[trigger] r(y, x) implies x == y by {
        lemma_entry_le_antisym(x, y);
    }
    assert forall|x: (Seq<u8>, Seq<u8>), y: (Seq<u8>, Seq<u8>), z: (Seq<u8>, Seq<u8>)|
        #[trigger] r(x, y) && #[trigger] r(y, z) implies r(x, z) by {
        lemma_entry_le_trans(x, y, z);
    }
    assert forall|x: (Seq<u8>, Seq<u8>), y: (Seq<u8>, Seq<u8>)| #[trigger] r(x, y) || #[trigger] r(
        y,
        x,
    ) by {
        lemma_entry_le_total(x, y);
    }
}

/// The canonical arrangement of a set of entries: sorted descending.
pub open spec fn canonical_order(s: Seq<(Seq<u8>, Seq<u8>)>) -> Seq<(Seq<u8>, Seq<u8>)> {
    s.sort_by(entry_le_fn())
}

/// The byte stream fed to the digest: `path ++ content` of every entry, in
/// the order given.
pub open spec fn encode_entries(s: Seq<(Seq<u8>, Seq<u8>)>) -> Seq<u8>
    decreases s.len(),
{
    if s.len() == 0 {
        Seq::empty()
    } else {
        encode_entries(s.drop_last()) + s.last().0 + s.last().1
    }
}

/// The SHA3-256 digest of a byte stream, as 64 lowercase hex characters.
pub uninterp spec fn sha3_256_hex_of(data: Seq<u8>) -> Seq<char>;

/// Relies on rust-crypto's `Sha3::sha3_256` with `Digest::input` and
/// `Digest::result_str`: the returned string is the hex form of the 256-bit
/// SHA3 digest of exactly the bytes fed in (64 characters), and depends on
/// those bytes alone.
#[verifier::external_body]
fn sha3_256_hex(data: &Vec<u8>) -> (r: String)
    ensures
        r@ == sha3_256_hex_of(data@),
        r@.len() == 64,
{
    let mut h = crypto::sha3::Sha3::sha3_256();
    h.input(data.as_slice());
    h.result_str()
}

/// The fingerprint of a set of entries: the digest of the canonical encoding.
pub open spec fn fingerprint_of(entries: Seq<(Seq<u8>, Seq<u8>)>) -> Seq<char> {
    sha3_256_hex_of(encode_entries(canonical_order(entries)))
}

/// Law: the fingerprint does not depend on the enumeration order. Any two
/// enumerations holding the same multiset of (path, content) entries yield
/// the same digest.
pub proof fn lemma_fingerprint_enumeration_order(
    a: Seq<(Seq<u8>, Seq<u8>)>,
    b: Seq<(Seq<u8>, Seq<u8>)>,
)
    requires
        a.to_multiset() == b.to_multiset(),
    ensures
        fingerprint_of(a) == fingerprint_of(b),
{
    lemma_entry_le_total_ordering();
    a.lemma_sort_by_ensures(entry_le_fn());
    b.lemma_sort_by_ensures(entry_le_fn());
    lemma_sorted_unique(canonical_order(a), canonical_order(b), entry_le_fn());
    assert(canonical_order(a) == canonical_order(b));
}

/// Decides `entry_le` on entries.
fn entry_le_exec(a: &TreeEntry, b: &TreeEntry) -> (r: bool)
    ensures
        r == entry_le(a@, b@),
{
    if bytes_eq(&a.path, &b.path) {
        bytes_le_exec(&b.content, &a.content)
    } else {
        bytes_le_exec(&b.path, &a.path)
    }
}

proof fn lemma_entries_view_insert(s: Seq<TreeEntry>, i: int, e: TreeEntry)
    requires
        0 <= i <= s.len(),
    ensures
        entries_view(s.insert(i, e)) =~= entries_view(s).insert(i, e@),
{
}

proof fn lemma_sorted_insert(s: Seq<(Seq<u8>, Seq<u8>)>, i: int, e: (Seq<u8>, Seq<u8>))
    requires
        0 <= i <= s.len(),
        sorted_by(s, entry_le_fn()),
        forall|j: int| 0 <= j < i ==> entry_le(s[j], e),
        forall|j: int| i <= j < s.len() ==> entry_le(e, s[j]),
    ensures
        sorted_by(s.insert(i, e), entry_le_fn()),
{
    let t = s.insert(i, e);
    assert forall|p: int, q: int| 0 <= p < q < t.len() implies entry_le_fn()(t[p], t[q]) by {
        assert(forall|k: int| 0 <= k < i ==> t[k] == s[k]);
        assert(t[i] == e);
        assert(forall|k: int| i < k < t.len() ==> t[k] == s[k - 1]);
        if q < i {
            assert(entry_le_fn()(s[p], s[q]));
        } else if q == i {
            assert(entry_le(s[p], e));
        } else if p < i {
            if p == q - 1 {
                assert(entry_le(s[p], e));
                assert(entry_le(e, s[q - 1]));
                lemma_entry_le_trans(s[p], e, s[q - 1]);
            } else {
                assert(entry_le_fn()(s[p], s[q - 1]));
            }
        } else if p == i {
            assert(entry_le(e, s[q - 1]));
        } else {
            assert(entry_le_fn()(s[p - 1], s[q - 1]));
        }
    }
}

/// The index at which `e` belongs in the sorted vector `out`.
fn insert_position(out: &Vec<TreeEntry>, e: &TreeEntry) -> (i: usize)
    requires
        sorted_by(entries_view(out@), entry_le_fn()),
    ensures
        i <= out.len(),
        forall|j: int| 0 <= j < i ==> entry_le(entries_view(out@)[j], e@),
        forall|j: int| i <= j < out.len() ==> entry_le(e@, entries_view(out@)[j]),
{
    let mut i: usize = 0;
    while i < out.len()
        invariant
            i <= out.len(),
            sorted_by(entries_view(out@), entry_le_fn()),
            forall|j: int| 0 <= j < i ==> entry_le(entries_view(out@)[j], e@),
        decreases out.len() - i,
    {
        if !entry_le_exec(&out[i], e) {
            proof {
                let s = entries_view(out@);
                lemma_entry_le_total(s[i as int], e@);
                assert forall|j: int| i <= j < out.len() implies entry_le(e@, s[j]) by {
                    if j > i {
                        assert(entry_le_fn()(s[i as int], s[j]));
                        lemma_entry_le_trans(e@, s[i as int], s[j]);
                    }
                }
            }
            return i;
        }
        i = i + 1;
    }
    i
}

/// Inserts `e` into the sorted vector `out`, keeping it sorted.
fn insert_sorted(out: &mut Vec<TreeEntry>, e: TreeEntry)
    requires
        sorted_by(entries_view(old(out)@), entry_le_fn()),
    ensures
        sorted_by(entries_view(final(out)@), entry_le_fn()),
        entries_view(final(out)@).to_multiset() == entries_view(old(out)@).to_multiset().insert(
            e@,
        ),
{
    let ghost s = entries_view(out@);
    let ghost ev = e@;
    let i = insert_position(out, &e);
    out.insert(i, e);
    proof {
        broadcast use vstd::seq_lib::group_to_multiset_ensures;
        broadcast use vstd::multiset::group_multiset_axioms;

        lemma_entries_view_insert(old(out)@, i as int, e);
        assert(entries_view(final(out)@) == s.insert(i as int, ev));
        lemma_sorted_insert(s, i as int, ev);
        assert(s.insert(i as int, ev).to_multiset() == s.to_multiset().insert(ev));
    }
}

/// Sorts entries into the canonical (descending) order.
pub fn sort_entries(v: Vec<TreeEntry>) -> (r: Vec<TreeEntry>)
    ensures
        entries_view(r@) == canonical_order(entries_view(v@)),
{
    let ghost orig = entries_view(v@);
    let mut rest = v;
    let mut out: Vec<TreeEntry> = Vec::new();
    proof {
        broadcast use vstd::seq_lib::group_to_multiset_ensures;
        broadcast use vstd::multiset::group_multiset_axioms;

        assert(entries_view(out@) =~= Seq::empty());
        assert(entries_view(out@).to_multiset().add(entries_view(rest@).to_multiset())
            =~= orig.to_multiset());
    }
    while rest.len() > 0
        invariant
            sorted_by(entries_view(out@), entry_le_fn()),
            entries_view(out@).to_multiset().add(entries_view(rest@).to_multiset())
                == orig.to_multiset(),
        decreases rest.len(),
    {
        let ghost rv = entries_view(rest@);
        let ghost ov = entries_view(out@);
        let e = rest.remove(0);
        proof {
            broadcast use vstd::seq_lib::group_to_multiset_ensures;
            broadcast use vstd::multiset::group_multiset_axioms;

            assert(entries_view(rest@) =~= rv.remove(0));
            assert(rv.remove(0).to_multiset() == rv.to_multiset().remove(rv[0]));
            assert(rv.to_multiset().count(rv[0]) > 0);
        }
        insert_sorted(&mut out, e);
        proof {
            broadcast use vstd::multiset::group_multiset_axioms;

            assert(entries_view(out@).to_multiset().add(entries_view(rest@).to_multiset())
                =~= ov.insert(0, e@).to_multiset().add(rv.remove(0).to_multiset()));
            assert(entries_view(out@).to_multiset().add(entries_view(rest@).to_multiset())
                =~= orig.to_multiset());
        }
    }
    proof {
        broadcast use vstd::seq_lib::group_to_multiset_ensures;
        broadcast use vstd::multiset::group_multiset_axioms;

        assert(entries_view(rest@) =~= Seq::empty());
        assert(entries_view(rest@).to_multiset() =~= Multiset::empty());
        assert(entries_view(out@).to_multiset() =~= orig.to_multiset());
        lemma_entry_le_total_ordering();
        orig.lemma_sort_by_ensures(entry_le_fn());
        lemma_sorted_unique(entries_view(out@), canonical_order(orig), entry_le_fn());
    }
    out
}

/// The canonical encoding of a sequence of entries, in the order given.
pub fn encode_entries_exec(entries: &Vec<TreeEntry>) -> (r: Vec<u8>)
    ensures
        r@ == encode_entries(entries_view(entries@)),
{
    let ghost sv = entries_view(entries@);
    let mut out: Vec<u8> = Vec::new();
    proof {
        assert(sv.take(0) =~= Seq::empty());
    }
    let mut i: usize = 0;
    while i < entries.len()
        invariant
            i <= entries.len(),
            sv == entries_view(entries@),
            out@ == encode_entries(sv.take(i as int)),
        decreases entries.len() - i,
    {
        let e: &TreeEntry = &entries[i];
        push_bytes(&mut out, &e.path);
        push_bytes(&mut out, &e.content);
        proof {
            assert(sv.take(i as int + 1).drop_last() =~= sv.take(i as int));
            assert(sv.take(i as int + 1).last() == sv[i as int]);
        }
        i = i + 1;
    }
    proof {
        assert(sv.take(entries.len() as int) =~= sv);
    }
    out
}

/// Computes the fingerprint of a set of file entries: the SHA3-256 hex digest
/// of `path ++ content` over all entries, sorted descending, so the result is
/// the same whatever order the filesystem handed the files out in.
pub fn repo_hash(entries: Vec<TreeEntry>) -> (r: String)
    ensures
        r@ == fingerprint_of(entries_view(entries@)),
        r@.len() == 64,
{
    let sorted = sort_entries(entries);
    let encoded = encode_entries_exec(&sorted);
    sha3_256_hex(&encoded)
}

/// One path of the enumerated directory tree, as the walker hands it out:
/// the path relative to the project root, whether it is a directory, and the
/// file's content (empty for a directory).
pub struct SourceFile {
    pub rel_path: String,
    pub is_dir: bool,
    pub content: Vec<u8>,
}

/// The fingerprint covers `f`: a regular file that the ruleset does not
/// exclude.
pub open spec fn file_included(f: SourceFile, lines: Seq<Seq<char>>) -> bool {
    !f.is_dir && !excluded_spec(lines, f.rel_path@, f.is_dir)
}

/// What an enumerated file contributes to the digest: its (path bytes,
/// content) pair.
pub open spec fn entry_of(f: SourceFile) -> (Seq<u8>, Seq<u8>) {
    (encode_utf8(f.rel_path@), f.content@)
}

/// The entries the fingerprint is taken over: the included files, in
/// enumeration order, each as its (path bytes, content) pair.
pub open spec fn included_entries(files: Seq<SourceFile>, lines: Seq<Seq<char>>) -> Seq<
    (Seq<u8>, Seq<u8>),
>
    decreases files.len(),
{
    if files.len() == 0 {
        Seq::empty()
    } else {
        let rest = included_entries(files.drop_last(), lines);
        let f = files.last();
        if file_included(f, lines) {
            rest.push(entry_of(f))
        } else {
            rest
        }
    }
}

/// The fingerprint of a directory tree under an exclusion ruleset.
pub open spec fn tree_fingerprint(files: Seq<SourceFile>, lines: Seq<Seq<char>>) -> Seq<char> {
    fingerprint_of(included_entries(files, lines))
}

/// Law: excluded paths never influence the digest. Enumerating one more path
/// that is a directory or that the ruleset excludes leaves the tree
/// fingerprint unchanged; so, read backwards, does removing one.
pub proof fn lemma_excluded_file_no_influence(
    files: Seq<SourceFile>,
    f: SourceFile,
    lines: Seq<Seq<char>>,
)
    requires
        !file_included(f, lines),
    ensures
        tree_fingerprint(files.push(f), lines) == tree_fingerprint(files, lines),
{
    assert(files.push(f).drop_last() =~= files);
    assert(included_entries(files.push(f), lines) == included_entries(files, lines));
}

/// Law: a path in the metadata directory never influences the digest,
/// whatever the ruleset holds.
pub proof fn lemma_metadata_file_no_influence(
    files: Seq<SourceFile>,
    f: SourceFile,
    lines: Seq<Seq<char>>,
)
    requires
        in_metadata_dir(f.rel_path@),
    ensures
        tree_fingerprint(files.push(f), lines) == tree_fingerprint(files, lines),
{
    crate::exclusion::lemma_metadata_dir_always_excluded(lines, f.rel_path@, f.is_dir);
    lemma_excluded_file_no_influence(files, f, lines);
}

proof fn lemma_included_entries_remove(s: Seq<SourceFile>, lines: Seq<Seq<char>>, i: int)
    requires
        0 <= i < s.len(),
    ensures
        file_included(s[i], lines) ==> included_entries(s, lines).to_multiset()
            == included_entries(s.remove(i), lines).to_multiset().insert(entry_of(s[i])),
        !file_included(s[i], lines) ==> included_entries(s, lines).to_multiset()
            == included_entries(s.remove(i), lines).to_multiset(),
    decreases s.len(),
{
    broadcast use vstd::seq_lib::group_to_multiset_ensures;
    broadcast use vstd::multiset::group_multiset_axioms;

    let t = s.remove(i);
    if i == s.len() - 1 {
        assert(t =~= s.drop_last());
    } else {
        assert(t.drop_last() =~= s.drop_last().remove(i));
        assert(t.last() == s.last());
        lemma_included_entries_remove(s.drop_last(), lines, i);
        if file_included(s.last(), lines) {
            assert(included_entries(s, lines) == included_entries(s.drop_last(), lines).push(
                entry_of(s.last()),
            ));
            assert(included_entries(t, lines) == included_entries(t.drop_last(), lines).push(
                entry_of(s.last()),
            ));
            if file_included(s[i], lines) {
                assert(included_entries(s, lines).to_multiset() =~= included_entries(
                    t,
                    lines,
                ).to_multiset().insert(entry_of(s[i])));
            }
        }
    }
}

/// Law: the tree fingerprint does not depend on the order the filesystem
/// enumerated the paths in. Any two enumerations holding the same multiset of
/// paths yield the same digest, under any one ruleset.
pub proof fn lemma_tree_fingerprint_enumeration_order(
    a: Seq<SourceFile>,
    b: Seq<SourceFile>,
    lines: Seq<Seq<char>>,
)
    requires
        a.to_multiset() == b.to_multiset(),
    ensures
        tree_fingerprint(a, lines) == tree_fingerprint(b, lines),
    decreases a.len(),
{
    broadcast use vstd::seq_lib::group_to_multiset_ensures;
    broadcast use vstd::multiset::group_multiset_axioms;

    lemma_included_entries_permutation(a, b, lines);
    lemma_fingerprint_enumeration_order(
        included_entries(a, lines),
        included_entries(b, lines),
    );
}

proof fn lemma_included_entries_permutation(
    a: Seq<SourceFile>,
    b: Seq<SourceFile>,
    lines: Seq<Seq<char>>,
)
    requires
        a.to_multiset() == b.to_multiset(),
    ensures
        included_entries(a, lines).to_multiset() == included_entries(b, lines).to_multiset(),
    decreases a.len(),
{
    broadcast use vstd::seq_lib::group_to_multiset_ensures;
    broadcast use vstd::multiset::group_multiset_axioms;

    if a.len() == 0 {
        assert(a.to_multiset().len() == a.len());
        assert(b.to_multiset().len() == b.len());
        assert(b.len() == 0);
        assert(included_entries(a, lines).to_multiset() =~= included_entries(
            b,
            lines,
        ).to_multiset());
    } else {
        let x = a.last();
        assert(a.to_multiset().contains(x));
        assert(b.contains(x));
        let i = choose|i: int| 0 <= i < b.len() && b[i] == x;
        let a1 = a.drop_last();
        let b1 = b.remove(i);
        assert(a1 =~= a.remove(a.len() - 1));
        assert(a1.to_multiset() == a.to_multiset().remove(x));
        assert(b1.to_multiset() == b.to_multiset().remove(x));
        lemma_included_entries_permutation(a1, b1, lines);
        lemma_included_entries_remove(b, lines, i);
        assert(included_entries(a, lines).to_multiset() =~= included_entries(
            b,
            lines,
        ).to_multiset());
    }
}

/// Computes the fingerprint of an enumerated directory tree: drops
/// directories and excluded paths, then digests the rest in canonical order.
/// Paths must be relative and non-empty.
pub fn hash_files(files: &Vec<SourceFile>, rules: &ExclusionRules) -> (r: String)
    requires
        forall|i: int|
            0 <= i < files@.len() ==> (#[trigger] files@[i].rel_path@).len() > 0
                && files@[i].rel_path@[0] != '/',
    ensures
        r@ == tree_fingerprint(files@, rules.lines.deep_view()),
        r@.len() == 64,
{
    let ghost lines = rules.lines.deep_view();
    let mut entries: Vec<TreeEntry> = Vec::new();
    proof {
        assert(files@.take(0) =~= Seq::empty());
        assert(entries_view(entries@) =~= included_entries(files@.take(0), lines));
    }
    let mut i: usize = 0;
    while i < files.len()
        invariant
            i <= files.len(),
            lines == rules.lines.deep_view(),
            forall|j: int|
                0 <= j < files@.len() ==> (#[trigger] files@[j].rel_path@).len() > 0
                    && files@[j].rel_path@[0] != '/',
            entries_view(entries@) == included_entries(files@.take(i as int), lines),
        decreases files.len() - i,
    {
        let f: &SourceFile = &files[i];
        let keep = if f.is_dir {
            false
        } else {
            !rules.is_excluded(&f.rel_path, f.is_dir)
        };
        let ghost before = entries_view(entries@);
        if keep {
            let path_bytes = string_bytes(f.rel_path.as_str());
            let content = clone_bytes(&f.content);
            entries.push(TreeEntry { path: path_bytes, content });
            proof {
                assert(entries_view(entries@) =~= before.push(
                    (encode_utf8(f.rel_path@), f.content@),
                ));
            }
        }
        proof {
            assert(files@.take(i as int + 1).drop_last() =~= files@.take(i as int));
            assert(files@.take(i as int + 1).last() == files@[i as int]);
            assert(keep == file_included(files@[i as int], lines));
            if keep {
                assert(included_entries(files@.take(i as int + 1), lines) =~= included_entries(
                    files@.take(i as int),
                    lines,
                ).push((encode_utf8(f.rel_path@), f.content@)));
            } else {
                assert(included_entries(files@.take(i as int + 1), lines) =~= included_entries(
                    files@.take(i as int),
                    lines,
                ));
            }
        }
        i = i + 1;
    }
    proof {
        assert(files@.take(files.len() as int) =~= files@);
    }
    repo_hash(entries)
}

} // verus!
