//! The regular files of a directory listing, in order.

use vstd::prelude::*;
use vstd::relations::{sorted_by, total_ordering};

use crate::error::IoError;
use crate::naming::{join_path, join_path_str, views};

verus! {

/// One entry of a directory listing: its file name, and whether it is a
/// regular file (symbolic links are not followed).
#[derive(Clone, Debug, PartialEq, Eq)]
pub struct ListedEntry {
    pub file_name: String,
    pub is_file: bool,
}

/// Whether the text `a` comes before `b` or equals it, comparing character
/// by character (code points), a proper prefix first.
pub open spec fn text_le(a: Seq<char>, b: Seq<char>) -> bool
    decreases a.len(),
{
    if a.len() == 0 {
        true
    } else if b.len() == 0 {
        false
    } else if a[0] != b[0] {
        (a[0] as int) < (b[0] as int)
    } else {
        text_le(a.drop_first(), b.drop_first())
    }
}

/// [`text_le`] as a relation.
pub open spec fn text_order() -> spec_fn(Seq<char>, Seq<char>) -> bool {
    |a: Seq<char>, b: Seq<char>| text_le(a, b)
}

/// The paths of the regular files among `entries`, listed in `dir`, in the
/// order of the listing, on a host whose main path separator is `separator`.
pub open spec fn regular_file_paths(dir: Seq<char>, entries: Seq<ListedEntry>, separator: char) -> Seq<Seq<char>>
    decreases entries.len(),
{
    if entries.len() == 0 {
        Seq::empty()
    } else {
        let before = regular_file_paths(dir, entries.drop_last(), separator);
        if entries.last().is_file {
            before.push(join_path(dir, entries.last().file_name@, separator))
        } else {
            before
        }
    }
}

proof fn lemma_text_le_reflexive(a: Seq<char>)
    ensures
        text_le(a, a),
    decreases a.len(),
{
    if a.len() > 0 {
        lemma_text_le_reflexive(a.drop_first());
    }
}

proof fn lemma_text_le_antisymmetric(a: Seq<char>, b: Seq<char>)
    requires
        text_le(a, b),
        text_le(b, a),
    ensures
        a == b,
    decreases a.len(),
{
    if a.len() > 0 && b.len() > 0 {
        lemma_text_le_antisymmetric(a.drop_first(), b.drop_first());
        assert(a =~= seq![a[0]] + a.drop_first());
        assert(b =~= seq![b[0]] + b.drop_first());
    }
}

proof fn lemma_text_le_transitive(a: Seq<char>, b: Seq<char>, c: Seq<char>)
    requires
        text_le(a, b),
        text_le(b, c),
    ensures
        text_le(a, c),
    decreases a.len(),
{
    if a.len() > 0 && b.len() > 0 && c.len() > 0 && a[0] == b[0] && b[0] == c[0] {
        lemma_text_le_transitive(a.drop_first(), b.drop_first(), c.drop_first());
    }
}

proof fn lemma_text_le_total(a: Seq<char>, b: Seq<char>)
    ensures
        text_le(a, b) || text_le(b, a),
    decreases a.len(),
{
    if a.len() > 0 && b.len() > 0 {
        if a[0] == b[0] {
            lemma_text_le_total(a.drop_first(), b.drop_first());
        } else {
            assert(a[0] as int != b[0] as int);
        }
    }
}

/// Comparing texts character by character is a total order.
pub proof fn lemma_text_order_total()
    ensures
        total_ordering(text_order()),
{
    assert forall|a: Seq<char>| #[trigger] text_order()(a, a) by {
        lemma_text_le_reflexive(a);
    }
    assert forall|a: Seq<char>, b: Seq<char>|
        #[trigger] text_order()(a, b) && #[trigger] text_order()(b, a) implies a == b by {
        lemma_text_le_antisymmetric(a, b);
    }
    assert forall|a: Seq<char>, b: Seq<char>, c: Seq<char>|
        #[trigger] text_order()(a, b) && #[trigger] text_order()(b, c) implies text_order()(a, c) by {
        lemma_text_le_transitive(a, b, c);
    }
    assert forall|a: Seq<char>, b: Seq<char>|
        #[trigger] text_order()(a, b) || #[trigger] text_order()(b, a) by {
        lemma_text_le_total(a, b);
    }
}

/// Whether the text `a` comes before `b` or equals it.
pub fn text_le_str(a: &str, b: &str) -> (r: bool)
    ensures
        r == text_le(a@, b@),
{
    let la = a.unicode_len();
    let lb = b.unicode_len();
    let mut i: usize = 0;
    assert(a@.skip(0) == a@);
    assert(b@.skip(0) == b@);
    while i < la && i < lb
        invariant
            i <= la,
            i <= lb,
            la == a@.len(),
            lb == b@.len(),
            text_le(a@, b@) == text_le(a@.skip(i as int), b@.skip(i as int)),
        decreases la - i,
    {
        let ca = a.get_char(i);
        let cb = b.get_char(i);
        if ca != cb {
            return (ca as u32) < (cb as u32);
        }
        assert(a@.skip(i as int).drop_first() =~= a@.skip(i + 1));
        assert(b@.skip(i as int).drop_first() =~= b@.skip(i + 1));
        i = i + 1;
    }
    i == la
}

/// Sorts texts character by character.
pub fn sort_texts(v: &Vec<String>) -> (r: Vec<String>)
    ensures
        sorted_by(views(r@), text_order()),
        views(r@).to_multiset() == views(v@).to_multiset(),
{
    broadcast use vstd::seq_lib::group_to_multiset_ensures;

    let mut out: Vec<String> = Vec::new();
    let n = v.len();
    proof {
        lemma_text_order_total();
    }
    for i in 0..n
        invariant
            n == v@.len(),
            total_ordering(text_order()),
            sorted_by(views(out@), text_order()),
            views(out@).to_multiset() == views(v@.take(i as int)).to_multiset(),
    {
        let x = v[i].clone();
        let mut j: usize = 0;
        while j < out.len() && text_le_str(out[j].as_str(), x.as_str())
            invariant
                j <= out@.len(),
                forall|k: int| 0 <= k < j ==> text_le(#[trigger] out@[k]@, x@),
            decreases out@.len() - j,
        {
            j = j + 1;
        }
        let ghost old_out = views(out@);
        out.insert(j, x);
        proof {
            assert(views(out@) =~= old_out.insert(j as int, x@));
            assert(views(v@.take(i + 1)) =~= views(v@.take(i as int)).push(x@));
            vstd::seq_lib::to_multiset_insert(old_out, j as int, x@);
            vstd::seq_lib::to_multiset_build(views(v@.take(i as int)), x@);
            assert forall|a: int, b: int| 0 <= a < b < views(out@).len() implies #[trigger] text_order()(
                views(out@)[a],
                views(out@)[b],
            ) by {
                if j < old_out.len() {
                    assert(text_order()(x@, old_out[j as int])) by {
                        if !text_order()(x@, old_out[j as int]) {
                            assert(text_order()(old_out[j as int], x@));
                        }
                    }
                }
                if a < j && b == j {
                    assert(text_le(old_out[a], x@));
                } else if a == j && b > j {
                    assert(text_order()(old_out[j as int], old_out[b - 1]));
                } else if a < j {
                    assert(text_order()(old_out[a], old_out[b - 1]));
                } else {
                    assert(text_order()(old_out[a - 1], old_out[b - 1]));
                }
            }
        }
    }
    assert(v@.take(n as int) =~= v@);
    out
}

/// The paths of the regular files among `entries`, listed in `dir`, sorted
/// character by character; a failed listing is passed on.
pub fn files_in_dir(dir: &str, entries: Result<Vec<ListedEntry>, IoError>, separator: char) -> (r: Result<Vec<String>, IoError>)
    ensures
        entries matches Err(e) ==> r == Err::<Vec<String>, IoError>(e),
        entries matches Ok(es) ==> (r matches Ok(files) && sorted_by(views(files@), text_order())
            && views(files@).to_multiset() == regular_file_paths(dir@, es@, separator).to_multiset()),
{
    match entries {
        Err(e) => Err(e),
        Ok(es) => {
            let mut files: Vec<String> = Vec::new();
            let n = es.len();
            for i in 0..n
                invariant
                    n == es@.len(),
                    views(files@) == regular_file_paths(dir@, es@.take(i as int), separator),
            {
                assert(es@.take(i + 1).drop_last() =~= es@.take(i as int));
                if es[i].is_file {
                    let p = join_path_str(dir, es[i].file_name.as_str(), separator);
                    files.push(p);
                    assert(views(files@) =~= regular_file_paths(dir@, es@.take(i as int), separator).push(p@));
                }
            }
            assert(es@.take(n as int) =~= es@);
            Ok(sort_texts(&files))
        },
    }
}

/// The file names of the regular files among `entries`, in the order of the
/// listing.
pub open spec fn regular_file_names(entries: Seq<ListedEntry>) -> Seq<Seq<char>>
    decreases entries.len(),
{
    if entries.len() == 0 {
        Seq::empty()
    } else {
        let before = regular_file_names(entries.drop_last());
        if entries.last().is_file {
            before.push(entries.last().file_name@)
        } else {
            before
        }
    }
}

proof fn lemma_paths_are_joined_names(dir: Seq<char>, entries: Seq<ListedEntry>, separator: char)
    ensures
        regular_file_paths(dir, entries, separator) == regular_file_names(entries).map_values(
            |n: Seq<char>| join_path(dir, n, separator),
        ),
    decreases entries.len(),
{
    if entries.len() > 0 {
        lemma_paths_are_joined_names(dir, entries.drop_last(), separator);
        assert(regular_file_paths(dir, entries, separator) =~= regular_file_names(entries).map_values(
            |n: Seq<char>| join_path(dir, n, separator),
        ));
    }
}

proof fn lemma_map_keeps_same_elements<A, B>(s1: Seq<A>, s2: Seq<A>, f: spec_fn(A) -> B)
    requires
        s1.to_multiset() == s2.to_multiset(),
    ensures
        s1.map_values(f).to_multiset() == s2.map_values(f).to_multiset(),
    decreases s1.len(),
{
    broadcast use vstd::seq_lib::group_to_multiset_ensures;
    broadcast use vstd::multiset::group_multiset_axioms;

    if s1.len() == 0 {
        vstd::seq_lib::to_multiset_len(s2);
        assert(s2.len() == 0);
        assert(s1.map_values(f) =~= Seq::<B>::empty());
        assert(s2.map_values(f) =~= Seq::<B>::empty());
    } else {
        let x = s1.last();
        assert(s1.to_multiset().contains(x));
        assert(s2.contains(x));
        let i = choose|i: int| 0 <= i < s2.len() && s2[i] == x;
        let r1 = s1.drop_last();
        let r2 = s2.remove(i);
        assert(s1 =~= r1.push(x));
        vstd::seq_lib::to_multiset_build(r1, x);
        vstd::seq_lib::to_multiset_remove(s2, i);
        assert(r1.to_multiset() =~= s1.to_multiset().remove(x));
        lemma_map_keeps_same_elements(r1, r2, f);
        assert(s1.map_values(f) =~= r1.map_values(f).push(f(x)));
        assert(s2.map_values(f) =~= r2.map_values(f).insert(i, f(x)));
        vstd::seq_lib::to_multiset_build(r1.map_values(f), f(x));
        vstd::seq_lib::to_multiset_insert(r2.map_values(f), i, f(x));
    }
}

/// Entries that are not regular files, and the order of the listing, do not
/// change which paths the regular files of a listing have: two listings of
/// `dir` whose regular files have the same names give the same paths, as
/// many of them, and the same one where there is one (so
/// `find_single_binary` gives the same outcome for both).
pub proof fn lemma_listing_ignores_other_entries_and_order(
    dir: Seq<char>,
    a: Seq<ListedEntry>,
    b: Seq<ListedEntry>,
    separator: char,
)
    requires
        regular_file_names(a).to_multiset() == regular_file_names(b).to_multiset(),
    ensures
        regular_file_paths(dir, a, separator).to_multiset() == regular_file_paths(
            dir,
            b,
            separator,
        ).to_multiset(),
        regular_file_paths(dir, a, separator).len() == regular_file_paths(dir, b, separator).len(),
        regular_file_paths(dir, a, separator).len() == 1 ==> regular_file_paths(dir, a, separator)[0]
            == regular_file_paths(dir, b, separator)[0],
{
    broadcast use vstd::seq_lib::group_to_multiset_ensures;

    let f = |n: Seq<char>| join_path(dir, n, separator);
    lemma_paths_are_joined_names(dir, a, separator);
    lemma_paths_are_joined_names(dir, b, separator);
    lemma_map_keeps_same_elements(regular_file_names(a), regular_file_names(b), f);
    let pa = regular_file_paths(dir, a, separator);
    let pb = regular_file_paths(dir, b, separator);
    vstd::seq_lib::to_multiset_len(pa);
    vstd::seq_lib::to_multiset_len(pb);
    if pa.len() == 1 {
        assert(pa.to_multiset().count(pa[0]) > 0);
        assert(pb.contains(pa[0]));
    }
}

} // verus!
