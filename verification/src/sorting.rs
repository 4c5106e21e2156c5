//! The order in which the files of a session are held: by file name, and by
//! path where two names are equal.

use crate::models::FileView;
use crate::models::MKVTypeAware;
use crate::seqs::views;
use crate::text::bytes_le;
use crate::text::text_bytes;
use crate::text::text_le;
use crate::text::text_le_exec;
use vstd::prelude::*;

verus! {

/// Whether `a` may stand before `b`: its file name comes first, or the names
/// are equal and its path comes no later.
pub open spec fn file_le(a: FileView, b: FileView) -> bool {
    if a.mkv_file == b.mkv_file {
        text_le(a.path, b.path)
    } else {
        text_le(a.mkv_file, b.mkv_file)
    }
}

/// Whether every file of `s` may stand before all that follow it.
pub open spec fn is_sorted(s: Seq<FileView>) -> bool {
    forall|i: int, j: int| 0 <= i < j < s.len() ==> file_le(s[i], s[j])
}

/// Where `x` goes into the sorted sequence `sorted`: before the first file
/// that it may stand before.
pub open spec fn place_index(sorted: Seq<FileView>, x: FileView) -> int
    decreases sorted.len(),
{
    if sorted.len() == 0 || file_le(x, sorted[0]) {
        0
    } else {
        1 + place_index(sorted.drop_first(), x)
    }
}

/// The files of `s` in order. Files that compare equal keep the order that
/// they have in `s`.
pub open spec fn sort_files(s: Seq<FileView>) -> Seq<FileView>
    decreases s.len(),
{
    if s.len() == 0 {
        s
    } else {
        let rest = sort_files(s.drop_first());
        rest.insert(place_index(rest, s[0]), s[0])
    }
}

proof fn lemma_bytes_le_total(a: Seq<u8>, b: Seq<u8>)
    ensures
        bytes_le(a, b) || bytes_le(b, a),
    decreases a.len(),
{
    if a.len() > 0 && b.len() > 0 && a[0] == b[0] {
        lemma_bytes_le_total(a.drop_first(), b.drop_first());
    }
}

proof fn lemma_bytes_le_antisymmetric(a: Seq<u8>, b: Seq<u8>)
    requires
        bytes_le(a, b),
        bytes_le(b, a),
    ensures
        a == b,
    decreases a.len(),
{
    if a.len() > 0 && b.len() > 0 {
        lemma_bytes_le_antisymmetric(a.drop_first(), b.drop_first());
        assert(a =~= seq![a[0]] + a.drop_first());
        assert(b =~= seq![b[0]] + b.drop_first());
    } else {
        assert(a =~= b);
    }
}

proof fn lemma_bytes_le_transitive(a: Seq<u8>, b: Seq<u8>, c: Seq<u8>)
    requires
        bytes_le(a, b),
        bytes_le(b, c),
    ensures
        bytes_le(a, c),
    decreases a.len(),
{
    if a.len() > 0 && b.len() > 0 && c.len() > 0 && a[0] == b[0] && b[0] == c[0] {
        lemma_bytes_le_transitive(a.drop_first(), b.drop_first(), c.drop_first());
    }
}

proof fn lemma_text_le_antisymmetric(a: Seq<char>, b: Seq<char>)
    requires
        text_le(a, b),
        text_le(b, a),
    ensures
        a == b,
{
    lemma_bytes_le_antisymmetric(text_bytes(a), text_bytes(b));
    vstd::utf8::encode_utf8_decode_utf8(a);
    vstd::utf8::encode_utf8_decode_utf8(b);
}

/// Of two files, one may stand before the other.
pub proof fn lemma_file_le_total(a: FileView, b: FileView)
    ensures
        file_le(a, b) || file_le(b, a),
{
    lemma_bytes_le_total(text_bytes(a.path), text_bytes(b.path));
    lemma_bytes_le_total(text_bytes(a.mkv_file), text_bytes(b.mkv_file));
}

/// Where `a` may stand before `b` and `b` before `c`, `a` may stand before `c`.
pub proof fn lemma_file_le_transitive(a: FileView, b: FileView, c: FileView)
    requires
        file_le(a, b),
        file_le(b, c),
    ensures
        file_le(a, c),
{
    if a.mkv_file == b.mkv_file {
        if b.mkv_file == c.mkv_file {
            lemma_bytes_le_transitive(text_bytes(a.path), text_bytes(b.path), text_bytes(c.path));
        }
    } else if b.mkv_file == c.mkv_file {
    } else {
        lemma_bytes_le_transitive(
            text_bytes(a.mkv_file),
            text_bytes(b.mkv_file),
            text_bytes(c.mkv_file),
        );
        if a.mkv_file == c.mkv_file {
            lemma_text_le_antisymmetric(a.mkv_file, b.mkv_file);
        }
    }
}

proof fn lemma_place_index(sorted: Seq<FileView>, x: FileView)
    ensures
        0 <= place_index(sorted, x) <= sorted.len(),
        forall|i: int| 0 <= i < place_index(sorted, x) ==> !file_le(x, #[trigger] sorted[i]),
        place_index(sorted, x) < sorted.len() ==> file_le(x, sorted[place_index(sorted, x)]),
    decreases sorted.len(),
{
    if !(sorted.len() == 0 || file_le(x, sorted[0])) {
        let tail = sorted.drop_first();
        lemma_place_index(tail, x);
        assert forall|i: int| 0 <= i < place_index(sorted, x) implies !file_le(
            x,
            #[trigger] sorted[i],
        ) by {
            if i > 0 {
                assert(sorted[i] == tail[i - 1]);
            }
        }
    }
}

proof fn lemma_insert_keeps_sorted(sorted: Seq<FileView>, x: FileView)
    requires
        is_sorted(sorted),
    ensures
        is_sorted(sorted.insert(place_index(sorted, x), x)),
{
    let p = place_index(sorted, x);
    lemma_place_index(sorted, x);
    let r = sorted.insert(p, x);
    assert forall|i: int, j: int| 0 <= i < j < r.len() implies file_le(r[i], r[j]) by {
        if j < p {
            assert(r[i] == sorted[i] && r[j] == sorted[j]);
        } else if j == p {
            assert(r[i] == sorted[i]);
            lemma_file_le_total(x, sorted[i]);
        } else if i < p {
            assert(r[i] == sorted[i] && r[j] == sorted[j - 1]);
        } else if i == p {
            assert(r[j] == sorted[j - 1]);
            if j - 1 > p {
                lemma_file_le_transitive(x, sorted[p], sorted[j - 1]);
            }
        } else {
            assert(r[i] == sorted[i - 1] && r[j] == sorted[j - 1]);
        }
    }
}

/// Sorting yields a sorted sequence that holds the same files, each as often
/// as before.
pub proof fn lemma_sort_files(s: Seq<FileView>)
    ensures
        is_sorted(sort_files(s)),
        sort_files(s).to_multiset() == s.to_multiset(),
        sort_files(s).len() == s.len(),
    decreases s.len(),
{
    broadcast use vstd::seq_lib::group_to_multiset_ensures;

    if s.len() > 0 {
        let tail = s.drop_first();
        let rest = sort_files(tail);
        lemma_sort_files(tail);
        lemma_place_index(rest, s[0]);
        lemma_insert_keeps_sorted(rest, s[0]);
        assert(s =~= tail.insert(0, s[0]));
        vstd::seq_lib::to_multiset_insert(rest, place_index(rest, s[0]), s[0]);
        vstd::seq_lib::to_multiset_insert(tail, 0, s[0]);
    }
}

proof fn lemma_bytes_le_reflexive(a: Seq<u8>)
    ensures
        bytes_le(a, a),
    decreases a.len(),
{
    if a.len() > 0 {
        lemma_bytes_le_reflexive(a.drop_first());
    }
}

/// Two files of which each may stand before the other have the same file name
/// and the same path.
pub proof fn lemma_file_le_antisymmetric(a: FileView, b: FileView)
    requires
        file_le(a, b),
        file_le(b, a),
    ensures
        a.mkv_file == b.mkv_file,
        a.path == b.path,
{
    if a.mkv_file != b.mkv_file {
        lemma_text_le_antisymmetric(a.mkv_file, b.mkv_file);
    }
    lemma_text_le_antisymmetric(a.path, b.path);
}

/// Sorting leaves a sorted sequence as it is: to sort twice is to sort once.
pub proof fn lemma_sorted_stays(s: Seq<FileView>)
    requires
        is_sorted(s),
    ensures
        sort_files(s) == s,
    decreases s.len(),
{
    if s.len() > 0 {
        let tail = s.drop_first();
        assert forall|i: int, j: int| 0 <= i < j < tail.len() implies file_le(tail[i], tail[j]) by {
            assert(tail[i] == s[i + 1] && tail[j] == s[j + 1]);
        }
        lemma_sorted_stays(tail);
        if tail.len() > 0 {
            assert(tail[0] == s[1]);
        }
        assert(tail.insert(0, s[0]) =~= s);
    }
}

/// Whether no two different files of `s` have the same file name and the same
/// path.
pub open spec fn distinct_names(s: Seq<FileView>) -> bool {
    forall|i: int, j: int|
        0 <= i < s.len() && 0 <= j < s.len() && s[i].mkv_file == s[j].mkv_file && s[i].path
            == s[j].path ==> s[i] == s[j]
}

/// The order of the files does not depend on the order in which they were
/// found: two sorted sequences that hold the same files, none of which shares
/// both name and path with a different one, are equal.
pub proof fn lemma_sorted_unique(a: Seq<FileView>, b: Seq<FileView>)
    requires
        is_sorted(a),
        is_sorted(b),
        a.to_multiset() == b.to_multiset(),
        distinct_names(a),
    ensures
        a == b,
    decreases a.len(),
{
    broadcast use vstd::seq_lib::group_to_multiset_ensures;

    assert(a.len() == b.len()) by {
        vstd::seq_lib::to_multiset_len(a);
        vstd::seq_lib::to_multiset_len(b);
    }
    if a.len() == 0 {
        assert(a =~= b);
    } else {
        vstd::seq_lib::to_multiset_contains(a, b[0]);
        vstd::seq_lib::to_multiset_contains(b, b[0]);
        vstd::seq_lib::to_multiset_contains(a, a[0]);
        vstd::seq_lib::to_multiset_contains(b, a[0]);
        assert(b.contains(b[0]));
        assert(a.contains(a[0]));
        let i = choose|i: int| 0 <= i < a.len() && a[i] == b[0];
        let j = choose|j: int| 0 <= j < b.len() && b[j] == a[0];
        lemma_bytes_le_reflexive(text_bytes(a[0].path));
        lemma_bytes_le_reflexive(text_bytes(b[0].path));
        assert(file_le(a[0], a[i]));
        assert(file_le(b[0], b[j]));
        lemma_file_le_antisymmetric(a[0], b[0]);
        assert(a[0] == a[i]);
        let a_tail = a.drop_first();
        let b_tail = b.drop_first();
        assert(a.remove(0) =~= a_tail);
        assert(b.remove(0) =~= b_tail);
        vstd::seq_lib::to_multiset_remove(a, 0);
        vstd::seq_lib::to_multiset_remove(b, 0);
        assert forall|x: int, y: int| 0 <= x < y < a_tail.len() implies file_le(
            a_tail[x],
            a_tail[y],
        ) by {
            assert(a_tail[x] == a[x + 1] && a_tail[y] == a[y + 1]);
        }
        assert forall|x: int, y: int| 0 <= x < y < b_tail.len() implies file_le(
            b_tail[x],
            b_tail[y],
        ) by {
            assert(b_tail[x] == b[x + 1] && b_tail[y] == b[y + 1]);
        }
        assert(distinct_names(a_tail)) by {
            assert forall|x: int, y: int|
                0 <= x < a_tail.len() && 0 <= y < a_tail.len() && a_tail[x].mkv_file
                    == a_tail[y].mkv_file && a_tail[x].path == a_tail[y].path implies a_tail[x]
                == a_tail[y] by {
                assert(a_tail[x] == a[x + 1] && a_tail[y] == a[y + 1]);
            }
        }
        lemma_sorted_unique(a_tail, b_tail);
        assert(a =~= seq![a[0]] + a_tail);
        assert(b =~= seq![b[0]] + b_tail);
    }
}

/// Whether `a` may stand before `b`.
pub fn file_le_exec<T: MKVTypeAware>(a: &T, b: &T) -> (r: bool)
    ensures
        r == file_le(a@, b@),
{
    let a_file = a.mkv_file();
    let b_file = b.mkv_file();
    if a_file == b_file {
        let a_path = a.mkv_path();
        let b_path = b.mkv_path();
        text_le_exec(a_path.as_str(), b_path.as_str())
    } else {
        text_le_exec(a_file.as_str(), b_file.as_str())
    }
}

fn find_place<T: MKVTypeAware>(sorted: &Vec<T>, x: &T) -> (p: usize)
    ensures
        p == place_index(views(sorted@), x@),
        p <= sorted@.len(),
{
    let ghost all = views(sorted@);
    let mut i: usize = 0;
    proof {
        assert(all.subrange(0, all.len() as int) =~= all);
    }
    loop
        invariant_except_break
            i <= sorted@.len(),
            all == views(sorted@),
            place_index(all, x@) == i + place_index(all.subrange(i as int, all.len() as int), x@),
        ensures
            i <= sorted@.len(),
            i == place_index(all, x@),
        decreases sorted@.len() - i,
    {
        let ghost tail = all.subrange(i as int, all.len() as int);
        if i == sorted.len() {
            break ;
        }
        assert(tail[0] == sorted@[i as int]@);
        if file_le_exec(x, &sorted[i]) {
            break ;
        }
        proof {
            assert(tail.drop_first() =~= all.subrange(i + 1, all.len() as int));
        }
        i = i + 1;
    }
    i
}

/// Sorts files by file name, and by path where two names are equal. Files that
/// compare equal keep their order.
pub fn sort_by_file_name<T: MKVTypeAware>(files: Vec<T>) -> (r: Vec<T>)
    ensures
        views(r@) == sort_files(views(files@)),
        is_sorted(views(r@)),
        views(r@).to_multiset() == views(files@).to_multiset(),
        r@.len() == files@.len(),
{
    let ghost orig = files@;
    let mut input = files;
    let mut out: Vec<T> = Vec::new();
    proof {
        assert(orig.subrange(0, orig.len() as int) =~= orig);
        assert(views(orig.subrange(orig.len() as int, orig.len() as int)) =~= Seq::<
            FileView,
        >::empty());
    }
    while input.len() > 0
        invariant
            input@.len() <= orig.len(),
            input@ == orig.subrange(0, input@.len() as int),
            views(out@) == sort_files(views(orig.subrange(input@.len() as int, orig.len() as int))),
        decreases input@.len(),
    {
        let ghost n = input@.len() as int;
        let x = input.pop().unwrap();
        let p = find_place(&out, &x);
        let ghost before = out@;
        out.insert(p, x);
        proof {
            let done = views(orig.subrange(n, orig.len() as int));
            let next = views(orig.subrange(n - 1, orig.len() as int));
            assert(x == orig[n - 1]);
            assert(next.drop_first() =~= done);
            assert(next[0] == x@);
            assert(views(before.insert(p as int, x)) =~= views(before).insert(p as int, x@));
            assert(input@ =~= orig.subrange(0, n - 1));
        }
    }
    proof {
        assert(orig.subrange(0, orig.len() as int) =~= orig);
        lemma_sort_files(views(orig));
    }
    out
}

} // verus!
