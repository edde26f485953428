//! Folding per-file line counts into a grand total and a total per
//! extension.

use vstd::prelude::*;

use crate::lines::{count_lines_in_text, line_count};
use crate::select::SelectedFile;

verus! {

/// The lines counted in one file, under the extension its name spells.
pub struct FileLines {
    pub extension: String,
    pub lines: usize,
}

/// The result of one run: the grand total and the total per extension, each
/// extension listed once.
pub struct Tally {
    pub total: usize,
    pub per_extension: Vec<(String, usize)>,
}

/// Per-file counts as (extension, lines) pairs.
pub open spec fn file_views(files: Seq<FileLines>) -> Seq<(Seq<char>, nat)> {
    files.map_values(|f: FileLines| (f.extension@, f.lines as nat))
}

/// The sum of all line counts.
pub open spec fn lines_total(files: Seq<(Seq<char>, nat)>) -> nat
    decreases files.len(),
{
    if files.len() == 0 {
        0
    } else {
        lines_total(files.drop_last()) + files.last().1
    }
}

/// The sum of the line counts of the files with extension `ext`.
pub open spec fn extension_total(files: Seq<(Seq<char>, nat)>, ext: Seq<char>) -> nat
    decreases files.len(),
{
    if files.len() == 0 {
        0
    } else {
        extension_total(files.drop_last(), ext) + if files.last().0 == ext {
            files.last().1
        } else {
            0
        }
    }
}

/// Whether some file has extension `ext`.
pub open spec fn has_extension(files: Seq<(Seq<char>, nat)>, ext: Seq<char>) -> bool {
    exists|i: int| 0 <= i < files.len() && (#[trigger] files[i]).0 == ext
}

/// The mapping from each extension that occurs to its total.
pub open spec fn per_extension(files: Seq<(Seq<char>, nat)>) -> Map<Seq<char>, nat> {
    Map::new(|e: Seq<char>| has_extension(files, e), |e: Seq<char>| extension_total(files, e))
}

/// No extension is listed twice.
pub open spec fn keys_unique(counts: Seq<(String, usize)>) -> bool {
    forall|i: int, j: int|
        0 <= i < counts.len() && 0 <= j < counts.len() && i != j ==> (#[trigger] counts[i]).0@
            != (#[trigger] counts[j]).0@
}

/// The mapping that a list of (extension, total) pairs with distinct
/// extensions stands for.
pub open spec fn counts_map(counts: Seq<(String, usize)>) -> Map<Seq<char>, nat> {
    Map::new(
        |e: Seq<char>| exists|k: int| 0 <= k < counts.len() && (#[trigger] counts[k]).0@ == e,
        |e: Seq<char>|
            counts[choose|k: int| 0 <= k < counts.len() && (#[trigger] counts[k]).0@ == e].1 as nat,
    )
}

/// The sum of the totals of a list of (extension, total) pairs.
pub open spec fn counts_sum(counts: Seq<(String, usize)>) -> nat
    decreases counts.len(),
{
    if counts.len() == 0 {
        0
    } else {
        counts_sum(counts.drop_last()) + counts.last().1 as nat
    }
}

/// The sum, over a list of extensions, of the totals of each.
pub open spec fn keys_total(files: Seq<(Seq<char>, nat)>, keys: Seq<Seq<char>>) -> nat
    decreases keys.len(),
{
    if keys.len() == 0 {
        0
    } else {
        keys_total(files, keys.drop_last()) + extension_total(files, keys.last())
    }
}

/// The line count that a read of one file contributes: its lines under the
/// policy, or nothing where the read failed.
pub open spec fn contribution(content: Option<String>, count_empty_lines: bool) -> nat {
    match content {
        Some(text) => line_count(text@, count_empty_lines),
        None => 0,
    }
}

pub proof fn lemma_extension_total_le(files: Seq<(Seq<char>, nat)>, ext: Seq<char>)
    ensures
        extension_total(files, ext) <= lines_total(files),
    decreases files.len(),
{
    if files.len() > 0 {
        lemma_extension_total_le(files.drop_last(), ext);
    }
}

pub proof fn lemma_extension_total_absent(files: Seq<(Seq<char>, nat)>, ext: Seq<char>)
    requires
        !has_extension(files, ext),
    ensures
        extension_total(files, ext) == 0,
    decreases files.len(),
{
    if files.len() > 0 {
        let rest = files.drop_last();
        assert forall|i: int| 0 <= i < rest.len() implies (#[trigger] rest[i]).0 != ext by {
            assert(rest[i] == files[i]);
        }
        lemma_extension_total_absent(rest, ext);
        assert(files[files.len() - 1].0 != ext);
    }
}

pub proof fn lemma_lines_total_prefix(files: Seq<(Seq<char>, nat)>, i: int)
    requires
        0 <= i <= files.len(),
    ensures
        lines_total(files.take(i)) <= lines_total(files),
    decreases files.len(),
{
    if i < files.len() {
        assert(files.drop_last().take(i) =~= files.take(i));
        lemma_lines_total_prefix(files.drop_last(), i);
    } else {
        assert(files.take(i) =~= files);
    }
}

proof fn lemma_keys_total_empty(keys: Seq<Seq<char>>)
    ensures
        keys_total(Seq::empty(), keys) == 0,
    decreases keys.len(),
{
    if keys.len() > 0 {
        lemma_keys_total_empty(keys.drop_last());
    }
}

/// One more file adds its lines to the one listed extension it has.
proof fn lemma_keys_total_push(files: Seq<(Seq<char>, nat)>, x: (Seq<char>, nat), keys: Seq<Seq<char>>)
    requires
        keys.no_duplicates(),
    ensures
        keys_total(files.push(x), keys) == keys_total(files, keys) + if keys.contains(x.0) {
            x.1
        } else {
            0
        },
    decreases keys.len(),
{
    if keys.len() > 0 {
        let init = keys.drop_last();
        assert(files.push(x).drop_last() =~= files);
        assert(init.no_duplicates());
        lemma_keys_total_push(files, x, init);
        if init.contains(x.0) {
            let k = choose|k: int| 0 <= k < init.len() && init[k] == x.0;
            assert(keys[k] == init[k]);
        }
        if keys.contains(x.0) && keys.last() != x.0 {
            let k = choose|k: int| 0 <= k < keys.len() && keys[k] == x.0;
            assert(init[k] == keys[k]);
        }
    }
}

/// Summed over distinct extensions that cover every file, the totals per
/// extension give the grand total.
proof fn lemma_keys_total_covers(files: Seq<(Seq<char>, nat)>, keys: Seq<Seq<char>>)
    requires
        keys.no_duplicates(),
        forall|j: int| 0 <= j < files.len() ==> keys.contains(#[trigger] files[j].0),
    ensures
        keys_total(files, keys) == lines_total(files),
    decreases files.len(),
{
    if files.len() == 0 {
        assert(files =~= Seq::empty());
        lemma_keys_total_empty(keys);
    } else {
        let init = files.drop_last();
        let x = files.last();
        assert forall|j: int| 0 <= j < init.len() implies keys.contains(#[trigger] init[j].0) by {
            assert(init[j] == files[j]);
        }
        lemma_keys_total_covers(init, keys);
        assert(init.push(x) =~= files);
        lemma_keys_total_push(init, x, keys);
        assert(keys.contains(files[files.len() - 1].0));
    }
}

/// Taking one file out of the list takes its lines out of the totals.
proof fn lemma_remove_one(files: Seq<(Seq<char>, nat)>, j: int, ext: Seq<char>)
    requires
        0 <= j < files.len(),
    ensures
        lines_total(files) == lines_total(files.remove(j)) + files[j].1,
        extension_total(files, ext) == extension_total(files.remove(j), ext) + if files[j].0
            == ext {
            files[j].1
        } else {
            0
        },
    decreases files.len(),
{
    if j == files.len() - 1 {
        assert(files.remove(j) =~= files.drop_last());
    } else {
        let rest = files.drop_last();
        assert(files.remove(j).drop_last() =~= rest.remove(j));
        assert(files.remove(j).last() == files.last());
        lemma_remove_one(rest, j, ext);
    }
}

/// The totals do not depend on the order the files come in: two lists that
/// hold the same per-file counts, in any order, have the same grand total
/// and the same total per extension.
pub proof fn lemma_order_does_not_matter(a: Seq<(Seq<char>, nat)>, b: Seq<(Seq<char>, nat)>)
    requires
        a.to_multiset() == b.to_multiset(),
    ensures
        lines_total(a) == lines_total(b),
        per_extension(a) == per_extension(b),
    decreases a.len(),
{
    a.to_multiset_ensures();
    b.to_multiset_ensures();
    assert forall|e: Seq<char>| has_extension(a, e) <==> has_extension(b, e) by {
        if has_extension(a, e) {
            let i = choose|i: int| 0 <= i < a.len() && (#[trigger] a[i]).0 == e;
            assert(a.contains(a[i]));
            assert(a.to_multiset().count(a[i]) > 0);
            assert(b.to_multiset().count(a[i]) > 0);
        }
        if has_extension(b, e) {
            let i = choose|i: int| 0 <= i < b.len() && (#[trigger] b[i]).0 == e;
            assert(b.contains(b[i]));
            assert(b.to_multiset().count(b[i]) > 0);
            assert(a.to_multiset().count(b[i]) > 0);
        }
    }
    if a.len() == 0 {
        assert(b.len() == 0);
        assert forall|e: Seq<char>| extension_total(a, e) == extension_total(b, e) by {}
    } else {
        let x = a.last();
        let a2 = a.drop_last();
        assert(a =~= a2.push(x));
        a2.to_multiset_ensures();
        assert(a.contains(x)) by {
            assert(a[a.len() - 1] == x);
        }
        assert(a.to_multiset().count(x) > 0);
        assert(b.to_multiset().count(x) > 0);
        assert(b.contains(x));
        let j = choose|j: int| 0 <= j < b.len() && b[j] == x;
        let b2 = b.remove(j);
        assert(a2.to_multiset() =~= b2.to_multiset()) by {
            assert(a.to_multiset() =~= a2.to_multiset().insert(x));
            assert(b2.to_multiset() =~= b.to_multiset().remove(x));
        }
        lemma_order_does_not_matter(a2, b2);
        lemma_remove_one(b, j, x.0);
        assert forall|e: Seq<char>| extension_total(a, e) == extension_total(b, e) by {
            lemma_remove_one(b, j, e);
            if has_extension(a2, e) {
                assert(per_extension(a2).dom().contains(e));
                assert(per_extension(b2).dom().contains(e));
                assert(per_extension(a2)[e] == extension_total(a2, e));
                assert(per_extension(b2)[e] == extension_total(b2, e));
            } else {
                assert(!per_extension(a2).dom().contains(e));
                lemma_extension_total_absent(a2, e);
                assert(!has_extension(b2, e));
                lemma_extension_total_absent(b2, e);
            }
        }
    }
    assert(per_extension(a) =~= per_extension(b));
}

/// The line count of one matched file from what reading it gave: its lines
/// under the policy, or 0 where the read failed.
pub fn file_lines(extension: String, content: &Option<String>, count_empty_lines: bool) -> (r:
    FileLines)
    ensures
        r.extension@ == extension@,
        r.lines == contribution(*content, count_empty_lines),
{
    let lines = match content {
        Some(text) => count_lines_in_text(text.as_str(), count_empty_lines),
        None => 0,
    };
    FileLines { extension, lines }
}

/// The line counts of the selected files of a run, each paired with what
/// reading it gave: its lines under the policy, or 0 where the read failed.
pub fn count_selected(reads: Vec<(SelectedFile, Option<String>)>, count_empty_lines: bool) -> (r:
    Vec<FileLines>)
    ensures
        r.len() == reads.len(),
        forall|k: int|
            0 <= k < r.len() ==> (#[trigger] r[k]).extension@ == reads[k].0.extension@ && r[k].lines
                == contribution(reads[k].1, count_empty_lines),
{
    let mut r: Vec<FileLines> = Vec::new();
    for i in 0..reads.len()
        invariant
            r.len() == i,
            forall|k: int|
                0 <= k < i ==> (#[trigger] r[k]).extension@ == reads[k].0.extension@ && r[k].lines
                    == contribution(reads[k].1, count_empty_lines),
    {
        let ext = reads[i].0.extension.clone();
        r.push(file_lines(ext, &reads[i].1, count_empty_lines));
    }
    r
}

/// The sum of the line counts of `files`.
pub fn total_lines(files: &Vec<FileLines>) -> (r: usize)
    requires
        lines_total(file_views(files@)) <= usize::MAX,
    ensures
        r == lines_total(file_views(files@)),
{
    let ghost fv = file_views(files@);
    let mut total: usize = 0;
    proof {
        assert(fv.take(0) =~= Seq::<(Seq<char>, nat)>::empty());
    }
    for i in 0..files.len()
        invariant
            fv == file_views(files@),
            lines_total(fv) <= usize::MAX,
            total == lines_total(fv.take(i as int)),
    {
        proof {
            assert(fv.take(i + 1).drop_last() =~= fv.take(i as int));
            lemma_lines_total_prefix(fv, i + 1);
        }
        total = total + files[i].lines;
    }
    proof {
        assert(fv.take(files.len() as int) =~= fv);
    }
    total
}

/// The position of `ext` among the extensions of `counts`, if it is there.
fn find_extension(counts: &Vec<(String, usize)>, ext: &String) -> (r: Option<usize>)
    ensures
        match r {
            Some(k) => k < counts.len() && counts[k as int].0@ == ext@,
            None => forall|k: int| 0 <= k < counts.len() ==> (#[trigger] counts[k]).0@ != ext@,
        },
{
    for k in 0..counts.len()
        invariant
            forall|j: int| 0 <= j < k ==> (#[trigger] counts[j]).0@ != ext@,
    {
        if counts[k].0.eq(ext) {
            return Some(k);
        }
    }
    None
}

/// The total per extension: each extension that occurs in `files` once, in
/// order of first occurrence, with the sum of the line counts of its files.
/// Extensions that differ in case are kept apart.
pub fn extension_counts(files: &Vec<FileLines>) -> (r: Vec<(String, usize)>)
    requires
        lines_total(file_views(files@)) <= usize::MAX,
    ensures
        keys_unique(r@),
        forall|k: int|
            0 <= k < r.len() ==> (#[trigger] r[k]).1 == extension_total(
                file_views(files@),
                r[k].0@,
            ),
        forall|k: int| 0 <= k < r.len() ==> has_extension(file_views(files@), (#[trigger] r[k]).0@),
        forall|j: int|
            0 <= j < files.len() ==> exists|k: int|
                0 <= k < r.len() && (#[trigger] r[k]).0@ == (#[trigger] files[j]).extension@,
{
    let ghost fv = file_views(files@);
    let mut r: Vec<(String, usize)> = Vec::new();
    proof {
        assert(fv.take(0) =~= Seq::<(Seq<char>, nat)>::empty());
    }
    for i in 0..files.len()
        invariant
            fv == file_views(files@),
            lines_total(fv) <= usize::MAX,
            keys_unique(r@),
            forall|k: int|
                0 <= k < r.len() ==> (#[trigger] r[k]).1 == extension_total(
                    fv.take(i as int),
                    r[k].0@,
                ),
            forall|k: int| 0 <= k < r.len() ==> has_extension(fv.take(i as int), (#[trigger] r[k]).0@),
            forall|j: int|
                0 <= j < i ==> exists|k: int|
                    0 <= k < r.len() && (#[trigger] r[k]).0@ == (#[trigger] files[j]).extension@,
    {
        let ghost before = fv.take(i as int);
        let ghost after = fv.take(i + 1);
        let ghost x = fv[i as int];
        proof {
            assert(after.drop_last() =~= before);
            assert(after.last() == x);
            assert(x.0 == files[i as int].extension@);
            lemma_lines_total_prefix(fv, i + 1);
            lemma_extension_total_le(after, x.0);
            assert forall|e: Seq<char>| has_extension(before, e) implies has_extension(after, e) by {
                let j = choose|j: int| 0 <= j < before.len() && (#[trigger] before[j]).0 == e;
                assert(after[j] == before[j]);
            }
            assert(has_extension(after, x.0)) by {
                assert(after[i as int] == x);
            }
        }
        let ext = &files[i].extension;
        let lines = files[i].lines;
        let ghost r0 = r@;
        match find_extension(&r, ext) {
            Some(k) => {
                let key = r[k].0.clone();
                let sum = r[k].1 + lines;
                r.set(k, (key, sum));
                proof {
                    assert forall|j: int| 0 <= j < r.len() implies (#[trigger] r[j]).0@ == r0[j].0@ by {}
                    assert forall|j: int| 0 <= j <= i implies exists|m: int|
                        0 <= m < r.len() && (#[trigger] r[m]).0@ == (#[trigger] files[j]).extension@ by {
                        if j < i {
                            let m = choose|m: int| 0 <= m < r0.len() && (#[trigger] r0[m]).0@ == files[j].extension@;
                            assert(r[m].0@ == files[j].extension@);
                        } else {
                            assert(r[k as int].0@ == files[j].extension@);
                        }
                    }
                }
            },
            None => {
                proof {
                    assert(!has_extension(before, x.0)) by {
                        if has_extension(before, x.0) {
                            let j = choose|j: int| 0 <= j < before.len() && (#[trigger] before[j]).0 == x.0;
                            assert(fv[j] == before[j]);
                            assert(files[j].extension@ == x.0);
                            let m = choose|m: int| 0 <= m < r0.len() && (#[trigger] r0[m]).0@ == files[j].extension@;
                            assert(r[m].0@ != x.0);
                        }
                    }
                    lemma_extension_total_absent(before, x.0);
                }
                r.push((ext.clone(), lines));
                proof {
                    assert forall|j: int| 0 <= j < r0.len() implies (#[trigger] r[j]) == r0[j] by {}
                    assert forall|j: int| 0 <= j <= i implies exists|m: int|
                        0 <= m < r.len() && (#[trigger] r[m]).0@ == (#[trigger] files[j]).extension@ by {
                        if j < i {
                            let m = choose|m: int| 0 <= m < r0.len() && (#[trigger] r0[m]).0@ == files[j].extension@;
                            assert(r[m].0@ == files[j].extension@);
                        } else {
                            assert(r[r0.len() as int].0@ == files[j].extension@);
                        }
                    }
                }
            },
        }
    }
    proof {
        assert(fv.take(files.len() as int) =~= fv);
    }
    r
}

proof fn lemma_counts_map(files: Seq<FileLines>, counts: Seq<(String, usize)>)
    requires
        keys_unique(counts),
        forall|k: int|
            0 <= k < counts.len() ==> (#[trigger] counts[k]).1 == extension_total(
                file_views(files),
                counts[k].0@,
            ),
        forall|k: int|
            0 <= k < counts.len() ==> has_extension(file_views(files), (#[trigger] counts[k]).0@),
        forall|j: int|
            0 <= j < files.len() ==> exists|k: int|
                0 <= k < counts.len() && (#[trigger] counts[k]).0@ == (#[trigger] files[j]).extension@,
    ensures
        counts_map(counts) == per_extension(file_views(files)),
{
    let fv = file_views(files);
    let m = counts_map(counts);
    let p = per_extension(fv);
    assert forall|e: Seq<char>| m.dom().contains(e) <==> p.dom().contains(e) by {
        if m.dom().contains(e) {
            let k = choose|k: int| 0 <= k < counts.len() && (#[trigger] counts[k]).0@ == e;
            assert(has_extension(fv, counts[k].0@));
        }
        if p.dom().contains(e) {
            let j = choose|j: int| 0 <= j < fv.len() && (#[trigger] fv[j]).0 == e;
            assert(fv[j].0 == files[j].extension@);
            let k = choose|k: int| 0 <= k < counts.len() && (#[trigger] counts[k]).0@ == files[j].extension@;
            assert(counts[k].0@ == e);
        }
    }
    assert forall|e: Seq<char>| #[trigger] m.dom().contains(e) implies m[e] == p[e] by {
        let k = choose|k: int| 0 <= k < counts.len() && (#[trigger] counts[k]).0@ == e;
        assert(counts[k].1 == extension_total(fv, e));
    }
    assert(m =~= p);
}

/// The totals per extension add up to the grand total.
proof fn lemma_counts_add_up(files: Seq<FileLines>, counts: Seq<(String, usize)>)
    requires
        keys_unique(counts),
        forall|k: int|
            0 <= k < counts.len() ==> (#[trigger] counts[k]).1 == extension_total(
                file_views(files),
                counts[k].0@,
            ),
        forall|j: int|
            0 <= j < files.len() ==> exists|k: int|
                0 <= k < counts.len() && (#[trigger] counts[k]).0@ == (#[trigger] files[j]).extension@,
    ensures
        counts_sum(counts) == lines_total(file_views(files)),
{
    let fv = file_views(files);
    let keys = counts.map_values(|p: (String, usize)| p.0@);
    assert(keys.no_duplicates()) by {
        assert forall|i: int, j: int| 0 <= i < keys.len() && 0 <= j < keys.len() && i != j implies keys[i]
            != keys[j] by {
            assert(counts[i].0@ != counts[j].0@);
        }
    }
    assert forall|j: int| 0 <= j < fv.len() implies keys.contains(#[trigger] fv[j].0) by {
        assert(fv[j].0 == files[j].extension@);
        let k = choose|k: int| 0 <= k < counts.len() && (#[trigger] counts[k]).0@ == files[j].extension@;
        assert(keys[k] == fv[j].0);
    }
    lemma_keys_total_covers(fv, keys);
    lemma_counts_sum_keys(fv, counts);
}

proof fn lemma_counts_sum_keys(fv: Seq<(Seq<char>, nat)>, counts: Seq<(String, usize)>)
    requires
        forall|k: int| 0 <= k < counts.len() ==> (#[trigger] counts[k]).1 == extension_total(fv, counts[k].0@),
    ensures
        counts_sum(counts) == keys_total(fv, counts.map_values(|p: (String, usize)| p.0@)),
    decreases counts.len(),
{
    if counts.len() > 0 {
        let init = counts.drop_last();
        assert(counts.map_values(|p: (String, usize)| p.0@).drop_last() =~= init.map_values(
            |p: (String, usize)| p.0@,
        ));
        assert forall|k: int| 0 <= k < init.len() implies (#[trigger] init[k]).1 == extension_total(fv, init[k].0@) by {
            assert(init[k] == counts[k]);
        }
        lemma_counts_sum_keys(fv, init);
        assert(counts[counts.len() - 1].1 == extension_total(fv, counts[counts.len() - 1].0@));
    }
}

/// Folds the per-file counts of one run into its grand total and its total
/// per extension.
pub fn aggregate(files: &Vec<FileLines>) -> (r: Tally)
    requires
        lines_total(file_views(files@)) <= usize::MAX,
    ensures
        r.total == lines_total(file_views(files@)),
        keys_unique(r.per_extension@),
        counts_map(r.per_extension@) == per_extension(file_views(files@)),
        counts_sum(r.per_extension@) == r.total,
{
    let total = total_lines(files);
    let per_extension = extension_counts(files);
    proof {
        lemma_counts_map(files@, per_extension@);
        lemma_counts_add_up(files@, per_extension@);
    }
    Tally { total, per_extension }
}

} // verus!
