//! The filter over a directory walk: the regular files whose extension is
//! one of the configured ones, compared without regard to case.

use vstd::prelude::*;

use crate::extension::{extension_of, file_extension, lower_of, lowercase};

verus! {

/// One entry that a directory walk yielded.
pub struct WalkEntry {
    /// The entry's file name, where it has one; a walk may hand it over
    /// with invalid Unicode replaced.
    pub file_name: Option<String>,
    /// Whether the entry is a regular file.
    pub is_file: bool,
}

/// An entry picked for counting, by its position in the walk.
pub struct SelectedFile {
    pub index: usize,
    pub extension: String,
}

/// Whether `ext` is one of `extensions`, ignoring case.
pub open spec fn is_listed(ext: Seq<char>, extensions: Seq<String>) -> bool {
    exists|i: int| 0 <= i < extensions.len() && lower_of(#[trigger] extensions[i]@) == lower_of(ext)
}

/// The extension of an entry's file name, if it has one.
pub open spec fn entry_extension(entry: WalkEntry) -> Option<Seq<char>> {
    match entry.file_name {
        Some(name) => extension_of(name@),
        None => None,
    }
}

/// Whether a run counts the entry: a regular file whose extension is listed.
pub open spec fn is_selected(entry: WalkEntry, extensions: Seq<String>) -> bool {
    &&& entry.is_file
    &&& entry_extension(entry) is Some
    &&& is_listed(entry_extension(entry)->0, extensions)
}

/// The positions, in walk order, of the entries among the first `n` that
/// are counted.
pub open spec fn selected_upto(entries: Seq<WalkEntry>, extensions: Seq<String>, n: int) -> Seq<int> {
    Seq::new(n as nat, |i: int| i).filter(|i: int| is_selected(entries[i], extensions))
}

/// The positions, in walk order, of the entries that are counted.
pub open spec fn selected_indices(entries: Seq<WalkEntry>, extensions: Seq<String>) -> Seq<int> {
    selected_upto(entries, extensions, entries.len() as int)
}

/// The positions that a selection holds.
pub open spec fn positions(sel: Seq<SelectedFile>) -> Seq<int> {
    sel.map_values(|s: SelectedFile| s.index as int)
}

/// Matching ignores case: two regular files whose extensions have the same
/// lower-case form are counted alike, whatever the configured extensions.
pub proof fn lemma_selection_ignores_case(a: WalkEntry, b: WalkEntry, extensions: Seq<String>)
    requires
        a.is_file == b.is_file,
        entry_extension(a) is Some,
        entry_extension(b) is Some,
        lower_of(entry_extension(a)->0) == lower_of(entry_extension(b)->0),
    ensures
        is_selected(a, extensions) == is_selected(b, extensions),
{
}

/// With no extension configured, no entry is counted.
pub proof fn lemma_no_extensions_selects_nothing(entries: Seq<WalkEntry>)
    ensures
        selected_indices(entries, Seq::<String>::empty()).len() == 0,
{
    let s = Seq::new(entries.len(), |i: int| i);
    let pred = |i: int| is_selected(entries[i], Seq::<String>::empty());
    s.lemma_all_neg_filter_empty(pred);
}

/// The lower-case form of each text.
pub fn lowercase_all(texts: &Vec<String>) -> (r: Vec<String>)
    ensures
        r.len() == texts.len(),
        forall|i: int| 0 <= i < r.len() ==> (#[trigger] r[i])@ == lower_of(texts[i]@),
{
    let mut r: Vec<String> = Vec::new();
    for i in 0..texts.len()
        invariant
            r.len() == i,
            forall|j: int| 0 <= j < i ==> (#[trigger] r[j])@ == lower_of(texts[j]@),
    {
        r.push(lowercase(texts[i].as_str()));
    }
    r
}

/// Whether `s` is one of `texts`, exactly.
pub fn contains_text(texts: &Vec<String>, s: &String) -> (r: bool)
    ensures
        r == exists|i: int| 0 <= i < texts.len() && (#[trigger] texts[i])@ == s@,
{
    for i in 0..texts.len()
        invariant
            forall|j: int| 0 <= j < i ==> (#[trigger] texts[j])@ != s@,
    {
        if texts[i].eq(s) {
            return true;
        }
    }
    false
}

/// The extension under which `entry` is counted, where it is counted;
/// `lowered` holds the configured extensions in lower case.
fn counted_extension(entry: &WalkEntry, lowered: &Vec<String>, extensions: &Vec<String>) -> (r:
    Option<String>)
    requires
        lowered.len() == extensions.len(),
        forall|i: int| 0 <= i < lowered.len() ==> (#[trigger] lowered[i])@ == lower_of(extensions[i]@),
    ensures
        r is Some <==> is_selected(*entry, extensions@),
        r is Some ==> r->0@ == entry_extension(*entry)->0,
{
    if !entry.is_file {
        return None;
    }
    match &entry.file_name {
        None => None,
        Some(name) => match file_extension(name.as_str()) {
            None => None,
            Some(ext) => {
                let low = lowercase(ext.as_str());
                if contains_text(lowered, &low) {
                    proof {
                        let i = choose|i: int| 0 <= i < lowered.len() && (#[trigger] lowered[i])@ == low@;
                        assert(lower_of(extensions@[i]@) == lower_of(ext@));
                    }
                    Some(ext)
                } else {
                    proof {
                        assert forall|i: int| 0 <= i < extensions.len() implies lower_of(
                            #[trigger] extensions@[i]@,
                        ) != lower_of(ext@) by {
                            assert(lowered[i]@ == lower_of(extensions[i]@));
                        }
                    }
                    None
                }
            },
        },
    }
}

/// Picks, in walk order, the entries that a run counts: the regular files
/// whose extension is one of `extensions`, compared without regard to case.
/// Each comes with its extension as the file name spells it.
pub fn select_files(entries: &Vec<WalkEntry>, extensions: &Vec<String>) -> (r: Vec<SelectedFile>)
    ensures
        positions(r@) == selected_indices(entries@, extensions@),
        forall|k: int|
            0 <= k < r.len() ==> (#[trigger] r[k]).index < entries.len() && r[k].extension@
                == entry_extension(entries[r[k].index as int])->0,
{
    let lowered = lowercase_all(extensions);
    let mut r: Vec<SelectedFile> = Vec::new();
    proof {
        assert(selected_upto(entries@, extensions@, 0) =~= Seq::<int>::empty()) by {
            reveal(Seq::filter);
        }
    }
    for i in 0..entries.len()
        invariant
            lowered.len() == extensions.len(),
            forall|j: int| 0 <= j < lowered.len() ==> (#[trigger] lowered[j])@ == lower_of(extensions[j]@),
            positions(r@) == selected_upto(entries@, extensions@, i as int),
            forall|k: int|
                0 <= k < r.len() ==> (#[trigger] r[k]).index < i && r[k].extension@
                    == entry_extension(entries[r[k].index as int])->0,
    {
        let picked = counted_extension(&entries[i], &lowered, extensions);
        proof {
            let pred = |j: int| is_selected(entries@[j], extensions@);
            assert(Seq::new((i + 1) as nat, |j: int| j) =~= Seq::new(i as nat, |j: int| j).push(i as int));
            Seq::new(i as nat, |j: int| j).lemma_filter_push(i as int, pred);
        }
        match picked {
            Some(ext) => {
                r.push(SelectedFile { index: i, extension: ext });
                proof {
                    assert(positions(r@) =~= selected_upto(entries@, extensions@, i as int).push(i as int));
                }
            },
            None => {},
        }
    }
    r
}

} // verus!
