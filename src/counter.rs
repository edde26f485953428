//! The counter: a configuration and a running total of lines that grows
//! with each count, until the counter is rebuilt.

use vstd::prelude::*;

use crate::aggregate::{
    file_views, lemma_order_does_not_matter, lines_total, per_extension, FileLines,
};
use crate::config::{texts_view, Config, LocCounterError};
use crate::extension::{extension_of, file_extension};
use crate::select::{
    contains_text, is_selected, selected_indices, select_files, SelectedFile, WalkEntry,
};

verus! {

/// A line counter over one configuration. `total_lines` accumulates over
/// the counts made with it; the other fields describe the project.
#[derive(Debug)]
pub struct CountRoo {
    pub config: Config,
    pub total_lines: usize,
    pub num_files: usize,
    pub num_crates: usize,
    pub project_name: Option<String>,
    pub rust_edition: Option<String>,
    pub rustc_version: Option<String>,
    pub num_modules: usize,
}

/// The extensions of common general-purpose languages, counted by
/// `use_curated_extensions`.
pub open spec fn curated_extension_list() -> Seq<Seq<char>> {
    seq![
        "py"@, "js"@, "rs"@, "dart"@, "cpp"@, "c"@, "rb"@, "sh"@, "swift"@, "ts"@, "html"@,
        "css"@, "sql"@, "cs"@, "vb"@, "go"@, "php"@, "java"@, "kt"@, "tsx"@, "jsx"@, "vue"@,
    ]
}

/// The extensions of common general-purpose languages.
pub fn curated_extensions() -> (r: Vec<String>)
    ensures
        texts_view(r@) == curated_extension_list(),
{
    let r = vec![
        "py".to_owned(),
        "js".to_owned(),
        "rs".to_owned(),
        "dart".to_owned(),
        "cpp".to_owned(),
        "c".to_owned(),
        "rb".to_owned(),
        "sh".to_owned(),
        "swift".to_owned(),
        "ts".to_owned(),
        "html".to_owned(),
        "css".to_owned(),
        "sql".to_owned(),
        "cs".to_owned(),
        "vb".to_owned(),
        "go".to_owned(),
        "php".to_owned(),
        "java".to_owned(),
        "kt".to_owned(),
        "tsx".to_owned(),
        "jsx".to_owned(),
        "vue".to_owned(),
    ];
    proof {
        assert(texts_view(r@) =~= curated_extension_list());
    }
    r
}

/// Whether two counters agree on what they record of the project besides
/// the configuration and the running total.
pub open spec fn same_project_facts(a: CountRoo, b: CountRoo) -> bool {
    &&& a.num_files == b.num_files
    &&& a.num_crates == b.num_crates
    &&& a.project_name == b.project_name
    &&& a.rust_edition == b.rust_edition
    &&& a.rustc_version == b.rustc_version
    &&& a.num_modules == b.num_modules
}

/// Whether a file name has one of `extensions`, spelled exactly.
pub open spec fn is_code_name(extensions: Seq<String>, name: Seq<char>) -> bool {
    extension_of(name) matches Some(e) && exists|i: int|
        0 <= i < extensions.len() && (#[trigger] extensions[i])@ == e
}

/// Whether "mod " starts at position `i` of `text`.
pub open spec fn module_keyword_at(text: Seq<char>, i: int) -> bool {
    &&& 0 <= i
    &&& i + 4 <= text.len()
    &&& text[i] == 'm'
    &&& text[i + 1] == 'o'
    &&& text[i + 2] == 'd'
    &&& text[i + 3] == ' '
}

/// The positions below `n` at which "mod " starts in `text`.
pub open spec fn module_keywords_upto(text: Seq<char>, n: int) -> Seq<int> {
    Seq::new(n as nat, |i: int| i).filter(|i: int| module_keyword_at(text, i))
}

/// The number of times "mod " occurs in `text`. No two occurrences can
/// overlap, so this is also the number of disjoint matches.
pub open spec fn module_keyword_count(text: Seq<char>) -> nat {
    module_keywords_upto(text, text.len() as int).len()
}

/// The characters of `text`, one by one.
fn chars_of(text: &str) -> (r: Vec<char>)
    ensures
        r@ == text@,
{
    let mut r: Vec<char> = Vec::new();
    for c in it: text.chars()
        invariant
            it.seq() == text@,
            r@ == text@.take(it.index() as int),
    {
        proof {
            assert(text@.take(it.index() + 1) =~= r@.push(c));
        }
        r.push(c);
    }
    proof {
        assert(text@.take(text@.len() as int) =~= text@);
    }
    r
}

/// How many module declarations a source text holds, counted as the
/// occurrences of "mod ".
pub fn count_module_declarations(content: &str) -> (r: usize)
    ensures
        r == module_keyword_count(content@),
{
    let t = chars_of(content);
    let n = t.len();
    let mut count: usize = 0;
    proof {
        assert(module_keywords_upto(content@, 0) =~= Seq::<int>::empty()) by {
            reveal(Seq::filter);
        }
    }
    for i in 0..n
        invariant
            n == t.len(),
            t@ == content@,
            count == module_keywords_upto(content@, i as int).len(),
            count <= i,
    {
        proof {
            let pred = |j: int| module_keyword_at(content@, j);
            assert(Seq::new((i + 1) as nat, |j: int| j) =~= Seq::new(i as nat, |j: int| j).push(
                i as int,
            ));
            Seq::new(i as nat, |j: int| j).lemma_filter_push(i as int, pred);
        }
        if n - i >= 4 && t[i] == 'm' && t[i + 1] == 'o' && t[i + 2] == 'd' && t[i + 3] == ' ' {
            count = count + 1;
        }
    }
    count
}

/// A walk in which no regular file has a listed extension counts nothing:
/// no entry is selected, so no per-file count reaches the fold, the grand
/// total is 0 and no extension is mapped.
pub proof fn lemma_no_match_counts_nothing(
    entries: Seq<WalkEntry>,
    extensions: Seq<String>,
    files: Seq<(Seq<char>, nat)>,
)
    requires
        forall|i: int| 0 <= i < entries.len() ==> !is_selected(#[trigger] entries[i], extensions),
        files.len() == selected_indices(entries, extensions).len(),
    ensures
        selected_indices(entries, extensions).len() == 0,
        lines_total(files) == 0,
        per_extension(files) == Map::<Seq<char>, nat>::empty(),
{
    let s = Seq::new(entries.len(), |i: int| i);
    let pred = |i: int| is_selected(entries[i], extensions);
    assert(s.all(|x: int| !pred(x)));
    s.lemma_all_neg_filter_empty(pred);
    assert(per_extension(files) =~= Map::<Seq<char>, nat>::empty());
}

/// Counting an unchanged tree again, with its files met in any order, adds
/// the same amount to a running total and gives the same totals per
/// extension. Two counts whose per-file counts agree up to order, each
/// taking a running total from `start_i` to `end_i`, add equal amounts;
/// counters that start equal end equal, and a repeated count on one counter
/// adds again what the first added.
pub proof fn lemma_runs_agree(
    first: Seq<FileLines>,
    again: Seq<FileLines>,
    start1: int,
    end1: int,
    start2: int,
    end2: int,
)
    requires
        file_views(first).to_multiset() == file_views(again).to_multiset(),
        end1 == start1 + lines_total(file_views(first)),
        end2 == start2 + lines_total(file_views(again)),
    ensures
        end1 - start1 == end2 - start2,
        per_extension(file_views(first)) == per_extension(file_views(again)),
{
    lemma_order_does_not_matter(file_views(first), file_views(again));
}

impl CountRoo {
    /// A counter over `config` that has counted nothing yet.
    pub fn new(config: Config) -> (r: CountRoo)
        ensures
            r.config == config,
            r.total_lines == 0,
            r.num_files == 0,
            r.num_crates == 0,
            r.project_name is None,
            r.rust_edition is None,
            r.rustc_version is None,
            r.num_modules == 0,
    {
        CountRoo {
            config,
            total_lines: 0,
            num_files: 0,
            num_crates: 0,
            project_name: None,
            rust_edition: None,
            rustc_version: None,
            num_modules: 0,
        }
    }

    /// Replaces the configured extensions with those of common
    /// general-purpose languages.
    pub fn use_curated_extensions(&mut self)
        ensures
            texts_view(final(self).config.extensions@) == curated_extension_list(),
            final(self).config.project_src_path == old(self).config.project_src_path,
            final(self).config.config_path == old(self).config.config_path,
            final(self).config.count_empty_lines == old(self).config.count_empty_lines,
            final(self).total_lines == old(self).total_lines,
            same_project_facts(*final(self), *old(self)),
    {
        self.config.extensions = curated_extensions();
    }

    /// The entries of a walk that a count with this configuration reads.
    pub fn select_files(&self, entries: &Vec<WalkEntry>) -> (r: Vec<SelectedFile>)
        ensures
            crate::select::positions(r@) == crate::select::selected_indices(
                entries@,
                self.config.extensions@,
            ),
            forall|k: int|
                0 <= k < r.len() ==> (#[trigger] r[k]).index < entries.len() && r[k].extension@
                    == crate::select::entry_extension(entries[r[k].index as int])->0,
    {
        select_files(entries, &self.config.extensions)
    }

    /// Adds the lines of one walk to the running total and returns the new
    /// total. A walk that failed, its root unreadable, fails the count and
    /// leaves the total as it was.
    pub fn count_lines_of_code(&mut self, walk: Result<Vec<FileLines>, LocCounterError>) -> (r:
        Result<usize, LocCounterError>)
        requires
            walk matches Ok(files) ==> old(self).total_lines + lines_total(file_views(files@))
                <= usize::MAX,
        ensures
            final(self).config == old(self).config,
            same_project_facts(*final(self), *old(self)),
            walk is Err ==> (r is Err && r->Err_0 == walk->Err_0 && final(self).total_lines == old(
                self,
            ).total_lines),
            walk matches Ok(files) ==> final(self).total_lines == old(self).total_lines
                + lines_total(file_views(files@)),
            walk is Ok ==> (r matches Ok(t) && t == final(self).total_lines),
    {
        match walk {
            Err(e) => Err(e),
            Ok(files) => {
                let lines = crate::aggregate::total_lines(&files);
                self.total_lines = self.total_lines + lines;
                Ok(self.total_lines)
            },
        }
    }

    /// The total per extension of one walk's counts, each extension once.
    pub fn calculate_extension_counts(&self, files: &Vec<FileLines>) -> (r: Vec<(String, usize)>)
        requires
            lines_total(file_views(files@)) <= usize::MAX,
        ensures
            crate::aggregate::keys_unique(r@),
            crate::aggregate::counts_map(r@) == crate::aggregate::per_extension(file_views(files@)),
            crate::aggregate::counts_sum(r@) == lines_total(file_views(files@)),
    {
        crate::aggregate::aggregate(files).per_extension
    }

    /// Whether `entry` is a regular file whose name has one of the configured
    /// extensions, spelled exactly.
    pub open spec fn is_code_entry(&self, entry: WalkEntry) -> bool {
        &&& entry.is_file
        &&& entry.file_name matches Some(name) && is_code_name(self.config.extensions@, name@)
    }

    /// How many entries of a walk are code files (see `is_code_entry`).
    pub fn count_code_files(&self, entries: &Vec<WalkEntry>) -> (r: usize)
        ensures
            r == Seq::new(entries.len() as nat, |i: int| i).filter(
                |i: int| self.is_code_entry(entries[i]),
            ).len(),
    {
        let mut count: usize = 0;
        proof {
            assert(Seq::new(0, |i: int| i).filter(|i: int| self.is_code_entry(entries[i])) =~= Seq::<
                int,
            >::empty()) by {
                reveal(Seq::filter);
            }
        }
        for i in 0..entries.len()
            invariant
                count == Seq::new(i as nat, |j: int| j).filter(|j: int| self.is_code_entry(entries[j])).len(),
                count <= i,
        {
            proof {
                let pred = |j: int| self.is_code_entry(entries[j]);
                assert(Seq::new((i + 1) as nat, |j: int| j) =~= Seq::new(i as nat, |j: int| j).push(
                    i as int,
                ));
                Seq::new(i as nat, |j: int| j).lemma_filter_push(i as int, pred);
            }
            let e = &entries[i];
            if e.is_file {
                match &e.file_name {
                    Some(name) => {
                        if self.is_code_file(name.as_str()) {
                            count = count + 1;
                        }
                    },
                    None => {},
                }
            }
        }
        count
    }

    /// Whether a file with this name has one of the configured extensions,
    /// spelled exactly.
    pub fn is_code_file(&self, file_name: &str) -> (r: bool)
        ensures
            r == is_code_name(self.config.extensions@, file_name@),
    {
        match file_extension(file_name) {
            Some(ext) => contains_text(&self.config.extensions, &ext),
            None => false,
        }
    }
}

} // verus!
