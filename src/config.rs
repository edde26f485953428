//! The configuration of a run: where to start, which extensions to count,
//! and whether blank lines count; built from a builder, a list of
//! extensions, or the text of a configuration file.

use vstd::prelude::*;

use crate::extension::{extension_of, file_extension, lower_of, lowercase, opt_text};
use crate::lines::pieces;

verus! {

/// Relies on `std::io::Error`, carried unopened in `LocCounterError::IoError`.
#[verifier::external_type_specification]
#[verifier::external_body]
pub struct ExIoError(std::io::Error);

/// What can go wrong in a run or while building its configuration.
#[derive(Debug)]
pub enum LocCounterError {
    IoError(std::io::Error),
    ConfigError(String),
    TomlError(String),
    JsonError(String),
    YamlError(String),
    XmlError(String),
}

impl LocCounterError {
    /// The error as one line of text: its kind, then what went wrong.
    pub fn message(&self) -> (r: String)
        ensures
            match self {
                LocCounterError::IoError(_) => exists|t: Seq<char>| r@ == "IO Error: "@ + t,
                LocCounterError::ConfigError(m) => r@ == "Configuration Error: "@ + m@,
                LocCounterError::TomlError(m) => r@ == "TOML Error: "@ + m@,
                LocCounterError::JsonError(m) => r@ == "JSON Error: "@ + m@,
                LocCounterError::YamlError(m) => r@ == "YAML Error: "@ + m@,
                LocCounterError::XmlError(m) => r@ == "XML Error: "@ + m@,
            },
    {
        let (mut r, detail) = match self {
            LocCounterError::IoError(e) => ("IO Error: ".to_owned(), e.to_string()),
            LocCounterError::ConfigError(m) => ("Configuration Error: ".to_owned(), m.clone()),
            LocCounterError::TomlError(m) => ("TOML Error: ".to_owned(), m.clone()),
            LocCounterError::JsonError(m) => ("JSON Error: ".to_owned(), m.clone()),
            LocCounterError::YamlError(m) => ("YAML Error: ".to_owned(), m.clone()),
            LocCounterError::XmlError(m) => ("XML Error: ".to_owned(), m.clone()),
        };
        r.append(detail.as_str());
        r
    }
}

/// The settings of a run.
#[derive(Debug, Clone, PartialEq, Eq)]
pub struct Config {
    /// The directory the walk starts from.
    pub project_src_path: String,
    /// The configuration file this came from, where there was one.
    pub config_path: Option<String>,
    /// The extensions to count, without a leading '.', matched ignoring case.
    pub extensions: Vec<String>,
    /// Whether lines with nothing but whitespace count.
    pub count_empty_lines: bool,
}

/// The formats a configuration file can be written in, told apart by the
/// file's extension.
#[derive(Debug, Clone, Copy, PartialEq, Eq)]
pub enum ConfigFormat {
    Toml,
    Yaml,
    Json,
    Xml,
    Text,
}

/// The views of a list of texts.
pub open spec fn texts_view(texts: Seq<String>) -> Seq<Seq<char>> {
    texts.map_values(|s: String| s@)
}

/// A line without the carriage return of a "\r\n" ending.
pub open spec fn strip_cr(line: Seq<char>) -> Seq<char> {
    if line.len() > 0 && line.last() == '\r' {
        line.drop_last()
    } else {
        line
    }
}

/// The lines of `text` as `str::lines` yields them: split at line feeds,
/// a carriage return before a line feed dropped, and no line after a final
/// line feed.
pub open spec fn text_lines(text: Seq<char>) -> Seq<Seq<char>> {
    let p = pieces(text);
    let ended = p.drop_last().map_values(|l: Seq<char>| strip_cr(l));
    if p.last().len() == 0 {
        ended
    } else {
        ended.push(p.last())
    }
}

/// The extensions that a newline-separated list names: one per line, with
/// empty lines left out.
pub open spec fn listed_extensions(text: Seq<char>) -> Seq<Seq<char>> {
    text_lines(text).filter(|l: Seq<char>| l.len() > 0)
}

/// The format a configuration file with extension `ext` is read in.
pub open spec fn format_of_extension(ext: Seq<char>) -> Option<ConfigFormat> {
    if ext == "toml"@ {
        Some(ConfigFormat::Toml)
    } else if ext == "yaml"@ || ext == "yml"@ {
        Some(ConfigFormat::Yaml)
    } else if ext == "json"@ {
        Some(ConfigFormat::Json)
    } else if ext == "xml"@ {
        Some(ConfigFormat::Xml)
    } else if ext == "txt"@ {
        Some(ConfigFormat::Text)
    } else {
        None
    }
}

/// Whether `e` is a configuration error with message `msg`.
pub open spec fn is_config_error(e: LocCounterError, msg: Seq<char>) -> bool {
    e matches LocCounterError::ConfigError(m) && m@ == msg
}

/// Whether `s` reads exactly `lit`.
fn text_is(s: &String, lit: &str) -> (r: bool)
    ensures
        r == (s@ == lit@),
{
    let l = lit.to_owned();
    s.eq(&l)
}

/// The non-empty lines of `text` (see `listed_extensions`).
fn nonempty_lines(text: &str) -> (r: Vec<String>)
    ensures
        texts_view(r@) == listed_extensions(text@),
{
    let n = text.unicode_len();
    let mut r: Vec<String> = Vec::new();
    let mut start: usize = 0;
    let mut i: usize = 0;
    let mut prev_cr = false;
    let ghost nonempty = |l: Seq<char>| l.len() > 0;
    let ghost strip = |l: Seq<char>| strip_cr(l);
    proof {
        assert(pieces(text@.take(0)) =~= seq![Seq::<char>::empty()]);
        assert(pieces(text@.take(0)).drop_last().map_values(strip).filter(nonempty) =~= Seq::<
            Seq<char>,
        >::empty()) by {
            reveal(Seq::filter);
        }
    }
    for c in it: text.chars()
        invariant
            n == text@.len(),
            it.seq() == text@,
            i == it.index(),
            start <= i,
            pieces(text@.take(i as int)).len() >= 1,
            pieces(text@.take(i as int)).last() == text@.subrange(start as int, i as int),
            texts_view(r@) == pieces(text@.take(i as int)).drop_last().map_values(strip).filter(
                nonempty,
            ),
            prev_cr == (i > start && text@[i - 1] == '\r'),
            nonempty == (|l: Seq<char>| l.len() > 0),
            strip == (|l: Seq<char>| strip_cr(l)),
    {
        let ghost seen = text@.take(i as int);
        let ghost p = pieces(seen);
        proof {
            assert(text@.take(i + 1) =~= seen.push(c));
            assert(seen.push(c).drop_last() =~= seen);
        }
        if c == '\n' {
            let end = if prev_cr {
                i - 1
            } else {
                i
            };
            let ghost r0 = r@;
            proof {
                assert(p =~= p.drop_last().push(p.last()));
                assert(p.map_values(strip) =~= p.drop_last().map_values(strip).push(strip(p.last())));
                p.drop_last().map_values(strip).lemma_filter_push(strip(p.last()), nonempty);
                assert(strip_cr(p.last()) =~= text@.subrange(start as int, end as int));
                assert(pieces(text@.take(i + 1)) == p.push(Seq::empty()));
                assert(pieces(text@.take(i + 1)).drop_last() =~= p);
            }
            if end > start {
                let line = text.substring_char(start, end).to_owned();
                r.push(line);
                proof {
                    assert(texts_view(r@) =~= texts_view(r0).push(line@));
                }
            }
            start = i + 1;
            prev_cr = false;
            proof {
                assert(pieces(text@.take(i + 1)).last() =~= text@.subrange(start as int, i + 1));
            }
        } else {
            proof {
                let q = pieces(text@.take(i + 1));
                assert(q == p.update(p.len() - 1, p.last().push(c)));
                assert(q.drop_last() =~= p.drop_last());
                assert(q.last() =~= text@.subrange(start as int, i + 1));
            }
            prev_cr = c == '\r';
        }
        i = i + 1;
    }
    proof {
        let p = pieces(text@.take(i as int));
        assert(text@.take(i as int) =~= text@);
        p.drop_last().map_values(strip).lemma_filter_push(p.last(), nonempty);
    }
    if start < n {
        let line = text.substring_char(start, n).to_owned();
        let ghost r0 = r@;
        r.push(line);
        proof {
            assert(texts_view(r@) =~= texts_view(r0).push(line@));
        }
    }
    r
}

/// Settings for counting the files under a project directory.
pub struct ConfigBuilder {
    project_path: Option<String>,
    extensions: Vec<String>,
    count_empty_lines: bool,
}

impl Config {
    /// A configuration that counts the extensions listed in `config`, one per
    /// line; empty lines name none.
    pub fn from_line_separated_string(
        config: &str,
        count_empty_lines: bool,
        project_path: String,
    ) -> (r: Result<Config, LocCounterError>)
        ensures
            r matches Ok(c) && c.project_src_path@ == project_path@ && c.config_path is None
                && texts_view(c.extensions@) == listed_extensions(config@) && c.count_empty_lines
                == count_empty_lines,
    {
        let extensions = nonempty_lines(config);
        Ok(Config { project_src_path: project_path, config_path: None, extensions, count_empty_lines })
    }

    /// A configuration that counts `extensions`.
    pub fn from_str_vec(extensions: Vec<String>, count_empty_lines: bool, project_path: String) -> (r:
        Result<Config, LocCounterError>)
        ensures
            r matches Ok(c) && c.project_src_path@ == project_path@ && c.config_path is None
                && c.extensions@ == extensions@ && c.count_empty_lines == count_empty_lines,
    {
        Ok(Config { project_src_path: project_path, config_path: None, extensions, count_empty_lines })
    }

    /// A builder with nothing set yet.
    pub fn builder() -> (r: ConfigBuilder)
        ensures
            r.spec_project_path() is None,
            r.spec_extensions().len() == 0,
            !r.spec_count_empty_lines(),
    {
        ConfigBuilder::default()
    }

    /// The configuration that goes with a project's located source folder:
    /// Rust sources under that folder, blank lines left out, read from the
    /// configuration file at `config_path`. Without a source folder there is
    /// none.
    pub fn from_src_folder(src_folder: Option<String>, config_path: String) -> (r: Result<
        Config,
        LocCounterError,
    >)
        ensures
            src_folder is None ==> (r matches Err(e) && is_config_error(e, "Unable to find src folder"@)),
            src_folder matches Some(p) ==> (r matches Ok(c) && c.project_src_path@ == p@
                && opt_text(c.config_path) == Some(config_path@) && texts_view(c.extensions@)
                == seq!["rs"@] && !c.count_empty_lines),
    {
        match src_folder {
            Some(p) => {
                let mut extensions: Vec<String> = Vec::new();
                extensions.push("rs".to_owned());
                proof {
                    assert(texts_view(extensions@) =~= seq!["rs"@]);
                }
                Ok(
                    Config {
                        project_src_path: p,
                        config_path: Some(config_path),
                        extensions,
                        count_empty_lines: false,
                    },
                )
            },
            None => Err(LocCounterError::ConfigError("Unable to find src folder".to_owned())),
        }
    }
}

impl Default for ConfigBuilder {
    fn default() -> (r: ConfigBuilder)
        ensures
            r.spec_project_path() is None,
            r.spec_extensions().len() == 0,
            !r.spec_count_empty_lines(),
    {
        ConfigBuilder { project_path: None, extensions: Vec::new(), count_empty_lines: false }
    }
}

impl ConfigBuilder {
    /// The project path set so far.
    pub closed spec fn spec_project_path(&self) -> Option<Seq<char>> {
        opt_text(self.project_path)
    }

    /// The extensions added so far, in order.
    pub closed spec fn spec_extensions(&self) -> Seq<Seq<char>> {
        texts_view(self.extensions@)
    }

    /// The blank-line policy set so far.
    pub closed spec fn spec_count_empty_lines(&self) -> bool {
        self.count_empty_lines
    }

    /// Sets the directory the walk starts from, resolved against the
    /// project's located source folder (see `resolve_project_path`).
    /// `path_is_relative` tells whether `path` is relative on this platform,
    /// and `joined` is `path` joined onto `src_folder`.
    pub fn project_path(
        self,
        path: &str,
        path_is_relative: bool,
        src_folder: &str,
        joined: &str,
    ) -> (r: Self)
        ensures
            r.spec_project_path() == Some(
                resolved_project_path(path@, path_is_relative, src_folder@, joined@),
            ),
            r.spec_extensions() == self.spec_extensions(),
            r.spec_count_empty_lines() == self.spec_count_empty_lines(),
    {
        let resolved = resolve_project_path(path, path_is_relative, src_folder, joined);
        ConfigBuilder { project_path: Some(resolved), ..self }
    }

    /// Adds one extension to count.
    pub fn extension(self, ext: &str) -> (r: Self)
        ensures
            r.spec_project_path() == self.spec_project_path(),
            r.spec_extensions() == self.spec_extensions().push(ext@),
            r.spec_count_empty_lines() == self.spec_count_empty_lines(),
    {
        let mut b = self;
        let ghost before = b.extensions@;
        b.extensions.push(ext.to_owned());
        proof {
            assert(texts_view(b.extensions@) =~= texts_view(before).push(ext@));
        }
        b
    }

    /// Adds several extensions to count, in order.
    pub fn extensions(self, exts: Vec<&str>) -> (r: Self)
        ensures
            r.spec_project_path() == self.spec_project_path(),
            r.spec_extensions() == self.spec_extensions() + exts@.map_values(|e: &str| e@),
            r.spec_count_empty_lines() == self.spec_count_empty_lines(),
    {
        let mut b = self;
        let ghost start = texts_view(b.extensions@);
        for i in 0..exts.len()
            invariant
                b.project_path == self.project_path,
                b.count_empty_lines == self.count_empty_lines,
                start == self.spec_extensions(),
                texts_view(b.extensions@) == start + exts@.take(i as int).map_values(|e: &str| e@),
        {
            let ghost before = b.extensions@;
            b.extensions.push(exts[i].to_owned());
            proof {
                assert(texts_view(b.extensions@) =~= texts_view(before).push(exts@[i as int]@));
                assert(exts@.take(i + 1).map_values(|e: &str| e@) =~= exts@.take(i as int).map_values(
                    |e: &str| e@,
                ).push(exts@[i as int]@));
            }
        }
        proof {
            assert(exts@.take(exts.len() as int) =~= exts@);
        }
        b
    }

    /// Sets whether lines with nothing but whitespace count.
    pub fn count_empty_lines(self, count: bool) -> (r: Self)
        ensures
            r.spec_project_path() == self.spec_project_path(),
            r.spec_extensions() == self.spec_extensions(),
            r.spec_count_empty_lines() == count,
    {
        ConfigBuilder { count_empty_lines: count, ..self }
    }

    /// The configuration set so far; a project path is required.
    pub fn build(self) -> (r: Result<Config, &'static str>)
        ensures
            self.spec_project_path() is None <==> r is Err,
            r matches Err(m) ==> m@ == "Project or workspace path is required"@,
            r matches Ok(c) ==> Some(c.project_src_path@) == self.spec_project_path() && c.config_path
                is None && texts_view(c.extensions@) == self.spec_extensions() && c.count_empty_lines
                == self.spec_count_empty_lines(),
    {
        match self.project_path {
            Some(p) => Ok(
                Config {
                    project_src_path: p,
                    config_path: None,
                    extensions: self.extensions,
                    count_empty_lines: self.count_empty_lines,
                },
            ),
            None => Err("Project or workspace path is required"),
        }
    }
}

/// The format of the configuration file named `file_name`, by its extension,
/// compared exactly. A name without an extension, or with one that no format
/// goes by, is a configuration error.
pub fn config_format_for(file_name: &str) -> (r: Result<ConfigFormat, LocCounterError>)
    ensures
        extension_of(file_name@) is None ==> (r matches Err(e) && is_config_error(
            e,
            "Invalid config file type"@,
        )),
        extension_of(file_name@) matches Some(ext) ==> match format_of_extension(ext) {
            Some(f) => (r matches Ok(g) && g == f),
            None => (r matches Err(e) && is_config_error(e, "Unsupported config file type"@)),
        },
{
    match file_extension(file_name) {
        None => Err(LocCounterError::ConfigError("Invalid config file type".to_owned())),
        Some(ext) => {
            if text_is(&ext, "toml") {
                Ok(ConfigFormat::Toml)
            } else if text_is(&ext, "yaml") || text_is(&ext, "yml") {
                Ok(ConfigFormat::Yaml)
            } else if text_is(&ext, "json") {
                Ok(ConfigFormat::Json)
            } else if text_is(&ext, "xml") {
                Ok(ConfigFormat::Xml)
            } else if text_is(&ext, "txt") {
                Ok(ConfigFormat::Text)
            } else {
                Err(LocCounterError::ConfigError("Unsupported config file type".to_owned()))
            }
        },
    }
}

/// Which of a directory and its ancestors, listed from the directory up to
/// the root, is the project's: the first that holds a project manifest.
pub fn first_with_manifest(has_manifest: &Vec<bool>) -> (r: Option<usize>)
    ensures
        r matches Some(k) ==> (k < has_manifest.len() && has_manifest[k as int] && forall|j: int|
            0 <= j < k ==> !has_manifest[j]),
        r is None ==> forall|j: int| 0 <= j < has_manifest.len() ==> !has_manifest[j],
{
    for i in 0..has_manifest.len()
        invariant
            forall|j: int| 0 <= j < i ==> !has_manifest[j],
    {
        if has_manifest[i] {
            return Some(i);
        }
    }
    None
}

/// Where a project path given to the builder points: an absolute path is
/// used as given; "src" and "." (in any case) mean the located source folder
/// itself; another relative path is joined onto that folder.
pub open spec fn resolved_project_path(
    path: Seq<char>,
    path_is_relative: bool,
    src_folder: Seq<char>,
    joined: Seq<char>,
) -> Seq<char> {
    if !path_is_relative {
        path
    } else if lower_of(path) == "src"@ || lower_of(path) == "."@ {
        src_folder
    } else {
        joined
    }
}

/// Where a project path given to the builder points (see
/// `resolved_project_path`); `joined` is `path` joined onto `src_folder`.
pub fn resolve_project_path(path: &str, path_is_relative: bool, src_folder: &str, joined: &str) -> (r:
    String)
    ensures
        r@ == resolved_project_path(path@, path_is_relative, src_folder@, joined@),
{
    if !path_is_relative {
        path.to_owned()
    } else if names_src_folder(path) {
        src_folder.to_owned()
    } else {
        joined.to_owned()
    }
}

/// Whether a relative project path, given in lower case, names the located
/// source folder itself: "src" and "." do.
pub fn names_src_folder_lowered(lowered_path: &String) -> (r: bool)
    ensures
        r == (lowered_path@ == "src"@ || lowered_path@ == "."@),
{
    text_is(lowered_path, "src") || text_is(lowered_path, ".")
}

/// Whether a relative project path names the located source folder itself
/// (see `names_src_folder_lowered`), in any case.
pub fn names_src_folder(path: &str) -> (r: bool)
    ensures
        r == (lower_of(path@) == "src"@ || lower_of(path@) == "."@),
{
    let low = lowercase(path);
    names_src_folder_lowered(&low)
}

} // verus!
