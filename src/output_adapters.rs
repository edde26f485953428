//! Where a report goes: the console, or a file in one of several formats.
//! These types name the destination; the caller performs the write.

use vstd::prelude::*;

verus! {

/// Writes a report to standard output.
pub struct StdoutWriter {}

/// Writes a report, as it is, to a file.
pub struct FileWriter {
    file_path: String,
}

/// Writes a report, a JSON document, pretty-printed to a file.
pub struct JsonWriter {
    file_path: String,
}

/// Writes a report, an XML document, to a file.
pub struct XmlWriter {
    file_path: String,
}

/// Writes a report, a TOML document, to a file.
pub struct TomlWriter {
    file_path: String,
}

/// Writes a report, a YAML document, normalised to a file.
pub struct YamlWriter {
    file_path: String,
}

/// A value that renders itself as text.
pub trait FormattedOutput {
    fn formatted_output(&self) -> String;
}

/// A value that prints itself as a table.
pub trait TabularOutput {
    fn print_table(&self, output_writer: StdoutWriter);
}

impl StdoutWriter {
    pub fn new() -> (r: Self) {
        StdoutWriter {  }
    }
}

impl Default for StdoutWriter {
    fn default() -> (r: Self) {
        StdoutWriter::new()
    }
}

impl FileWriter {
    pub fn new(file_path: &str) -> (r: Self)
        ensures
            r.target()@ == file_path@,
    {
        FileWriter { file_path: file_path.to_owned() }
    }

    /// The file written to.
    pub closed spec fn target(&self) -> String {
        self.file_path
    }

    /// The file written to.
    pub fn file_path(&self) -> (r: &str)
        ensures
            r@ == self.target()@,
    {
        self.file_path.as_str()
    }
}

impl JsonWriter {
    pub fn new(file_path: &str) -> (r: Self)
        ensures
            r.target()@ == file_path@,
    {
        JsonWriter { file_path: file_path.to_owned() }
    }

    /// The file written to.
    pub closed spec fn target(&self) -> String {
        self.file_path
    }

    /// The file written to.
    pub fn file_path(&self) -> (r: &str)
        ensures
            r@ == self.target()@,
    {
        self.file_path.as_str()
    }
}

impl XmlWriter {
    pub fn new(file_path: &str) -> (r: Self)
        ensures
            r.target()@ == file_path@,
    {
        XmlWriter { file_path: file_path.to_owned() }
    }

    /// The file written to.
    pub closed spec fn target(&self) -> String {
        self.file_path
    }

    /// The file written to.
    pub fn file_path(&self) -> (r: &str)
        ensures
            r@ == self.target()@,
    {
        self.file_path.as_str()
    }
}

impl TomlWriter {
    pub fn new(file_path: &str) -> (r: Self)
        ensures
            r.target()@ == file_path@,
    {
        TomlWriter { file_path: file_path.to_owned() }
    }

    /// The file written to.
    pub closed spec fn target(&self) -> String {
        self.file_path
    }

    /// The file written to.
    pub fn file_path(&self) -> (r: &str)
        ensures
            r@ == self.target()@,
    {
        self.file_path.as_str()
    }
}

impl YamlWriter {
    pub fn new(file_path: &str) -> (r: Self)
        ensures
            r.target()@ == file_path@,
    {
        YamlWriter { file_path: file_path.to_owned() }
    }

    /// The file written to.
    pub closed spec fn target(&self) -> String {
        self.file_path
    }

    /// The file written to.
    pub fn file_path(&self) -> (r: &str)
        ensures
            r@ == self.target()@,
    {
        self.file_path.as_str()
    }
}

} // verus!
