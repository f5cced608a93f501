//! Generated files and the result of a generation run.
use vstd::prelude::*;
use vstd::string::*;
use vstd::utf8::encode_utf8;
use crate::laws::law_empty_iff_size_zero;

verus! {

/// A file produced by the generator: its name and its content.
#[derive(Debug, Clone)]
pub struct GeneratedFile {
    pub filename: String,
    pub content: String,
}

/// The abstract value of a `GeneratedFile`.
pub struct GeneratedFileView {
    pub filename: Seq<char>,
    pub content: Seq<char>,
}

impl View for GeneratedFile {
    type V = GeneratedFileView;

    open spec fn view(&self) -> GeneratedFileView {
        GeneratedFileView { filename: self.filename@, content: self.content@ }
    }
}

impl DeepView for GeneratedFile {
    type V = GeneratedFileView;

    open spec fn deep_view(&self) -> GeneratedFileView {
        self@
    }
}

impl GeneratedFile {
    pub fn new(filename: String, content: String) -> (r: Self)
        ensures
            r.filename == filename,
            r.content == content,
    {
        GeneratedFile { filename, content }
    }

    /// Whether the content is empty.
    pub fn is_empty(&self) -> (r: bool)
        ensures
            r == (self.content@.len() == 0),
    {
        self.content.as_str().is_empty()
    }

    /// The size of the content in bytes (its UTF-8 encoding); zero exactly
    /// when the content is empty.
    pub fn size(&self) -> (r: usize)
        ensures
            r == encode_utf8(self.content@).len(),
            (r == 0) == (self.content@.len() == 0),
    {
        let r = self.content.as_str().as_bytes().len();
        proof {
            law_empty_iff_size_zero(self.content@);
        }
        r
    }
}

/// The outcome of a generation run.
#[derive(Debug, Clone)]
pub struct GenerationResult {
    pub files: Vec<GeneratedFile>,
    pub success: bool,
    pub message: String,
}

impl GenerationResult {
    /// A successful run that produced `files`.
    pub fn success(files: Vec<GeneratedFile>) -> (r: Self)
        ensures
            r.files == files,
            r.success,
            r.message@ == "ファイル生成が成功しました"@,
    {
        GenerationResult {
            files,
            success: true,
            message: String::from_str("ファイル生成が成功しました"),
        }
    }

    /// A failed run, with no files, explained by `message`.
    pub fn failure(message: String) -> (r: Self)
        ensures
            r.files@.len() == 0,
            !r.success,
            r.message == message,
    {
        GenerationResult { files: Vec::new(), success: false, message }
    }

    /// The number of files produced.
    pub fn file_count(&self) -> (r: usize)
        ensures
            r == self.files@.len(),
    {
        self.files.len()
    }
}

} // verus!
