//! Why an analysis did not take place.

use vstd::prelude::*;
use vstd::string::StringExecFns;

verus! {

/// Why an analysis did not take place.
#[derive(Debug, Clone)]
pub enum AnalyzerError {
    /// The path, or a file to analyze under it, does not exist.
    FileNotFound(String),
    /// The file could not be read; the cause in words.
    IoError(String),
    /// The descriptor could not be parsed; the cause in words.
    ComposeParseError(String),
    /// The file is neither a build script nor a descriptor.
    UnknownFileType(String),
}

/// The mathematical value of an [`AnalyzerError`].
pub enum AnalyzerErrorView {
    FileNotFound(Seq<char>),
    IoError(Seq<char>),
    ComposeParseError(Seq<char>),
    UnknownFileType(Seq<char>),
}

impl View for AnalyzerError {
    type V = AnalyzerErrorView;

    open spec fn view(&self) -> AnalyzerErrorView {
        match self {
            AnalyzerError::FileNotFound(s) => AnalyzerErrorView::FileNotFound(s@),
            AnalyzerError::IoError(s) => AnalyzerErrorView::IoError(s@),
            AnalyzerError::ComposeParseError(s) => AnalyzerErrorView::ComposeParseError(s@),
            AnalyzerError::UnknownFileType(s) => AnalyzerErrorView::UnknownFileType(s@),
        }
    }
}

impl AnalyzerErrorView {
    /// The error in words.
    pub open spec fn message(self) -> Seq<char> {
        match self {
            AnalyzerErrorView::FileNotFound(s) => "File not found: "@ + s,
            AnalyzerErrorView::IoError(s) => "Failed to read file: "@ + s,
            AnalyzerErrorView::ComposeParseError(s) => "Failed to parse compose file: "@ + s,
            AnalyzerErrorView::UnknownFileType(s) => "Unknown file type: "@ + s,
        }
    }
}

impl AnalyzerError {
    /// The error in words.
    pub fn message(&self) -> (r: String)
        ensures
            r@ == self@.message(),
    {
        match self {
            AnalyzerError::FileNotFound(s) => {
                let mut r = "File not found: ".to_owned();
                r.append(s.as_str());
                r
            },
            AnalyzerError::IoError(s) => {
                let mut r = "Failed to read file: ".to_owned();
                r.append(s.as_str());
                r
            },
            AnalyzerError::ComposeParseError(s) => {
                let mut r = "Failed to parse compose file: ".to_owned();
                r.append(s.as_str());
                r
            },
            AnalyzerError::UnknownFileType(s) => {
                let mut r = "Unknown file type: ".to_owned();
                r.append(s.as_str());
                r
            },
        }
    }
}

} // verus!
