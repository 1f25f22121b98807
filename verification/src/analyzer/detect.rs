//! Telling a build script from a descriptor: by the name of the file, and
//! where the name does not tell, by what the file holds.

use super::error::{AnalyzerError, AnalyzerErrorView};
use crate::text::{
    contains, ends_with, starts_with, str_contains, str_ends_with, str_eq, str_starts_with,
    str_views,
};
use vstd::prelude::*;

verus! {

/// The kinds of file that can be analyzed.
#[derive(Debug, Clone, Copy, PartialEq, Eq, Structural)]
pub enum FileKind {
    /// A build script.
    Dockerfile,
    /// A descriptor.
    Compose,
}

/// The kind of file that the name `file_name` tells of, if it tells.
pub open spec fn kind_by_name(file_name: Seq<char>) -> Option<FileKind> {
    if file_name == "Dockerfile"@ || starts_with(file_name, "Dockerfile."@) || ends_with(
        file_name,
        "_dockerfile"@,
    ) || ends_with(file_name, "dockerfile"@) {
        Some(FileKind::Dockerfile)
    } else if contains(file_name, "compose"@) && (ends_with(file_name, ".yml"@) || ends_with(
        file_name,
        ".yaml"@,
    )) {
        Some(FileKind::Compose)
    } else {
        None
    }
}

/// The kind of file that the text `content` looks like, if it looks like one.
pub open spec fn kind_by_content(content: Seq<char>) -> Option<FileKind> {
    if contains(content, "FROM "@) && (contains(content, "RUN "@) || contains(content, "COPY "@)
        || contains(content, "CMD "@)) {
        Some(FileKind::Dockerfile)
    } else if contains(content, "services:"@) || contains(content, "version:"@) {
        Some(FileKind::Compose)
    } else {
        None
    }
}

/// The names under which a file to analyze is looked for in a directory, in the
/// order in which they are tried.
pub open spec fn directory_candidates() -> Seq<Seq<char>> {
    seq![
        "Dockerfile"@,
        "docker-compose.yml"@,
        "docker-compose.yaml"@,
        "compose.yml"@,
        "compose.yaml"@,
    ]
}

/// The kind of the file that the candidate at `index` names.
pub open spec fn candidate_kind(index: int) -> FileKind {
    if index == 0 {
        FileKind::Dockerfile
    } else {
        FileKind::Compose
    }
}

/// The index of the first of `present[k..]` that is true.
pub open spec fn first_present(present: Seq<bool>, k: int) -> Option<int>
    decreases present.len() - k,
{
    if k < 0 || k >= present.len() {
        None
    } else if present[k] {
        Some(k)
    } else {
        first_present(present, k + 1)
    }
}

/// What is said where a directory holds no file to analyze.
pub const NOTHING_IN_DIRECTORY: &'static str = "No Dockerfile or docker-compose.yml found in directory";

/// Whether the path `path` can be analyzed at all: it can if something exists
/// there, which `exists` tells; else no file is found, and the error names the
/// path.
pub fn require_existing(path: &str, exists: bool) -> (found: Result<(), AnalyzerError>)
    ensures
        found is Ok <==> exists,
        found matches Err(e) ==> e@ == AnalyzerErrorView::FileNotFound(path@),
{
    if exists {
        Ok(())
    } else {
        Err(AnalyzerError::FileNotFound(path.to_owned()))
    }
}

/// The kind of file that the name `file_name` tells of, if it tells.
pub fn detect_by_name(file_name: &str) -> (kind: Option<FileKind>)
    ensures
        kind == kind_by_name(file_name@),
{
    if str_eq(file_name, "Dockerfile") || str_starts_with(file_name, "Dockerfile.")
        || str_ends_with(file_name, "_dockerfile") || str_ends_with(file_name, "dockerfile") {
        Some(FileKind::Dockerfile)
    } else if str_contains(file_name, "compose") && (str_ends_with(file_name, ".yml")
        || str_ends_with(file_name, ".yaml")) {
        Some(FileKind::Compose)
    } else {
        None
    }
}

/// The kind of file that the text `content` of the file at `path` looks like.
/// Where it looks like neither kind, the file is of unknown type.
pub fn detect_by_content(path: &str, content: &str) -> (kind: Result<FileKind, AnalyzerError>)
    ensures
        match kind {
            Ok(k) => kind_by_content(content@) == Some(k),
            Err(e) => kind_by_content(content@) is None && e@ == AnalyzerErrorView::UnknownFileType(
                path@,
            ),
        },
{
    if str_contains(content, "FROM ") && (str_contains(content, "RUN ") || str_contains(
        content,
        "COPY ",
    ) || str_contains(content, "CMD ")) {
        Ok(FileKind::Dockerfile)
    } else if str_contains(content, "services:") || str_contains(content, "version:") {
        Ok(FileKind::Compose)
    } else {
        Err(AnalyzerError::UnknownFileType(path.to_owned()))
    }
}

/// The names under which a file to analyze is looked for in a directory, in the
/// order in which they are tried.
pub fn candidates_in_directory() -> (names: Vec<&'static str>)
    ensures
        str_views(names@) == directory_candidates(),
{
    let names = vec![
        "Dockerfile",
        "docker-compose.yml",
        "docker-compose.yaml",
        "compose.yml",
        "compose.yaml",
    ];
    assert(str_views(names@) =~= directory_candidates());
    names
}

/// The file to analyze in a directory: the first candidate that is there, and
/// its kind. `present` tells of each candidate, in order, whether the directory
/// holds it. Where it holds none, no file is found.
pub fn choose_in_directory(present: &Vec<bool>) -> (choice: Result<
    (usize, FileKind),
    AnalyzerError,
>)
    ensures
        match choice {
            Ok((index, kind)) => first_present(present@, 0) == Some(index as int) && kind
                == candidate_kind(index as int),
            Err(e) => first_present(present@, 0) is None && e@ == AnalyzerErrorView::FileNotFound(
                NOTHING_IN_DIRECTORY@,
            ),
        },
{
    let mut k: usize = 0;
    while k < present.len()
        invariant
            k <= present.len(),
            first_present(present@, 0) == first_present(present@, k as int),
        decreases present.len() - k,
    {
        if present[k] {
            let kind = if k == 0 {
                FileKind::Dockerfile
            } else {
                FileKind::Compose
            };
            return Ok((k, kind));
        }
        k += 1;
    }
    Err(AnalyzerError::FileNotFound(NOTHING_IN_DIRECTORY.to_owned()))
}

} // verus!
