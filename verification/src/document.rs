//! The document that the recognised texts are written to.
//!
//! Nothing here touches a file system. The caller says whether the directory
//! exists, and gets back what is to be written and where.

use crate::errors::TesseractError;
use crate::utils::{join_path, path_in, str_of};
use vstd::prelude::*;

verus! {

/// A document ready to be written: one file, holding the recognised texts
/// with a newline between neighbours, replacing whatever the path held.
#[derive(Debug, Clone, PartialEq, Eq)]
pub struct PersistedDocument {
    /// The directory the file goes to.
    pub directory: String,
    /// The name of the file in that directory.
    pub file_name: String,
    /// Everything the file is to hold.
    pub content: String,
}

/// A document with its strings taken as sequences of characters.
pub struct DocumentView {
    pub directory: Seq<char>,
    pub file_name: Seq<char>,
    pub content: Seq<char>,
}

impl View for PersistedDocument {
    type V = DocumentView;

    open spec fn view(&self) -> DocumentView {
        DocumentView {
            directory: self.directory@,
            file_name: self.file_name@,
            content: self.content@,
        }
    }
}

impl PersistedDocument {
    /// Where the file goes: the directory, a slash, the file's name.
    pub fn path(&self) -> (path: String)
        ensures
            path@ == path_in(self@.directory, self@.file_name),
    {
        join_path(self.directory.as_str(), self.file_name.as_str())
    }
}

/// A result with its document taken by its view.
pub open spec fn saved_view(saved: Result<PersistedDocument, TesseractError>) -> Result<
    DocumentView,
    TesseractError,
> {
    match saved {
        Ok(document) => Ok(document@),
        Err(e) => Err(e),
    }
}

/// The directory a document goes to: the one asked for, or the working
/// directory when none was.
pub open spec fn destination_spec(path: Option<Seq<char>>, working_dir: Seq<char>) -> Seq<char> {
    match path {
        Some(directory) => directory,
        None => working_dir,
    }
}

/// The name a document gets: the one asked for, or `data.txt` when none was.
pub open spec fn document_name_spec(file_name: Option<Seq<char>>) -> Seq<char> {
    match file_name {
        Some(name) => name,
        None => "data.txt"@,
    }
}

/// Picks the directory a document goes to.
pub fn destination<'a>(path: Option<&'a str>, working_dir: &'a str) -> (directory: &'a str)
    ensures
        directory@ == destination_spec(str_of(path), working_dir@),
{
    match path {
        Some(directory) => directory,
        None => working_dir,
    }
}

/// Picks the name a document gets.
pub fn document_name<'a>(file_name: Option<&'a str>) -> (name: &'a str)
    ensures
        name@ == document_name_spec(str_of(file_name)),
{
    match file_name {
        Some(name) => name,
        None => "data.txt",
    }
}

} // verus!
