use vstd::prelude::*;
use vstd::string::*;

use crate::text::{extension_of, file_extension};

verus! {

/// The kinds of file that the upload path tells apart.
#[allow(non_camel_case_types, clippy::upper_case_acronyms)]
#[derive(Clone, Copy, Debug, PartialEq, Eq, Structural)]
pub enum FileType {
    PDF,
    DOCX,
    TXT,
    DOC,
    UNKNOWN,
}

/// The file type named by an extension.
pub open spec fn file_type_of_extension(ext: Seq<char>) -> FileType {
    if ext == "pdf"@ {
        FileType::PDF
    } else if ext == "docx"@ {
        FileType::DOCX
    } else if ext == "txt"@ {
        FileType::TXT
    } else if ext == "doc"@ {
        FileType::DOC
    } else {
        FileType::UNKNOWN
    }
}

/// The file type of a file name, by its final extension.
pub open spec fn file_type_of_name(name: Seq<char>) -> FileType {
    match extension_of(name) {
        Some(ext) => file_type_of_extension(ext),
        None => FileType::UNKNOWN,
    }
}

impl FileType {
    pub fn from_extension(ext: &str) -> (r: FileType)
        ensures
            r == file_type_of_extension(ext@),
    {
        let e = String::from_str(ext);
        if e == String::from_str("pdf") {
            FileType::PDF
        } else if e == String::from_str("docx") {
            FileType::DOCX
        } else if e == String::from_str("txt") {
            FileType::TXT
        } else if e == String::from_str("doc") {
            FileType::DOC
        } else {
            FileType::UNKNOWN
        }
    }

    pub fn from_file_name(name: &str) -> (r: FileType)
        ensures
            r == file_type_of_name(name@),
    {
        match file_extension(name) {
            Some(ext) => FileType::from_extension(ext.as_str()),
            None => FileType::UNKNOWN,
        }
    }
}

} // verus!
