//! Entries of a directory listing.

use vstd::prelude::*;

verus! {

/// One entry of a directory.
#[derive(Clone, Debug, PartialEq, Eq)]
pub struct FileInfo {
    pub name: String,
    pub path: String,
    pub size: u64,
    pub is_directory: bool,
    /// Seconds since the epoch of the last change; zero where the platform
    /// does not know it.
    pub modified: u64,
}

pub struct FileInfoView {
    pub name: Seq<char>,
    pub path: Seq<char>,
    pub size: u64,
    pub is_directory: bool,
    pub modified: u64,
}

impl View for FileInfo {
    type V = FileInfoView;

    open spec fn view(&self) -> FileInfoView {
        FileInfoView {
            name: self.name@,
            path: self.path@,
            size: self.size,
            is_directory: self.is_directory,
            modified: self.modified,
        }
    }
}

impl FileInfo {
    /// Describes an entry from what the platform told of it.
    pub fn describe(
        name: String,
        path: String,
        size: u64,
        is_directory: bool,
        modified: Option<u64>,
    ) -> (info: FileInfo)
        ensures
            info@ == (FileInfoView {
                name: name@,
                path: path@,
                size,
                is_directory,
                modified: match modified {
                    Some(t) => t,
                    None => 0,
                },
            }),
    {
        let modified: u64 = match modified {
            Some(t) => t,
            None => 0,
        };
        FileInfo { name, path, size, is_directory, modified }
    }
}

} // verus!
