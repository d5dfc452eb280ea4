//! The info file that records where a trashed entry came from and when.
//!
//! An info file sits in the trash's `info` directory under the trashed
//! entry's name plus `.trashinfo`, and reads:
//!
//! ```text
//! [Trash Info]
//! Path=<original path>
//! DeletionDate=<YYYY-MM-DDThh:mm:ss, local time>
//! ```

use vstd::prelude::*;

use crate::names::{date_key, date_key_bytes, info_header, info_header_bytes, info_suffix, info_suffix_bytes, path_key, path_key_bytes};
use crate::path::{extend_bytes, join, joined, to_bytes};
use crate::trash::Trash;

verus! {

/// The line break of an info file.
pub const NEWLINE: u8 = 0x0a;

/// The path of the info file of the entry `file_name`, in the trash's info
/// directory `info_dir`.
pub open spec fn info_file_path(file_name: Seq<u8>, info_dir: Seq<u8>) -> Seq<u8> {
    joined(info_dir, file_name + info_suffix())
}

/// The text of an info file.
pub open spec fn info_file_contents(original_path: Seq<u8>, deletion_date: Seq<u8>) -> Seq<u8> {
    info_header() + path_key() + original_path + seq![NEWLINE] + date_key() + deletion_date + seq![
        NEWLINE,
    ]
}

/// An info file to be written: where, and what.
#[derive(Debug, Clone)]
pub struct InfoFile {
    pub path: Vec<u8>,
    pub contents: Vec<u8>,
}

/// The path of the info file of the entry `file_name`, in the trash's info
/// directory at `trash_info_path`.
pub fn make_info_file_path(file_name: &[u8], trash_info_path: &[u8]) -> (r: Vec<u8>)
    ensures
        r@ == info_file_path(file_name@, trash_info_path@),
{
    let mut name = to_bytes(file_name);
    let suffix = info_suffix_bytes();
    extend_bytes(&mut name, suffix.as_slice());
    join(trash_info_path, name.as_slice())
}

/// The info file of the entry trashed from `original_path` under the name
/// `file_name` into `trash`, on `deletion_date` (already formatted as
/// `YYYY-MM-DDThh:mm:ss`).
pub fn build_info_file(
    original_path: &[u8],
    file_name: &[u8],
    trash: &Trash,
    deletion_date: &[u8],
) -> (r: InfoFile)
    ensures
        r.path@ == info_file_path(file_name@, trash.info@),
        r.contents@ == info_file_contents(original_path@, deletion_date@),
{
    let path = make_info_file_path(file_name, trash.info.as_slice());
    let mut contents = info_header_bytes();
    let key = path_key_bytes();
    extend_bytes(&mut contents, key.as_slice());
    extend_bytes(&mut contents, original_path);
    contents.push(NEWLINE);
    let key = date_key_bytes();
    extend_bytes(&mut contents, key.as_slice());
    extend_bytes(&mut contents, deletion_date);
    contents.push(NEWLINE);
    InfoFile { path, contents }
}

} // verus!
