//! The fixed names and keys of the trash layout, as bytes.

use vstd::prelude::*;

verus! {

/// `files`: the subdirectory that holds trashed entries.
pub open spec fn files_dir() -> Seq<u8> {
    seq![0x66u8, 0x69, 0x6c, 0x65, 0x73]
}

/// The bytes of [`files_dir`].
pub fn files_dir_bytes() -> (r: Vec<u8>)
    ensures
        r@ == files_dir(),
{
    vec![0x66u8, 0x69, 0x6c, 0x65, 0x73]
}

/// `info`: the subdirectory that holds the info files.
pub open spec fn info_dir() -> Seq<u8> {
    seq![0x69u8, 0x6e, 0x66, 0x6f]
}

/// The bytes of [`info_dir`].
pub fn info_dir_bytes() -> (r: Vec<u8>)
    ensures
        r@ == info_dir(),
{
    vec![0x69u8, 0x6e, 0x66, 0x6f]
}

/// `directorysizes`: the size cache of trashed directories.
pub open spec fn directory_sizes_file() -> Seq<u8> {
    seq![0x64u8, 0x69, 0x72, 0x65, 0x63, 0x74, 0x6f, 0x72, 0x79, 0x73, 0x69, 0x7a, 0x65, 0x73]
}

/// The bytes of [`directory_sizes_file`].
pub fn directory_sizes_file_bytes() -> (r: Vec<u8>)
    ensures
        r@ == directory_sizes_file(),
{
    vec![0x64u8, 0x69, 0x72, 0x65, 0x63, 0x74, 0x6f, 0x72, 0x79, 0x73, 0x69, 0x7a, 0x65, 0x73]
}

/// `.trashinfo`: the suffix of an info file's name.
pub open spec fn info_suffix() -> Seq<u8> {
    seq![0x2eu8, 0x74, 0x72, 0x61, 0x73, 0x68, 0x69, 0x6e, 0x66, 0x6f]
}

/// The bytes of [`info_suffix`].
pub fn info_suffix_bytes() -> (r: Vec<u8>)
    ensures
        r@ == info_suffix(),
{
    vec![0x2eu8, 0x74, 0x72, 0x61, 0x73, 0x68, 0x69, 0x6e, 0x66, 0x6f]
}

/// `.Trash`: the trash directory at the top of a mount point.
pub open spec fn mount_trash_dir() -> Seq<u8> {
    seq![0x2eu8, 0x54, 0x72, 0x61, 0x73, 0x68]
}

/// The bytes of [`mount_trash_dir`].
pub fn mount_trash_dir_bytes() -> (r: Vec<u8>)
    ensures
        r@ == mount_trash_dir(),
{
    vec![0x2eu8, 0x54, 0x72, 0x61, 0x73, 0x68]
}

/// `Trash`: the trash directory under the data home.
pub open spec fn data_home_trash_dir() -> Seq<u8> {
    seq![0x54u8, 0x72, 0x61, 0x73, 0x68]
}

/// The bytes of [`data_home_trash_dir`].
pub fn data_home_trash_dir_bytes() -> (r: Vec<u8>)
    ensures
        r@ == data_home_trash_dir(),
{
    vec![0x54u8, 0x72, 0x61, 0x73, 0x68]
}

/// `.local/share/Trash`: the trash directory under the home directory.
pub open spec fn home_trash_dir() -> Seq<u8> {
    seq![0x2eu8, 0x6c, 0x6f, 0x63, 0x61, 0x6c, 0x2f, 0x73, 0x68, 0x61, 0x72, 0x65, 0x2f, 0x54, 0x72, 0x61, 0x73, 0x68]
}

/// The bytes of [`home_trash_dir`].
pub fn home_trash_dir_bytes() -> (r: Vec<u8>)
    ensures
        r@ == home_trash_dir(),
{
    vec![0x2eu8, 0x6c, 0x6f, 0x63, 0x61, 0x6c, 0x2f, 0x73, 0x68, 0x61, 0x72, 0x65, 0x2f, 0x54, 0x72, 0x61, 0x73, 0x68]
}

/// `[Trash Info]\n`: the first line of an info file.
pub open spec fn info_header() -> Seq<u8> {
    seq![0x5bu8, 0x54, 0x72, 0x61, 0x73, 0x68, 0x20, 0x49, 0x6e, 0x66, 0x6f, 0x5d, 0x0a]
}

/// The bytes of [`info_header`].
pub fn info_header_bytes() -> (r: Vec<u8>)
    ensures
        r@ == info_header(),
{
    vec![0x5bu8, 0x54, 0x72, 0x61, 0x73, 0x68, 0x20, 0x49, 0x6e, 0x66, 0x6f, 0x5d, 0x0a]
}

/// `Path=`: the key of the original location.
pub open spec fn path_key() -> Seq<u8> {
    seq![0x50u8, 0x61, 0x74, 0x68, 0x3d]
}

/// The bytes of [`path_key`].
pub fn path_key_bytes() -> (r: Vec<u8>)
    ensures
        r@ == path_key(),
{
    vec![0x50u8, 0x61, 0x74, 0x68, 0x3d]
}

/// `DeletionDate=`: the key of the deletion date.
pub open spec fn date_key() -> Seq<u8> {
    seq![0x44u8, 0x65, 0x6c, 0x65, 0x74, 0x69, 0x6f, 0x6e, 0x44, 0x61, 0x74, 0x65, 0x3d]
}

/// The bytes of [`date_key`].
pub fn date_key_bytes() -> (r: Vec<u8>)
    ensures
        r@ == date_key(),
{
    vec![0x44u8, 0x65, 0x6c, 0x65, 0x74, 0x69, 0x6f, 0x6e, 0x44, 0x61, 0x74, 0x65, 0x3d]
}

} // verus!
