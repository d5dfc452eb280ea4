//! A trash directory, which one a path goes to, unique naming within it,
//! and the size of trashed directories.

use vstd::prelude::*;

use crate::decimal::{decimal, decimal_bytes, lemma_decimal_injective};
use crate::names::{directory_sizes_file, directory_sizes_file_bytes, files_dir, files_dir_bytes, info_dir, info_dir_bytes};
use crate::error::Error;
use crate::mount_points::{first_holding, mount_point_of_file, MountPoint};
use crate::names::{mount_trash_dir, mount_trash_dir_bytes};
use crate::stat::Stat;
use crate::path::{bytes_eq, extend_bytes, is_under, joined, join, starts_with, to_bytes};

verus! {

/// `-`, between a name and its numeric suffix.
pub const SUFFIX_MARK: u8 = 0x2d;

/// One trash directory: the paths of its three parts.
#[derive(Debug, Clone)]
pub struct Trash {
    /// Where trashed entries are kept.
    pub files: Vec<u8>,
    /// The size cache of trashed directories.
    pub directory_sizes: Vec<u8>,
    /// Where the info files are kept.
    pub info: Vec<u8>,
}

impl Trash {
    /// The parts of a trash directory rooted at `root`.
    pub open spec fn rooted_at(self, root: Seq<u8>) -> bool {
        &&& self.files@ == joined(root, files_dir())
        &&& self.directory_sizes@ == joined(root, directory_sizes_file())
        &&& self.info@ == joined(root, info_dir())
    }

    /// The trash directory rooted at `trash_root`.
    pub fn new(trash_root: &[u8]) -> (r: Trash)
        ensures
            r.rooted_at(trash_root@),
    {
        let files = files_dir_bytes();
        let directory_sizes = directory_sizes_file_bytes();
        let info = info_dir_bytes();
        Trash {
            files: join(trash_root, files.as_slice()),
            directory_sizes: join(trash_root, directory_sizes.as_slice()),
            info: join(trash_root, info.as_slice()),
        }
    }
}

/// The trash directory that a canonical `path` goes to: the home trash,
/// rooted at `home_trash_root`, for a path under `home`; else `.Trash` at
/// the top of the first of `mount_points` that holds the path. Fails where
/// none holds it.
pub fn select_trash(
    path: &[u8],
    home: &[u8],
    home_trash_root: &[u8],
    mount_points: &Vec<MountPoint>,
) -> (r: Result<Trash, Error>)
    ensures
        is_under(path@, home@) ==> (r matches Ok(t) && t.rooted_at(home_trash_root@)),
        !is_under(path@, home@) ==> match r {
            Ok(t) => exists|i: int|
                first_holding(mount_points@, path@, i) && t.rooted_at(
                    joined(mount_points@[i].fs_path_prefix@, mount_trash_dir()),
                ),
            Err(e) => (e matches Error::MountPointNotFound(p) && p@ == path@) && forall|i: int|
                0 <= i < mount_points@.len() ==> !(#[trigger] mount_points@[i]).holds(path@),
        },
{
    if starts_with(path, home) {
        return Ok(Trash::new(home_trash_root));
    }
    match mount_point_of_file(path, mount_points) {
        Some(m) => {
            let name = mount_trash_dir_bytes();
            let root = join(m.fs_path_prefix.as_slice(), name.as_slice());
            Ok(Trash::new(root.as_slice()))
        },
        None => Err(Error::MountPointNotFound(to_bytes(path))),
    }
}

/// The contents of each vector.
pub open spec fn views(names: Seq<Vec<u8>>) -> Seq<Seq<u8>> {
    names.map_values(|n: Vec<u8>| n@)
}

/// `name` with the numeric suffix `k`: `name-k`.
pub open spec fn suffixed(name: Seq<u8>, k: nat) -> Seq<u8> {
    name.push(SUFFIX_MARK) + decimal(k)
}

/// `r` is the name that `name` gets in a directory that holds `taken`:
/// `name` itself where it is free, else `name-k` for the least `k >= 1`
/// that is free.
pub open spec fn unique_name_of(name: Seq<u8>, taken: Seq<Seq<u8>>, r: Seq<u8>) -> bool {
    if !taken.contains(name) {
        r == name
    } else {
        exists|k: nat|
            {
                &&& k >= 1
                &&& r == suffixed(name, k)
                &&& !taken.contains(r)
                &&& forall|j: nat| 1 <= j < k ==> taken.contains(#[trigger] suffixed(name, j))
            }
    }
}

/// Whether `name` is one of `names`.
pub fn contains_name(names: &Vec<Vec<u8>>, name: &[u8]) -> (r: bool)
    ensures
        r == views(names@).contains(name@),
{
    let mut i: usize = 0;
    while i < names.len()
        invariant
            i <= names@.len(),
            forall|j: int| 0 <= j < i ==> names@[j]@ != name@,
        decreases names@.len() - i,
    {
        if bytes_eq(names[i].as_slice(), name) {
            assert(views(names@)[i as int] == name@);
            return true;
        }
        i = i + 1;
    }
    proof {
        if views(names@).contains(name@) {
            let j = choose|j: int| 0 <= j < views(names@).len() && views(names@)[j] == name@;
            assert(names@[j]@ == name@);
        }
    }
    false
}

/// Two suffixes give two names.
proof fn lemma_suffixed_injective(name: Seq<u8>, a: nat, b: nat)
    requires
        suffixed(name, a) == suffixed(name, b),
    ensures
        a == b,
{
    let start = name.len() + 1;
    assert(decimal(a) == suffixed(name, a).subrange(start as int, suffixed(name, a).len() as int));
    assert(decimal(b) == suffixed(name, b).subrange(start as int, suffixed(name, b).len() as int));
    lemma_decimal_injective(a, b);
}

/// A name for `file_name` that none of `taken` holds, the names in the
/// destination directory: `file_name` itself where it is free, else
/// `file_name-1`, `file_name-2`, ..., the first that is free.
pub fn make_unique_file_name(file_name: &[u8], taken: &Vec<Vec<u8>>) -> (r: Vec<u8>)
    ensures
        unique_name_of(file_name@, views(taken@), r@),
        !views(taken@).contains(r@),
{
    let ghost names = views(taken@);
    if !contains_name(taken, file_name) {
        return to_bytes(file_name);
    }
    let n = taken.len();
    let mut k: u128 = 1;
    let ghost mut seen: Set<Seq<u8>> = Set::empty();
    loop
        invariant
            names == views(taken@),
            n == taken@.len(),
            names.contains(file_name@),
            1 <= k <= taken@.len() + 1,
            seen.finite(),
            seen.len() == k - 1,
            seen.subset_of(names.to_set()),
            forall|s: Seq<u8>| #[trigger] seen.contains(s) ==> exists|j: nat| 1 <= j < k && s == suffixed(file_name@, j),
            forall|j: nat| 1 <= j < k ==> names.contains(#[trigger] suffixed(file_name@, j)),
        decreases taken@.len() + 1 - k,
    {
        let mut candidate = to_bytes(file_name);
        candidate.push(SUFFIX_MARK);
        let digits = decimal_bytes(k);
        extend_bytes(&mut candidate, digits.as_slice());
        assert(candidate@ == suffixed(file_name@, k as nat));
        if !contains_name(taken, candidate.as_slice()) {
            assert(unique_name_of(file_name@, names, candidate@));
            return candidate;
        }
        proof {
            let c = suffixed(file_name@, k as nat);
            if seen.contains(c) {
                let j = choose|j: nat| 1 <= j < k && c == suffixed(file_name@, j);
                lemma_suffixed_injective(file_name@, j, k as nat);
            }
            let seen2 = seen.insert(c);
            assert(seen2.subset_of(names.to_set()));
            vstd::set_lib::lemma_len_subset(seen2, names.to_set());
            names.lemma_cardinality_of_set();
            assert forall|s: Seq<u8>| #[trigger] seen2.contains(s) implies exists|j: nat| 1 <= j < k + 1 && s == suffixed(file_name@, j) by {
                if s != c {
                    let j = choose|j: nat| 1 <= j < k && s == suffixed(file_name@, j);
                }
            }
            seen = seen2;
            assert(k <= taken@.len());
        }
        k = k + 1;
    }
}

/// Where the directory holds `name` and the chain `name-1` ... `name-n`
/// but not `name-(n+1)`, the unique name is `name-(n+1)`: each name
/// trashed under `name` extends the chain by one.
pub proof fn lemma_unique_name_extends_chain(name: Seq<u8>, taken: Seq<Seq<u8>>, n: nat, r: Seq<u8>)
    requires
        taken.contains(name),
        forall|j: nat| 1 <= j <= n ==> taken.contains(#[trigger] suffixed(name, j)),
        !taken.contains(suffixed(name, n + 1)),
        unique_name_of(name, taken, r),
    ensures
        r == suffixed(name, n + 1),
{
    let k = choose|k: nat|
        {
            &&& k >= 1
            &&& r == suffixed(name, k)
            &&& !taken.contains(r)
            &&& forall|j: nat| 1 <= j < k ==> taken.contains(#[trigger] suffixed(name, j))
        };
    if k < n + 1 {
        assert(taken.contains(suffixed(name, k)));
    } else if k > n + 1 {
        assert(taken.contains(suffixed(name, n + 1)));
    }
}

/// The blocks that `s` counts for: a negative count, which the OS does not
/// report, counts for none.
pub open spec fn blocks_of(s: Stat) -> nat {
    if s.blocks > 0 {
        s.blocks as nat
    } else {
        0
    }
}

/// The blocks of all of `entries`.
pub open spec fn total_blocks(entries: Seq<Stat>) -> nat
    decreases entries.len(),
{
    if entries.len() == 0 {
        0
    } else {
        total_blocks(entries.drop_last()) + blocks_of(entries.last())
    }
}

/// `n`, or the largest `u64` where `n` is larger.
pub open spec fn saturated(n: nat) -> u64 {
    if n <= u64::MAX {
        n as u64
    } else {
        u64::MAX
    }
}

/// The size in blocks of the directory at `path`, from the metadata of
/// each entry of its tree (the directory itself included): the sum of
/// their block counts, saturated at `u64::MAX`. Fails where `is_dir` says
/// that `path` is no directory.
pub fn directory_size(path: &[u8], is_dir: bool, entries: &Vec<Stat>) -> (r: Result<u64, Error>)
    ensures
        is_dir ==> r == Ok::<u64, Error>(saturated(total_blocks(entries@))),
        !is_dir ==> (r matches Err(Error::NotADirectory(p)) && p@ == path@),
{
    if !is_dir {
        return Err(Error::NotADirectory(to_bytes(path)));
    }
    Ok(total_block_count(entries))
}

/// The blocks of all of `entries`, saturated at `u64::MAX`.
pub fn total_block_count(entries: &Vec<Stat>) -> (r: u64)
    ensures
        r == saturated(total_blocks(entries@)),
{
    let mut sum: u64 = 0;
    let mut i: usize = 0;
    while i < entries.len()
        invariant
            i <= entries@.len(),
            sum == saturated(total_blocks(entries@.subrange(0, i as int))),
        decreases entries@.len() - i,
    {
        let b = entries[i].blocks;
        assert(entries@.subrange(0, i + 1 as int).drop_last() == entries@.subrange(0, i as int));
        if b > 0 {
            sum = sum.saturating_add(b as u64);
        }
        i = i + 1;
    }
    assert(entries@.subrange(0, entries@.len() as int) == entries@);
    sum
}

} // verus!
