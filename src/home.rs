//! The home trash directory.

use vstd::prelude::*;

use crate::names::{data_home_trash_dir, data_home_trash_dir_bytes, home_trash_dir, home_trash_dir_bytes};
use crate::path::{join, joined};

verus! {

/// The root of the home trash: `Trash` under the data home where one is
/// set (an empty one counts as unset), else `.local/share/Trash` under the
/// home directory.
pub open spec fn home_trash_root(data_home: Option<Seq<u8>>, home: Seq<u8>) -> Seq<u8> {
    match data_home {
        Some(d) if d.len() > 0 => joined(d, data_home_trash_dir()),
        _ => joined(home, home_trash_dir()),
    }
}

/// The root of the home trash, from the data home directory that the
/// environment sets, if any, and the user's home directory.
pub fn home_trash_path(data_home: Option<&[u8]>, home: &[u8]) -> (r: Vec<u8>)
    ensures
        r@ == home_trash_root(
            match data_home {
                Some(d) => Some(d@),
                None => None,
            },
            home@,
        ),
{
    match data_home {
        Some(d) if d.len() > 0 => {
            let name = data_home_trash_dir_bytes();
            join(d, name.as_slice())
        },
        _ => {
            let name = home_trash_dir_bytes();
            join(home, name.as_slice())
        },
    }
}

} // verus!
