//! Mounted filesystems, and the one that holds a given path.

use vstd::prelude::*;

use crate::path::{bytes_eq, is_under, starts_with};

verus! {

broadcast use vstd::seq_lib::group_to_multiset_ensures;

/// A mounted filesystem: its name in the mount table and the directory it
/// is mounted on.
#[derive(Debug, Eq)]
pub struct MountPoint {
    pub fs_name: String,
    pub fs_path_prefix: Vec<u8>,
}

impl MountPoint {
    /// Whether `path` lies on or under this mount point's directory.
    pub open spec fn holds(self, path: Seq<u8>) -> bool {
        is_under(path, self.fs_path_prefix@)
    }

    /// The length of the directory mounted on: the longer, the more
    /// specific the mount point.
    pub open spec fn depth(self) -> nat {
        self.fs_path_prefix@.len()
    }

    /// Whether `path` lies on or under this mount point's directory.
    pub fn contains(&self, path: &[u8]) -> (r: bool)
        ensures
            r == self.holds(path@),
    {
        starts_with(path, self.fs_path_prefix.as_slice())
    }
}

impl PartialEq for MountPoint {
    fn eq(&self, other: &MountPoint) -> (r: bool) {
        self.fs_name == other.fs_name && bytes_eq(
            self.fs_path_prefix.as_slice(),
            other.fs_path_prefix.as_slice(),
        )
    }
}

impl vstd::std_specs::cmp::PartialEqSpecImpl for MountPoint {
    open spec fn obeys_eq_spec() -> bool {
        true
    }

    open spec fn eq_spec(&self, other: &MountPoint) -> bool {
        self.fs_name@ == other.fs_name@ && self.fs_path_prefix@ == other.fs_path_prefix@
    }
}

/// Mount points are ordered by the length of their directory alone.
impl PartialOrd for MountPoint {
    fn partial_cmp(&self, other: &MountPoint) -> (r: Option<core::cmp::Ordering>) {
        let a = self.fs_path_prefix.len();
        let b = other.fs_path_prefix.len();
        if a < b {
            Some(core::cmp::Ordering::Less)
        } else if a > b {
            Some(core::cmp::Ordering::Greater)
        } else {
            Some(core::cmp::Ordering::Equal)
        }
    }
}

impl vstd::std_specs::cmp::PartialOrdSpecImpl for MountPoint {
    open spec fn obeys_partial_cmp_spec() -> bool {
        true
    }

    open spec fn partial_cmp_spec(&self, other: &MountPoint) -> Option<core::cmp::Ordering> {
        if self.depth() < other.depth() {
            Some(core::cmp::Ordering::Less)
        } else if self.depth() > other.depth() {
            Some(core::cmp::Ordering::Greater)
        } else {
            Some(core::cmp::Ordering::Equal)
        }
    }
}

/// Each mount point is at least as deep as those that follow it.
pub open spec fn deepest_first(mount_points: Seq<MountPoint>) -> bool {
    forall|i: int, j: int|
        0 <= i < j < mount_points.len() ==> #[trigger] mount_points[i].depth()
            >= #[trigger] mount_points[j].depth()
}

/// The mount points of `s` at depth `d`, in their order in `s`.
pub open spec fn at_depth(s: Seq<MountPoint>, d: nat) -> Seq<MountPoint>
    decreases s.len(),
{
    if s.len() == 0 {
        s
    } else if s.last().depth() == d {
        at_depth(s.drop_last(), d).push(s.last())
    } else {
        at_depth(s.drop_last(), d)
    }
}

proof fn lemma_at_depth_concat(a: Seq<MountPoint>, b: Seq<MountPoint>, d: nat)
    ensures
        at_depth(a + b, d) == at_depth(a, d) + at_depth(b, d),
    decreases b.len(),
{
    if b.len() == 0 {
        assert(a + b == a);
    } else {
        lemma_at_depth_concat(a, b.drop_last(), d);
        assert((a + b).drop_last() == a + b.drop_last());
    }
}

proof fn lemma_at_depth_none(a: Seq<MountPoint>, d: nat)
    requires
        forall|i: int| 0 <= i < a.len() ==> (#[trigger] a[i]).depth() != d,
    ensures
        at_depth(a, d) == Seq::<MountPoint>::empty(),
    decreases a.len(),
{
    if a.len() > 0 {
        lemma_at_depth_none(a.drop_last(), d);
    }
}

/// The mount points of the mount table, deepest first, so that the first
/// one that holds a path is the most specific. Of two of equal depth, the
/// one listed first in the table stays first.
pub fn order_mount_points(mount_points: Vec<MountPoint>) -> (r: Vec<MountPoint>)
    ensures
        r@.to_multiset() == mount_points@.to_multiset(),
        deepest_first(r@),
        forall|d: nat| #[trigger] at_depth(r@, d) == at_depth(mount_points@, d),
{
    let ghost input = mount_points@;
    let mut rest = mount_points;
    let mut r: Vec<MountPoint> = Vec::new();
    proof {
        assert forall|d: nat| #[trigger] at_depth(r@, d) == at_depth(
            input.subrange(rest@.len() as int, input.len() as int),
            d,
        ) by {
            assert(input.subrange(rest@.len() as int, input.len() as int).len() == 0);
        }
    }
    while rest.len() > 0
        invariant
            rest@.to_multiset().add(r@.to_multiset()) == input.to_multiset(),
            deepest_first(r@),
            rest@.len() <= input.len(),
            rest@ == input.subrange(0, rest@.len() as int),
            forall|d: nat| #[trigger] at_depth(r@, d) == at_depth(
                input.subrange(rest@.len() as int, input.len() as int),
                d,
            ),
        decreases rest@.len(),
    {
        let ghost before = rest@;
        let m = rest.pop().unwrap();
        assert(before == rest@.push(m));
        assert(rest@ == input.subrange(0, rest@.len() as int));
        let depth = m.fs_path_prefix.len();
        let mut p: usize = 0;
        while p < r.len() && r[p].fs_path_prefix.len() > depth
            invariant
                p <= r@.len(),
                forall|i: int| 0 <= i < p ==> #[trigger] r@[i].depth() > depth,
            decreases r@.len() - p,
        {
            p = p + 1;
        }
        let ghost old_r = r@;
        r.insert(p, m);
        proof {
            let k = rest@.len() as int;
            let done = input.subrange(k + 1, input.len() as int);
            assert(input[k] == m);
            assert(input.subrange(k, input.len() as int) == seq![m] + done);
            assert(r@ == old_r.subrange(0, p as int) + seq![m] + old_r.subrange(
                p as int,
                old_r.len() as int,
            ));
            assert(old_r == old_r.subrange(0, p as int) + old_r.subrange(p as int, old_r.len() as int));
            assert forall|d: nat| #[trigger] at_depth(r@, d) == at_depth(
                input.subrange(k, input.len() as int),
                d,
            ) by {
                let head = old_r.subrange(0, p as int);
                let tail = old_r.subrange(p as int, old_r.len() as int);
                lemma_at_depth_concat(head + seq![m], tail, d);
                lemma_at_depth_concat(head, seq![m], d);
                lemma_at_depth_concat(head, tail, d);
                lemma_at_depth_concat(seq![m], done, d);
                assert(seq![m].drop_last() == Seq::<MountPoint>::empty());
                assert(head + seq![m] + tail == r@);
                assert(at_depth(old_r, d) == at_depth(done, d));
                if d == m.depth() {
                    assert forall|i: int| 0 <= i < head.len() implies (#[trigger] head[i]).depth() != d by {
                        assert(old_r[i].depth() > depth);
                    }
                    lemma_at_depth_none(head, d);
                    assert(at_depth(head, d) + at_depth(seq![m], d) =~= at_depth(seq![m], d));
                    assert(at_depth(head, d) + at_depth(tail, d) =~= at_depth(tail, d));
                } else {
                    assert(at_depth(seq![m], d) == at_depth(Seq::<MountPoint>::empty(), d));
                    assert(at_depth(head, d) + at_depth(seq![m], d) =~= at_depth(head, d));
                    assert(at_depth(seq![m], d) + at_depth(done, d) =~= at_depth(done, d));
                }
            }
            assert(r@.remove(p as int) == old_r);
            assert(r@[p as int] == m);
            assert(r@.to_multiset() == old_r.to_multiset().insert(m)) by {
                assert(old_r.to_multiset() == r@.to_multiset().remove(m));
                assert(r@.to_multiset().count(m) > 0);
            }
            assert forall|i: int, j: int| 0 <= i < j < r@.len() implies #[trigger] r@[i].depth()
                >= #[trigger] r@[j].depth() by {
                if p < r@.len() - 1 && j > p as int {
                    assert(old_r[p as int].depth() <= depth);
                }
                if i < p && j > p {
                    assert(old_r[j - 1].depth() <= old_r[p as int].depth());
                }
                if i > p as int {
                    assert(old_r[i - 1].depth() >= old_r[j - 1].depth());
                }
            }
        }
    }
    assert(input.subrange(0, input.len() as int) == input);
    r
}

/// The position of the first of `mount_points` that holds `path`, if one
/// does.
pub open spec fn first_holding(mount_points: Seq<MountPoint>, path: Seq<u8>, i: int) -> bool {
    &&& 0 <= i < mount_points.len()
    &&& mount_points[i].holds(path)
    &&& forall|j: int| 0 <= j < i ==> !(#[trigger] mount_points[j]).holds(path)
}

/// The first of `mount_points` that holds `path`: with the mount points
/// deepest first, the mount point of the file at `path`.
pub fn mount_point_of_file<'a>(path: &[u8], mount_points: &'a Vec<MountPoint>) -> (r: Option<
    &'a MountPoint,
>)
    ensures
        match r {
            Some(m) => exists|i: int| first_holding(mount_points@, path@, i) && mount_points@[i] == *m,
            None => forall|i: int| 0 <= i < mount_points@.len() ==> !(#[trigger] mount_points@[i]).holds(path@),
        },
{
    let mut i: usize = 0;
    while i < mount_points.len()
        invariant
            i <= mount_points@.len(),
            forall|j: int| 0 <= j < i ==> !(#[trigger] mount_points@[j]).holds(path@),
        decreases mount_points@.len() - i,
    {
        if mount_points[i].contains(path) {
            assert(first_holding(mount_points@, path@, i as int));
            return Some(&mount_points[i]);
        }
        i = i + 1;
    }
    None
}

/// Over mount points ordered deepest first, the mount point found for a
/// path is the deepest of those that hold it: `/mnt/data/foo` goes to
/// `/mnt/data`, not to `/`.
pub proof fn lemma_mount_point_is_deepest(mount_points: Seq<MountPoint>, path: Seq<u8>, i: int)
    requires
        deepest_first(mount_points),
        first_holding(mount_points, path, i),
    ensures
        forall|j: int|
            0 <= j < mount_points.len() && (#[trigger] mount_points[j]).holds(path)
                ==> mount_points[j].depth() <= mount_points[i].depth(),
{
    assert forall|j: int|
        0 <= j < mount_points.len() && (#[trigger] mount_points[j]).holds(path) implies mount_points[j].depth()
        <= mount_points[i].depth() by {
        if j < i {
            assert(!mount_points[j].holds(path));
        } else if j > i {
            assert(mount_points[i].depth() >= mount_points[j].depth());
        }
    }
}

} // verus!
