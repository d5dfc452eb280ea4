//! Unix paths as byte strings.

use vstd::prelude::*;

verus! {

/// The path separator.
pub const SEPARATOR: u8 = 0x2f;

/// `name` appended to `base` as one more component: an absolute `name`
/// replaces `base`, and a separator is put between the two unless `base`
/// is empty or already ends in one.
pub open spec fn joined(base: Seq<u8>, name: Seq<u8>) -> Seq<u8> {
    if name.len() > 0 && name[0] == SEPARATOR {
        name
    } else if base.len() == 0 || base.last() == SEPARATOR {
        base + name
    } else {
        base.push(SEPARATOR) + name
    }
}

/// Appends the bytes of `src` to `dst`.
pub fn extend_bytes(dst: &mut Vec<u8>, src: &[u8])
    ensures
        final(dst)@ == old(dst)@ + src@,
{
    let mut i: usize = 0;
    while i < src.len()
        invariant
            i <= src@.len(),
            dst@ == old(dst)@ + src@.subrange(0, i as int),
        decreases src@.len() - i,
    {
        dst.push(src[i]);
        i = i + 1;
        assert(src@.subrange(0, i as int) == src@.subrange(0, i - 1 as int).push(src@[i - 1]));
    }
    assert(src@.subrange(0, src@.len() as int) == src@);
}

/// The bytes of `src` in a new vector.
pub fn to_bytes(src: &[u8]) -> (r: Vec<u8>)
    ensures
        r@ == src@,
{
    let mut r = Vec::new();
    extend_bytes(&mut r, src);
    r
}

/// `base` joined with `name`, as `Path::join` does it.
pub fn join(base: &[u8], name: &[u8]) -> (r: Vec<u8>)
    ensures
        r@ == joined(base@, name@),
{
    if name.len() > 0 && name[0] == SEPARATOR {
        return to_bytes(name);
    }
    let mut r = to_bytes(base);
    if base.len() > 0 && base[base.len() - 1] != SEPARATOR {
        r.push(SEPARATOR);
    }
    extend_bytes(&mut r, name);
    r
}

/// The bytes of `src` from `start` up to `end`, in a new vector.
pub fn copy_range(src: &[u8], start: usize, end: usize) -> (r: Vec<u8>)
    requires
        start <= end <= src@.len(),
    ensures
        r@ == src@.subrange(start as int, end as int),
{
    let mut r: Vec<u8> = Vec::new();
    let mut i: usize = start;
    while i < end
        invariant
            start <= i <= end <= src@.len(),
            r@ == src@.subrange(start as int, i as int),
        decreases end - i,
    {
        r.push(src[i]);
        i = i + 1;
        assert(src@.subrange(start as int, i as int) == src@.subrange(start as int, i - 1 as int).push(
            src@[i - 1],
        ));
    }
    r
}

/// Whether two byte strings are equal.
pub fn bytes_eq(a: &[u8], b: &[u8]) -> (r: bool)
    ensures
        r == (a@ == b@),
{
    if a.len() != b.len() {
        return false;
    }
    let mut i: usize = 0;
    while i < a.len()
        invariant
            i <= a@.len() == b@.len(),
            forall|j: int| 0 <= j < i ==> a@[j] == b@[j],
        decreases a@.len() - i,
    {
        if a[i] != b[i] {
            return false;
        }
        i = i + 1;
    }
    assert(a@ =~= b@);
    true
}

/// `prefix` is `path` itself or a run of its leading components, as
/// `Path::starts_with` sees it on paths without `.` or `..` components.
pub open spec fn is_under(path: Seq<u8>, prefix: Seq<u8>) -> bool {
    &&& prefix.len() <= path.len()
    &&& path.subrange(0, prefix.len() as int) == prefix
    &&& {
        ||| path.len() == prefix.len()
        ||| (prefix.len() > 0 && prefix.last() == SEPARATOR)
        ||| path[prefix.len() as int] == SEPARATOR
    }
}

/// Whether `path` lies under `prefix`, component by component.
pub fn starts_with(path: &[u8], prefix: &[u8]) -> (r: bool)
    ensures
        r == is_under(path@, prefix@),
{
    if prefix.len() > path.len() {
        return false;
    }
    let mut i: usize = 0;
    while i < prefix.len()
        invariant
            i <= prefix@.len() <= path@.len(),
            forall|j: int| 0 <= j < i ==> path@[j] == prefix@[j],
        decreases prefix@.len() - i,
    {
        if path[i] != prefix[i] {
            assert(path@.subrange(0, prefix@.len() as int)[i as int] != prefix@[i as int]);
            return false;
        }
        i = i + 1;
    }
    assert(path@.subrange(0, prefix@.len() as int) =~= prefix@);
    path.len() == prefix.len() || (prefix.len() > 0 && prefix[prefix.len() - 1] == SEPARATOR)
        || path[prefix.len()] == SEPARATOR
}

/// Where `p[..end]` ends once its trailing separators are dropped.
pub open spec fn trimmed_end(p: Seq<u8>, end: int) -> int
    decreases end,
{
    if end > 0 && p[end - 1] == SEPARATOR {
        trimmed_end(p, end - 1)
    } else {
        end
    }
}

/// Where the component that ends at `end` begins: just after the last
/// separator before `end`, or at the start of `p`.
pub open spec fn component_start(p: Seq<u8>, end: int) -> int
    decreases end,
{
    if end <= 0 {
        0
    } else if p[end - 1] == SEPARATOR {
        end
    } else {
        component_start(p, end - 1)
    }
}

/// The last component of `p`, trailing separators ignored; empty for `/`.
pub open spec fn last_component(p: Seq<u8>) -> Seq<u8> {
    let end = trimmed_end(p, p.len() as int);
    p.subrange(component_start(p, end), end)
}

/// `.` or `..`.
pub open spec fn is_dot_component(c: Seq<u8>) -> bool {
    c == seq![0x2eu8] || c == seq![0x2eu8, 0x2eu8]
}

/// The final component of `p` when it names an entry: none for `/`, for
/// an empty path, or where the path ends in `.` or `..`.
pub open spec fn file_name_of(p: Seq<u8>) -> Option<Seq<u8>> {
    let c = last_component(p);
    if c.len() == 0 || is_dot_component(c) {
        None
    } else {
        Some(c)
    }
}

/// The final component of `path`, as `Path::file_name` gives it for a
/// canonical path.
pub fn file_name(path: &[u8]) -> (r: Option<Vec<u8>>)
    ensures
        match r {
            Some(n) => file_name_of(path@) == Some(n@),
            None => file_name_of(path@) is None,
        },
{
    let mut end: usize = path.len();
    while end > 0 && path[end - 1] == SEPARATOR
        invariant
            end <= path@.len(),
            trimmed_end(path@, end as int) == trimmed_end(path@, path@.len() as int),
        decreases end,
    {
        end = end - 1;
    }
    let mut start: usize = end;
    while start > 0 && path[start - 1] != SEPARATOR
        invariant
            start <= end <= path@.len(),
            component_start(path@, start as int) == component_start(path@, end as int),
        decreases start,
    {
        start = start - 1;
    }
    let n = end - start;
    if n == 0 || (n == 1 && path[start] == 0x2e) || (n == 2 && path[start] == 0x2e && path[start
        + 1] == 0x2e) {
        proof {
            let c = path@.subrange(start as int, end as int);
            if n == 1 {
                assert(c =~= seq![0x2eu8]);
            }
            if n == 2 {
                assert(c =~= seq![0x2eu8, 0x2eu8]);
            }
        }
        None
    } else {
        let r = copy_range(path, start, end);
        proof {
            let c = path@.subrange(start as int, end as int);
            if c == seq![0x2eu8] {
                assert(c[0] == 0x2eu8);
            }
            if c == seq![0x2eu8, 0x2eu8] {
                assert(c[0] == 0x2eu8 && c[1] == 0x2eu8);
            }
        }
        Some(r)
    }
}

} // verus!
