//! The guard that keeps every archive entry inside the extraction directory.
use vstd::prelude::*;
use crate::error::Error;
use crate::text::{split_on, split_text};

verus! {

/// How a path component moves the depth below the destination.
pub open spec fn depth_step(c: Seq<char>) -> int {
    if c == ".."@ {
        -1
    } else if c.len() == 0 || c == "."@ {
        0
    } else {
        1
    }
}

/// The depth reached after the given components.
pub open spec fn depth_after(parts: Seq<Seq<char>>) -> int
    decreases parts.len(),
{
    if parts.len() == 0 {
        0
    } else {
        depth_after(parts.drop_last()) + depth_step(parts.last())
    }
}

/// No prefix of the components climbs above the destination.
pub open spec fn stays_inside(parts: Seq<Seq<char>>) -> bool {
    forall|k: int| 0 <= k <= parts.len() ==> #[trigger] depth_after(parts.take(k)) >= 0
}

/// An entry name that resolves inside the destination: relative, with no
/// drive or stream mark (`:`) and no backslash, and never climbing out.
pub open spec fn entry_is_contained(name: Seq<char>) -> bool {
    &&& !(name.len() > 0 && name[0] == '/')
    &&& !name.contains(':')
    &&& !name.contains('\\')
    &&& stays_inside(split_on(name, '/'))
}

/// Whether the archive entry `name` stays inside the destination directory.
pub fn entry_within(name: &str) -> (r: bool)
    ensures
        r == entry_is_contained(name@),
{
    let n = name.unicode_len();
    if n > 0 && name.get_char(0) == '/' {
        return false;
    }
    let mut i: usize = 0;
    while i < n
        invariant
            n == name@.len(),
            i <= n,
            forall|k: int| 0 <= k < i ==> name@[k] != ':' && name@[k] != '\\',
        decreases n - i,
    {
        let c = name.get_char(i);
        if c == ':' || c == '\\' {
            assert(name@[i as int] == c);
            return false;
        }
        i = i + 1;
    }
    let parts = split_text(name, '/');
    let ghost ps = split_on(name@, '/');
    let up = "..".to_owned();
    let here = ".".to_owned();
    let mut depth: usize = 0;
    let mut j: usize = 0;
    assert(ps.take(0) =~= Seq::<Seq<char>>::empty());
    while j < parts.len()
        invariant
            ps == split_on(name@, '/'),
            parts@.len() == ps.len(),
            forall|k: int| 0 <= k < parts@.len() ==> #[trigger] parts@[k]@ == ps[k],
            j <= parts@.len(),
            depth <= j,
            up@ == ".."@,
            here@ == "."@,
            depth as int == depth_after(ps.take(j as int)),
            forall|k: int| 0 <= k <= j ==> #[trigger] depth_after(ps.take(k)) >= 0,
        decreases parts@.len() - j,
    {
        assert(ps.take(j + 1).drop_last() =~= ps.take(j as int));
        assert(ps.take(j + 1).last() == parts@[j as int]@);
        if parts[j] == up {
            if depth == 0 {
                assert(depth_after(ps.take(j + 1)) == depth_after(ps.take(j as int)) - 1);
                assert(!stays_inside(ps)) by {
                    assert(depth_after(ps.take(j + 1)) < 0);
                }
                return false;
            }
            depth = depth - 1;
        } else if parts[j].unicode_len() == 0 || parts[j] == here {
        } else {
            depth = depth + 1;
        }
        j = j + 1;
    }
    assert(ps.take(ps.len() as int) =~= ps);
    true
}

/// Checks every entry name of an archive before anything is written; the
/// first that would leave the destination is reported.
pub fn check_entries(names: &Vec<String>) -> (r: Result<(), Error>)
    ensures
        r is Ok <==> forall|k: int| 0 <= k < names@.len() ==> entry_is_contained(#[trigger] names@[k]@),
        r matches Err(e) ==> (e matches Error::Extract { entry } && exists|k: int|
            0 <= k < names@.len() && names@[k]@ == entry@ && !entry_is_contained(#[trigger] names@[k]@)),
{
    let mut i: usize = 0;
    while i < names.len()
        invariant
            i <= names@.len(),
            forall|k: int| 0 <= k < i ==> entry_is_contained(#[trigger] names@[k]@),
        decreases names@.len() - i,
    {
        if !entry_within(names[i].as_str()) {
            return Err(Error::Extract { entry: names[i].clone() });
        }
        i = i + 1;
    }
    Ok(())
}

} // verus!
