//! Checksum manifests and the comparison of digests.
use vstd::prelude::*;
use crate::error::Error;
use crate::text::{push_char, split_on, split_text};
use crate::version::{version_text, Version};

verus! {

/// The ASCII lower-case form of a character; others stay as they are.
pub open spec fn ascii_lower(c: char) -> char {
    if 'A' <= c && c <= 'Z' {
        ((c as u8) + 32) as char
    } else {
        c
    }
}

pub open spec fn lower_text(s: Seq<char>) -> Seq<char> {
    s.map_values(|c: char| ascii_lower(c))
}

/// Two digests are the same regardless of the case of their letters.
pub open spec fn same_digest(a: Seq<char>, b: Seq<char>) -> bool {
    lower_text(a) == lower_text(b)
}

fn lower_char(c: char) -> (r: char)
    ensures
        r == ascii_lower(c),
{
    if 'A' <= c && c <= 'Z' {
        ((c as u8) + 32) as char
    } else {
        c
    }
}

/// The text with its ASCII capitals made lower case.
pub fn to_lower_text(s: &str) -> (r: String)
    ensures
        r@ == lower_text(s@),
{
    let n = s.unicode_len();
    let mut r = String::new();
    let mut i: usize = 0;
    while i < n
        invariant
            n == s@.len(),
            i <= n,
            r@ == lower_text(s@.take(i as int)),
        decreases n - i,
    {
        push_char(&mut r, lower_char(s.get_char(i)));
        i = i + 1;
        assert(r@ =~= lower_text(s@.take(i as int)));
    }
    assert(s@.take(n as int) =~= s@);
    r
}

/// Accepts the computed digest `actual` when it equals `expected` up to
/// the case of letters; otherwise the error carries both.
pub fn verify_checksum(expected: &str, actual: &str) -> (r: Result<(), Error>)
    ensures
        r is Ok <==> same_digest(expected@, actual@),
        r matches Err(e) ==> (e matches Error::ChecksumMismatch { expected: x, actual: y }
            && x@ == expected@ && y@ == actual@),
{
    let a = to_lower_text(expected);
    let b = to_lower_text(actual);
    if a == b {
        Ok(())
    } else {
        Err(Error::ChecksumMismatch { expected: expected.to_owned(), actual: actual.to_owned() })
    }
}

/// A manifest line names `f`: a digest, then spaces, then `f` (or `*f`, the
/// binary-mode mark of `sha256sum`).
pub open spec fn entry_names(line: Seq<char>, f: Seq<char>) -> bool {
    let fs = split_on(line, ' ');
    &&& fs.len() >= 2
    &&& fs[0].len() > 0
    &&& (fs.last() == f || fs.last() == seq!['*'] + f)
}

pub open spec fn entry_digest(line: Seq<char>) -> Seq<char> {
    split_on(line, ' ')[0]
}

/// The digest of the first manifest line that names `f`, if any.
pub open spec fn lookup_digest(manifest: Seq<char>, f: Seq<char>) -> Option<Seq<char>> {
    let lines = split_on(manifest, '\n');
    if exists|k: int| 0 <= k < lines.len() && entry_names(#[trigger] lines[k], f) {
        let k = choose|k: int|
            0 <= k < lines.len() && entry_names(#[trigger] lines[k], f) && forall|j: int|
                0 <= j < k ==> !entry_names(#[trigger] lines[j], f);
        Some(entry_digest(lines[k]))
    } else {
        None
    }
}

fn line_names(line: &str, f: &str, starred: &String) -> (r: Option<String>)
    requires
        starred@ == seq!['*'] + f@,
    ensures
        match r {
            Some(d) => entry_names(line@, f@) && d@ == entry_digest(line@),
            None => !entry_names(line@, f@),
        },
{
    let fields = split_text(line, ' ');
    let n = fields.len();
    if n < 2 {
        return None;
    }
    if fields[0].unicode_len() == 0 {
        return None;
    }
    let target = f.to_owned();
    if fields[n - 1] == target || fields[n - 1] == *starred {
        Some(fields[0].clone())
    } else {
        None
    }
}

/// Looks up the digest that a checksum manifest gives for the asset `filename`.
pub fn find_checksum(manifest: &str, version: &Version, filename: &str) -> (r: Result<String, Error>)
    ensures
        match r {
            Ok(d) => lookup_digest(manifest@, filename@) == Some(d@),
            Err(e) => lookup_digest(manifest@, filename@) is None && (e matches Error::ChecksumNotFound { version: v, asset: a }
                && v@ == version_text(version.parts()) && a@ == filename@),
        },
{
    let ghost f = filename@;
    let lines = split_text(manifest, '\n');
    let ghost ls = split_on(manifest@, '\n');
    let mut starred = "*".to_owned();
    starred.append(filename);
    proof {
        reveal_strlit("*");
        assert(starred@ =~= seq!['*'] + f);
    }
    let mut i: usize = 0;
    while i < lines.len()
        invariant
            i <= lines@.len(),
            lines@.len() == ls.len(),
            ls == split_on(manifest@, '\n'),
            forall|k: int| 0 <= k < lines@.len() ==> #[trigger] lines@[k]@ == ls[k],
            starred@ == seq!['*'] + f,
            f == filename@,
            forall|j: int| 0 <= j < i ==> !entry_names(#[trigger] ls[j], f),
        decreases lines@.len() - i,
    {
        assert(lines@[i as int]@ == ls[i as int]);
        match line_names(lines[i].as_str(), filename, &starred) {
            Some(d) => {
                let ghost k = choose|k: int|
                    0 <= k < ls.len() && entry_names(#[trigger] ls[k], f) && forall|j: int|
                        0 <= j < k ==> !entry_names(#[trigger] ls[j], f);
                assert(entry_names(ls[i as int], f));
                assert(k == i) by {
                    if k < i {
                    } else if k > i {
                        assert(!entry_names(ls[i as int], f));
                    }
                }
                return Ok(d);
            },
            None => {},
        }
        i = i + 1;
    }
    Err(Error::ChecksumNotFound { version: version.to_string(), asset: filename.to_owned() })
}

} // verus!
