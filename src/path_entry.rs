//! PATH registration as edits of text: a PATH-like value whose entries are
//! separated by `;`, and a shell startup file whose entries are its lines.
use vstd::prelude::*;
use crate::error::Error;
use crate::text::{
    count_of, join_text, join_with, lemma_count_concat, lemma_count_contains,
    lemma_join_split, lemma_split_concat, lemma_split_single, lemma_without_absent, push_char,
    split_on, split_text, without,
};

verus! {

/// Separator of the entries of the persistent PATH value.
pub const PATH_LIST_SEPARATOR: char = ';';

/// An entry that can stand as one field of a list: not empty, no separator in it.
pub open spec fn valid_entry(e: Seq<char>, sep: char) -> bool {
    e.len() > 0 && !e.contains(sep)
}

/// The list with `e` appended as a field, unless a field already equals it.
pub open spec fn added(list: Seq<char>, e: Seq<char>, sep: char) -> Seq<char> {
    if split_on(list, sep).contains(e) {
        list
    } else if list.len() == 0 {
        e
    } else {
        list.push(sep) + e
    }
}

/// The list without any field equal to `e`.
pub open spec fn removed(list: Seq<char>, e: Seq<char>, sep: char) -> Seq<char> {
    join_with(without(split_on(list, sep), e), sep)
}

/// The line that a shell startup file holds to put `dir` first on PATH.
pub open spec fn export_line_of(dir: Seq<char>) -> Seq<char> {
    "export PATH=\""@ + dir + ":$PATH\""@
}

fn contains_field(parts: &Vec<String>, e: &str) -> (r: bool)
    ensures
        r == parts@.map_values(|p: String| p@).contains(e@),
{
    let ghost ps = parts@.map_values(|p: String| p@);
    let target = e.to_owned();
    let mut i: usize = 0;
    while i < parts.len()
        invariant
            i <= parts@.len(),
            ps == parts@.map_values(|p: String| p@),
            target@ == e@,
            forall|k: int| 0 <= k < i ==> ps[k] != e@,
        decreases parts@.len() - i,
    {
        if parts[i] == target {
            assert(ps[i as int] == e@);
            return true;
        }
        i = i + 1;
    }
    assert(!ps.contains(e@));
    false
}

/// Adds `entry` as a field of `list` (fields separated by `sep`) unless a
/// field already equals it; an entry that is empty or holds `sep` is refused.
pub fn add_entry(list: &str, entry: &str, sep: char) -> (r: Result<String, Error>)
    ensures
        valid_entry(entry@, sep) <==> r is Ok,
        r matches Ok(s) ==> s@ == added(list@, entry@, sep),
        r matches Err(err) ==> err matches Error::InvalidPath { .. },
{
    let n = entry.unicode_len();
    let mut i: usize = 0;
    while i < n
        invariant
            n == entry@.len(),
            i <= n,
            forall|k: int| 0 <= k < i ==> entry@[k] != sep,
        decreases n - i,
    {
        if entry.get_char(i) == sep {
            return Err(Error::InvalidPath { path: entry.to_owned(), reason: "holds the separator".to_owned() });
        }
        i = i + 1;
    }
    if n == 0 {
        return Err(Error::InvalidPath { path: entry.to_owned(), reason: "is empty".to_owned() });
    }
    let parts = split_text(list, sep);
    assert(parts@.map_values(|p: String| p@) =~= split_on(list@, sep));
    if contains_field(&parts, entry) {
        return Ok(list.to_owned());
    }
    if list.unicode_len() == 0 {
        return Ok(entry.to_owned());
    }
    let mut r = list.to_owned();
    push_char(&mut r, sep);
    r.append(entry);
    Ok(r)
}

/// Removes every field of `list` equal to `entry`; the others keep their order.
pub fn remove_entry(list: &str, entry: &str, sep: char) -> (r: String)
    ensures
        r@ == removed(list@, entry@, sep),
{
    let parts = split_text(list, sep);
    let ghost ps = split_on(list@, sep);
    assert(parts@.map_values(|p: String| p@) =~= ps);
    let target = entry.to_owned();
    let mut kept: Vec<String> = Vec::new();
    let mut i: usize = 0;
    while i < parts.len()
        invariant
            i <= parts@.len(),
            ps == parts@.map_values(|p: String| p@),
            target@ == entry@,
            kept@.map_values(|p: String| p@) == without(ps.take(i as int), entry@),
        decreases parts@.len() - i,
    {
        assert(ps.take(i + 1).drop_last() =~= ps.take(i as int));
        assert(ps.take(i + 1).last() == parts@[i as int]@);
        if !(parts[i] == target) {
            kept.push(parts[i].clone());
            assert(kept@.map_values(|p: String| p@) =~= without(ps.take(i + 1), entry@));
        }
        i = i + 1;
    }
    assert(ps.take(parts@.len() as int) =~= ps);
    join_text(&kept, sep)
}

/// Adding the same entry twice gives what adding it once gives; the entry
/// is then a field, and where the list held it at most once it holds it
/// exactly once.
pub proof fn lemma_add_idempotent(list: Seq<char>, e: Seq<char>, sep: char)
    requires
        valid_entry(e, sep),
    ensures
        added(added(list, e, sep), e, sep) == added(list, e, sep),
        split_on(added(list, e, sep), sep).contains(e),
        count_of(split_on(list, sep), e) <= 1 ==> count_of(
            split_on(added(list, e, sep), sep),
            e,
        ) == 1,
{
    let once = added(list, e, sep);
    lemma_split_single(e, sep);
    lemma_count_contains(split_on(list, sep), e);
    lemma_count_contains(split_on(once, sep), e);
    if split_on(list, sep).contains(e) {
    } else if list.len() == 0 {
        assert(seq![e][0] == e);
        assert(count_of(seq![e], e) == count_of(seq![e].drop_last(), e) + 1);
    } else {
        lemma_split_concat(list, e, sep);
        lemma_count_concat(split_on(list, sep), seq![e], e);
        assert(seq![e].drop_last() =~= Seq::<Seq<char>>::empty());
        assert(count_of(Seq::<Seq<char>>::empty(), e) == 0);
        assert(seq![e].last() == e);
        assert(count_of(seq![e], e) == 1);
    }
}

/// Removing an entry that is not a field leaves the list as it was.
pub proof fn lemma_remove_absent(list: Seq<char>, e: Seq<char>, sep: char)
    requires
        !split_on(list, sep).contains(e),
    ensures
        removed(list, e, sep) == list,
{
    lemma_without_absent(split_on(list, sep), e);
    lemma_join_split(list, sep);
}

/// Adds `dir` to a persistent PATH value.
pub fn add_to_path_value(value: &str, dir: &str) -> (r: Result<String, Error>)
    ensures
        valid_entry(dir@, PATH_LIST_SEPARATOR) <==> r is Ok,
        r matches Ok(s) ==> s@ == added(value@, dir@, PATH_LIST_SEPARATOR),
        r matches Err(err) ==> err matches Error::InvalidPath { .. },
{
    add_entry(value, dir, PATH_LIST_SEPARATOR)
}

/// Removes `dir` from a persistent PATH value.
pub fn remove_from_path_value(value: &str, dir: &str) -> (r: String)
    ensures
        r@ == removed(value@, dir@, PATH_LIST_SEPARATOR),
{
    remove_entry(value, dir, PATH_LIST_SEPARATOR)
}

/// The startup-file line that puts `dir` first on PATH.
pub fn export_line(dir: &str) -> (r: String)
    ensures
        r@ == export_line_of(dir@),
{
    let mut r = "export PATH=\"".to_owned();
    r.append(dir);
    r.append(":$PATH\"");
    r
}

/// Adds the export line for `dir` to the content of a startup file, unless
/// a line of it already is that line.
pub fn add_to_rc(content: &str, dir: &str) -> (r: Result<String, Error>)
    ensures
        valid_entry(export_line_of(dir@), '\n') <==> r is Ok,
        r matches Ok(s) ==> s@ == added(content@, export_line_of(dir@), '\n'),
        r matches Err(err) ==> err matches Error::InvalidPath { .. },
{
    let line = export_line(dir);
    add_entry(content, line.as_str(), '\n')
}

/// Removes every line of a startup file that is the export line for `dir`.
pub fn remove_from_rc(content: &str, dir: &str) -> (r: String)
    ensures
        r@ == removed(content@, export_line_of(dir@), '\n'),
{
    let line = export_line(dir);
    remove_entry(content, line.as_str(), '\n')
}

} // verus!
