//! Character-level text handling: lists of fields separated by one
//! character (PATH values, lines of a file, components of a path).
use vstd::prelude::*;

verus! {

/// Relies on `String::push`: the character is appended at the end.
#[verifier::external_body]
pub(crate) fn push_char(s: &mut String, c: char)
    ensures
        final(s)@ == old(s)@.push(c),
{
    s.push(c)
}

/// Builds a `String` holding exactly the given characters.
pub fn string_from_chars(cs: &[char]) -> (r: String)
    ensures
        r@ == cs@,
{
    let mut r = String::new();
    let mut i: usize = 0;
    while i < cs.len()
        invariant
            i <= cs@.len(),
            r@ == cs@.take(i as int),
        decreases cs@.len() - i,
    {
        push_char(&mut r, cs[i]);
        i = i + 1;
        assert(r@ =~= cs@.take(i as int));
    }
    assert(r@ =~= cs@);
    r
}

/// The fields of `s` between occurrences of `sep`; never empty.
pub open spec fn split_on(s: Seq<char>, sep: char) -> Seq<Seq<char>>
    decreases s.len(),
{
    if s.len() == 0 {
        seq![Seq::empty()]
    } else {
        let init = split_on(s.drop_last(), sep);
        if s.last() == sep {
            init.push(Seq::empty())
        } else {
            init.update(init.len() - 1, init.last().push(s.last()))
        }
    }
}

/// The fields joined back with `sep` between each two.
pub open spec fn join_with(parts: Seq<Seq<char>>, sep: char) -> Seq<char>
    decreases parts.len(),
{
    if parts.len() == 0 {
        Seq::empty()
    } else if parts.len() == 1 {
        parts[0]
    } else {
        join_with(parts.drop_last(), sep).push(sep) + parts.last()
    }
}

/// How many fields equal `e`.
pub open spec fn count_of(parts: Seq<Seq<char>>, e: Seq<char>) -> nat
    decreases parts.len(),
{
    if parts.len() == 0 {
        0
    } else {
        count_of(parts.drop_last(), e) + if parts.last() == e { 1nat } else { 0nat }
    }
}

/// The fields without those equal to `e`, the others in order.
pub open spec fn without(parts: Seq<Seq<char>>, e: Seq<char>) -> Seq<Seq<char>>
    decreases parts.len(),
{
    if parts.len() == 0 {
        Seq::empty()
    } else if parts.last() == e {
        without(parts.drop_last(), e)
    } else {
        without(parts.drop_last(), e).push(parts.last())
    }
}

pub proof fn lemma_split_nonempty(s: Seq<char>, sep: char)
    ensures
        split_on(s, sep).len() >= 1,
    decreases s.len(),
{
    if s.len() > 0 {
        lemma_split_nonempty(s.drop_last(), sep);
    }
}

/// A text without the separator is a single field.
pub proof fn lemma_split_single(s: Seq<char>, sep: char)
    requires
        !s.contains(sep),
    ensures
        split_on(s, sep) == seq![s],
    decreases s.len(),
{
    if s.len() > 0 {
        let t = s.drop_last();
        assert(!t.contains(sep)) by {
            if t.contains(sep) {
                let k = choose|k: int| 0 <= k < t.len() && t[k] == sep;
                assert(s[k] == sep);
            }
        }
        lemma_split_single(t, sep);
        assert(s.last() != sep) by {
            assert(s[s.len() - 1] == s.last());
        }
        assert(t.push(s.last()) =~= s);
        assert(split_on(s, sep) =~= seq![s]);
    } else {
        assert(s =~= Seq::<char>::empty());
    }
}

/// Splitting `a`, a separator, then `b` gives the fields of `a` then those of `b`.
pub proof fn lemma_split_concat(a: Seq<char>, b: Seq<char>, sep: char)
    ensures
        split_on(a.push(sep) + b, sep) == split_on(a, sep) + split_on(b, sep),
    decreases b.len(),
{
    let s = a.push(sep) + b;
    if b.len() == 0 {
        assert(s =~= a.push(sep));
        assert(s.drop_last() =~= a);
        assert(split_on(a, sep) + split_on(b, sep) =~= split_on(a, sep).push(Seq::empty()));
    } else {
        let b0 = b.drop_last();
        lemma_split_concat(a, b0, sep);
        lemma_split_nonempty(b0, sep);
        assert(s.drop_last() =~= a.push(sep) + b0);
        assert(s.last() == b.last());
        let x = split_on(a, sep);
        let y = split_on(b0, sep);
        if b.last() == sep {
            assert((x + y).push(Seq::empty()) =~= x + y.push(Seq::empty()));
        } else {
            let xy = x + y;
            assert(xy.last() == y.last());
            assert(xy.update(xy.len() - 1, xy.last().push(sep)) == xy.update(
                xy.len() - 1,
                xy.last().push(sep),
            ));
            assert(xy.update(xy.len() - 1, xy.last().push(b.last())) =~= x + y.update(
                y.len() - 1,
                y.last().push(b.last()),
            ));
        }
    }
}

/// Joining the fields of a text gives the text back.
pub proof fn lemma_join_split(s: Seq<char>, sep: char)
    ensures
        join_with(split_on(s, sep), sep) == s,
    decreases s.len(),
{
    if s.len() > 0 {
        let t = s.drop_last();
        lemma_join_split(t, sep);
        lemma_split_nonempty(t, sep);
        let x = split_on(t, sep);
        if s.last() == sep {
            assert(x.push(Seq::empty()).drop_last() =~= x);
            assert(join_with(x, sep).push(sep) + Seq::<char>::empty() =~= s);
        } else {
            let y = x.update(x.len() - 1, x.last().push(s.last()));
            if x.len() == 1 {
                assert(y[0] =~= s);
            } else {
                assert(y.drop_last() =~= x.drop_last());
                assert(join_with(x.drop_last(), sep).push(sep) + x.last().push(s.last())
                    =~= (join_with(x.drop_last(), sep).push(sep) + x.last()).push(s.last()));
                assert(t.push(s.last()) =~= s);
            }
        }
    }
}

pub proof fn lemma_count_concat(a: Seq<Seq<char>>, b: Seq<Seq<char>>, e: Seq<char>)
    ensures
        count_of(a + b, e) == count_of(a, e) + count_of(b, e),
    decreases b.len(),
{
    if b.len() == 0 {
        assert(a + b =~= a);
    } else {
        lemma_count_concat(a, b.drop_last(), e);
        assert((a + b).drop_last() =~= a + b.drop_last());
    }
}

pub proof fn lemma_count_contains(parts: Seq<Seq<char>>, e: Seq<char>)
    ensures
        parts.contains(e) <==> count_of(parts, e) > 0,
    decreases parts.len(),
{
    if parts.len() > 0 {
        let init = parts.drop_last();
        lemma_count_contains(init, e);
        if parts.contains(e) && parts.last() != e {
            let k = choose|k: int| 0 <= k < parts.len() && parts[k] == e;
            assert(k != parts.len() - 1);
            assert(init[k] == e);
        }
        if init.contains(e) {
            let k = choose|k: int| 0 <= k < init.len() && init[k] == e;
            assert(parts[k] == e);
        }
        if parts.last() == e {
            assert(parts[parts.len() - 1] == e);
        }
    }
}

/// Removing a field that is absent changes nothing.
pub proof fn lemma_without_absent(parts: Seq<Seq<char>>, e: Seq<char>)
    requires
        !parts.contains(e),
    ensures
        without(parts, e) == parts,
    decreases parts.len(),
{
    if parts.len() > 0 {
        let init = parts.drop_last();
        assert(!init.contains(e)) by {
            if init.contains(e) {
                let k = choose|k: int| 0 <= k < init.len() && init[k] == e;
                assert(parts[k] == e);
            }
        }
        lemma_without_absent(init, e);
        assert(parts[parts.len() - 1] == parts.last());
        assert(init.push(parts.last()) =~= parts);
    }
}

/// Splits `s` at each `sep`.
pub fn split_text(s: &str, sep: char) -> (r: Vec<String>)
    ensures
        r@.len() == split_on(s@, sep).len(),
        forall|k: int| 0 <= k < r@.len() ==> #[trigger] r@[k]@ == split_on(s@, sep)[k],
{
    let n = s.unicode_len();
    let mut parts: Vec<String> = Vec::new();
    let mut cur = String::new();
    let mut i: usize = 0;
    while i < n
        invariant
            n == s@.len(),
            i <= n,
            split_on(s@.take(i as int), sep).len() == parts@.len() + 1,
            forall|k: int|
                0 <= k < parts@.len() ==> #[trigger] parts@[k]@ == split_on(
                    s@.take(i as int),
                    sep,
                )[k],
            cur@ == split_on(s@.take(i as int), sep).last(),
        decreases n - i,
    {
        let c = s.get_char(i);
        let ghost old_sp = split_on(s@.take(i as int), sep);
        assert(s@.take(i + 1).drop_last() =~= s@.take(i as int));
        assert(s@.take(i + 1).last() == c);
        if c == sep {
            parts.push(cur);
            cur = String::new();
        } else {
            push_char(&mut cur, c);
        }
        i = i + 1;
    }
    assert(s@.take(n as int) =~= s@);
    parts.push(cur);
    parts
}

/// Joins `parts` with `sep` between each two.
pub fn join_text(parts: &Vec<String>, sep: char) -> (r: String)
    ensures
        r@ == join_with(parts@.map_values(|p: String| p@), sep),
{
    let ghost ps = parts@.map_values(|p: String| p@);
    let mut r = String::new();
    let mut i: usize = 0;
    while i < parts.len()
        invariant
            i <= parts@.len(),
            ps == parts@.map_values(|p: String| p@),
            r@ == join_with(ps.take(i as int), sep),
        decreases parts@.len() - i,
    {
        assert(ps.take(i + 1).drop_last() =~= ps.take(i as int));
        if i > 0 {
            push_char(&mut r, sep);
        } else {
            assert(ps.take(0) =~= Seq::<Seq<char>>::empty());
        }
        r.append(parts[i].as_str());
        i = i + 1;
        if i == 1 {
            assert(r@ =~= ps.take(1)[0]);
        }
    }
    assert(ps.take(parts@.len() as int) =~= ps);
    r
}

} // verus!
