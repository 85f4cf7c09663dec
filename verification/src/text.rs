//! Character sequences: the string operations that the label rules are made
//! of, each with its mathematical definition and an implementation proved
//! against it.

use vstd::prelude::*;

verus! {

/// `String::push` appends one character.
pub assume_specification[ String::push ](s: &mut String, c: char)
    ensures
        final(s)@ == old(s)@.push(c),
;

/// `==` on string slices compares their characters.
pub assume_specification[ <str as PartialEq>::eq ](a: &str, b: &str) -> (same: bool)
    ensures
        same == (a@ == b@),
;

/// The characters of `s`, in order.
pub fn chars_of(s: &str) -> (out: Vec<char>)
    ensures
        out@ == s@,
{
    let mut out: Vec<char> = Vec::new();
    for c in it: s.chars()
        invariant
            it.seq() == s@,
            out@ == s@.take(it.index() as int),
    {
        out.push(c);
    }
    out
}

/// The string spelled by `chars`.
pub fn string_of(chars: &[char]) -> (out: String)
    ensures
        out@ == chars@,
{
    let mut out = String::new();
    let mut i: usize = 0;
    while i < chars.len()
        invariant
            i <= chars.len(),
            out@ == chars@.take(i as int),
        decreases chars.len() - i,
    {
        out.push(chars[i]);
        i += 1;
    }
    out
}

/// Whether `pat` occurs in `s` starting at index `at`.
pub open spec fn occurs_at(s: Seq<char>, at: int, pat: Seq<char>) -> bool {
    0 <= at && at + pat.len() <= s.len() && s.subrange(at, at + pat.len()) == pat
}

/// An occurrence at `at` is a prefix of what is left after skipping `at`
/// characters.
pub proof fn lemma_occurs_at_is_prefix(s: Seq<char>, at: int, pat: Seq<char>)
    requires
        0 <= at <= s.len(),
    ensures
        occurs_at(s, at, pat) == pat.is_prefix_of(s.skip(at)),
{
    if at + pat.len() <= s.len() {
        assert(s.subrange(at, at + pat.len()) =~= s.skip(at).subrange(0, pat.len() as int));
    }
}

/// Tests whether `pat` occurs in `s` at index `at`.
pub fn matches_at(s: &[char], at: usize, pat: &[char]) -> (found: bool)
    ensures
        found == occurs_at(s@, at as int, pat@),
{
    if pat.len() > s.len() || at > s.len() - pat.len() {
        return false;
    }
    let mut i: usize = 0;
    while i < pat.len()
        invariant
            i <= pat.len(),
            at + pat.len() <= s.len(),
            forall|k: int| 0 <= k < i ==> s@[at + k] == pat@[k],
        decreases pat.len() - i,
    {
        if s[at + i] != pat[i] {
            assert(s@.subrange(at as int, at + pat.len())[i as int] == s@[at + i]);
            return false;
        }
        i += 1;
    }
    assert(s@.subrange(at as int, at + pat.len()) =~= pat@);
    true
}

/// Tests whether `s` begins with `prefix`.
pub fn starts_with(s: &[char], prefix: &[char]) -> (found: bool)
    ensures
        found == prefix@.is_prefix_of(s@),
{
    proof {
        lemma_occurs_at_is_prefix(s@, 0, prefix@);
        assert(s@.skip(0) =~= s@);
    }
    matches_at(s, 0, prefix)
}

/// The characters of `s` from index `from` on.
pub fn tail_from(s: &[char], from: usize) -> (out: Vec<char>)
    requires
        from <= s.len(),
    ensures
        out@ == s@.skip(from as int),
{
    let mut out: Vec<char> = Vec::new();
    let mut i: usize = from;
    while i < s.len()
        invariant
            from <= i <= s.len(),
            out@ == s@.subrange(from as int, i as int),
        decreases s.len() - i,
    {
        out.push(s[i]);
        assert(s@.subrange(from as int, i + 1) =~= s@.subrange(from as int, i as int).push(
            s@[i as int],
        ));
        i += 1;
    }
    assert(s@.subrange(from as int, s.len() as int) =~= s@.skip(from as int));
    out
}

/// The first `upto` characters of `s`.
pub fn head_upto(s: &[char], upto: usize) -> (out: Vec<char>)
    requires
        upto <= s.len(),
    ensures
        out@ == s@.take(upto as int),
{
    let mut out: Vec<char> = Vec::new();
    let mut i: usize = 0;
    while i < upto
        invariant
            i <= upto <= s.len(),
            out@ == s@.take(i as int),
        decreases upto - i,
    {
        out.push(s[i]);
        assert(s@.take(i + 1) =~= s@.take(i as int).push(s@[i as int]));
        i += 1;
    }
    out
}

/// `s` without `prefix` at its start; `s` itself where it does not begin
/// with `prefix`.
pub open spec fn strip_prefix(s: Seq<char>, prefix: Seq<char>) -> Seq<char> {
    if prefix.is_prefix_of(s) {
        s.skip(prefix.len() as int)
    } else {
        s
    }
}

/// Removes `prefix` from the start of `s`, once, if it stands there.
pub fn strip_prefix_of(s: &[char], prefix: &[char]) -> (out: Vec<char>)
    ensures
        out@ == strip_prefix(s@, prefix@),
{
    if starts_with(s, prefix) {
        tail_from(s, prefix.len())
    } else {
        assert(s@.skip(0) =~= s@);
        tail_from(s, 0)
    }
}

/// `s` after `pat` has been removed from its start as often as it stands
/// there. An empty `pat` removes nothing.
pub open spec fn trim_start_matches(s: Seq<char>, pat: Seq<char>) -> Seq<char>
    decreases s.len(),
{
    if pat.len() > 0 && pat.is_prefix_of(s) {
        trim_start_matches(s.skip(pat.len() as int), pat)
    } else {
        s
    }
}

/// Removes every leading repetition of `pat` from `s`.
pub fn trim_start_matches_of(s: &[char], pat: &[char]) -> (out: Vec<char>)
    ensures
        out@ == trim_start_matches(s@, pat@),
{
    let mut k: usize = 0;
    assert(s@.skip(0) =~= s@);
    loop
        invariant
            k <= s.len(),
            trim_start_matches(s@, pat@) == trim_start_matches(s@.skip(k as int), pat@),
        ensures
            pat@.len() == 0 || !pat@.is_prefix_of(s@.skip(k as int)),
        decreases s.len() - k,
    {
        proof {
            lemma_occurs_at_is_prefix(s@, k as int, pat@);
        }
        if pat.len() == 0 || !matches_at(s, k, pat) {
            break;
        }
        assert(s@.skip(k as int).skip(pat@.len() as int) =~= s@.skip(k + pat@.len()));
        k += pat.len();
    }
    tail_from(s, k)
}

/// `s` after every trailing `c` has been removed.
pub open spec fn trim_end_matches(s: Seq<char>, c: char) -> Seq<char>
    decreases s.len(),
{
    if s.len() > 0 && s.last() == c {
        trim_end_matches(s.drop_last(), c)
    } else {
        s
    }
}

/// Removes every trailing `c` from `s`.
pub fn trim_end_matches_of(s: &[char], c: char) -> (out: Vec<char>)
    ensures
        out@ == trim_end_matches(s@, c),
{
    let mut k: usize = s.len();
    assert(s@.take(k as int) =~= s@);
    while k > 0 && s[k - 1] == c
        invariant
            k <= s.len(),
            trim_end_matches(s@, c) == trim_end_matches(s@.take(k as int), c),
        decreases k,
    {
        assert(s@.take(k as int).drop_last() =~= s@.take(k - 1));
        k -= 1;
    }
    head_upto(s, k)
}

/// `s` with every occurrence of `pat`, found from left to right and never
/// overlapping, replaced by `with`. An empty `pat` occurs nowhere.
pub open spec fn replace_all(s: Seq<char>, pat: Seq<char>, with: Seq<char>) -> Seq<char>
    decreases s.len(),
{
    if s.len() == 0 || pat.len() == 0 {
        s
    } else if pat.is_prefix_of(s) {
        with + replace_all(s.skip(pat.len() as int), pat, with)
    } else {
        seq![s[0]] + replace_all(s.skip(1), pat, with)
    }
}

/// Replaces every occurrence of `pat` in `s` by `with`; an empty `pat`
/// occurs nowhere.
pub fn replace_all_of(s: &[char], pat: &[char], with: &[char]) -> (out: Vec<char>)
    ensures
        out@ == replace_all(s@, pat@, with@),
{
    assert(s@.skip(0) =~= s@);
    if pat.len() == 0 {
        return tail_from(s, 0);
    }
    let mut out: Vec<char> = Vec::new();
    let mut i: usize = 0;
    while i < s.len()
        invariant
            i <= s.len(),
            pat@.len() > 0,
            replace_all(s@, pat@, with@) == out@ + replace_all(s@.skip(i as int), pat@, with@),
        decreases s.len() - i,
    {
        let ghost rest = s@.skip(i as int);
        let ghost done = out@;
        proof {
            lemma_occurs_at_is_prefix(s@, i as int, pat@);
        }
        if matches_at(s, i, pat) {
            let mut j: usize = 0;
            while j < with.len()
                invariant
                    j <= with.len(),
                    out@ == done + with@.take(j as int),
                decreases with.len() - j,
            {
                out.push(with[j]);
                assert(with@.take(j + 1) =~= with@.take(j as int).push(with@[j as int]));
                assert(done + with@.take(j + 1) =~= (done + with@.take(j as int)).push(
                    with@[j as int],
                ));
                j += 1;
            }
            assert(with@.take(with@.len() as int) =~= with@);
            assert(rest.skip(pat@.len() as int) =~= s@.skip(i + pat@.len()));
            assert(done + (with@ + replace_all(rest.skip(pat@.len() as int), pat@, with@)) =~= (done
                + with@) + replace_all(rest.skip(pat@.len() as int), pat@, with@));
            i += pat.len();
        } else {
            out.push(s[i]);
            assert(rest.skip(1) =~= s@.skip(i + 1));
            assert(rest[0] == s@[i as int]);
            assert(done + (seq![rest[0]] + replace_all(rest.skip(1), pat@, with@)) =~= done.push(
                rest[0],
            ) + replace_all(rest.skip(1), pat@, with@));
            i += 1;
        }
    }
    assert(out@ + Seq::<char>::empty() =~= out@);
    out
}

/// `s` with every `c` left out.
pub open spec fn without(s: Seq<char>, c: char) -> Seq<char> {
    s.filter(|x: char| x != c)
}

/// Removes every `c` from `s`.
pub fn without_of(s: &[char], c: char) -> (out: Vec<char>)
    ensures
        out@ == without(s@, c),
{
    let mut out: Vec<char> = Vec::new();
    let mut i: usize = 0;
    proof {
        reveal(Seq::filter);
        assert(s@.take(0) =~= Seq::<char>::empty());
    }
    while i < s.len()
        invariant
            i <= s.len(),
            out@ == without(s@.take(i as int), c),
        decreases s.len() - i,
    {
        proof {
            reveal(Seq::filter);
            assert(s@.take(i + 1).drop_last() =~= s@.take(i as int));
        }
        if s[i] != c {
            out.push(s[i]);
        }
        i += 1;
    }
    assert(s@.take(s.len() as int) =~= s@);
    out
}

/// The pieces of `s` between occurrences of `sep`: one more piece than there
/// are separators, so the empty sequence splits into one empty piece.
pub open spec fn split(s: Seq<char>, sep: char) -> Seq<Seq<char>>
    decreases s.len(),
{
    if s.len() == 0 {
        seq![Seq::<char>::empty()]
    } else if s.last() == sep {
        split(s.drop_last(), sep).push(Seq::<char>::empty())
    } else {
        let before = split(s.drop_last(), sep);
        before.drop_last().push(before.last().push(s.last()))
    }
}

/// The character sequences that the vectors of `pieces` hold.
pub open spec fn views(pieces: Seq<Vec<char>>) -> Seq<Seq<char>> {
    Seq::new(pieces.len(), |i: int| pieces[i]@)
}

/// Splits `s` at every `sep`.
pub fn split_of(s: &[char], sep: char) -> (out: Vec<Vec<char>>)
    ensures
        views(out@) == split(s@, sep),
{
    let mut out: Vec<Vec<char>> = Vec::new();
    let mut piece: Vec<char> = Vec::new();
    let mut i: usize = 0;
    assert(s@.take(0) =~= Seq::<char>::empty());
    assert(views(out@).push(piece@) =~= seq![Seq::<char>::empty()]);
    while i < s.len()
        invariant
            i <= s.len(),
            split(s@.take(i as int), sep) == views(out@).push(piece@),
        decreases s.len() - i,
    {
        let ghost done = views(out@);
        let ghost cur = piece@;
        assert(s@.take(i + 1).drop_last() =~= s@.take(i as int));
        assert(done.push(cur).drop_last() =~= done);
        if s[i] == sep {
            out.push(piece);
            piece = Vec::new();
            assert(views(out@) =~= done.push(cur));
        } else {
            piece.push(s[i]);
        }
        i += 1;
    }
    assert(s@.take(s.len() as int) =~= s@);
    let ghost done = views(out@);
    let ghost cur = piece@;
    out.push(piece);
    assert(views(out@) =~= done.push(cur));
    out
}

} // verus!
