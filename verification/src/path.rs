//! The canonical form of a path: backslashes for separators, lower case for
//! ASCII letters, and no current-directory segment at the start or inside.

use vstd::prelude::*;
use vstd::std_specs::iter::IteratorSpec;
use crate::text::{ascii_lowercase, ends_with, has_suffix, same_text};

verus! {

/// What one character of the input contributes to the canonical form.
pub open spec fn folded(c: char) -> char {
    if c == '/' {
        '\\'
    } else {
        ascii_lowercase(c)
    }
}

/// The two collapse rules, applied once to what has been built so far.
///
/// A path that is exactly `.\`, or exactly `.` when the input is at its end,
/// becomes empty. Otherwise a path that ends with `\.\` loses the dot and one
/// separator.
pub open spec fn collapsed(s: Seq<char>, at_end: bool) -> Seq<char> {
    if s == seq!['.', '\\'] || (at_end && s == seq!['.']) {
        Seq::empty()
    } else if has_suffix(s, seq!['\\', '.', '\\']) {
        s.subrange(0, s.len() - 2)
    } else {
        s
    }
}

/// One step of the builder: `c` is the next character of the input, or
/// `None` at its end.
pub open spec fn built(s: Seq<char>, c: Option<char>) -> Seq<char> {
    match c {
        Some(c) => collapsed(s.push(folded(c)), false),
        None => collapsed(s, true),
    }
}

/// What the builder holds after the characters of `input` were handed to it
/// one by one, starting from `s`.
pub open spec fn fed(s: Seq<char>, input: Seq<char>) -> Seq<char>
    decreases input.len(),
{
    if input.len() == 0 {
        s
    } else {
        built(fed(s, input.drop_last()), Some(input.last()))
    }
}

/// The canonical form of `path`.
pub open spec fn normalized(path: Seq<char>) -> Seq<char> {
    built(fed(Seq::empty(), path), None)
}

/// Whether a current-directory segment between two separators starts at
/// `i`: the characters `\.\`.
pub open spec fn dot_segment_at(s: Seq<char>, i: int) -> bool {
    &&& 0 <= i
    &&& i + 2 < s.len()
    &&& s[i] == '\\'
    &&& s[i + 1] == '.'
    &&& s[i + 2] == '\\'
}

/// Whether `s` can be what the builder holds between two characters of the
/// input: every character is folded, `s` does not start with `.\`, and no
/// current-directory segment stands between two separators.
pub open spec fn is_settled(s: Seq<char>) -> bool {
    &&& forall|i: int| 0 <= i < s.len() ==> folded(#[trigger] s[i]) == s[i]
    &&& !(s.len() >= 2 && s[0] == '.' && s[1] == '\\')
    &&& forall|i: int| !dot_segment_at(s, i)
}

/// Whether `s` is a path in canonical form: settled, and not the lone dot.
pub open spec fn is_canonical(s: Seq<char>) -> bool {
    is_settled(s) && s != seq!['.']
}

/// Folding a character twice is folding it once.
pub proof fn lemma_folded_twice(c: char)
    ensures
        folded(folded(c)) == folded(c),
{
}

/// A step of the builder on a next character leaves a settled path settled.
pub proof fn lemma_built_settled(s: Seq<char>, c: char)
    requires
        is_settled(s),
    ensures
        is_settled(built(s, Some(c))),
{
    let t = s.push(folded(c));
    let r = built(s, Some(c));
    lemma_folded_twice(c);
    if t == seq!['.', '\\'] {
    } else if has_suffix(t, seq!['\\', '.', '\\']) {
        assert(r == t.subrange(0, t.len() - 2));
        assert forall|i: int| !dot_segment_at(r, i) by {
            if dot_segment_at(r, i) {
                assert(dot_segment_at(s, i));
            }
        }
    } else {
        assert(r == t);
        if t.len() >= 2 && t[0] == '.' && t[1] == '\\' {
            if t.len() == 2 {
                assert(t =~= seq!['.', '\\']);
            }
        }
        assert forall|i: int| !dot_segment_at(t, i) by {
            if dot_segment_at(t, i) {
                if i + 3 < t.len() {
                    assert(dot_segment_at(s, i));
                } else {
                    assert(t.subrange(t.len() - 3, t.len() as int) =~= seq!['\\', '.', '\\']);
                }
            }
        }
    }
}

/// Whatever the input, the builder that starts empty holds a settled path
/// after each character.
pub proof fn lemma_fed_settled(input: Seq<char>)
    ensures
        is_settled(fed(Seq::empty(), input)),
    decreases input.len(),
{
    if input.len() > 0 {
        lemma_fed_settled(input.drop_last());
        lemma_built_settled(fed(Seq::empty(), input.drop_last()), input.last());
    }
}

/// The canonical form of any path is canonical.
pub proof fn lemma_normalized_is_canonical(path: Seq<char>)
    ensures
        is_canonical(normalized(path)),
{
    let q = fed(Seq::empty(), path);
    lemma_fed_settled(path);
    if has_suffix(q, seq!['\\', '.', '\\']) {
        assert(q.subrange(q.len() - 3, q.len() as int)[0] == '\\');
        assert(q.subrange(q.len() - 3, q.len() as int)[1] == '.');
        assert(q.subrange(q.len() - 3, q.len() as int)[2] == '\\');
        assert(dot_segment_at(q, q.len() - 3));
    }
    if q == seq!['.', '\\'] {
        assert(q[0] == '.' && q[1] == '\\');
    }
}

/// Handing a settled path to the empty builder, character by character,
/// rebuilds each of its prefixes as it is.
pub proof fn lemma_fed_settled_prefix(s: Seq<char>, k: int)
    requires
        is_settled(s),
        0 <= k <= s.len(),
    ensures
        fed(Seq::empty(), s.take(k)) == s.take(k),
    decreases k,
{
    if k > 0 {
        lemma_fed_settled_prefix(s, k - 1);
        let t = s.take(k);
        assert(t.drop_last() =~= s.take(k - 1));
        assert(t.last() == s[k - 1]);
        assert(s.take(k - 1).push(folded(s[k - 1])) =~= t);
        if t == seq!['.', '\\'] {
            assert(k == 2);
            assert(t[0] == s[0] && t[1] == s[1]);
        }
        if has_suffix(t, seq!['\\', '.', '\\']) {
            assert(t.subrange(t.len() - 3, t.len() as int)[0] == '\\');
            assert(t.subrange(t.len() - 3, t.len() as int)[1] == '.');
            assert(t.subrange(t.len() - 3, t.len() as int)[2] == '\\');
            assert(dot_segment_at(s, k - 3));
        }
    } else {
        assert(s.take(0) =~= Seq::<char>::empty());
    }
}

/// Idempotence on canonical paths: the canonical form of a path that is
/// canonical already is that path.
pub proof fn lemma_canonical_is_fixed(s: Seq<char>)
    requires
        is_canonical(s),
    ensures
        normalized(s) == s,
{
    lemma_fed_settled_prefix(s, s.len() as int);
    assert(s.take(s.len() as int) =~= s);
    if has_suffix(s, seq!['\\', '.', '\\']) {
        assert(s.subrange(s.len() - 3, s.len() as int)[0] == '\\');
        assert(s.subrange(s.len() - 3, s.len() as int)[1] == '.');
        assert(s.subrange(s.len() - 3, s.len() as int)[2] == '\\');
        assert(dot_segment_at(s, s.len() - 3));
    }
    if s == seq!['.', '\\'] {
        assert(s[0] == '.' && s[1] == '\\');
    }
}

/// The canonical paths are the paths that normalizing leaves as they are,
/// and they are the paths that normalizing can give.
pub proof fn lemma_canonical_iff_fixed(s: Seq<char>)
    ensures
        is_canonical(s) <==> normalized(s) == s,
        is_canonical(s) <==> exists|path: Seq<char>| normalized(path) == s,
{
    if is_canonical(s) {
        lemma_canonical_is_fixed(s);
        assert(normalized(s) == s);
    }
    if normalized(s) == s {
        lemma_normalized_is_canonical(s);
    }
    if exists|path: Seq<char>| normalized(path) == s {
        let path = choose|path: Seq<char>| normalized(path) == s;
        lemma_normalized_is_canonical(path);
    }
}

/// Normalizing twice is normalizing once.
pub proof fn lemma_normalized_twice(path: Seq<char>)
    ensures
        normalized(normalized(path)) == normalized(path),
{
    lemma_normalized_is_canonical(path);
    lemma_canonical_is_fixed(normalized(path));
}

/// Hands the builder the next character of the input, or `None` at the
/// end of the input, and applies the collapse rules to what it then holds.
pub fn build_normalized_path(path: &mut String, c: Option<char>)
    ensures
        final(path)@ == built(old(path)@, c),
{
    if let Some(c) = c {
        let c = if c == '/' {
            '\\'
        } else {
            c.to_ascii_lowercase()
        };
        path.push(c);
    }
    proof {
        reveal_strlit(".\\");
        reveal_strlit(".");
        reveal_strlit("\\.\\");
        assert(".\\"@ =~= seq!['.', '\\']);
        assert("."@ =~= seq!['.']);
        assert("\\.\\"@ =~= seq!['\\', '.', '\\']);
    }
    if same_text(path.as_str(), ".\\") || (c.is_none() && same_text(path.as_str(), ".")) {
        path.clear();
    } else if ends_with(path.as_str(), "\\.\\") {
        let ghost before = path@;
        path.pop();
        path.pop();
        assert(path@ =~= before.subrange(0, before.len() - 2));
    }
}

/// The canonical form of `path`: every character folded and the collapse
/// rules applied after each of them and once more at the end.
pub fn normalize_path(path: &str) -> (r: String)
    ensures
        r@ == normalized(path@),
        is_canonical(r@),
{
    let mut r = String::new();
    for c in it: path.chars()
        invariant
            it.seq() == path@,
            r@ == fed(Seq::empty(), path@.take(it.index())),
    {
        proof {
            let k = it.index();
            assert(path@.take(k + 1).drop_last() =~= path@.take(k));
            assert(path@.take(k + 1).last() == c);
        }
        build_normalized_path(&mut r, Some(c));
    }
    proof {
        assert(path@.take(path@.len() as int) =~= path@);
        lemma_normalized_is_canonical(path@);
    }
    build_normalized_path(&mut r, None);
    r
}

} // verus!
