//! How the capability flags of a render driver are named in the log.

use vstd::prelude::*;
use vstd::std_specs::iter::IteratorSpec;
use vstd::string::StringExecFns;
use crate::text::ascii_lowercase;

verus! {

/// The number of characters that the graphics library puts before the proper
/// name of each flag of a renderer.
pub const PREFIX_LEN: usize = 13;

/// The label of a flag: its name without the library's prefix, in lower
/// case.
pub open spec fn label_of(name: Seq<char>) -> Seq<char> {
    name.skip(PREFIX_LEN as int).map_values(|c: char| ascii_lowercase(c))
}

/// Whether the flag `bit` is set in `flags`.
pub open spec fn is_set(flags: u32, bit: u32) -> bool {
    flags & bit != 0
}

/// The labels of the flags among `known` that are set in `flags`, in the
/// order of `known`. A known flag is its bit and its name.
pub open spec fn labels_of(flags: u32, known: Seq<(u32, String)>) -> Seq<Seq<char>>
    decreases known.len(),
{
    if known.len() == 0 {
        Seq::empty()
    } else {
        let rest = labels_of(flags, known.drop_last());
        if is_set(flags, known.last().0) {
            rest.push(label_of(known.last().1@))
        } else {
            rest
        }
    }
}

/// The texts of `parts`, one after the other, with `separator` between each
/// two of them.
pub open spec fn joined(parts: Seq<Seq<char>>, separator: Seq<char>) -> Seq<char>
    decreases parts.len(),
{
    if parts.len() == 0 {
        Seq::empty()
    } else if parts.len() == 1 {
        parts[0]
    } else {
        joined(parts.drop_last(), separator) + separator + parts.last()
    }
}

/// The texts that `v` holds.
pub open spec fn texts(v: Seq<String>) -> Seq<Seq<char>> {
    v.map_values(|s: String| s@)
}

/// The label of the flag that the graphics library calls `name`.
pub fn flag_label(name: &str) -> (r: String)
    requires
        name@.len() >= PREFIX_LEN,
    ensures
        r@ == label_of(name@),
{
    let mut r = String::new();
    let mut left: usize = PREFIX_LEN;
    for c in it: name.chars()
        invariant
            it.seq() == name@,
            name@.len() >= PREFIX_LEN,
            left == if it.index() < PREFIX_LEN { PREFIX_LEN - it.index() } else { 0 },
            it.index() <= PREFIX_LEN ==> r@.len() == 0,
            it.index() > PREFIX_LEN ==> r@ == name@.subrange(PREFIX_LEN as int, it.index()).map_values(
                |c: char| ascii_lowercase(c),
            ),
    {
        if left > 0 {
            left -= 1;
        } else {
            r.push(c.to_ascii_lowercase());
            assert(r@ =~= name@.subrange(PREFIX_LEN as int, it.index() + 1).map_values(
                |c: char| ascii_lowercase(c),
            ));
        }
    }
    assert(r@ =~= label_of(name@));
    r
}

/// The labels of the flags among `known` that are set in `flags`.
pub fn flag_labels(flags: u32, known: &Vec<(u32, String)>) -> (r: Vec<String>)
    requires
        forall|i: int|
            0 <= i < known@.len() && is_set(flags, (#[trigger] known@[i]).0) ==> known@[i].1@.len()
                >= PREFIX_LEN,
    ensures
        texts(r@) == labels_of(flags, known@),
{
    let mut r: Vec<String> = Vec::new();
    let mut i: usize = 0;
    assert(known@.take(0) =~= Seq::<(u32, String)>::empty());
    assert(texts(r@) =~= Seq::<Seq<char>>::empty());
    while i < known.len()
        invariant
            i <= known@.len(),
            texts(r@) == labels_of(flags, known@.take(i as int)),
            forall|i: int|
                0 <= i < known@.len() && is_set(flags, (#[trigger] known@[i]).0)
                    ==> known@[i].1@.len() >= PREFIX_LEN,
        decreases known@.len() - i,
    {
        let ghost before = r@;
        proof {
            assert(known@.take(i + 1).drop_last() =~= known@.take(i as int));
            assert(known@.take(i + 1).last() == known@[i as int]);
        }
        if flags & known[i].0 != 0 {
            let label = flag_label(known[i].1.as_str());
            r.push(label);
            assert(texts(r@) =~= texts(before).push(label@));
        }
        i += 1;
    }
    assert(known@.take(known@.len() as int) =~= known@);
    r
}

/// The texts of `parts` in one line, with `separator` between each two.
pub fn join(parts: &Vec<String>, separator: &str) -> (r: String)
    ensures
        r@ == joined(texts(parts@), separator@),
{
    let mut r = String::new();
    let mut i: usize = 0;
    assert(texts(parts@).take(0) =~= Seq::<Seq<char>>::empty());
    while i < parts.len()
        invariant
            i <= parts@.len(),
            r@ == joined(texts(parts@).take(i as int), separator@),
        decreases parts@.len() - i,
    {
        proof {
            let t = texts(parts@);
            assert(t.take(i + 1).drop_last() =~= t.take(i as int));
            assert(t.take(i + 1).last() == parts@[i as int]@);
            if i == 0 {
                assert(t.take(1)[0] == parts@[0]@);
            }
        }
        if i > 0 {
            r.append(separator);
        }
        r.append(parts[i].as_str());
        proof {
            if i == 0 {
                assert(r@ =~= parts@[0]@);
            }
        }
        i += 1;
    }
    assert(texts(parts@).take(parts@.len() as int) =~= texts(parts@));
    r
}

} // verus!
