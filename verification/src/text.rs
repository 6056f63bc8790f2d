//! Cutting a text at a separator.

use vstd::prelude::*;

verus! {

/// The parts of a text before and after the first occurrence of a
/// separator, if it occurs.
pub open spec fn split_first(t: Seq<char>, sep: char) -> Option<(Seq<char>, Seq<char>)> {
    match t.index_of_first(sep) {
        Some(i) => Some((t.subrange(0, i), t.subrange(i + 1, t.len() as int))),
        None => None,
    }
}

/// `str::split_once` with a character: the text before the first
/// occurrence of the separator and the text after it, or nothing where the
/// separator does not occur.
#[verifier::external_body]
pub(crate) fn split_once_at(s: &str, sep: char) -> (out: Option<(&str, &str)>)
    ensures
        out is None <==> split_first(s@, sep) is None,
        out is Some ==> split_first(s@, sep) == Some((out.unwrap().0@, out.unwrap().1@)),
{
    s.split_once(sep)
}

/// Whether two texts are the same.
pub fn str_eq(a: &str, b: &str) -> (out: bool)
    ensures
        out == (a@ == b@),
{
    a.to_owned() == b.to_owned()
}

/// Where a text is made of a part without the separator, the separator and
/// a rest, the first cut falls between them.
pub proof fn lemma_split_first_joined(head: Seq<char>, sep: char, rest: Seq<char>)
    requires
        !head.contains(sep),
    ensures
        split_first(head + seq![sep] + rest, sep) == Some((head, rest)),
{
    let t = head + seq![sep] + rest;
    t.index_of_first_ensures(sep);
    assert(t[head.len() as int] == sep);
    assert(t.contains(sep));
    let i = t.index_of_first(sep).unwrap();
    if i < head.len() {
        assert(head[i] == sep);
        assert(head.contains(sep));
    }
    assert(i == head.len());
    assert(t.subrange(0, i) =~= head);
    assert(t.subrange(i + 1, t.len() as int) =~= rest);
}

} // verus!
