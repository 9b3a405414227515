//! Finding one sequence in another: a text in a message, a run of tokens in
//! the tokens of a declaration.

use vstd::prelude::*;
use vstd::string::StringExecFns;

verus! {

/// Whether `needle` stands in `hay` at the position `at`, item by item.
pub open spec fn occurs_at<T>(needle: Seq<T>, hay: Seq<T>, at: int) -> bool {
    0 <= at && at + needle.len() <= hay.len() && hay.subrange(at, at + needle.len()) == needle
}

/// Whether `needle` stands somewhere in `hay`, item by item.
pub open spec fn occurs_in<T>(needle: Seq<T>, hay: Seq<T>) -> bool {
    exists|at: int| occurs_at(needle, hay, at)
}

/// The texts of `tokens`, in their order.
pub open spec fn texts(tokens: Seq<String>) -> Seq<Seq<char>> {
    Seq::new(tokens.len(), |i: int| tokens[i]@)
}

/// A sequence stands in every sequence that is made by putting something
/// before and after it.
pub proof fn lemma_occurs_between<T>(before: Seq<T>, needle: Seq<T>, after: Seq<T>)
    ensures
        occurs_in(needle, before + needle + after),
{
    let hay = before + needle + after;
    let at = before.len() as int;
    assert(hay.subrange(at, at + needle.len()) =~= needle);
    assert(occurs_at(needle, hay, at));
}

/// A sequence that stands in `inner` stands in every sequence that holds
/// `inner`.
pub proof fn lemma_occurs_within<T>(needle: Seq<T>, inner: Seq<T>, hay: Seq<T>)
    requires
        occurs_in(needle, inner),
        occurs_in(inner, hay),
    ensures
        occurs_in(needle, hay),
{
    let i = choose|at: int| occurs_at(needle, inner, at);
    let j = choose|at: int| occurs_at(inner, hay, at);
    assert(hay.subrange(j + i, j + i + needle.len()) =~= hay.subrange(
        j,
        j + inner.len(),
    ).subrange(i, i + needle.len()));
    assert(occurs_at(needle, hay, j + i));
}

/// Whether one of `tokens` is `token`, as a whole.
pub fn contains_token(tokens: &Vec<String>, token: &str) -> (found: bool)
    ensures
        found == texts(tokens@).contains(token@),
{
    let wanted = String::from_str(token);
    let mut i: usize = 0;
    while i < tokens.len()
        invariant
            i <= tokens.len(),
            wanted@ == token@,
            forall|k: int| 0 <= k < i ==> texts(tokens@)[k] != token@,
        decreases tokens.len() - i,
    {
        if tokens[i] == wanted {
            assert(texts(tokens@)[i as int] == token@);
            return true;
        }
        i += 1;
    }
    false
}

/// Whether the tokens of `needle` stand in `hay` at the position `at`.
fn stands_at(needle: &Vec<String>, hay: &Vec<String>, at: usize) -> (found: bool)
    requires
        at + needle.len() <= hay.len(),
    ensures
        found == occurs_at(texts(needle@), texts(hay@), at as int),
{
    let ghost n = texts(needle@);
    let ghost h = texts(hay@);
    let mut k: usize = 0;
    while k < needle.len()
        invariant
            n == texts(needle@),
            h == texts(hay@),
            at + needle.len() <= hay.len(),
            k <= needle.len(),
            h.subrange(at as int, at + k) == n.subrange(0, k as int),
        decreases needle.len() - k,
    {
        if hay[at + k] != needle[k] {
            assert(h.subrange(at as int, at + n.len())[k as int] != n[k as int]);
            return false;
        }
        assert(h.subrange(at as int, at + k + 1) =~= h.subrange(at as int, at + k).push(
            h[at + k],
        ));
        assert(n.subrange(0, k + 1) =~= n.subrange(0, k as int).push(n[k as int]));
        k += 1;
    }
    assert(n.subrange(0, k as int) =~= n);
    true
}

/// Whether the tokens of `needle` stand somewhere in `hay`, one after the
/// other and each as a whole.
pub fn contains_run(hay: &Vec<String>, needle: &Vec<String>) -> (found: bool)
    ensures
        found == occurs_in(texts(needle@), texts(hay@)),
{
    if needle.len() > hay.len() {
        return false;
    }
    let last = hay.len() - needle.len();
    let mut at: usize = 0;
    loop
        invariant
            last + needle.len() == hay.len(),
            at <= last,
            forall|k: int| 0 <= k < at ==> !occurs_at(texts(needle@), texts(hay@), k),
        decreases last - at,
    {
        if stands_at(needle, hay, at) {
            return true;
        }
        if at == last {
            return false;
        }
        at += 1;
    }
}

} // verus!
