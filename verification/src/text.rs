//! Lists of identifiers used as sets.
//!
//! Node identifiers and message identifiers are strings. The contracts of the
//! library speak of a string by its view, a sequence of characters, and of a
//! list of strings by the sequence of those views.

use vstd::prelude::*;

verus! {

/// The views of the strings of a list, in order.
pub open spec fn texts(v: Seq<String>) -> Seq<Seq<char>> {
    Seq::new(v.len(), |i: int| v[i]@)
}

/// Pushing a string pushes its view.
pub proof fn texts_push(v: Seq<String>, s: String)
    ensures
        texts(v.push(s)) == texts(v).push(s@),
{
    assert(texts(v.push(s)) =~= texts(v).push(s@));
}

/// Dropping the last string drops the last view.
pub proof fn texts_drop_last(v: Seq<String>)
    requires
        v.len() > 0,
    ensures
        texts(v.drop_last()) == texts(v).drop_last(),
{
    assert(texts(v.drop_last()) =~= texts(v).drop_last());
}

/// A list without duplicates has as many items as the set of its items.
pub proof fn distinct_len(s: Seq<Seq<char>>)
    requires
        s.no_duplicates(),
    ensures
        s.to_set().len() == s.len(),
        s.to_set().finite(),
{
    s.unique_seq_to_set();
}

/// The items of a list with one more at its end are the items of the list
/// and that one.
pub proof fn push_to_set(s: Seq<Seq<char>>, a: Seq<char>)
    ensures
        s.push(a).to_set() == s.to_set().insert(a),
{
    let t = s.push(a);
    assert forall|x: Seq<char>| t.to_set().contains(x) <==> s.to_set().insert(a).contains(
        x,
    ) by {
        if t.contains(x) {
            let i = choose|i: int| 0 <= i < t.len() && t[i] == x;
            if i < s.len() {
                assert(s[i] == x);
                assert(s.contains(x));
            }
        }
        if s.contains(x) {
            let i = choose|i: int| 0 <= i < s.len() && s[i] == x;
            assert(t[i] == x);
        }
        if x == a {
            assert(t[s.len() as int] == a);
        }
    }
    assert(t.to_set() =~= s.to_set().insert(a));
}

/// Adding a new item at the end keeps a list free of duplicates.
pub proof fn distinct_push(s: Seq<Seq<char>>, a: Seq<char>)
    requires
        s.no_duplicates(),
        !s.contains(a),
    ensures
        s.push(a).no_duplicates(),
{
    let t = s.push(a);
    assert forall|i: int, j: int| 0 <= i < t.len() && 0 <= j < t.len() && i != j implies t[i]
        != t[j] by {
        if i < s.len() && j < s.len() {
        } else if i < s.len() {
            assert(s.contains(s[i]));
        } else {
            assert(s.contains(s[j]));
        }
    }
}

/// Does the list hold a string with the text of `s`?
pub fn contains_text(v: &Vec<String>, s: &String) -> (found: bool)
    ensures
        found == texts(v@).contains(s@),
{
    let mut i: usize = 0;
    while i < v.len()
        invariant
            i <= v.len(),
            forall|j: int| 0 <= j < i ==> texts(v@)[j] != s@,
        decreases v.len() - i,
    {
        if v[i] == *s {
            assert(texts(v@)[i as int] == s@);
            return true;
        }
        i += 1;
    }
    false
}

/// Adds `s` at the end of the list unless a string with the same text is in
/// it. Says whether it was added.
pub fn insert_text(v: &mut Vec<String>, s: String) -> (added: bool)
    ensures
        added == !texts(old(v)@).contains(s@),
        added ==> final(v)@ == old(v)@.push(s),
        !added ==> final(v)@ == old(v)@,
        texts(final(v)@).to_set() == texts(old(v)@).to_set().insert(s@),
        texts(old(v)@).no_duplicates() ==> texts(final(v)@).no_duplicates(),
{
    if contains_text(v, &s) {
        assert(texts(v@).to_set() =~= texts(v@).to_set().insert(s@));
        false
    } else {
        proof {
            texts_push(v@, s);
            push_to_set(texts(v@), s@);
            if texts(v@).no_duplicates() {
                distinct_push(texts(v@), s@);
            }
        }
        v.push(s);
        true
    }
}

/// A copy of the list: the same texts in the same order.
pub fn clone_texts(v: &Vec<String>) -> (copy: Vec<String>)
    ensures
        texts(copy@) == texts(v@),
{
    let mut copy: Vec<String> = Vec::new();
    let mut i: usize = 0;
    while i < v.len()
        invariant
            i <= v.len(),
            copy.len() == i,
            forall|j: int| 0 <= j < i ==> copy@[j]@ == v@[j]@,
        decreases v.len() - i,
    {
        copy.push(v[i].clone());
        i += 1;
    }
    assert(texts(copy@) =~= texts(v@));
    copy
}

} // verus!
