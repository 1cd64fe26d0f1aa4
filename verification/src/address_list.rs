//! Lists of addresses, by their strkeys: removing every occurrence of one
//! address, and what that removal keeps.
use vstd::prelude::*;

verus! {

/// `s` with every occurrence of `x` removed, the others kept in order.
pub open spec fn without(s: Seq<Seq<char>>, x: Seq<char>) -> Seq<Seq<char>>
    decreases s.len(),
{
    if s.len() == 0 {
        Seq::empty()
    } else {
        let rest = without(s.drop_last(), x);
        if s.last() == x {
            rest
        } else {
            rest.push(s.last())
        }
    }
}

/// Removing an address never lengthens a list.
pub proof fn lemma_without_len(s: Seq<Seq<char>>, x: Seq<char>)
    ensures
        without(s, x).len() <= s.len(),
    decreases s.len(),
{
    if s.len() > 0 {
        lemma_without_len(s.drop_last(), x);
    }
}

/// What one more element does to the removal.
pub proof fn lemma_without_push(s: Seq<Seq<char>>, y: Seq<char>, x: Seq<char>)
    ensures
        without(s.push(y), x) == (if y == x { without(s, x) } else { without(s, x).push(y) }),
{
    assert(s.push(y).drop_last() =~= s);
}

/// After removal, `y` is in the list exactly when it was before and is not
/// the removed address.
pub proof fn lemma_without_contains(s: Seq<Seq<char>>, x: Seq<char>, y: Seq<char>)
    ensures
        without(s, x).contains(y) <==> (s.contains(y) && y != x),
    decreases s.len(),
{
    if s.len() > 0 {
        let t = s.drop_last();
        lemma_without_contains(t, x, y);
        assert(s =~= t.push(s.last()));
        if t.contains(y) {
            let j = choose|j: int| 0 <= j < t.len() && t[j] == y;
            assert(s[j] == y);
        }
        if s.contains(y) {
            let j = choose|j: int| 0 <= j < s.len() && s[j] == y;
            if j < s.len() - 1 {
                assert(t[j] == y);
            }
        }
        let r = without(t, x);
        if s.last() != x {
            assert(r.push(s.last())[r.len() as int] == s.last());
            if r.contains(y) {
                let j = choose|j: int| 0 <= j < r.len() && r[j] == y;
                assert(r.push(s.last())[j] == y);
            }
            if r.push(s.last()).contains(y) {
                let j = choose|j: int| 0 <= j < r.len() + 1 && r.push(s.last())[j] == y;
                if j < r.len() {
                    assert(r[j] == y);
                }
            }
        }
    }
}

/// A list that does not hold `x` is left as it is by removing `x`.
pub proof fn lemma_without_absent(s: Seq<Seq<char>>, x: Seq<char>)
    requires
        !s.contains(x),
    ensures
        without(s, x) == s,
    decreases s.len(),
{
    if s.len() > 0 {
        let t = s.drop_last();
        if t.contains(x) {
            let j = choose|j: int| 0 <= j < t.len() && t[j] == x;
            assert(s[j] == x);
        }
        lemma_without_absent(t, x);
        assert(s.last() != x) by {
            assert(s[s.len() - 1] == s.last());
        }
        assert(t.push(s.last()) =~= s);
    }
}

} // verus!
