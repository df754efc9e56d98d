//! Tables of text pairs, searched by their first text: the first entry
//! with a key gives its value.
use crate::utils::text::{str_eq, string_of};
use vstd::prelude::*;

verus! {

/// The value of key `a` in a table of text pairs: that of its first entry.
pub open spec fn lookup(t: Seq<(String, String)>, a: Seq<char>) -> Option<Seq<char>>
    decreases t.len(),
{
    if t.len() == 0 {
        None
    } else if t[0].0@ == a {
        Some(t[0].1@)
    } else {
        lookup(t.drop_first(), a)
    }
}

/// The pairs of a table as texts.
pub open spec fn pairs_view(t: Seq<(String, String)>) -> Seq<(Seq<char>, Seq<char>)> {
    t.map_values(|p: (String, String)| (p.0@, p.1@))
}

/// The pairs of a table, as texts, without those whose value is `k`.
pub open spec fn pairs_without(t: Seq<(String, String)>, k: Seq<char>) -> Seq<(Seq<char>, Seq<char>)>
    decreases t.len(),
{
    if t.len() == 0 {
        Seq::empty()
    } else {
        let rest = pairs_without(t.drop_last(), k);
        if t.last().1@ != k {
            rest.push((t.last().0@, t.last().1@))
        } else {
            rest
        }
    }
}

/// The value of `a` in the table, as a new text.
pub fn table_get(t: &Vec<(String, String)>, a: &str) -> (r: Option<String>)
    ensures
        match lookup(t@, a@) {
            Some(k) => r matches Some(x) && x@ == k,
            None => r is None,
        },
{
    let n = t.len();
    let mut i: usize = 0;
    assert(t@.subrange(0, n as int) =~= t@);
    while i < n
        invariant
            n == t@.len(),
            i <= n,
            lookup(t@, a@) == lookup(t@.subrange(i as int, n as int), a@),
        decreases n - i,
    {
        let ghost rest = t@.subrange(i as int, n as int);
        assert(rest.drop_first() =~= t@.subrange(i + 1, n as int));
        if str_eq(t[i].0.as_str(), a) {
            return Some(string_of(t[i].1.as_str()));
        }
        i = i + 1;
    }
    None
}

/// Sets the value of `a` to `v`: the first entry of `a` is replaced, or an
/// entry is appended.
pub fn table_set(t: &mut Vec<(String, String)>, a: &str, v: &str)
    ensures
        lookup(final(t)@, a@) == Some(v@),
        forall|b: Seq<char>| b != a@ ==> lookup(final(t)@, b) == lookup(old(t)@, b),
        final(t)@.len() <= old(t)@.len() + 1,
{
    let n = t.len();
    let mut i: usize = 0;
    while i < n
        invariant
            n == t@.len(),
            t@ == old(t)@,
            i <= n,
            forall|j: int| 0 <= j < i ==> t@[j].0@ != a@,
        decreases n - i,
    {
        if str_eq(t[i].0.as_str(), a) {
            t.set(i, (string_of(a), string_of(v)));
            proof {
                lemma_lookup_update(old(t)@, i as int, t@, a@, v@);
            }
            return;
        }
        i = i + 1;
    }
    t.push((string_of(a), string_of(v)));
    assert(t@.drop_last() =~= old(t)@);
    proof {
        lemma_lookup_push(old(t)@, t@, a@, v@);
    }
}

/// Replacing the first entry of `a` gives the new value of `a` and leaves
/// other addresses as they were.
pub proof fn lemma_lookup_update(t: Seq<(String, String)>, i: int, u: Seq<(String, String)>, a: Seq<char>, k: Seq<char>)
    requires
        0 <= i < t.len(),
        t[i].0@ == a,
        forall|j: int| 0 <= j < i ==> t[j].0@ != a,
        u.len() == t.len(),
        u[i].0@ == a,
        u[i].1@ == k,
        forall|j: int| 0 <= j < t.len() && j != i ==> u[j] == t[j],
    ensures
        lookup(u, a) == Some(k),
        forall|b: Seq<char>| b != a ==> lookup(u, b) == lookup(t, b),
{
    lemma_lookup_update_at(t, i, u, a, k, a);
    assert forall|b: Seq<char>| b != a implies lookup(u, b) == lookup(t, b) by {
        lemma_lookup_update_at(t, i, u, a, k, b);
    }
}

proof fn lemma_lookup_update_at(t: Seq<(String, String)>, i: int, u: Seq<(String, String)>, a: Seq<char>, k: Seq<char>, b: Seq<char>)
    requires
        0 <= i < t.len(),
        t[i].0@ == a,
        forall|j: int| 0 <= j < i ==> t[j].0@ != a,
        u.len() == t.len(),
        u[i].0@ == a,
        u[i].1@ == k,
        forall|j: int| 0 <= j < t.len() && j != i ==> u[j] == t[j],
    ensures
        b == a ==> lookup(u, b) == Some(k),
        b != a ==> lookup(u, b) == lookup(t, b),
    decreases i,
{
    if i == 0 {
        assert(u.drop_first() =~= t.drop_first());
    } else {
        assert(u[0] == t[0]);
        lemma_lookup_update_at(t.drop_first(), i - 1, u.drop_first(), a, k, b);
    }
}

/// Appending an entry for an address not in the table gives its value and
/// leaves other addresses as they were.
pub proof fn lemma_lookup_push(t: Seq<(String, String)>, u: Seq<(String, String)>, a: Seq<char>, k: Seq<char>)
    requires
        forall|j: int| 0 <= j < t.len() ==> t[j].0@ != a,
        u.len() == t.len() + 1,
        u.drop_last() == t,
        u.last().0@ == a,
        u.last().1@ == k,
    ensures
        lookup(u, a) == Some(k),
        forall|b: Seq<char>| b != a ==> lookup(u, b) == lookup(t, b),
{
    lemma_lookup_push_at(t, u, a, k, a);
    assert forall|b: Seq<char>| b != a implies lookup(u, b) == lookup(t, b) by {
        lemma_lookup_push_at(t, u, a, k, b);
    }
}

proof fn lemma_lookup_push_at(t: Seq<(String, String)>, u: Seq<(String, String)>, a: Seq<char>, k: Seq<char>, b: Seq<char>)
    requires
        forall|j: int| 0 <= j < t.len() ==> t[j].0@ != a,
        u.len() == t.len() + 1,
        u.drop_last() == t,
        u.last().0@ == a,
        u.last().1@ == k,
    ensures
        b == a ==> lookup(u, b) == Some(k),
        b != a ==> lookup(u, b) == lookup(t, b),
    decreases t.len(),
{
    if t.len() == 0 {
        assert(u[0].0@ == a);
        assert(u.drop_first().len() == 0);
        assert(lookup(u.drop_first(), b) == None::<Seq<char>>);
    } else {
        assert(u.drop_first().drop_last() =~= t.drop_first());
        assert(u[0] == t[0]);
        lemma_lookup_push_at(t.drop_first(), u.drop_first(), a, k, b);
    }
}

/// A table with no entry of value `k` gives `k` for no key.
pub proof fn lemma_lookup_avoids(t: Seq<(String, String)>, k: Seq<char>)
    requires
        forall|j: int| 0 <= j < t.len() ==> t[j].1@ != k,
    ensures
        forall|a: Seq<char>| lookup(t, a) != Some(k),
{
    assert forall|a: Seq<char>| lookup(t, a) != Some(k) by {
        lemma_lookup_avoids_at(t, k, a);
    }
}

proof fn lemma_lookup_avoids_at(t: Seq<(String, String)>, k: Seq<char>, a: Seq<char>)
    requires
        forall|j: int| 0 <= j < t.len() ==> t[j].1@ != k,
    ensures
        lookup(t, a) != Some(k),
    decreases t.len(),
{
    if t.len() > 0 {
        assert(t[0].1@ != k);
        assert forall|j: int| 0 <= j < t.drop_first().len() implies t.drop_first()[j].1@ != k by {
            assert(t.drop_first()[j] == t[j + 1]);
        }
        lemma_lookup_avoids_at(t.drop_first(), k, a);
    }
}

} // verus!
