//! A small verified association list keyed by `String`, used for the handler
//! registry and the routing runtime. Lookup takes the first entry whose key
//! matches, so inserting at the front shadows older entries, which mirrors the
//! "last registration wins" behaviour of a map insert.
use vstd::prelude::*;

verus! {

/// First-match lookup over an association sequence.
pub open spec fn lookup<T>(s: Seq<(String, T)>, name: Seq<char>) -> Option<T>
    decreases s.len(),
{
    if s.len() == 0 {
        None
    } else if s[0].0@ == name {
        Some(s[0].1)
    } else {
        lookup(s.drop_first(), name)
    }
}

/// Prepending an entry makes its key map to its value and leaves every other
/// key unchanged.
pub proof fn lemma_lookup_prepend<T>(s: Seq<(String, T)>, p: (String, T))
    ensures
        lookup(seq![p] + s, p.0@) == Some(p.1),
        forall|m: Seq<char>| m != p.0@ ==> #[trigger] lookup(seq![p] + s, m) == lookup(s, m),
{
    let t = seq![p] + s;
    assert(t[0] == p);
    assert(t.drop_first() =~= s);
}

/// Replacing the first entry that holds a key rebinds that key and leaves
/// every other key unchanged, provided no earlier entry holds it.
pub proof fn lemma_lookup_update<T>(s: Seq<(String, T)>, i: int, p: (String, T))
    requires
        0 <= i < s.len(),
        forall|j: int| 0 <= j < i ==> s[j].0@ != p.0@,
        s[i].0@ == p.0@,
    ensures
        lookup(s.update(i, p), p.0@) == Some(p.1),
        forall|m: Seq<char>| m != p.0@ ==> #[trigger] lookup(s.update(i, p), m) == lookup(s, m),
    decreases i,
{
    let t = s.update(i, p);
    if i == 0 {
        assert(t[0] == p);
        assert(t.drop_first() =~= s.drop_first());
        assert forall|m: Seq<char>| m != p.0@ implies lookup(t, m) == lookup(s, m) by {
            assert(lookup(t, m) == lookup(t.drop_first(), m));
            assert(lookup(s, m) == lookup(s.drop_first(), m));
        }
    } else {
        assert(t[0] == s[0]);
        assert(s[0].0@ != p.0@);
        assert(t.drop_first() =~= s.drop_first().update(i - 1, p));
        lemma_lookup_update(s.drop_first(), i - 1, p);
        assert(lookup(t, p.0@) == lookup(t.drop_first(), p.0@));
        assert forall|m: Seq<char>| m != p.0@ implies lookup(t, m) == lookup(s, m) by {
            if t[0].0@ == m {
                assert(lookup(t, m) == Some(t[0].1));
                assert(lookup(s, m) == Some(s[0].1));
            } else {
                assert(lookup(t, m) == lookup(t.drop_first(), m));
                assert(lookup(s, m) == lookup(s.drop_first(), m));
                assert(lookup(t.drop_first(), m) == lookup(s.drop_first(), m));
            }
        }
    }
}

/// Returns a reference to the value bound to `name`, if any.
pub fn get<'a, T>(v: &'a Vec<(String, T)>, name: &str) -> (r: Option<&'a T>)
    ensures
        match r {
            Some(t) => lookup(v@, name@) == Some(*t),
            None => lookup(v@, name@) is None,
        },
{
    let key: String = name.to_owned();
    let n = v.len();
    let mut i: usize = 0;
    proof {
        assert(v@.skip(0) =~= v@);
    }
    while i < n
        invariant
            i <= n,
            n == v@.len(),
            key@ == name@,
            lookup(v@.skip(i as int), name@) == lookup(v@, name@),
            forall|j: int| 0 <= j < i ==> v@[j].0@ != name@,
        decreases n - i,
    {
        if v[i].0 == key {
            proof {
                assert(v@.skip(i as int)[0] == v@[i as int]);
            }
            return Some(&v[i].1);
        }
        proof {
            assert(v@.skip(i as int).drop_first() =~= v@.skip(i as int + 1));
        }
        i = i + 1;
    }
    proof {
        assert(v@.skip(n as int) =~= Seq::<(String, T)>::empty());
    }
    None
}

/// Binds `name` to `value`, shadowing any earlier binding of the same key.
pub fn put<T>(v: &mut Vec<(String, T)>, name: &str, value: T)
    ensures
        lookup(final(v)@, name@) == Some(value),
        forall|m: Seq<char>| m != name@ ==> #[trigger] lookup(final(v)@, m) == lookup(old(v)@, m),
        final(v)@.len() == old(v)@.len() + 1,
{
    let key: String = name.to_owned();
    let ghost p = (key, value);
    v.insert(0, (key, value));
    proof {
        assert(v@ =~= seq![p] + old(v)@);
        lemma_lookup_prepend(old(v)@, p);
    }
}

/// Rebinds `name` to `value` in place if it is bound; reports whether it was.
/// When `name` is unbound the list is left as it was.
pub fn replace<T>(v: &mut Vec<(String, T)>, name: &str, value: T) -> (r: bool)
    ensures
        r == (lookup(old(v)@, name@) is Some),
        r ==> lookup(final(v)@, name@) == Some(value),
        r ==> forall|m: Seq<char>| m != name@ ==> #[trigger] lookup(final(v)@, m) == lookup(
            old(v)@,
            m,
        ),
        !r ==> final(v)@ == old(v)@,
        final(v)@.len() == old(v)@.len(),
{
    let key: String = name.to_owned();
    let n = v.len();
    let mut i: usize = 0;
    proof {
        assert(v@.skip(0) =~= v@);
    }
    while i < n
        invariant
            i <= n,
            n == v@.len(),
            v@ == old(v)@,
            key@ == name@,
            lookup(v@.skip(i as int), name@) == lookup(v@, name@),
            forall|j: int| 0 <= j < i ==> v@[j].0@ != name@,
        decreases n - i,
    {
        if v[i].0 == key {
            proof {
                assert(v@.skip(i as int)[0] == v@[i as int]);
            }
            let old_pair = v.remove(i);
            let new_pair = (old_pair.0, value);
            let ghost gp = new_pair;
            v.insert(i, new_pair);
            proof {
                assert(v@ =~= old(v)@.update(i as int, gp));
                lemma_lookup_update(old(v)@, i as int, gp);
            }
            return true;
        }
        proof {
            assert(v@.skip(i as int).drop_first() =~= v@.skip(i as int + 1));
        }
        i = i + 1;
    }
    proof {
        assert(v@.skip(n as int) =~= Seq::<(String, T)>::empty());
    }
    false
}

} // verus!
