//! The query parameters of a call.

use vstd::prelude::*;
use vstd::string::*;
use vstd::utf8::{decode_utf8, encode_utf8, encode_utf8_decode_utf8};

verus! {

/// Query parameters: names with their values, no name twice, in the order
/// in which the names were first inserted.
#[derive(Debug, PartialEq, Eq)]
pub struct Params {
    pairs: Vec<(String, String)>,
}

/// Whether some pair of `s` has the name `key`.
pub open spec fn has_key(s: Seq<(Seq<char>, Seq<char>)>, key: Seq<char>) -> bool {
    exists|i: int| 0 <= i < s.len() && (#[trigger] s[i]).0 == key
}

/// The position of a pair named `key`, where `s` has one.
pub open spec fn key_index(s: Seq<(Seq<char>, Seq<char>)>, key: Seq<char>) -> int {
    choose|i: int| 0 <= i < s.len() && (#[trigger] s[i]).0 == key
}

/// No name occurs in two pairs of `s`.
pub open spec fn keys_distinct(s: Seq<(Seq<char>, Seq<char>)>) -> bool {
    forall|i: int, j: int|
        0 <= i < j < s.len() ==> (#[trigger] s[i]).0 != (#[trigger] s[j]).0
}

/// The value that `s` holds under `key`.
pub open spec fn value_of(s: Seq<(Seq<char>, Seq<char>)>, key: Seq<char>) -> Option<Seq<char>> {
    if has_key(s, key) {
        Some(s[key_index(s, key)].1)
    } else {
        None
    }
}

/// `s` with `value` under `key`: in place of the old value where `s` has
/// the name, as a new last pair where it has not.
pub open spec fn put(s: Seq<(Seq<char>, Seq<char>)>, key: Seq<char>, value: Seq<char>) -> Seq<
    (Seq<char>, Seq<char>),
> {
    if has_key(s, key) {
        s.update(key_index(s, key), (key, value))
    } else {
        s.push((key, value))
    }
}

/// After `put`, the name holds the value, and no name occurs twice.
pub proof fn lemma_put_holds(s: Seq<(Seq<char>, Seq<char>)>, key: Seq<char>, value: Seq<char>)
    requires
        keys_distinct(s),
    ensures
        keys_distinct(put(s, key, value)),
        value_of(put(s, key, value), key) == Some(value),
        put(s, key, value).len() == if has_key(s, key) {
            s.len()
        } else {
            s.len() + 1
        },
{
    let after = put(s, key, value);
    let at = if has_key(s, key) {
        key_index(s, key)
    } else {
        s.len() as int
    };
    assert(after[at] == (key, value));
    assert forall|i: int| 0 <= i < after.len() implies (#[trigger] after[i]).0 == if i == at {
        key
    } else {
        s[i].0
    } by {}
    assert(keys_distinct(after)) by {
        assert forall|i: int, j: int| 0 <= i < j < after.len() implies (#[trigger] after[i]).0 != (
        #[trigger] after[j]).0 by {
            if i != at && j != at {
                assert(s[i].0 != s[j].0);
            } else if has_key(s, key) {
                assert(s[i].0 != s[j].0);
            } else if i == at {
            } else {
                assert(s[i].0 != key);
            }
        }
    }
    assert(has_key(after, key));
    let found = key_index(after, key);
    if found != at {
        if found < at {
            assert(after[found].0 != after[at].0);
        } else {
            assert(after[at].0 != after[found].0);
        }
    }
}

/// `put` leaves the values of all other names as they were.
pub proof fn lemma_put_keeps(
    s: Seq<(Seq<char>, Seq<char>)>,
    key: Seq<char>,
    value: Seq<char>,
    other: Seq<char>,
)
    requires
        keys_distinct(s),
        other != key,
    ensures
        value_of(put(s, key, value), other) == value_of(s, other),
{
    let after = put(s, key, value);
    lemma_put_holds(s, key, value);
    let at = if has_key(s, key) {
        key_index(s, key)
    } else {
        s.len() as int
    };
    assert forall|i: int| 0 <= i < s.len() && i != at implies #[trigger] after[i] == s[i] by {}
    if has_key(s, other) {
        let i = key_index(s, other);
        assert(after[i] == s[i]);
        assert(has_key(after, other));
        let j = key_index(after, other);
        if i != j {
            if i < j {
                assert(after[i].0 != after[j].0);
            } else {
                assert(after[j].0 != after[i].0);
            }
        }
    } else {
        if has_key(after, other) {
            let j = key_index(after, other);
            assert(j != at);
            assert(s[j].0 == other);
        }
    }
}

/// The pairs of `v`, each string by its characters.
pub open spec fn pairs_view(v: Seq<(String, String)>) -> Seq<(Seq<char>, Seq<char>)> {
    Seq::new(v.len(), |i: int| (v[i].0@, v[i].1@))
}

/// Whether `a` and `b` hold the same text.
fn same_text(a: &str, b: &str) -> (same: bool)
    ensures
        same == (a@ == b@),
{
    let x = a.as_bytes();
    let y = b.as_bytes();
    proof {
        encode_utf8_decode_utf8(a@);
        encode_utf8_decode_utf8(b@);
        assert(a@ == decode_utf8(x@));
        assert(b@ == decode_utf8(y@));
    }
    if x.len() != y.len() {
        return false;
    }
    let mut i: usize = 0;
    while i < x.len()
        invariant
            i <= x.len(),
            x.len() == y.len(),
            x@ == encode_utf8(a@),
            y@ == encode_utf8(b@),
            forall|j: int| 0 <= j < i ==> x[j] == y[j],
        decreases x.len() - i,
    {
        if x[i] != y[i] {
            return false;
        }
        i += 1;
    }
    assert(x@ =~= y@);
    true
}

/// Where `pairs` holds the name `key`.
fn position(pairs: &Vec<(String, String)>, key: &str) -> (at: Option<usize>)
    ensures
        match at {
            Some(i) => i < pairs.len() && pairs_view(pairs@)[i as int].0 == key@,
            None => !has_key(pairs_view(pairs@), key@),
        },
{
    let mut i: usize = 0;
    while i < pairs.len()
        invariant
            i <= pairs.len(),
            forall|j: int| 0 <= j < i ==> (#[trigger] pairs_view(pairs@)[j]).0 != key@,
        decreases pairs.len() - i,
    {
        if same_text(pairs[i].0.as_str(), key) {
            return Some(i);
        }
        i += 1;
    }
    None
}

impl View for Params {
    type V = Seq<(Seq<char>, Seq<char>)>;

    closed spec fn view(&self) -> Seq<(Seq<char>, Seq<char>)> {
        pairs_view(self.pairs@)
    }
}

impl Clone for Params {
    fn clone(&self) -> (copy: Params)
        ensures
            copy@ == self@,
    {
        proof {
            use_type_invariant(self);
        }
        let mut pairs: Vec<(String, String)> = Vec::new();
        let mut i: usize = 0;
        while i < self.pairs.len()
            invariant
                i <= self.pairs.len(),
                pairs.len() == i,
                pairs_view(pairs@) == pairs_view(self.pairs@).take(i as int),
            decreases self.pairs.len() - i,
        {
            let ghost copied = pairs@;
            pairs.push((self.pairs[i].0.clone(), self.pairs[i].1.clone()));
            assert forall|j: int| 0 <= j <= i implies pairs_view(pairs@)[j] == pairs_view(
                self.pairs@,
            )[j] by {
                if j < i {
                    assert(pairs@[j] == copied[j]);
                    assert(pairs_view(copied)[j] == pairs_view(self.pairs@).take(i as int)[j]);
                }
            }
            assert(pairs_view(pairs@) =~= pairs_view(self.pairs@).take(i + 1));
            i += 1;
        }
        assert(pairs_view(self.pairs@).take(i as int) =~= pairs_view(self.pairs@));
        Params { pairs }
    }
}

impl Params {
    #[verifier::type_invariant]
    closed spec fn names_unique(self) -> bool {
        keys_distinct(self@)
    }

    /// No parameters.
    pub fn new() -> (params: Params)
        ensures
            params@ == Seq::<(Seq<char>, Seq<char>)>::empty(),
    {
        Params { pairs: Vec::new() }
    }

    /// The pairs as they are stored.
    pub(crate) fn pairs(&self) -> (pairs: &Vec<(String, String)>)
        ensures
            pairs_view(pairs@) == self@,
            keys_distinct(self@),
    {
        proof {
            use_type_invariant(self);
        }
        &self.pairs
    }

    /// The number of parameters.
    pub fn len(&self) -> (n: usize)
        ensures
            n == self@.len(),
            keys_distinct(self@),
    {
        proof {
            use_type_invariant(self);
        }
        self.pairs.len()
    }

    /// The value under `key`.
    pub fn get(&self, key: &str) -> (value: Option<&String>)
        ensures
            match value {
                Some(v) => value_of(self@, key@) == Some(v@),
                None => value_of(self@, key@) is None,
            },
    {
        proof {
            use_type_invariant(self);
        }
        match position(&self.pairs, key) {
            Some(i) => {
                proof {
                    let found = key_index(self@, key@);
                    assert(self@[i as int].0 == key@);
                    if found < i {
                        assert(self@[found].0 != self@[i as int].0);
                    } else if i < found {
                        assert(self@[i as int].0 != self@[found].0);
                    }
                }
                Some(&self.pairs[i].1)
            },
            None => None,
        }
    }

    /// Puts `value` under `key` and returns the value that was there.
    pub fn insert(&mut self, key: String, value: String) -> (prior: Option<String>)
        ensures
            final(self)@ == put(old(self)@, key@, value@),
            keys_distinct(final(self)@),
            match prior {
                Some(p) => value_of(old(self)@, key@) == Some(p@),
                None => value_of(old(self)@, key@) is None,
            },
    {
        proof {
            use_type_invariant(&*self);
        }
        let mut pairs: Vec<(String, String)> = Vec::new();
        std::mem::swap(&mut self.pairs, &mut pairs);
        let ghost before = pairs_view(pairs@);
        let prior = match position(&pairs, key.as_str()) {
            Some(i) => {
                let prior = pairs[i].1.clone();
                pairs.set(i, (key, value));
                assert(pairs_view(pairs@) =~= before.update(i as int, (key@, value@)));
                Some(prior)
            },
            None => {
                pairs.push((key, value));
                assert(pairs_view(pairs@) =~= before.push((key@, value@)));
                None
            },
        };
        assert(keys_distinct(pairs_view(pairs@)));
        self.pairs = pairs;
        prior
    }
}

} // verus!
