//! The two in-memory collections that hold the contract's state: a map keyed
//! by account id and a set of kickstarter ids. Both keep their elements in a
//! vector and remove by swapping the last element into the hole, so their
//! iteration order is the one of an append-only list with swap-removal.

use vstd::prelude::*;

verus! {

/// `s` with the element at `i` replaced by the last one, and the last slot dropped.
pub open spec fn seq_swap_remove<A>(s: Seq<A>, i: int) -> Seq<A> {
    s.update(i, s.last()).drop_last()
}

/// `s` with `x` swap-removed when it occurs, else `s` itself.
pub open spec fn seq_swap_remove_value<A>(s: Seq<A>, x: A) -> Seq<A> {
    if s.contains(x) {
        seq_swap_remove(s, s.index_of(x))
    } else {
        s
    }
}

/// `s` with `x` appended when it does not occur yet.
pub open spec fn seq_insert_value<A>(s: Seq<A>, x: A) -> Seq<A> {
    if s.contains(x) {
        s
    } else {
        s.push(x)
    }
}

pub proof fn lemma_index_of_unique<A>(s: Seq<A>, i: int)
    requires
        s.no_duplicates(),
        0 <= i < s.len(),
    ensures
        s.index_of(s[i]) == i,
{
    assert(s.contains(s[i]));
    let j = s.index_of(s[i]);
    assert(0 <= j < s.len() && s[j] == s[i]);
}

pub proof fn lemma_swap_remove_no_duplicates<A>(s: Seq<A>, i: int)
    requires
        s.no_duplicates(),
        0 <= i < s.len(),
    ensures
        seq_swap_remove(s, i).no_duplicates(),
        seq_swap_remove(s, i).len() == s.len() - 1,
        forall|x: A| #[trigger]
            seq_swap_remove(s, i).contains(x) <==> (s.contains(x) && x != s[i]),
{
    let t = seq_swap_remove(s, i);
    let n = s.len();
    assert forall|a: int, b: int| 0 <= a < t.len() && 0 <= b < t.len() && a != b implies t[a]
        != t[b] by {
        let ia = if a == i { n - 1 } else { a };
        let ib = if b == i { n - 1 } else { b };
        assert(t[a] == s[ia] && t[b] == s[ib]);
    }
    assert forall|x: A| #[trigger] t.contains(x) <==> (s.contains(x) && x != s[i]) by {
        if t.contains(x) {
            let a = choose|a: int| 0 <= a < t.len() && t[a] == x;
            let ia = if a == i { n - 1 } else { a };
            assert(s[ia] == x);
        }
        if s.contains(x) && x != s[i] {
            let a = choose|a: int| 0 <= a < s.len() && s[a] == x;
            if a == n - 1 {
                assert(t[i] == x);
            } else {
                assert(t[a] == x);
            }
        }
    }
}

/// Swap-removing a value keeps the sequence free of duplicates and leaves
/// only elements that were there.
pub proof fn lemma_swap_remove_value_subset<A>(s: Seq<A>, x: A)
    requires
        s.no_duplicates(),
    ensures
        seq_swap_remove_value(s, x).no_duplicates(),
        forall|y: A| #[trigger] seq_swap_remove_value(s, x).contains(y) ==> s.contains(y),
        forall|i: int|
            0 <= i < seq_swap_remove_value(s, x).len() ==> s.contains(
                #[trigger] seq_swap_remove_value(s, x)[i],
            ),
{
    if s.contains(x) {
        let i = s.index_of(x);
        lemma_swap_remove_no_duplicates(s, i);
        let t = seq_swap_remove(s, i);
        assert forall|j: int| 0 <= j < t.len() implies s.contains(#[trigger] t[j]) by {
            assert(t.contains(t[j]));
        }
    }
}

/// A set of kickstarter ids that remembers the order in which they were added.
pub struct IdSet {
    ids: Vec<u32>,
}

impl View for IdSet {
    type V = Seq<u32>;

    closed spec fn view(&self) -> Seq<u32> {
        self.ids@
    }
}

impl Clone for IdSet {
    fn clone(&self) -> (r: Self)
        ensures
            r@ == self@,
            r.wf() == self.wf(),
    {
        IdSet { ids: self.ids.clone() }
    }
}

impl IdSet {
    /// No id occurs twice.
    pub open spec fn wf(&self) -> bool {
        self@.no_duplicates()
    }

    pub fn new() -> (r: IdSet)
        ensures
            r.wf(),
            r@ == Seq::<u32>::empty(),
    {
        IdSet { ids: Vec::new() }
    }

    pub fn len(&self) -> (r: usize)
        ensures
            r == self@.len(),
    {
        self.ids.len()
    }

    pub fn is_empty(&self) -> (r: bool)
        ensures
            r == (self@.len() == 0),
    {
        self.ids.len() == 0
    }

    fn position(&self, id: u32) -> (r: Option<usize>)
        ensures
            match r {
                Some(i) => i < self@.len() && self@[i as int] == id,
                None => !self@.contains(id),
            },
    {
        let mut i: usize = 0;
        while i < self.ids.len()
            invariant
                i <= self.ids@.len(),
                forall|j: int| 0 <= j < i ==> self.ids@[j] != id,
            decreases self.ids@.len() - i,
        {
            if self.ids[i] == id {
                return Some(i);
            }
            i = i + 1;
        }
        None
    }

    pub fn contains(&self, id: u32) -> (r: bool)
        ensures
            r == self@.contains(id),
    {
        self.position(id).is_some()
    }

    /// Adds `id` at the end unless it is already present.
    pub fn insert(&mut self, id: u32)
        requires
            old(self).wf(),
        ensures
            final(self).wf(),
            final(self)@ == seq_insert_value(old(self)@, id),
    {
        if !self.contains(id) {
            self.ids.push(id);
            proof {
                let s = final(self).ids@;
                assert forall|a: int, b: int|
                    0 <= a < s.len() && 0 <= b < s.len() && a != b implies s[a] != s[b] by {
                    if a == s.len() - 1 {
                        assert(old(self)@.contains(s[b]));
                    } else if b == s.len() - 1 {
                        assert(old(self)@.contains(s[a]));
                    }
                }
            }
        }
    }

    /// Removes `id` by moving the last id into its place.
    pub fn remove(&mut self, id: u32)
        requires
            old(self).wf(),
        ensures
            final(self).wf(),
            final(self)@ == seq_swap_remove_value(old(self)@, id),
    {
        match self.position(id) {
            Some(i) => {
                proof {
                    lemma_index_of_unique(self.ids@, i as int);
                    lemma_swap_remove_no_duplicates(self.ids@, i as int);
                }
                self.ids.swap_remove(i);
            },
            None => {},
        }
    }

    /// Whether no id occurs twice.
    pub fn check_wf(&self) -> (r: bool)
        ensures
            r ==> self.wf(),
    {
        let n = self.ids.len();
        let mut i: usize = 0;
        while i < n
            invariant
                n == self.ids@.len(),
                i <= n,
                forall|a: int, b: int| 0 <= a < i && 0 <= b < i && a != b ==> self.ids@[a] != self.ids@[b],
            decreases n - i,
        {
            let mut j: usize = 0;
            while j < i
                invariant
                    n == self.ids@.len(),
                    j <= i < n,
                    forall|b: int| 0 <= b < j ==> self.ids@[b] != self.ids@[i as int],
                decreases i - j,
            {
                if self.ids[j] == self.ids[i] {
                    return false;
                }
                j = j + 1;
            }
            i = i + 1;
        }
        true
    }

    pub fn to_vec(&self) -> (r: Vec<u32>)
        ensures
            r@ == self@,
    {
        self.ids.clone()
    }
}

/// A map from account ids to values that remembers the order of its keys.
pub struct AccountMap<V> {
    keys: Vec<String>,
    values: Vec<V>,
}

impl<V> AccountMap<V> {
    /// The keys, in order, as character sequences.
    pub closed spec fn key_seq(&self) -> Seq<Seq<char>> {
        self.keys@.map_values(|k: String| k@)
    }

    /// Keys and values line up and no key occurs twice.
    pub closed spec fn wf(&self) -> bool {
        &&& self.keys@.len() == self.values@.len()
        &&& self.key_seq().no_duplicates()
    }
}

impl<V> View for AccountMap<V> {
    type V = Map<Seq<char>, V>;

    closed spec fn view(&self) -> Map<Seq<char>, V> {
        Map::new(
            |k: Seq<char>| self.key_seq().contains(k),
            |k: Seq<char>| self.values@[self.key_seq().index_of(k)],
        )
    }
}

impl<V> AccountMap<V> {
    proof fn lemma_view_at(&self, i: int)
        requires
            self.wf(),
            0 <= i < self.keys@.len(),
        ensures
            self@.contains_key(self.key_seq()[i]),
            self@[self.key_seq()[i]] == self.values@[i],
    {
        lemma_index_of_unique(self.key_seq(), i);
        assert(self.key_seq().contains(self.key_seq()[i]));
    }

    /// A key occurs in the key order exactly when the map holds it.
    pub proof fn lemma_key_seq_dom(&self)
        ensures
            forall|k: Seq<char>| #[trigger] self.key_seq().contains(k) <==> self@.contains_key(k),
    {
    }

    pub fn new() -> (r: AccountMap<V>)
        ensures
            r.wf(),
            r@ == Map::<Seq<char>, V>::empty(),
            r.key_seq() == Seq::<Seq<char>>::empty(),
    {
        let r = AccountMap { keys: Vec::new(), values: Vec::new() };
        assert(r@ =~= Map::<Seq<char>, V>::empty());
        assert(r.key_seq() =~= Seq::<Seq<char>>::empty());
        r
    }

    pub fn len(&self) -> (r: usize)
        requires
            self.wf(),
        ensures
            r == self@.len(),
            r == self.key_seq().len(),
            self@.dom().finite(),
    {
        proof {
            self.key_seq().unique_seq_to_set();
            assert(self@.dom() =~= self.key_seq().to_set());
        }
        self.keys.len()
    }

    fn position(&self, k: &String) -> (r: Option<usize>)
        requires
            self.wf(),
        ensures
            match r {
                Some(i) => i < self.keys@.len() && self.key_seq()[i as int] == k@,
                None => !self.key_seq().contains(k@),
            },
    {
        let mut i: usize = 0;
        while i < self.keys.len()
            invariant
                i <= self.keys@.len(),
                forall|j: int| 0 <= j < i ==> self.key_seq()[j] != k@,
            decreases self.keys@.len() - i,
        {
            if self.keys[i] == *k {
                return Some(i);
            }
            i = i + 1;
        }
        None
    }

    pub fn get(&self, k: &String) -> (r: Option<&V>)
        requires
            self.wf(),
        ensures
            match r {
                Some(v) => self@.contains_key(k@) && *v == self@[k@],
                None => !self@.contains_key(k@),
            },
    {
        match self.position(k) {
            Some(i) => {
                proof {
                    self.lemma_view_at(i as int);
                }
                Some(&self.values[i])
            },
            None => None,
        }
    }

    pub fn contains_key(&self, k: &String) -> (r: bool)
        requires
            self.wf(),
        ensures
            r == self@.contains_key(k@),
    {
        self.position(k).is_some()
    }

    /// Sets the value of `k`, appending `k` to the keys when it is new.
    pub fn insert(&mut self, k: String, v: V)
        requires
            old(self).wf(),
        ensures
            final(self).wf(),
            final(self)@ == old(self)@.insert(k@, v),
            final(self).key_seq() == seq_insert_value(old(self).key_seq(), k@),
    {
        let ghost old_keys = self.key_seq();
        match self.position(&k) {
            Some(i) => {
                self.values.set(i, v);
                proof {
                    assert(self.key_seq() == old_keys);
                    assert forall|key: Seq<char>| #[trigger]
                        self@.contains_key(key) == old(self)@.insert(k@, v).contains_key(key)
                        && (self@.contains_key(key) ==> self@[key] == old(self)@.insert(
                        k@,
                        v,
                    )[key]) by {
                        if old_keys.contains(key) {
                            let j = old_keys.index_of(key);
                            lemma_index_of_unique(old_keys, j);
                            old(self).lemma_view_at(j);
                            self.lemma_view_at(j);
                            if j == i {
                                assert(key == k@);
                            }
                        }
                    }
                    assert(self@ =~= old(self)@.insert(k@, v));
                }
            },
            None => {
                self.keys.push(k);
                self.values.push(v);
                proof {
                    let ks = self.key_seq();
                    assert(ks =~= old_keys.push(k@));
                    assert forall|a: int, b: int|
                        0 <= a < ks.len() && 0 <= b < ks.len() && a != b implies ks[a]
                        != ks[b] by {
                        if a == ks.len() - 1 {
                            assert(old_keys.contains(ks[b]));
                        } else if b == ks.len() - 1 {
                            assert(old_keys.contains(ks[a]));
                        }
                    }
                    assert forall|key: Seq<char>| #[trigger]
                        self@.contains_key(key) == old(self)@.insert(k@, v).contains_key(key)
                        && (self@.contains_key(key) ==> self@[key] == old(self)@.insert(
                        k@,
                        v,
                    )[key]) by {
                        if key == k@ {
                            self.lemma_view_at(ks.len() - 1);
                        } else if old_keys.contains(key) {
                            let j = old_keys.index_of(key);
                            lemma_index_of_unique(old_keys, j);
                            old(self).lemma_view_at(j);
                            self.lemma_view_at(j);
                        } else {
                            assert(!ks.contains(key));
                        }
                    }
                    assert(self@ =~= old(self)@.insert(k@, v));
                }
            },
        }
    }

    /// Removes `k`, moving the last key and value into its place.
    pub fn remove(&mut self, k: &String)
        requires
            old(self).wf(),
        ensures
            final(self).wf(),
            final(self)@ == old(self)@.remove(k@),
            final(self).key_seq() == seq_swap_remove_value(old(self).key_seq(), k@),
    {
        let ghost old_keys = self.key_seq();
        match self.position(k) {
            Some(i) => {
                proof {
                    lemma_index_of_unique(old_keys, i as int);
                    lemma_swap_remove_no_duplicates(old_keys, i as int);
                }
                self.keys.swap_remove(i);
                self.values.swap_remove(i);
                proof {
                    let ks = self.key_seq();
                    assert(ks =~= seq_swap_remove(old_keys, i as int));
                    assert forall|key: Seq<char>| #[trigger]
                        self@.contains_key(key) == old(self)@.remove(k@).contains_key(key) && (
                        self@.contains_key(key) ==> self@[key] == old(self)@.remove(k@)[key]) by {
                        if ks.contains(key) {
                            let j = ks.index_of(key);
                            lemma_index_of_unique(ks, j);
                            self.lemma_view_at(j);
                            let oj = if j == i { old_keys.len() - 1 } else { j };
                            assert(old_keys[oj] == key);
                            old(self).lemma_view_at(oj);
                        }
                    }
                    assert(self@ =~= old(self)@.remove(k@));
                }
            },
            None => {
                assert(self@ =~= old(self)@.remove(k@));
            },
        }
    }

    /// Whether keys and values line up and no key occurs twice.
    pub fn check_wf(&self) -> (r: bool)
        ensures
            r ==> self.wf(),
    {
        if self.keys.len() != self.values.len() {
            return false;
        }
        let n = self.keys.len();
        let mut i: usize = 0;
        while i < n
            invariant
                n == self.keys@.len(),
                i <= n,
                forall|a: int, b: int|
                    0 <= a < i && 0 <= b < i && a != b ==> self.key_seq()[a] != self.key_seq()[b],
            decreases n - i,
        {
            let mut j: usize = 0;
            while j < i
                invariant
                    n == self.keys@.len(),
                    j <= i < n,
                    forall|b: int| 0 <= b < j ==> self.key_seq()[b] != self.key_seq()[i as int],
                decreases i - j,
            {
                if self.keys[j] == self.keys[i] {
                    return false;
                }
                j = j + 1;
            }
            i = i + 1;
        }
        true
    }

    /// The value stored under the `i`-th key.
    pub fn value_at(&self, i: usize) -> (r: &V)
        requires
            self.wf(),
            i < self.key_seq().len(),
        ensures
            self@.contains_key(self.key_seq()[i as int]),
            *r == self@[self.key_seq()[i as int]],
    {
        proof {
            self.lemma_view_at(i as int);
        }
        &self.values[i]
    }

    /// The keys, in order.
    pub fn keys(&self) -> (r: Vec<String>)
        ensures
            r@.map_values(|k: String| k@) == self.key_seq(),
    {
        let r = self.keys.clone();
        proof {
            assert(r@.map_values(|k: String| k@) =~= self.key_seq());
        }
        r
    }
}

} // verus!
