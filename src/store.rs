use vstd::prelude::*;

use crate::entity::Entity;

verus! {

/// Whether some record of `s` has key `id`.
pub open spec fn has_key<T: Entity>(s: Seq<T::V>, id: i32) -> bool {
    exists|i: int| 0 <= i < s.len() && T::key(#[trigger] s[i]) == id
}

/// No two records of `s` share a key.
pub open spec fn unique_keys<T: Entity>(s: Seq<T::V>) -> bool {
    forall|i: int, j: int|
        0 <= i < s.len() && 0 <= j < s.len() && i != j ==> T::key(#[trigger] s[i]) != T::key(
            #[trigger] s[j],
        )
}

/// The largest key of a non-empty `s` (0 for an empty one).
pub open spec fn max_key<T: Entity>(s: Seq<T::V>) -> int
    decreases s.len(),
{
    if s.len() == 0 {
        0
    } else if s.len() == 1 {
        T::key(s[0]) as int
    } else {
        let m = max_key::<T>(s.drop_last());
        let k = T::key(s.last()) as int;
        if k > m {
            k
        } else {
            m
        }
    }
}

/// The key that the next inserted record receives: one past the largest key,
/// or 1 in an empty collection.
pub open spec fn next_key<T: Entity>(s: Seq<T::V>) -> int {
    if s.len() == 0 {
        1
    } else {
        max_key::<T>(s) + 1
    }
}

/// `s` after inserting a record with model `c`: it is appended under the
/// next key.
pub open spec fn inserted<T: Entity>(s: Seq<T::V>, c: T::V) -> Seq<T::V> {
    s.push(T::rekey(c, next_key::<T>(s) as i32))
}

/// `s` after inserting the records `cs` one after another.
pub open spec fn inserted_all<T: Entity>(s: Seq<T::V>, cs: Seq<T::V>) -> Seq<T::V>
    decreases cs.len(),
{
    if cs.len() == 0 {
        s
    } else {
        inserted::<T>(inserted_all::<T>(s, cs.drop_last()), cs.last())
    }
}

/// The records of `s` whose key is one of `ids`, in the order of `s`.
pub open spec fn with_keys<T: Entity>(s: Seq<T::V>, ids: Seq<i32>) -> Seq<T::V> {
    s.filter(|v: T::V| ids.contains(T::key(v)))
}

/// The models of the items of `v`, in order.
pub open spec fn models<T: Entity>(v: Seq<T>) -> Seq<T::V> {
    v.map_values(|t: T| t@)
}

/// Every key of a non-empty collection is at most its largest key, which is one of them.
pub proof fn lemma_max_key<T: Entity>(s: Seq<T::V>)
    requires
        s.len() > 0,
    ensures
        forall|i: int| 0 <= i < s.len() ==> T::key(#[trigger] s[i]) <= max_key::<T>(s),
        has_key::<T>(s, max_key::<T>(s) as i32),
        i32::MIN <= max_key::<T>(s) <= i32::MAX,
    decreases s.len(),
{
    if s.len() > 1 {
        let d = s.drop_last();
        lemma_max_key::<T>(d);
        assert forall|i: int| 0 <= i < s.len() implies T::key(#[trigger] s[i]) <= max_key::<T>(
            s,
        ) by {
            if i < s.len() - 1 {
                assert(s[i] == d[i]);
            }
        }
        if T::key(s.last()) as int > max_key::<T>(d) {
            assert(T::key(s[s.len() - 1]) == max_key::<T>(s));
        } else {
            let j = choose|j: int| 0 <= j < d.len() && T::key(#[trigger] d[j]) == max_key::<T>(d) as i32;
            assert(s[j] == d[j]);
        }
    } else {
        assert(T::key(s[0]) == max_key::<T>(s));
    }
}

/// Inserting one record into a collection with unique keys, while the next
/// key fits, gives the record that next key, keeps the keys unique, and moves
/// the next key on by one.
pub proof fn lemma_insert_one<T: Entity>(s: Seq<T::V>, c: T::V)
    requires
        unique_keys::<T>(s),
        next_key::<T>(s) <= i32::MAX,
    ensures
        unique_keys::<T>(inserted::<T>(s, c)),
        next_key::<T>(inserted::<T>(s, c)) == next_key::<T>(s) + 1,
        T::key(inserted::<T>(s, c).last()) == next_key::<T>(s),
{
    let k = next_key::<T>(s) as i32;
    let r = inserted::<T>(s, c);
    T::lemma_rekey(c, k);
    if s.len() > 0 {
        lemma_max_key::<T>(s);
    }
    assert(r.drop_last() =~= s);
    assert forall|i: int, j: int|
        0 <= i < r.len() && 0 <= j < r.len() && i != j implies T::key(#[trigger] r[i]) != T::key(
            #[trigger] r[j],
        ) by {
        if i < s.len() && j < s.len() {
            assert(r[i] == s[i] && r[j] == s[j]);
        } else if i < s.len() {
            assert(r[i] == s[i]);
        } else if j < s.len() {
            assert(r[j] == s[j]);
        }
    }
}

/// Deleting the record at `i` removes that one record and no other, and
/// afterwards no record has its key.
pub proof fn lemma_delete_one<T: Entity>(s: Seq<T::V>, i: int)
    requires
        unique_keys::<T>(s),
        0 <= i < s.len(),
    ensures
        s.remove(i).len() == s.len() - 1,
        !has_key::<T>(s.remove(i), T::key(s[i])),
        unique_keys::<T>(s.remove(i)),
        forall|j: int| 0 <= j < s.len() && j != i ==> s.remove(i).contains(#[trigger] s[j]),
{
    let r = s.remove(i);
    assert forall|a: int| 0 <= a < r.len() implies #[trigger] r[a] == s[if a < i {
        a
    } else {
        a + 1
    }] by {}
    assert forall|a: int| 0 <= a < r.len() implies T::key(#[trigger] r[a]) != T::key(s[i]) by {
        let a2 = if a < i { a } else { a + 1 };
        assert(r[a] == s[a2]);
    }
    assert forall|a: int, b: int|
        0 <= a < r.len() && 0 <= b < r.len() && a != b implies T::key(#[trigger] r[a]) != T::key(
            #[trigger] r[b],
        ) by {
        let a2 = if a < i { a } else { a + 1 };
        let b2 = if b < i { b } else { b + 1 };
        assert(r[a] == s[a2] && r[b] == s[b2]);
    }
    assert forall|j: int| 0 <= j < s.len() && j != i implies r.contains(#[trigger] s[j]) by {
        let j2 = if j < i { j } else { j - 1 };
        assert(r[j2] == s[j]);
    }
}

/// An in-memory collection of records with pairwise distinct keys, kept in
/// insertion order.
pub struct Store<T> {
    items: Vec<T>,
}

impl<T: Entity> View for Store<T> {
    type V = Seq<T::V>;

    closed spec fn view(&self) -> Seq<T::V> {
        models(self.items@)
    }
}

impl<T: Entity> Store<T> {
    /// The invariant of a collection: keys are unique.
    pub open spec fn wf(&self) -> bool {
        unique_keys::<T>(self@)
    }

    /// An empty collection.
    pub fn new() -> (r: Store<T>)
        ensures
            r@ == Seq::<T::V>::empty(),
            r.wf(),
    {
        let r = Store { items: Vec::new() };
        assert(r@ =~= Seq::<T::V>::empty());
        r
    }

    /// The number of records.
    pub fn len(&self) -> (r: usize)
        ensures
            r == self@.len(),
    {
        self.items.len()
    }

    /// The key that an insertion would assign now, or `None` where it would
    /// not fit in an `i32`.
    pub fn next_id(&self) -> (r: Option<i32>)
        ensures
            r is Some <==> next_key::<T>(self@) <= i32::MAX,
            r matches Some(k) ==> k == next_key::<T>(self@),
    {
        let n = self.items.len();
        if n == 0 {
            return Some(1);
        }
        let mut m: i32 = self.items[0].id();
        let mut i: usize = 1;
        assert(self@.take(1).drop_last().len() == 0);
        while i < n
            invariant
                1 <= i <= n,
                n == self@.len(),
                self@ == models(self.items@),
                m == max_key::<T>(self@.take(i as int)),
            decreases n - i,
        {
            let k = self.items[i].id();
            assert(self@.take(i + 1).drop_last() =~= self@.take(i as int));
            assert(self@.take(i + 1).last() == self@[i as int]);
            if k > m {
                m = k;
            }
            i = i + 1;
        }
        assert(self@.take(n as int) =~= self@);
        if m == i32::MAX {
            None
        } else {
            Some(m + 1)
        }
    }

    /// Copies of all records, in order.
    pub fn list(&self) -> (r: Vec<T>)
        ensures
            models(r@) == self@,
    {
        let mut r: Vec<T> = Vec::new();
        let mut i: usize = 0;
        while i < self.items.len()
            invariant
                i <= self.items.len(),
                models(r@) == self@.take(i as int),
            decreases self.items.len() - i,
        {
            let e = self.items[i].duplicate();
            proof {
                assert(models(r@.push(e)) =~= models(r@).push(e@));
                assert(self@.take(i + 1) =~= self@.take(i as int).push(self@[i as int]));
            }
            r.push(e);
            i = i + 1;
        }
        assert(self@.take(i as int) =~= self@);
        r
    }

    /// Copies of the records whose key is one of `ids`, in order; keys that
    /// no record has are passed over.
    pub fn list_with_keys(&self, ids: &Vec<i32>) -> (r: Vec<T>)
        ensures
            models(r@) == with_keys::<T>(self@, ids@),
    {
        let mut r: Vec<T> = Vec::new();
        let mut i: usize = 0;
        while i < self.items.len()
            invariant
                i <= self.items.len(),
                models(r@) == with_keys::<T>(self@.take(i as int), ids@),
            decreases self.items.len() - i,
        {
            let k = self.items[i].id();
            let found = contains_i32(ids, k);
            proof {
                let t = self@.take(i + 1);
                assert(t.drop_last() =~= self@.take(i as int));
                assert(t.last() == self@[i as int]);
                reveal(Seq::filter);
            }
            if found {
                let e = self.items[i].duplicate();
                assert(models(r@.push(e)) =~= models(r@).push(e@));
                r.push(e);
            }
            i = i + 1;
        }
        assert(self@.take(i as int) =~= self@);
        r
    }

    /// The position of the record with key `id`, if there is one.
    fn position(&self, id: i32) -> (r: Option<usize>)
        ensures
            r is Some <==> has_key::<T>(self@, id),
            r matches Some(i) ==> i < self@.len() && T::key(self@[i as int]) == id,
    {
        let mut i: usize = 0;
        while i < self.items.len()
            invariant
                i <= self.items.len(),
                forall|j: int| 0 <= j < i ==> T::key(#[trigger] self@[j]) != id,
            decreases self.items.len() - i,
        {
            if self.items[i].id() == id {
                assert(T::key(self@[i as int]) == id);
                return Some(i);
            }
            i = i + 1;
        }
        None
    }

    /// A copy of the record with key `id`.
    pub fn get(&self, id: i32) -> (r: Option<T>)
        ensures
            r is Some <==> has_key::<T>(self@, id),
            r matches Some(e) ==> T::key(e@) == id && self@.contains(e@),
    {
        match self.position(id) {
            Some(i) => {
                let e = self.items[i].duplicate();
                assert(self@[i as int] == e@);
                Some(e)
            },
            None => None,
        }
    }

    /// Stores `candidate` under the next key (its own key is ignored) and
    /// returns a copy of what was stored; `None`, with nothing changed, where
    /// the next key does not fit in an `i32`.
    pub fn insert(&mut self, candidate: T) -> (r: Option<T>)
        requires
            old(self).wf(),
        ensures
            final(self).wf(),
            r is Some <==> next_key::<T>(old(self)@) <= i32::MAX,
            r matches Some(e) ==> {
                &&& T::key(e@) == next_key::<T>(old(self)@)
                &&& e@ == T::rekey(candidate@, T::key(e@))
                &&& final(self)@ == old(self)@.push(e@)
                &&& final(self)@ == inserted::<T>(old(self)@, candidate@)
                &&& next_key::<T>(final(self)@) == next_key::<T>(old(self)@) + 1
            },
            r is None ==> final(self)@ == old(self)@,
    {
        match self.next_id() {
            None => None,
            Some(k) => {
                let mut e = candidate;
                e.assign_id(k);
                let copy = e.duplicate();
                proof {
                    lemma_insert_one::<T>(self@, candidate@);
                    assert(models(self.items@.push(e)) =~= self@.push(e@));
                }
                self.items.push(e);
                Some(copy)
            },
        }
    }

    /// Replaces the record whose key is that of `v` by `v`, and returns a copy
    /// of `v`; `None`, with nothing changed, where no record has that key.
    pub fn replace(&mut self, v: T) -> (r: Option<T>)
        requires
            old(self).wf(),
        ensures
            final(self).wf(),
            r is Some <==> has_key::<T>(old(self)@, T::key(v@)),
            r matches Some(e) ==> e@ == v@ && exists|i: int|
                0 <= i < old(self)@.len() && T::key(old(self)@[i]) == T::key(v@)
                    && final(self)@ == old(self)@.update(i, v@),
            r is None ==> final(self)@ == old(self)@,
    {
        let id = v.id();
        match self.position(id) {
            None => None,
            Some(i) => {
                let copy = v.duplicate();
                proof {
                    assert(models(self.items@.update(i as int, v)) =~= self@.update(i as int, v@));
                }
                self.items.set(i, v);
                proof {
                    let s = self@;
                    assert forall|a: int, b: int|
                        0 <= a < s.len() && 0 <= b < s.len() && a != b implies T::key(
                            #[trigger] s[a],
                        ) != T::key(#[trigger] s[b]) by {
                        assert(T::key(s[a]) == T::key(old(self)@[a]));
                        assert(T::key(s[b]) == T::key(old(self)@[b]));
                    }
                }
                Some(copy)
            },
        }
    }

    /// Removes the record with key `id`; `false`, with nothing changed, where
    /// there is none.
    pub fn delete(&mut self, id: i32) -> (r: bool)
        requires
            old(self).wf(),
        ensures
            final(self).wf(),
            r == has_key::<T>(old(self)@, id),
            r ==> exists|i: int|
                0 <= i < old(self)@.len() && T::key(old(self)@[i]) == id && final(self)@ == old(
                    self,
                )@.remove(i),
            !r ==> final(self)@ == old(self)@,
            !has_key::<T>(final(self)@, id),
    {
        match self.position(id) {
            None => false,
            Some(i) => {
                proof {
                    assert(models(self.items@.remove(i as int)) =~= self@.remove(i as int));
                }
                self.items.remove(i);
                proof {
                    lemma_delete_one::<T>(old(self)@, i as int);
                }
                true
            },
        }
    }
}

/// Whether `k` is one of `ids`.
fn contains_i32(ids: &Vec<i32>, k: i32) -> (r: bool)
    ensures
        r == ids@.contains(k),
{
    let mut i: usize = 0;
    while i < ids.len()
        invariant
            i <= ids.len(),
            forall|j: int| 0 <= j < i ==> ids@[j] != k,
        decreases ids.len() - i,
    {
        if ids[i] == k {
            return true;
        }
        i = i + 1;
    }
    false
}

} // verus!
