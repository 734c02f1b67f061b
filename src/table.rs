//! A store of rows addressed by a string primary key.
use vstd::prelude::*;

verus! {

/// A row type with a string primary key, read off its view.
pub trait KeyedRow: Sized + View {
    /// The primary key of a row's view.
    spec fn key_of(v: Self::V) -> Seq<char>;

    fn key(&self) -> (r: &String)
        ensures
            r@ == Self::key_of(self@),
    ;
}

/// A table of rows with pairwise distinct keys. Its abstract value is the map
/// from each key present to the view of the row stored under it.
pub struct Table<R: View> {
    rows: Vec<R>,
    contents: Ghost<Map<Seq<char>, R::V>>,
}

impl<R: KeyedRow> View for Table<R> {
    type V = Map<Seq<char>, R::V>;

    closed spec fn view(&self) -> Map<Seq<char>, R::V> {
        self.contents@
    }
}

impl<R: KeyedRow> Table<R> {
    /// Keys are unique among the stored rows, and the abstract map holds
    /// exactly the stored rows under their keys.
    pub closed spec fn wf(&self) -> bool {
        &&& forall|i: int, j: int|
            0 <= i < j < self.rows@.len() ==> #[trigger] R::key_of(self.rows@[i]@)
                != #[trigger] R::key_of(self.rows@[j]@)
        &&& forall|i: int|
            0 <= i < self.rows@.len() ==> self.contents@.contains_key(
                #[trigger] R::key_of(self.rows@[i]@),
            ) && self.contents@[R::key_of(self.rows@[i]@)] == self.rows@[i]@
        &&& forall|k: Seq<char>| #[trigger]
            self.contents@.contains_key(k) ==> exists|i: int|
                0 <= i < self.rows@.len() && #[trigger] R::key_of(self.rows@[i]@) == k
    }

    /// An empty table.
    pub fn new() -> (t: Self)
        ensures
            t.wf(),
            t@ == Map::<Seq<char>, R::V>::empty(),
    {
        Table { rows: Vec::new(), contents: Ghost(Map::empty()) }
    }

    /// Index of the row stored under `key`, if any.
    fn position(&self, key: &String) -> (r: Option<usize>)
        requires
            self.wf(),
        ensures
            match r {
                Some(i) => i < self.rows@.len() && R::key_of(self.rows@[i as int]@) == key@,
                None => !self@.contains_key(key@),
            },
    {
        let mut i: usize = 0;
        while i < self.rows.len()
            invariant
                self.wf(),
                i <= self.rows@.len(),
                forall|j: int| 0 <= j < i ==> #[trigger] R::key_of(self.rows@[j]@) != key@,
            decreases self.rows@.len() - i,
        {
            if self.rows[i].key().eq(key) {
                return Some(i);
            }
            i += 1;
        }
        None
    }

    /// The row stored under `key`, if any.
    pub fn find(&self, key: &String) -> (r: Option<&R>)
        requires
            self.wf(),
        ensures
            match r {
                Some(row) => self@.contains_key(key@) && row@ == self@[key@] && R::key_of(row@) == key@,
                None => !self@.contains_key(key@),
            },
    {
        match self.position(key) {
            Some(i) => Some(&self.rows[i]),
            None => None,
        }
    }

    /// Adds a row whose key is not yet present.
    pub fn insert(&mut self, row: R)
        requires
            old(self).wf(),
            !old(self)@.contains_key(R::key_of(row@)),
        ensures
            final(self).wf(),
            final(self)@ == old(self)@.insert(R::key_of(row@), row@),
    {
        let ghost k = R::key_of(row@);
        proof {
            self.contents@ = self.contents@.insert(k, row@);
        }
        self.rows.push(row);
        let ghost n = self.rows@.len() - 1;
        assert forall|key: Seq<char>| #[trigger] self.contents@.contains_key(key) implies exists|
            i: int,
        | 0 <= i < self.rows@.len() && #[trigger] R::key_of(self.rows@[i]@) == key by {
            if key == k {
                assert(R::key_of(self.rows@[n]@) == key);
            } else {
                assert(old(self).contents@.contains_key(key));
                let i = choose|i: int|
                    0 <= i < old(self).rows@.len() && #[trigger] R::key_of(old(self).rows@[i]@) == key;
                assert(self.rows@[i] == old(self).rows@[i]);
            }
        }
    }

    /// Replaces the row stored under the key of `row`, which must be present.
    pub fn update(&mut self, row: R)
        requires
            old(self).wf(),
            old(self)@.contains_key(R::key_of(row@)),
        ensures
            final(self).wf(),
            final(self)@ == old(self)@.insert(R::key_of(row@), row@),
    {
        let ghost k = R::key_of(row@);
        let i = match self.position(row.key()) {
            Some(i) => i,
            // not reached: the key is present
            None => { return; },
        };
        proof {
            self.contents@ = self.contents@.insert(k, row@);
        }
        self.rows.set(i, row);
        assert forall|key: Seq<char>| #[trigger] self.contents@.contains_key(key) implies exists|
            j: int,
        | 0 <= j < self.rows@.len() && #[trigger] R::key_of(self.rows@[j]@) == key by {
            if key == k {
                assert(R::key_of(self.rows@[i as int]@) == key);
            } else {
                assert(old(self).contents@.contains_key(key));
                let j = choose|j: int|
                    0 <= j < old(self).rows@.len() && #[trigger] R::key_of(old(self).rows@[j]@) == key;
                assert(self.rows@[j] == old(self).rows@[j]);
            }
        }
    }

    /// Removes the row stored under `key`, if any; tells whether one was there.
    pub fn delete(&mut self, key: &String) -> (r: bool)
        requires
            old(self).wf(),
        ensures
            final(self).wf(),
            final(self)@ == old(self)@.remove(key@),
            r == old(self)@.contains_key(key@),
    {
        let i = match self.position(key) {
            Some(i) => i,
            None => {
                assert(self@ =~= old(self)@.remove(key@));
                return false;
            },
        };
        proof {
            self.contents@ = self.contents@.remove(key@);
        }
        self.rows.remove(i);
        assert forall|j: int| 0 <= j < self.rows@.len() implies self.contents@.contains_key(
            #[trigger] R::key_of(self.rows@[j]@),
        ) && self.contents@[R::key_of(self.rows@[j]@)] == self.rows@[j]@ by {
            if j < i {
                assert(self.rows@[j] == old(self).rows@[j]);
            } else {
                assert(self.rows@[j] == old(self).rows@[j + 1]);
            }
        }
        assert forall|a: int, b: int| 0 <= a < b < self.rows@.len() implies #[trigger] R::key_of(self.rows@[a]@) != #[trigger] R::key_of(self.rows@[b]@) by {
            let a0 = if a < i { a } else { a + 1 };
            let b0 = if b < i { b } else { b + 1 };
            assert(self.rows@[a] == old(self).rows@[a0]);
            assert(self.rows@[b] == old(self).rows@[b0]);
        }
        assert forall|k: Seq<char>| #[trigger] self.contents@.contains_key(k) implies exists|j: int|
            0 <= j < self.rows@.len() && #[trigger] R::key_of(self.rows@[j]@) == k by {
            let j = choose|j: int|
                0 <= j < old(self).rows@.len() && #[trigger] R::key_of(old(self).rows@[j]@) == k;
            assert(j != i);
            if j < i {
                assert(self.rows@[j] == old(self).rows@[j]);
            } else {
                assert(self.rows@[j - 1] == old(self).rows@[j]);
            }
        }
        true
    }
}

} // verus!
