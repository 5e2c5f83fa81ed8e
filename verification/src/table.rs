use vstd::prelude::*;

verus! {

/// A record that is stored under a key which the record itself holds.
pub trait Row: Copy {
    /// The type of the key.
    type Key;

    /// The key under which the record is stored.
    spec fn row_key(&self) -> Self::Key;

    /// Tells whether the record is the one stored under `key`.
    fn has_key(&self, key: &Self::Key) -> (found: bool)
        ensures
            found == (self.row_key() == *key),
    ;
}

/// A store of records with at most one record for each key, seen as a map
/// from keys to records.
///
/// The rows lie in a vector, in the order in which their keys were first
/// written, and a key is found by going through them.
pub struct Table<R: Row> {
    rows: Vec<R>,
}

impl<R: Row> View for Table<R> {
    type V = Map<R::Key, R>;

    closed spec fn view(&self) -> Map<R::Key, R> {
        Map::new(
            |key: R::Key|
                exists|i: int| 0 <= i < self.rows.len() && #[trigger] self.rows[i].row_key() == key,
            |key: R::Key|
                self.rows[choose|i: int|
                    0 <= i < self.rows.len() && #[trigger] self.rows[i].row_key() == key],
        )
    }
}

impl<R: Row> Table<R> {
    #[verifier::type_invariant]
    spec fn distinct_keys(self) -> bool {
        forall|i: int, j: int|
            0 <= i < self.rows.len() && 0 <= j < self.rows.len() && #[trigger] self.rows[i].row_key()
                == #[trigger] self.rows[j].row_key() ==> i == j
    }

    /// A table without records.
    pub fn new() -> (table: Self)
        ensures
            table@ == Map::<R::Key, R>::empty(),
    {
        let table = Table { rows: Vec::new() };
        assert(table@ =~= Map::<R::Key, R>::empty());
        table
    }

    fn position(&self, key: &R::Key) -> (found: Option<usize>)
        ensures
            match found {
                Some(i) => i < self.rows.len() && self.rows[i as int].row_key() == *key,
                None => forall|i: int| 0 <= i < self.rows.len() ==> self.rows[i].row_key() != *key,
            },
    {
        let mut i: usize = 0;
        while i < self.rows.len()
            invariant
                i <= self.rows.len(),
                forall|j: int| 0 <= j < i ==> self.rows[j].row_key() != *key,
            decreases self.rows.len() - i,
        {
            if self.rows[i].has_key(key) {
                return Some(i);
            }
            i = i + 1;
        }
        None
    }

    /// The record stored under `key`, if there is one.
    pub fn get(&self, key: &R::Key) -> (row: Option<R>)
        ensures
            row == (if self@.contains_key(*key) {
                Some(self@[*key])
            } else {
                None
            }),
    {
        proof {
            use_type_invariant(self);
        }
        match self.position(key) {
            Some(i) => Some(self.rows[i]),
            None => None,
        }
    }

    /// Stores `row` under its key, in place of the record that was there, if
    /// any. No other key is touched.
    pub fn put(&mut self, key: &R::Key, row: R)
        requires
            row.row_key() == *key,
        ensures
            final(self)@ == old(self)@.insert(*key, row),
    {
        proof {
            use_type_invariant(&*self);
        }
        let found = self.position(key);
        let ghost before = self.rows@;
        let mut rows: Vec<R> = Vec::new();
        std::mem::swap(&mut rows, &mut self.rows);
        match found {
            Some(i) => {
                rows[i] = row;
                assert forall|j: int| 0 <= j < rows.len() implies #[trigger] rows[j].row_key()
                    == before[j].row_key() by {}
            },
            None => {
                rows.push(row);
            },
        }
        self.rows = rows;
        assert forall|k: R::Key| old(self)@.insert(*key, row).contains_key(k) implies #[trigger]
            self@.contains_key(k) by {
            let at = if k == *key {
                match found {
                    Some(i) => i as int,
                    None => before.len() as int,
                }
            } else {
                choose|i: int| 0 <= i < before.len() && #[trigger] before[i].row_key() == k
            };
            assert(self.rows[at].row_key() == k);
        }
        assert forall|k: R::Key| #[trigger] self@.contains_key(k) implies old(self)@.insert(
            *key,
            row,
        ).contains_key(k) && self@[k] == old(self)@.insert(*key, row)[k] by {
            let at = choose|i: int|
                0 <= i < self.rows.len() && #[trigger] self.rows[i].row_key() == k;
            if k != *key {
                assert(before[at].row_key() == k);
            }
        }
        assert(self@ =~= old(self)@.insert(*key, row));
    }
}

} // verus!
