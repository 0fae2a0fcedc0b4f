//! One table of records, keyed by a unique positive identifier, with its
//! mathematical model and the model's insert, update and remove.
use vstd::prelude::*;
use crate::entity::Record;
use crate::error::StoreError;

verus! {

/// A timestamp of 0 is unset and takes the current time.
pub open spec fn stamp_or(v: i64, now: i64) -> i64 {
    if v == 0 {
        now
    } else {
        v
    }
}

/// The modification time that an update after `prev` at time `now` records:
/// `now` if it is later, else the next instant after `prev`, which must exist.
pub open spec fn next_stamp(prev: i64, now: i64) -> Option<i64> {
    if now > prev {
        Some(now)
    } else if prev < i64::MAX {
        Some((prev + 1) as i64)
    } else {
        None
    }
}

/// Computes `next_stamp`.
pub fn advance_stamp(prev: i64, now: i64) -> (r: Option<i64>)
    ensures
        r == next_stamp(prev, now),
{
    if now > prev {
        Some(now)
    } else if prev < i64::MAX {
        Some(prev + 1)
    } else {
        None
    }
}

/// The model of a table: its rows in insertion order and the largest
/// identifier it has ever held.
pub struct TableView<R> {
    pub rows: Seq<R>,
    pub last_id: i32,
}

impl<R: Record> TableView<R> {
    pub open spec fn empty() -> TableView<R> {
        TableView { rows: Seq::empty(), last_id: 0 }
    }

    /// Identifiers are positive, unique and at most `last_id`; no row was
    /// modified before it was created.
    pub open spec fn wf(self) -> bool {
        &&& 0 <= self.last_id
        &&& forall|i: int|
            0 <= i < self.rows.len() ==> 0 < #[trigger] self.rows[i].key() <= self.last_id
                && self.rows[i].created() <= self.rows[i].modified()
        &&& forall|i: int, j: int|
            #![trigger self.rows[i], self.rows[j]]
            0 <= i < self.rows.len() && 0 <= j < self.rows.len() && i != j ==> self.rows[i].key()
                != self.rows[j].key()
    }

    pub open spec fn contains(self, id: i32) -> bool {
        exists|i: int| 0 <= i < self.rows.len() && #[trigger] self.rows[i].key() == id
    }

    pub open spec fn index_of(self, id: i32) -> int {
        choose|i: int| 0 <= i < self.rows.len() && #[trigger] self.rows[i].key() == id
    }

    pub open spec fn lookup(self, id: i32) -> Option<R> {
        if self.contains(id) {
            Some(self.rows[self.index_of(id)])
        } else {
            None
        }
    }

    /// Appends `rec` under its own identifier, or under the next free one
    /// where its identifier is 0; unset timestamps become `now`. A record
    /// with a negative identifier, timestamps out of order or an empty
    /// required field is rejected.
    pub open spec fn insert(self, rec: R, now: i64) -> Result<(TableView<R>, i32), StoreError> {
        let created = stamp_or(rec.created(), now);
        let modified = stamp_or(rec.modified(), now);
        if rec.key() < 0 || created > modified || !rec.valid() {
            Err(StoreError::ValidationError)
        } else if rec.key() > 0 && self.contains(rec.key()) {
            Err(StoreError::Conflict)
        } else if rec.key() == 0 && self.last_id == i32::MAX {
            Err(StoreError::StorageError)
        } else {
            let id: i32 = if rec.key() == 0 {
                (self.last_id + 1) as i32
            } else {
                rec.key()
            };
            let last: i32 = if id > self.last_id {
                id
            } else {
                self.last_id
            };
            Ok(
                (
                    TableView { rows: self.rows.push(rec.with_meta(id, created, modified)), last_id: last },
                    id,
                ),
            )
        }
    }

    /// Replaces the row with `rec`'s identifier by `rec`, keeping the row's
    /// creation time and refreshing its modification time. A record with an
    /// empty required field is rejected.
    pub open spec fn update(self, rec: R, now: i64) -> Result<TableView<R>, StoreError> {
        if !self.contains(rec.key()) {
            Err(StoreError::NotFound)
        } else if !rec.valid() {
            Err(StoreError::ValidationError)
        } else {
            let i = self.index_of(rec.key());
            let prev = self.rows[i];
            match next_stamp(prev.modified(), now) {
                None => Err(StoreError::StorageError),
                Some(m) => Ok(
                    TableView {
                        rows: self.rows.update(i, rec.with_meta(rec.key(), prev.created(), m)),
                        last_id: self.last_id,
                    },
                ),
            }
        }
    }

    /// Removes the row with identifier `id`.
    pub open spec fn remove(self, id: i32) -> Result<TableView<R>, StoreError> {
        if !self.contains(id) {
            Err(StoreError::NotFound)
        } else {
            Ok(TableView { rows: self.rows.remove(self.index_of(id)), last_id: self.last_id })
        }
    }
}

/// In a well-formed table the row that carries an identifier is the one
/// that `index_of` picks.
pub proof fn lemma_index_unique<R: Record>(t: TableView<R>, i: int)
    requires
        t.wf(),
        0 <= i < t.rows.len(),
    ensures
        t.contains(t.rows[i].key()),
        t.index_of(t.rows[i].key()) == i,
        t.lookup(t.rows[i].key()) == Some(t.rows[i]),
{
    let k = t.rows[i].key();
    assert(t.rows[i].key() == k);
    let j = t.index_of(k);
    assert(t.rows[j] == t.rows[j] && t.rows[i] == t.rows[i]);
}

/// What an insert does to the set of identifiers, and that it keeps the
/// table well formed.
pub proof fn lemma_insert<R: Record>(t: TableView<R>, rec: R, now: i64)
    requires
        t.wf(),
    ensures
        t.insert(rec, now) matches Ok((t2, id)) ==> {
            &&& t2.wf()
            &&& forall|k: i32| #[trigger] t2.contains(k) <==> (t.contains(k) || k == id)
            &&& !t.contains(id)
            &&& t2.rows.len() == t.rows.len() + 1
            &&& forall|a: int| 0 <= a < t.rows.len() ==> #[trigger] t2.rows[a] == t.rows[a]
            &&& t2.lookup(id) == Some(t2.rows[t2.rows.len() - 1])
        },
{
    if let Ok((t2, id)) = t.insert(rec, now) {
        let created = stamp_or(rec.created(), now);
        let modified = stamp_or(rec.modified(), now);
        rec.lemma_with_meta(id, created, modified);
        let n = t.rows.len() as int;
        assert(t2.rows[n] == rec.with_meta(id, created, modified));
        assert forall|i: int| 0 <= i < n implies #[trigger] t2.rows[i] == t.rows[i] by {}
        assert(!t.contains(id)) by {
            if t.contains(id) {
                let j = t.index_of(id);
                assert(t.rows[j].key() <= t.last_id);
            }
        }
        assert forall|k: i32| #[trigger] t2.contains(k) <==> (t.contains(k) || k == id) by {
            if t2.contains(k) {
                let j = t2.index_of(k);
                if j < n {
                    assert(t.rows[j].key() == k);
                }
            }
            if t.contains(k) {
                let j = t.index_of(k);
                assert(t2.rows[j].key() == k);
            }
            if k == id {
                assert(t2.rows[n].key() == k);
            }
        }
        assert forall|i: int, j: int|
            #![trigger t2.rows[i], t2.rows[j]]
            0 <= i < t2.rows.len() && 0 <= j < t2.rows.len() && i != j implies t2.rows[i].key()
            != t2.rows[j].key() by {
            if i < n && j < n {
                assert(t.rows[i] == t.rows[i] && t.rows[j] == t.rows[j]);
            } else if i < n {
                assert(t.rows[i].key() == t.rows[i].key());
            } else {
                assert(t.rows[j].key() == t.rows[j].key());
            }
        }
        assert(t2.wf());
        lemma_index_unique(t2, n);
    }
}

/// An update keeps the set of identifiers and the table well formed.
pub proof fn lemma_update<R: Record>(t: TableView<R>, rec: R, now: i64)
    requires
        t.wf(),
    ensures
        t.update(rec, now) matches Ok(t2) ==> {
            &&& t2.wf()
            &&& forall|k: i32| #[trigger] t2.contains(k) == t.contains(k)
            &&& t2.lookup(rec.key()) == Some(t2.rows[t.index_of(rec.key())])
        },
{
    if let Ok(t2) = t.update(rec, now) {
        let i = t.index_of(rec.key());
        let prev = t.rows[i];
        let m = next_stamp(prev.modified(), now)->Some_0;
        rec.lemma_with_meta(rec.key(), prev.created(), m);
        assert(t2.rows[i].key() == t.rows[i].key());
        assert forall|k: i32| #[trigger] t2.contains(k) == t.contains(k) by {
            if t2.contains(k) {
                let j = t2.index_of(k);
                assert(t.rows[j].key() == k);
            }
            if t.contains(k) {
                let j = t.index_of(k);
                assert(t2.rows[j].key() == k);
            }
        }
        assert forall|a: int, b: int|
            #![trigger t2.rows[a], t2.rows[b]]
            0 <= a < t2.rows.len() && 0 <= b < t2.rows.len() && a != b implies t2.rows[a].key()
            != t2.rows[b].key() by {
            assert(t.rows[a] == t.rows[a] && t.rows[b] == t.rows[b]);
        }
        assert(t2.wf());
        lemma_index_unique(t2, i);
    }
}

/// A remove takes exactly the removed identifier out of the table, and
/// keeps the table well formed.
pub proof fn lemma_remove<R: Record>(t: TableView<R>, id: i32)
    requires
        t.wf(),
    ensures
        t.remove(id) matches Ok(t2) ==> {
            &&& t2.wf()
            &&& forall|k: i32| #[trigger] t2.contains(k) <==> (t.contains(k) && k != id)
            &&& t2.lookup(id) == None::<R>
            &&& forall|a: int|
                0 <= a < t2.rows.len() ==> #[trigger] t2.rows[a] == t.rows[if a < t.index_of(id) {
                    a
                } else {
                    a + 1
                }]
        },
{
    if let Ok(t2) = t.remove(id) {
        let i = t.index_of(id);
        t.rows.remove_ensures(i);
        let n = t.rows.len() as int;
        assert forall|k: i32| #[trigger] t2.contains(k) <==> (t.contains(k) && k != id) by {
            if t2.contains(k) {
                let j = t2.index_of(k);
                if j < i {
                    assert(t.rows[j].key() == k);
                    assert(t.rows[j] == t.rows[j] && t.rows[i] == t.rows[i]);
                } else {
                    assert(t.rows[j + 1].key() == k);
                    assert(t.rows[j + 1] == t.rows[j + 1] && t.rows[i] == t.rows[i]);
                }
            }
            if t.contains(k) && k != id {
                let j = t.index_of(k);
                if j < i {
                    assert(t2.rows[j].key() == k);
                } else {
                    assert(t2.rows[j - 1].key() == k);
                }
            }
        }
        assert forall|a: int, b: int|
            #![trigger t2.rows[a], t2.rows[b]]
            0 <= a < t2.rows.len() && 0 <= b < t2.rows.len() && a != b implies t2.rows[a].key()
            != t2.rows[b].key() by {
            let a0 = if a < i { a } else { a + 1 };
            let b0 = if b < i { b } else { b + 1 };
            assert(t.rows[a0] == t.rows[a0] && t.rows[b0] == t.rows[b0]);
        }
        assert forall|a: int| 0 <= a < t2.rows.len() implies 0 < #[trigger] t2.rows[a].key()
            <= t2.last_id && t2.rows[a].created() <= t2.rows[a].modified() by {
            let a0 = if a < i { a } else { a + 1 };
            assert(t.rows[a0] == t.rows[a0]);
        }
        assert(t2.wf());
    }
}

/// A table of records; its model is a `TableView`.
pub struct Table<R> {
    rows: Vec<R>,
    last_id: i32,
}

impl<R: Record> View for Table<R> {
    type V = TableView<R>;

    closed spec fn view(&self) -> TableView<R> {
        TableView { rows: self.rows@, last_id: self.last_id }
    }
}

impl<R: Record> Table<R> {
    pub open spec fn wf(&self) -> bool {
        self@.wf()
    }

    /// An empty table.
    pub fn new() -> (r: Self)
        ensures
            r@ == TableView::<R>::empty(),
            r.wf(),
    {
        let r = Table { rows: Vec::new(), last_id: 0 };
        assert(r@.rows =~= Seq::<R>::empty());
        r
    }

    /// The position of the row with identifier `id`, if there is one.
    pub fn find(&self, id: i32) -> (r: Option<usize>)
        requires
            self.wf(),
        ensures
            match r {
                Some(i) => self@.contains(id) && i as int == self@.index_of(id),
                None => !self@.contains(id),
            },
    {
        let mut i: usize = 0;
        while i < self.rows.len()
            invariant
                self.wf(),
                i <= self.rows@.len(),
                forall|j: int| 0 <= j < i ==> #[trigger] self.rows@[j].key() != id,
            decreases self.rows@.len() - i,
        {
            if self.rows[i].id() == id {
                proof {
                    lemma_index_unique(self@, i as int);
                }
                return Some(i);
            }
            i = i + 1;
        }
        None
    }

    /// Whether a row has identifier `id`.
    pub fn contains(&self, id: i32) -> (r: bool)
        requires
            self.wf(),
        ensures
            r == self@.contains(id),
    {
        self.find(id).is_some()
    }

    /// The row with identifier `id`.
    pub fn get(&self, id: i32) -> (r: Result<&R, StoreError>)
        requires
            self.wf(),
        ensures
            match r {
                Ok(x) => self@.lookup(id) == Some(*x),
                Err(e) => self@.lookup(id) == None::<R> && e == StoreError::NotFound,
            },
    {
        match self.find(id) {
            Some(i) => Ok(&self.rows[i]),
            None => Err(StoreError::NotFound),
        }
    }

    /// All rows, in the order they were inserted.
    pub fn rows(&self) -> (r: &Vec<R>)
        ensures
            r@ == self@.rows,
    {
        &self.rows
    }

    /// Performs `TableView::insert`; on failure the table is unchanged.
    pub fn insert(&mut self, rec: R, now: i64) -> (r: Result<i32, StoreError>)
        requires
            old(self).wf(),
        ensures
            final(self).wf(),
            match r {
                Ok(id) => old(self)@.insert(rec, now) == Ok::<(TableView<R>, i32), StoreError>((final(self)@, id)),
                Err(e) => old(self)@.insert(rec, now) == Err::<(TableView<R>, i32), StoreError>(e)
                    && final(self)@ == old(self)@,
            },
    {
        proof {
            lemma_insert(self@, rec, now);
        }
        let key = rec.id();
        let c0 = rec.created_at();
        let m0 = rec.modified_at();
        let created: i64 = if c0 == 0 { now } else { c0 };
        let modified: i64 = if m0 == 0 { now } else { m0 };
        if key < 0 || created > modified || !rec.is_valid() {
            return Err(StoreError::ValidationError);
        }
        if key > 0 && self.contains(key) {
            return Err(StoreError::Conflict);
        }
        if key == 0 && self.last_id == i32::MAX {
            return Err(StoreError::StorageError);
        }
        let id: i32 = if key == 0 { self.last_id + 1 } else { key };
        let mut rec = rec;
        rec.set_meta(id, created, modified);
        self.rows.push(rec);
        if id > self.last_id {
            self.last_id = id;
        }
        Ok(id)
    }

    /// Performs `TableView::update`; on failure the table is unchanged.
    pub fn update(&mut self, rec: R, now: i64) -> (r: Result<(), StoreError>)
        requires
            old(self).wf(),
        ensures
            final(self).wf(),
            match r {
                Ok(()) => old(self)@.update(rec, now) == Ok::<TableView<R>, StoreError>(final(self)@),
                Err(e) => old(self)@.update(rec, now) == Err::<TableView<R>, StoreError>(e)
                    && final(self)@ == old(self)@,
            },
    {
        proof {
            lemma_update(self@, rec, now);
        }
        let key = rec.id();
        match self.find(key) {
            None => Err(StoreError::NotFound),
            Some(i) => {
                if !rec.is_valid() {
                    return Err(StoreError::ValidationError);
                }
                let created = self.rows[i].created_at();
                match advance_stamp(self.rows[i].modified_at(), now) {
                    None => Err(StoreError::StorageError),
                    Some(m) => {
                        let mut rec = rec;
                        rec.set_meta(key, created, m);
                        self.rows.set(i, rec);
                        Ok(())
                    },
                }
            },
        }
    }

    /// Performs `TableView::remove`, handing back the removed row; on
    /// failure the table is unchanged.
    pub fn remove(&mut self, id: i32) -> (r: Result<R, StoreError>)
        requires
            old(self).wf(),
        ensures
            final(self).wf(),
            match r {
                Ok(x) => old(self)@.remove(id) == Ok::<TableView<R>, StoreError>(final(self)@)
                    && old(self)@.lookup(id) == Some(x),
                Err(e) => old(self)@.remove(id) == Err::<TableView<R>, StoreError>(e)
                    && final(self)@ == old(self)@,
            },
    {
        proof {
            lemma_remove(self@, id);
        }
        match self.find(id) {
            None => Err(StoreError::NotFound),
            Some(i) => Ok(self.rows.remove(i)),
        }
    }
}

} // verus!
