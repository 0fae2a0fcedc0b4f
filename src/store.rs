//! The access facade: create, read, list, update and delete for each record
//! type, with the references between tables kept intact.
use vstd::prelude::*;
use crate::entity::{Church, ChurchMember, ChurchMemberFunds, FundsType, Record};
use crate::error::StoreError;
use crate::schema::{Schema, LATEST_VERSION};
use crate::table::{lemma_insert, lemma_remove, lemma_update, Table, TableView};

verus! {

/// The model of the store: one table model per record type.
pub struct StoreView {
    pub churches: TableView<Church>,
    pub members: TableView<ChurchMember>,
    pub fund_types: TableView<FundsType>,
    pub funds: TableView<ChurchMemberFunds>,
}

impl StoreView {
    pub open spec fn empty() -> StoreView {
        StoreView {
            churches: TableView::empty(),
            members: TableView::empty(),
            fund_types: TableView::empty(),
            funds: TableView::empty(),
        }
    }

    /// Every member's church exists, and every contribution's member and
    /// kind of fund exist.
    pub open spec fn refs_ok(self) -> bool {
        &&& forall|i: int|
            #![trigger self.members.rows[i]]
            0 <= i < self.members.rows.len() ==> self.churches.contains(
                self.members.rows[i].church_id.id,
            )
        &&& forall|i: int|
            #![trigger self.funds.rows[i]]
            0 <= i < self.funds.rows.len() ==> self.members.contains(
                self.funds.rows[i].member_id.id,
            ) && self.fund_types.contains(self.funds.rows[i].fund_type_id.id)
    }

    pub open spec fn wf(self) -> bool {
        &&& self.churches.wf()
        &&& self.members.wf()
        &&& self.fund_types.wf()
        &&& self.funds.wf()
        &&& self.refs_ok()
    }

    /// Some member belongs to church `id`.
    pub open spec fn church_in_use(self, id: i32) -> bool {
        exists|i: int|
            #![trigger self.members.rows[i]]
            0 <= i < self.members.rows.len() && self.members.rows[i].church_id.id == id
    }

    /// Some contribution was made by member `id`.
    pub open spec fn member_in_use(self, id: i32) -> bool {
        exists|i: int|
            #![trigger self.funds.rows[i]]
            0 <= i < self.funds.rows.len() && self.funds.rows[i].member_id.id == id
    }

    /// Some contribution was made to kind of fund `id`.
    pub open spec fn fund_type_in_use(self, id: i32) -> bool {
        exists|i: int|
            #![trigger self.funds.rows[i]]
            0 <= i < self.funds.rows.len() && self.funds.rows[i].fund_type_id.id == id
    }

    pub open spec fn create_church(self, c: Church, now: i64) -> Result<(StoreView, i32), StoreError> {
        match self.churches.insert(c, now) {
            Ok((t, id)) => Ok((StoreView { churches: t, ..self }, id)),
            Err(e) => Err(e),
        }
    }

    /// Fails with `NotFound` where the member's church does not exist.
    pub open spec fn create_member(self, m: ChurchMember, now: i64) -> Result<
        (StoreView, i32),
        StoreError,
    > {
        if !self.churches.contains(m.church_id.id) {
            Err(StoreError::NotFound)
        } else {
            match self.members.insert(m, now) {
                Ok((t, id)) => Ok((StoreView { members: t, ..self }, id)),
                Err(e) => Err(e),
            }
        }
    }

    pub open spec fn create_fund_type(self, f: FundsType, now: i64) -> Result<
        (StoreView, i32),
        StoreError,
    > {
        match self.fund_types.insert(f, now) {
            Ok((t, id)) => Ok((StoreView { fund_types: t, ..self }, id)),
            Err(e) => Err(e),
        }
    }

    /// Fails with `NotFound` where the member or the kind of fund does not exist.
    pub open spec fn create_fund(self, f: ChurchMemberFunds, now: i64) -> Result<
        (StoreView, i32),
        StoreError,
    > {
        if !self.members.contains(f.member_id.id) || !self.fund_types.contains(f.fund_type_id.id) {
            Err(StoreError::NotFound)
        } else {
            match self.funds.insert(f, now) {
                Ok((t, id)) => Ok((StoreView { funds: t, ..self }, id)),
                Err(e) => Err(e),
            }
        }
    }

    pub open spec fn update_church(self, c: Church, now: i64) -> Result<StoreView, StoreError> {
        match self.churches.update(c, now) {
            Ok(t) => Ok(StoreView { churches: t, ..self }),
            Err(e) => Err(e),
        }
    }

    pub open spec fn update_member(self, m: ChurchMember, now: i64) -> Result<StoreView, StoreError> {
        if !self.churches.contains(m.church_id.id) {
            Err(StoreError::NotFound)
        } else {
            match self.members.update(m, now) {
                Ok(t) => Ok(StoreView { members: t, ..self }),
                Err(e) => Err(e),
            }
        }
    }

    pub open spec fn update_fund_type(self, f: FundsType, now: i64) -> Result<StoreView, StoreError> {
        match self.fund_types.update(f, now) {
            Ok(t) => Ok(StoreView { fund_types: t, ..self }),
            Err(e) => Err(e),
        }
    }

    pub open spec fn update_fund(self, f: ChurchMemberFunds, now: i64) -> Result<
        StoreView,
        StoreError,
    > {
        if !self.members.contains(f.member_id.id) || !self.fund_types.contains(f.fund_type_id.id) {
            Err(StoreError::NotFound)
        } else {
            match self.funds.update(f, now) {
                Ok(t) => Ok(StoreView { funds: t, ..self }),
                Err(e) => Err(e),
            }
        }
    }

    /// Fails with `Conflict` while a member belongs to the church.
    pub open spec fn delete_church(self, id: i32) -> Result<StoreView, StoreError> {
        if !self.churches.contains(id) {
            Err(StoreError::NotFound)
        } else if self.church_in_use(id) {
            Err(StoreError::Conflict)
        } else {
            match self.churches.remove(id) {
                Ok(t) => Ok(StoreView { churches: t, ..self }),
                Err(e) => Err(e),
            }
        }
    }

    /// Fails with `Conflict` while a contribution of the member is recorded.
    pub open spec fn delete_member(self, id: i32) -> Result<StoreView, StoreError> {
        if !self.members.contains(id) {
            Err(StoreError::NotFound)
        } else if self.member_in_use(id) {
            Err(StoreError::Conflict)
        } else {
            match self.members.remove(id) {
                Ok(t) => Ok(StoreView { members: t, ..self }),
                Err(e) => Err(e),
            }
        }
    }

    /// Fails with `Conflict` while a contribution to the kind of fund is recorded.
    pub open spec fn delete_fund_type(self, id: i32) -> Result<StoreView, StoreError> {
        if !self.fund_types.contains(id) {
            Err(StoreError::NotFound)
        } else if self.fund_type_in_use(id) {
            Err(StoreError::Conflict)
        } else {
            match self.fund_types.remove(id) {
                Ok(t) => Ok(StoreView { fund_types: t, ..self }),
                Err(e) => Err(e),
            }
        }
    }

    pub open spec fn delete_fund(self, id: i32) -> Result<StoreView, StoreError> {
        match self.funds.remove(id) {
            Ok(t) => Ok(StoreView { funds: t, ..self }),
            Err(e) => Err(e),
        }
    }
}

/// The store of churches, members, kinds of funds and contributions.
pub struct Store {
    churches: Table<Church>,
    members: Table<ChurchMember>,
    fund_types: Table<FundsType>,
    funds: Table<ChurchMemberFunds>,
}

impl View for Store {
    type V = StoreView;

    closed spec fn view(&self) -> StoreView {
        StoreView {
            churches: self.churches@,
            members: self.members@,
            fund_types: self.fund_types@,
            funds: self.funds@,
        }
    }
}

impl Store {
    pub open spec fn wf(&self) -> bool {
        self@.wf()
    }

    /// An empty store.
    pub fn new() -> (r: Self)
        ensures
            r@ == StoreView::empty(),
            r.wf(),
    {
        Store {
            churches: Table::new(),
            members: Table::new(),
            fund_types: Table::new(),
            funds: Table::new(),
        }
    }

    /// An empty store over `schema`; records may only be kept once the
    /// schema has been migrated to the latest version.
    pub fn open(schema: &Schema) -> (r: Result<Self, StoreError>)
        ensures
            match r {
                Ok(s) => schema@.version == LATEST_VERSION && s@ == StoreView::empty() && s.wf(),
                Err(e) => schema@.version != LATEST_VERSION && e == StoreError::StorageError,
            },
    {
        if schema.version() != LATEST_VERSION {
            return Err(StoreError::StorageError);
        }
        Ok(Store::new())
    }

    fn church_in_use(&self, id: i32) -> (r: bool)
        ensures
            r == self@.church_in_use(id),
    {
        let rows = self.members.rows();
        let mut i: usize = 0;
        while i < rows.len()
            invariant
                rows@ == self@.members.rows,
                i <= rows@.len(),
                forall|j: int| 0 <= j < i ==> #[trigger] rows@[j].church_id.id != id,
            decreases rows@.len() - i,
        {
            if rows[i].church_id.id == id {
                return true;
            }
            i = i + 1;
        }
        false
    }

    fn member_in_use(&self, id: i32) -> (r: bool)
        ensures
            r == self@.member_in_use(id),
    {
        let rows = self.funds.rows();
        let mut i: usize = 0;
        while i < rows.len()
            invariant
                rows@ == self@.funds.rows,
                i <= rows@.len(),
                forall|j: int| 0 <= j < i ==> #[trigger] rows@[j].member_id.id != id,
            decreases rows@.len() - i,
        {
            if rows[i].member_id.id == id {
                return true;
            }
            i = i + 1;
        }
        false
    }

    fn fund_type_in_use(&self, id: i32) -> (r: bool)
        ensures
            r == self@.fund_type_in_use(id),
    {
        let rows = self.funds.rows();
        let mut i: usize = 0;
        while i < rows.len()
            invariant
                rows@ == self@.funds.rows,
                i <= rows@.len(),
                forall|j: int| 0 <= j < i ==> #[trigger] rows@[j].fund_type_id.id != id,
            decreases rows@.len() - i,
        {
            if rows[i].fund_type_id.id == id {
                return true;
            }
            i = i + 1;
        }
        false
    }

    /// Performs `StoreView::create_church`; on failure nothing changes.
    pub fn create_church(&mut self, c: Church, now: i64) -> (r: Result<i32, StoreError>)
        requires
            old(self).wf(),
        ensures
            final(self).wf(),
            match r {
                Ok(id) => old(self)@.create_church(c, now) == Ok::<(StoreView, i32), StoreError>(
                    (final(self)@, id),
                ),
                Err(e) => old(self)@.create_church(c, now) == Err::<(StoreView, i32), StoreError>(e)
                    && final(self)@ == old(self)@,
            },
    {
        proof {
            lemma_insert(self@.churches, c, now);
        }
        self.churches.insert(c, now)
    }

    /// Performs `StoreView::create_member`; on failure nothing changes.
    pub fn create_member(&mut self, m: ChurchMember, now: i64) -> (r: Result<i32, StoreError>)
        requires
            old(self).wf(),
        ensures
            final(self).wf(),
            match r {
                Ok(id) => old(self)@.create_member(m, now) == Ok::<(StoreView, i32), StoreError>(
                    (final(self)@, id),
                ),
                Err(e) => old(self)@.create_member(m, now) == Err::<(StoreView, i32), StoreError>(e)
                    && final(self)@ == old(self)@,
            },
    {
        if !self.churches.contains(m.church_id.id) {
            return Err(StoreError::NotFound);
        }
        proof {
            lemma_insert(self@.members, m, now);
        }
        self.members.insert(m, now)
    }

    /// Performs `StoreView::create_fund_type`; on failure nothing changes.
    pub fn create_fund_type(&mut self, f: FundsType, now: i64) -> (r: Result<i32, StoreError>)
        requires
            old(self).wf(),
        ensures
            final(self).wf(),
            match r {
                Ok(id) => old(self)@.create_fund_type(f, now) == Ok::<(StoreView, i32), StoreError>(
                    (final(self)@, id),
                ),
                Err(e) => old(self)@.create_fund_type(f, now) == Err::<(StoreView, i32), StoreError>(
                    e,
                ) && final(self)@ == old(self)@,
            },
    {
        proof {
            lemma_insert(self@.fund_types, f, now);
        }
        self.fund_types.insert(f, now)
    }

    /// Performs `StoreView::create_fund`; on failure nothing changes.
    pub fn create_fund(&mut self, f: ChurchMemberFunds, now: i64) -> (r: Result<i32, StoreError>)
        requires
            old(self).wf(),
        ensures
            final(self).wf(),
            match r {
                Ok(id) => old(self)@.create_fund(f, now) == Ok::<(StoreView, i32), StoreError>(
                    (final(self)@, id),
                ),
                Err(e) => old(self)@.create_fund(f, now) == Err::<(StoreView, i32), StoreError>(e)
                    && final(self)@ == old(self)@,
            },
    {
        if !self.members.contains(f.member_id.id) || !self.fund_types.contains(f.fund_type_id.id) {
            return Err(StoreError::NotFound);
        }
        proof {
            lemma_insert(self@.funds, f, now);
        }
        self.funds.insert(f, now)
    }
    /// The record with identifier `id`, or `NotFound`.
    pub fn get_church(&self, id: i32) -> (r: Result<&Church, StoreError>)
        requires
            self.wf(),
        ensures
            match r {
                Ok(x) => self@.churches.lookup(id) == Some(*x),
                Err(e) => self@.churches.lookup(id) == None::<Church> && e == StoreError::NotFound,
            },
    {
        self.churches.get(id)
    }

    /// All records of this kind, in the order they were created.
    pub fn list_churches(&self) -> (r: &Vec<Church>)
        ensures
            r@ == self@.churches.rows,
    {
        self.churches.rows()
    }

    /// The record with identifier `id`, or `NotFound`.
    pub fn get_member(&self, id: i32) -> (r: Result<&ChurchMember, StoreError>)
        requires
            self.wf(),
        ensures
            match r {
                Ok(x) => self@.members.lookup(id) == Some(*x),
                Err(e) => self@.members.lookup(id) == None::<ChurchMember> && e == StoreError::NotFound,
            },
    {
        self.members.get(id)
    }

    /// All records of this kind, in the order they were created.
    pub fn list_members(&self) -> (r: &Vec<ChurchMember>)
        ensures
            r@ == self@.members.rows,
    {
        self.members.rows()
    }

    /// The record with identifier `id`, or `NotFound`.
    pub fn get_fund_type(&self, id: i32) -> (r: Result<&FundsType, StoreError>)
        requires
            self.wf(),
        ensures
            match r {
                Ok(x) => self@.fund_types.lookup(id) == Some(*x),
                Err(e) => self@.fund_types.lookup(id) == None::<FundsType> && e == StoreError::NotFound,
            },
    {
        self.fund_types.get(id)
    }

    /// All records of this kind, in the order they were created.
    pub fn list_fund_types(&self) -> (r: &Vec<FundsType>)
        ensures
            r@ == self@.fund_types.rows,
    {
        self.fund_types.rows()
    }

    /// The record with identifier `id`, or `NotFound`.
    pub fn get_fund(&self, id: i32) -> (r: Result<&ChurchMemberFunds, StoreError>)
        requires
            self.wf(),
        ensures
            match r {
                Ok(x) => self@.funds.lookup(id) == Some(*x),
                Err(e) => self@.funds.lookup(id) == None::<ChurchMemberFunds> && e == StoreError::NotFound,
            },
    {
        self.funds.get(id)
    }

    /// All records of this kind, in the order they were created.
    pub fn list_funds(&self) -> (r: &Vec<ChurchMemberFunds>)
        ensures
            r@ == self@.funds.rows,
    {
        self.funds.rows()
    }

    /// Performs `StoreView::update_church`; on failure nothing changes.
    pub fn update_church(&mut self, x: Church, now: i64) -> (r: Result<(), StoreError>)
        requires
            old(self).wf(),
        ensures
            final(self).wf(),
            match r {
                Ok(()) => old(self)@.update_church(x, now) == Ok::<StoreView, StoreError>(final(self)@),
                Err(e) => old(self)@.update_church(x, now) == Err::<StoreView, StoreError>(e)
                    && final(self)@ == old(self)@,
            },
    {
        proof {
            lemma_update(self@.churches, x, now);
        }
        self.churches.update(x, now)
    }

    /// Performs `StoreView::update_member`; on failure nothing changes.
    pub fn update_member(&mut self, x: ChurchMember, now: i64) -> (r: Result<(), StoreError>)
        requires
            old(self).wf(),
        ensures
            final(self).wf(),
            match r {
                Ok(()) => old(self)@.update_member(x, now) == Ok::<StoreView, StoreError>(final(self)@),
                Err(e) => old(self)@.update_member(x, now) == Err::<StoreView, StoreError>(e)
                    && final(self)@ == old(self)@,
            },
    {
        if !self.churches.contains(x.church_id.id) {
            return Err(StoreError::NotFound);
        }
        proof {
            lemma_update(self@.members, x, now);
        }
        self.members.update(x, now)
    }

    /// Performs `StoreView::update_fund_type`; on failure nothing changes.
    pub fn update_fund_type(&mut self, x: FundsType, now: i64) -> (r: Result<(), StoreError>)
        requires
            old(self).wf(),
        ensures
            final(self).wf(),
            match r {
                Ok(()) => old(self)@.update_fund_type(x, now) == Ok::<StoreView, StoreError>(final(self)@),
                Err(e) => old(self)@.update_fund_type(x, now) == Err::<StoreView, StoreError>(e)
                    && final(self)@ == old(self)@,
            },
    {
        proof {
            lemma_update(self@.fund_types, x, now);
        }
        self.fund_types.update(x, now)
    }

    /// Performs `StoreView::update_fund`; on failure nothing changes.
    pub fn update_fund(&mut self, x: ChurchMemberFunds, now: i64) -> (r: Result<(), StoreError>)
        requires
            old(self).wf(),
        ensures
            final(self).wf(),
            match r {
                Ok(()) => old(self)@.update_fund(x, now) == Ok::<StoreView, StoreError>(final(self)@),
                Err(e) => old(self)@.update_fund(x, now) == Err::<StoreView, StoreError>(e)
                    && final(self)@ == old(self)@,
            },
    {
        if !self.members.contains(x.member_id.id) || !self.fund_types.contains(x.fund_type_id.id) {
            return Err(StoreError::NotFound);
        }
        proof {
            lemma_update(self@.funds, x, now);
        }
        self.funds.update(x, now)
    }

    /// Performs `StoreView::delete_church`, handing back the removed record; on
    /// failure nothing changes.
    pub fn delete_church(&mut self, id: i32) -> (r: Result<Church, StoreError>)
        requires
            old(self).wf(),
        ensures
            final(self).wf(),
            match r {
                Ok(x) => old(self)@.delete_church(id) == Ok::<StoreView, StoreError>(final(self)@)
                    && old(self)@.churches.lookup(id) == Some(x),
                Err(e) => old(self)@.delete_church(id) == Err::<StoreView, StoreError>(e)
                    && final(self)@ == old(self)@,
            },
    {
        if self.churches.contains(id) && self.church_in_use(id) {
            return Err(StoreError::Conflict);
        }
        proof {
            lemma_remove(self@.churches, id);
        }
        self.churches.remove(id)
    }

    /// Performs `StoreView::delete_member`, handing back the removed record; on
    /// failure nothing changes.
    pub fn delete_member(&mut self, id: i32) -> (r: Result<ChurchMember, StoreError>)
        requires
            old(self).wf(),
        ensures
            final(self).wf(),
            match r {
                Ok(x) => old(self)@.delete_member(id) == Ok::<StoreView, StoreError>(final(self)@)
                    && old(self)@.members.lookup(id) == Some(x),
                Err(e) => old(self)@.delete_member(id) == Err::<StoreView, StoreError>(e)
                    && final(self)@ == old(self)@,
            },
    {
        if self.members.contains(id) && self.member_in_use(id) {
            return Err(StoreError::Conflict);
        }
        proof {
            lemma_remove(self@.members, id);
        }
        self.members.remove(id)
    }

    /// Performs `StoreView::delete_fund_type`, handing back the removed record; on
    /// failure nothing changes.
    pub fn delete_fund_type(&mut self, id: i32) -> (r: Result<FundsType, StoreError>)
        requires
            old(self).wf(),
        ensures
            final(self).wf(),
            match r {
                Ok(x) => old(self)@.delete_fund_type(id) == Ok::<StoreView, StoreError>(final(self)@)
                    && old(self)@.fund_types.lookup(id) == Some(x),
                Err(e) => old(self)@.delete_fund_type(id) == Err::<StoreView, StoreError>(e)
                    && final(self)@ == old(self)@,
            },
    {
        if self.fund_types.contains(id) && self.fund_type_in_use(id) {
            return Err(StoreError::Conflict);
        }
        proof {
            lemma_remove(self@.fund_types, id);
        }
        self.fund_types.remove(id)
    }

    /// Performs `StoreView::delete_fund`, handing back the removed record; on
    /// failure nothing changes.
    pub fn delete_fund(&mut self, id: i32) -> (r: Result<ChurchMemberFunds, StoreError>)
        requires
            old(self).wf(),
        ensures
            final(self).wf(),
            match r {
                Ok(x) => old(self)@.delete_fund(id) == Ok::<StoreView, StoreError>(final(self)@)
                    && old(self)@.funds.lookup(id) == Some(x),
                Err(e) => old(self)@.delete_fund(id) == Err::<StoreView, StoreError>(e)
                    && final(self)@ == old(self)@,
            },
    {
        proof {
            lemma_remove(self@.funds, id);
        }
        self.funds.remove(id)
    }
}

} // verus!
