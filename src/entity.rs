//! Record types of the membership register and the interface that the
//! generic table uses to read and stamp them.
use vstd::prelude::*;

verus! {

/// Identifier of a church.
#[derive(Debug, Clone, Copy, PartialEq, Eq, Structural)]
pub struct ChurchId {
    pub id: i32,
}

/// Identifier of a church member.
#[derive(Debug, Clone, Copy, PartialEq, Eq, Structural)]
pub struct ChurchMemberId {
    pub id: i32,
}

/// Identifier of a kind of fund.
#[derive(Debug, Clone, Copy, PartialEq, Eq, Structural)]
pub struct FundTypeId {
    pub id: i32,
}

/// Identifier of one contribution of a member to a fund.
#[derive(Debug, Clone, Copy, PartialEq, Eq, Structural)]
pub struct ChurchMemberFundsId {
    pub id: i32,
}

/// A church. An id of 0 asks the store to pick one; a timestamp of 0 is unset.
#[derive(Debug, Clone, PartialEq, Eq)]
pub struct Church {
    pub id: ChurchId,
    pub name: String,
    pub address: String,
    pub phone1: String,
    pub phone2: Option<String>,
    pub email: Option<String>,
    pub created_at: i64,
    pub modified_at: i64,
}

/// A member of a church.
#[derive(Debug, Clone, PartialEq, Eq)]
pub struct ChurchMember {
    pub id: ChurchMemberId,
    pub name: String,
    pub email: Option<String>,
    pub address: String,
    pub phone1: String,
    pub phone2: Option<String>,
    pub church_id: ChurchId,
    pub created_at: i64,
    pub modified_at: i64,
}

/// A kind of fund that members contribute to.
#[derive(Debug, Clone, PartialEq, Eq)]
pub struct FundsType {
    pub id: FundTypeId,
    pub name: String,
    pub description: Option<String>,
    pub created_at: i64,
    pub modified_at: i64,
}

/// One contribution of a member to a kind of fund; the amount is in cents.
#[derive(Debug, Clone, PartialEq, Eq)]
pub struct ChurchMemberFunds {
    pub id: ChurchMemberFundsId,
    pub member_id: ChurchMemberId,
    pub amount_cents: i64,
    pub fund_type_id: FundTypeId,
    pub created_at: i64,
    pub modified_at: i64,
}

/// What a table needs of a record: its identifier and its two timestamps,
/// read in spec and exec code, and a way to overwrite all three.
pub trait Record: Sized {
    spec fn key(&self) -> i32;

    spec fn created(&self) -> i64;

    spec fn modified(&self) -> i64;

    /// The record with identifier and timestamps replaced, every other field kept.
    spec fn with_meta(self, id: i32, created: i64, modified: i64) -> Self;

    /// The fields that the schema requires hold text: none is empty.
    spec fn valid(&self) -> bool;

    proof fn lemma_with_meta(self, id: i32, created: i64, modified: i64)
        ensures
            self.with_meta(id, created, modified).valid() == self.valid(),
            self.with_meta(id, created, modified).key() == id,
            self.with_meta(id, created, modified).created() == created,
            self.with_meta(id, created, modified).modified() == modified,
            self.with_meta(self.key(), self.created(), self.modified()) == self,
            forall|i: i32, c: i64, m: i64|
                #[trigger] self.with_meta(id, created, modified).with_meta(i, c, m)
                    == self.with_meta(i, c, m),
    ;

    fn id(&self) -> (r: i32)
        ensures
            r == self.key(),
    ;

    fn created_at(&self) -> (r: i64)
        ensures
            r == self.created(),
    ;

    /// Computes `valid`.
    fn is_valid(&self) -> (r: bool)
        ensures
            r == self.valid(),
    ;

    fn modified_at(&self) -> (r: i64)
        ensures
            r == self.modified(),
    ;

    fn set_meta(&mut self, id: i32, created: i64, modified: i64)
        ensures
            *final(self) == old(self).with_meta(id, created, modified),
    ;
}

impl Record for Church {
    open spec fn valid(&self) -> bool {
        self.name@.len() > 0 && self.address@.len() > 0 && self.phone1@.len() > 0
    }

    fn is_valid(&self) -> (r: bool) {
        !self.name.as_str().is_empty() && !self.address.as_str().is_empty()
            && !self.phone1.as_str().is_empty()
    }

    open spec fn key(&self) -> i32 {
        self.id.id
    }

    open spec fn created(&self) -> i64 {
        self.created_at
    }

    open spec fn modified(&self) -> i64 {
        self.modified_at
    }

    open spec fn with_meta(self, id: i32, created: i64, modified: i64) -> Self {
        Church { id: ChurchId { id }, created_at: created, modified_at: modified, ..self }
    }

    proof fn lemma_with_meta(self, id: i32, created: i64, modified: i64) {
    }

    fn id(&self) -> (r: i32) {
        self.id.id
    }

    fn created_at(&self) -> (r: i64) {
        self.created_at
    }

    fn modified_at(&self) -> (r: i64) {
        self.modified_at
    }

    fn set_meta(&mut self, id: i32, created: i64, modified: i64) {
        self.id = ChurchId { id };
        self.created_at = created;
        self.modified_at = modified;
    }
}

impl Record for ChurchMember {
    open spec fn valid(&self) -> bool {
        self.name@.len() > 0 && self.address@.len() > 0 && self.phone1@.len() > 0
    }

    fn is_valid(&self) -> (r: bool) {
        !self.name.as_str().is_empty() && !self.address.as_str().is_empty()
            && !self.phone1.as_str().is_empty()
    }

    open spec fn key(&self) -> i32 {
        self.id.id
    }

    open spec fn created(&self) -> i64 {
        self.created_at
    }

    open spec fn modified(&self) -> i64 {
        self.modified_at
    }

    open spec fn with_meta(self, id: i32, created: i64, modified: i64) -> Self {
        ChurchMember {
            id: ChurchMemberId { id },
            created_at: created,
            modified_at: modified,
            ..self
        }
    }

    proof fn lemma_with_meta(self, id: i32, created: i64, modified: i64) {
    }

    fn id(&self) -> (r: i32) {
        self.id.id
    }

    fn created_at(&self) -> (r: i64) {
        self.created_at
    }

    fn modified_at(&self) -> (r: i64) {
        self.modified_at
    }

    fn set_meta(&mut self, id: i32, created: i64, modified: i64) {
        self.id = ChurchMemberId { id };
        self.created_at = created;
        self.modified_at = modified;
    }
}

impl Record for FundsType {
    open spec fn valid(&self) -> bool {
        self.name@.len() > 0
    }

    fn is_valid(&self) -> (r: bool) {
        !self.name.as_str().is_empty()
    }

    open spec fn key(&self) -> i32 {
        self.id.id
    }

    open spec fn created(&self) -> i64 {
        self.created_at
    }

    open spec fn modified(&self) -> i64 {
        self.modified_at
    }

    open spec fn with_meta(self, id: i32, created: i64, modified: i64) -> Self {
        FundsType { id: FundTypeId { id }, created_at: created, modified_at: modified, ..self }
    }

    proof fn lemma_with_meta(self, id: i32, created: i64, modified: i64) {
    }

    fn id(&self) -> (r: i32) {
        self.id.id
    }

    fn created_at(&self) -> (r: i64) {
        self.created_at
    }

    fn modified_at(&self) -> (r: i64) {
        self.modified_at
    }

    fn set_meta(&mut self, id: i32, created: i64, modified: i64) {
        self.id = FundTypeId { id };
        self.created_at = created;
        self.modified_at = modified;
    }
}

impl Record for ChurchMemberFunds {
    open spec fn valid(&self) -> bool {
        true
    }

    fn is_valid(&self) -> (r: bool) {
        true
    }

    open spec fn key(&self) -> i32 {
        self.id.id
    }

    open spec fn created(&self) -> i64 {
        self.created_at
    }

    open spec fn modified(&self) -> i64 {
        self.modified_at
    }

    open spec fn with_meta(self, id: i32, created: i64, modified: i64) -> Self {
        ChurchMemberFunds {
            id: ChurchMemberFundsId { id },
            created_at: created,
            modified_at: modified,
            ..self
        }
    }

    proof fn lemma_with_meta(self, id: i32, created: i64, modified: i64) {
    }

    fn id(&self) -> (r: i32) {
        self.id.id
    }

    fn created_at(&self) -> (r: i64) {
        self.created_at
    }

    fn modified_at(&self) -> (r: i64) {
        self.modified_at
    }

    fn set_meta(&mut self, id: i32, created: i64, modified: i64) {
        self.id = ChurchMemberFundsId { id };
        self.created_at = created;
        self.modified_at = modified;
    }
}

} // verus!
