//! Properties of the store that relate several operations.
use vstd::prelude::*;
use crate::entity::{Church, ChurchMember, ChurchMemberFunds, FundsType, Record};
use crate::error::StoreError;
use crate::store::StoreView;
use crate::table::{
    lemma_index_unique, lemma_insert, lemma_remove, lemma_update, next_stamp, stamp_or, TableView,
};

verus! {

/// Looking up what an insert added gives back the inserted record, with the
/// identifier and the timestamps that the table assigned.
pub open spec fn created_then_found<R: Record>(t: TableView<R>, rec: R, now: i64) -> bool {
    t.insert(rec, now) matches Ok((t2, id)) ==> {
        &&& t2.lookup(id) == Some(
            rec.with_meta(id, stamp_or(rec.created(), now), stamp_or(rec.modified(), now)),
        )
        &&& (rec.key() != 0 ==> id == rec.key())
    }
}

/// Where two updates with the same record both succeed, the second result
/// differs from the first in its modification time alone, and modification
/// times strictly increase while the creation time stays.
pub open spec fn updated_twice<R: Record>(t0: TableView<R>, rec: R, now1: i64, now2: i64) -> bool {
    t0.update(rec, now1) matches Ok(t1) ==> (t1.update(rec, now2) matches Ok(t2) ==> {
        let k = rec.key();
        let x0 = t0.lookup(k)->Some_0;
        let x1 = t1.lookup(k)->Some_0;
        let x2 = t2.lookup(k)->Some_0;
        &&& t0.lookup(k) is Some && t1.lookup(k) is Some && t2.lookup(k) is Some
        &&& x2 == x1.with_meta(k, x1.created(), x2.modified())
        &&& x0.modified() < x1.modified() < x2.modified()
        &&& x2.created() == x1.created() == x0.created()
    })
}

proof fn lemma_created_then_found<R: Record>(t: TableView<R>, rec: R, now: i64)
    requires
        t.wf(),
    ensures
        created_then_found(t, rec, now),
{
    lemma_insert(t, rec, now);
}

proof fn lemma_updated_twice<R: Record>(t0: TableView<R>, rec: R, now1: i64, now2: i64)
    requires
        t0.wf(),
    ensures
        updated_twice(t0, rec, now1, now2),
{
    lemma_update(t0, rec, now1);
    if let Ok(t1) = t0.update(rec, now1) {
        lemma_update(t1, rec, now2);
        if let Ok(t2) = t1.update(rec, now2) {
            let k = rec.key();
            let i = t0.index_of(k);
            let x0 = t0.rows[i];
            let m1 = next_stamp(x0.modified(), now1)->Some_0;
            rec.lemma_with_meta(k, x0.created(), m1);
            lemma_index_unique(t0, i);
            lemma_index_unique(t1, i);
            let x1 = t1.rows[i];
            assert(x1 == rec.with_meta(k, x0.created(), m1));
            let m2 = next_stamp(x1.modified(), now2)->Some_0;
            rec.lemma_with_meta(k, x0.created(), m2);
            lemma_index_unique(t2, i);
            let x2 = t2.rows[i];
            assert(x2 == rec.with_meta(k, x0.created(), m2));
            assert(x1.with_meta(k, x1.created(), x2.modified()) == x2);
        }
    }
}

/// Create followed by get gives back the created record, equal to the one
/// handed in but for the assigned identifier and timestamps; an identifier
/// handed in is kept.
pub proof fn law_create_then_get(
    s: StoreView,
    c: Church,
    m: ChurchMember,
    ft: FundsType,
    f: ChurchMemberFunds,
    now: i64,
)
    requires
        s.wf(),
    ensures
        s.create_church(c, now) matches Ok((s2, id)) ==> s2.churches.lookup(id) == Some(
            c.with_meta(id, stamp_or(c.created_at, now), stamp_or(c.modified_at, now)),
        ) && (c.id.id != 0 ==> id == c.id.id),
        s.create_member(m, now) matches Ok((s2, id)) ==> s2.members.lookup(id) == Some(
            m.with_meta(id, stamp_or(m.created_at, now), stamp_or(m.modified_at, now)),
        ) && (m.id.id != 0 ==> id == m.id.id),
        s.create_fund_type(ft, now) matches Ok((s2, id)) ==> s2.fund_types.lookup(id) == Some(
            ft.with_meta(id, stamp_or(ft.created_at, now), stamp_or(ft.modified_at, now)),
        ) && (ft.id.id != 0 ==> id == ft.id.id),
        s.create_fund(f, now) matches Ok((s2, id)) ==> s2.funds.lookup(id) == Some(
            f.with_meta(id, stamp_or(f.created_at, now), stamp_or(f.modified_at, now)),
        ) && (f.id.id != 0 ==> id == f.id.id),
{
    lemma_created_then_found(s.churches, c, now);
    lemma_created_then_found(s.members, m, now);
    lemma_created_then_found(s.fund_types, ft, now);
    lemma_created_then_found(s.funds, f, now);
}

/// Updating a record twice with the same values leaves every field but the
/// modification time as the first update left it; each update strictly
/// increases the modification time and keeps the creation time.
pub proof fn law_update_twice(
    s: StoreView,
    c: Church,
    m: ChurchMember,
    ft: FundsType,
    f: ChurchMemberFunds,
    now1: i64,
    now2: i64,
)
    requires
        s.wf(),
    ensures
        s.update_church(c, now1) matches Ok(s1) ==> (s1.update_church(c, now2) matches Ok(s2)
            ==> updated_twice(s.churches, c, now1, now2) && s1.churches == s.churches.update(
            c,
            now1,
        )->Ok_0 && s2.churches == s1.churches.update(c, now2)->Ok_0),
        s.update_member(m, now1) matches Ok(s1) ==> (s1.update_member(m, now2) matches Ok(s2)
            ==> updated_twice(s.members, m, now1, now2) && s1.members == s.members.update(
            m,
            now1,
        )->Ok_0 && s2.members == s1.members.update(m, now2)->Ok_0),
        s.update_fund_type(ft, now1) matches Ok(s1) ==> (s1.update_fund_type(ft, now2) matches Ok(
            s2,
        ) ==> updated_twice(s.fund_types, ft, now1, now2) && s1.fund_types
            == s.fund_types.update(ft, now1)->Ok_0 && s2.fund_types == s1.fund_types.update(
            ft,
            now2,
        )->Ok_0),
        s.update_fund(f, now1) matches Ok(s1) ==> (s1.update_fund(f, now2) matches Ok(s2)
            ==> updated_twice(s.funds, f, now1, now2) && s1.funds == s.funds.update(
            f,
            now1,
        )->Ok_0 && s2.funds == s1.funds.update(f, now2)->Ok_0),
{
    lemma_updated_twice(s.churches, c, now1, now2);
    lemma_updated_twice(s.members, m, now1, now2);
    lemma_updated_twice(s.fund_types, ft, now1, now2);
    lemma_updated_twice(s.funds, f, now1, now2);
}

/// Deleting a record that other records refer to fails with `Conflict`.
pub proof fn law_delete_with_dependents(s: StoreView, id: i32)
    requires
        s.wf(),
    ensures
        s.church_in_use(id) ==> s.delete_church(id) == Err::<StoreView, StoreError>(
            StoreError::Conflict,
        ),
        s.member_in_use(id) ==> s.delete_member(id) == Err::<StoreView, StoreError>(
            StoreError::Conflict,
        ),
        s.fund_type_in_use(id) ==> s.delete_fund_type(id) == Err::<StoreView, StoreError>(
            StoreError::Conflict,
        ),
{
}

/// Deleting an existing record that nothing refers to succeeds, keeps the
/// store well formed, and afterwards the record is not found.
pub proof fn law_delete_leaf(s: StoreView, id: i32)
    requires
        s.wf(),
    ensures
        s.churches.contains(id) && !s.church_in_use(id) ==> s.delete_church(id) is Ok
            && s.delete_church(id)->Ok_0.wf() && s.delete_church(id)->Ok_0.churches.lookup(id)
            == None::<Church>,
        s.members.contains(id) && !s.member_in_use(id) ==> s.delete_member(id) is Ok
            && s.delete_member(id)->Ok_0.wf() && s.delete_member(id)->Ok_0.members.lookup(id)
            == None::<ChurchMember>,
        s.fund_types.contains(id) && !s.fund_type_in_use(id) ==> s.delete_fund_type(id) is Ok
            && s.delete_fund_type(id)->Ok_0.wf() && s.delete_fund_type(id)->Ok_0.fund_types.lookup(
            id,
        ) == None::<FundsType>,
        s.funds.contains(id) ==> s.delete_fund(id) is Ok && s.delete_fund(id)->Ok_0.wf()
            && s.delete_fund(id)->Ok_0.funds.lookup(id) == None::<ChurchMemberFunds>,
{
    lemma_remove(s.churches, id);
    lemma_remove(s.members, id);
    lemma_remove(s.fund_types, id);
    lemma_remove(s.funds, id);
    if s.churches.contains(id) && !s.church_in_use(id) {
        let s2 = s.delete_church(id)->Ok_0;
        assert(s2.refs_ok());
    }
    if s.members.contains(id) && !s.member_in_use(id) {
        let s2 = s.delete_member(id)->Ok_0;
        assert(s2.refs_ok());
    }
    if s.fund_types.contains(id) && !s.fund_type_in_use(id) {
        let s2 = s.delete_fund_type(id)->Ok_0;
        assert(s2.refs_ok());
    }
    if s.funds.contains(id) {
        let s2 = s.delete_fund(id)->Ok_0;
        assert forall|i: int|
            #![trigger s2.funds.rows[i]]
            0 <= i < s2.funds.rows.len() implies s2.members.contains(s2.funds.rows[i].member_id.id)
            && s2.fund_types.contains(s2.funds.rows[i].fund_type_id.id) by {
            let j = if i < s.funds.index_of(id) { i } else { i + 1 };
            assert(s.funds.rows[j] == s.funds.rows[j]);
        }
        assert(s2.refs_ok());
    }
}

/// Creating a member of a church that does not exist fails with `NotFound`;
/// the executable create then leaves the store as it was.
pub proof fn law_member_needs_church(s: StoreView, m: ChurchMember, now: i64)
    ensures
        !s.churches.contains(m.church_id.id) ==> s.create_member(m, now) == Err::<
            (StoreView, i32),
            StoreError,
        >(StoreError::NotFound),
{
}

} // verus!
