use church_fund_records::{
    Church, ChurchId, ChurchMember, ChurchMemberFunds, ChurchMemberFundsId, ChurchMemberId,
    FundTypeId, FundsType, Schema, Store, StoreError,
};

fn church(id: i32, name: &str) -> Church {
    Church {
        id: ChurchId { id },
        name: name.to_string(),
        address: "1 Main St".to_string(),
        phone1: "555-0100".to_string(),
        phone2: None,
        email: None,
        created_at: 0,
        modified_at: 0,
    }
}

fn member(id: i32, name: &str, church_id: i32) -> ChurchMember {
    ChurchMember {
        id: ChurchMemberId { id },
        name: name.to_string(),
        email: Some("jane@example.org".to_string()),
        address: "2 Side St".to_string(),
        phone1: "555-0101".to_string(),
        phone2: None,
        church_id: ChurchId { id: church_id },
        created_at: 0,
        modified_at: 0,
    }
}

fn fund_type(id: i32, name: &str) -> FundsType {
    FundsType {
        id: FundTypeId { id },
        name: name.to_string(),
        description: Some("weekly offering".to_string()),
        created_at: 0,
        modified_at: 0,
    }
}

fn fund(id: i32, member_id: i32, fund_type_id: i32, amount_cents: i64) -> ChurchMemberFunds {
    ChurchMemberFunds {
        id: ChurchMemberFundsId { id },
        member_id: ChurchMemberId { id: member_id },
        amount_cents,
        fund_type_id: FundTypeId { id: fund_type_id },
        created_at: 0,
        modified_at: 0,
    }
}

#[test]
fn scenario_church_and_member_deletion_order() {
    let mut s = Store::new();
    assert_eq!(s.create_church(church(0, "St. Mark"), 100), Ok(1));
    assert_eq!(s.create_member(member(0, "Jane Doe", 1), 101), Ok(1));
    assert_eq!(s.delete_church(1).map(|c| c.name), Err(StoreError::Conflict));
    assert_eq!(s.delete_member(1).map(|m| m.name), Ok("Jane Doe".to_string()));
    assert_eq!(s.delete_church(1).map(|c| c.name), Ok("St. Mark".to_string()));
    assert!(s.list_churches().is_empty());
    assert!(s.list_members().is_empty());
}

#[test]
fn create_then_get_returns_record_with_assigned_stamps() {
    let mut s = Store::new();
    let cid = s.create_church(church(0, "St. Mark"), 100).unwrap();
    let mut expected = church(cid, "St. Mark");
    expected.created_at = 100;
    expected.modified_at = 100;
    assert_eq!(s.get_church(cid), Ok(&expected));

    let mid = s.create_member(member(0, "Jane Doe", cid), 200).unwrap();
    let mut em = member(mid, "Jane Doe", cid);
    em.created_at = 200;
    em.modified_at = 200;
    assert_eq!(s.get_member(mid), Ok(&em));

    let tid = s.create_fund_type(fund_type(0, "Tithe"), 300).unwrap();
    let mut et = fund_type(tid, "Tithe");
    et.created_at = 300;
    et.modified_at = 300;
    assert_eq!(s.get_fund_type(tid), Ok(&et));

    let fid = s.create_fund(fund(0, mid, tid, 2550), 400).unwrap();
    let mut ef = fund(fid, mid, tid, 2550);
    ef.created_at = 400;
    ef.modified_at = 400;
    assert_eq!(s.get_fund(fid), Ok(&ef));
}

#[test]
fn create_keeps_timestamps_that_are_set() {
    let mut s = Store::new();
    let mut c = church(0, "St. Luke");
    c.created_at = 10;
    c.modified_at = 20;
    let id = s.create_church(c, 100).unwrap();
    let got = s.get_church(id).unwrap();
    assert_eq!((got.created_at, got.modified_at), (10, 20));

    let mut only_created = church(0, "St. John");
    only_created.created_at = 50;
    let id2 = s.create_church(only_created, 100).unwrap();
    let got2 = s.get_church(id2).unwrap();
    assert_eq!((got2.created_at, got2.modified_at), (50, 100));
}

#[test]
fn create_rejects_timestamps_out_of_order() {
    let mut s = Store::new();
    let mut c = church(0, "St. Luke");
    c.created_at = 30;
    c.modified_at = 20;
    assert_eq!(s.create_church(c, 100), Err(StoreError::ValidationError));
    assert!(s.list_churches().is_empty());
}

#[test]
fn create_rejects_negative_id() {
    let mut s = Store::new();
    assert_eq!(s.create_church(church(-3, "St. Luke"), 100), Err(StoreError::ValidationError));
    assert!(s.list_churches().is_empty());
}

#[test]
fn caller_supplied_id_is_kept_and_generation_continues_after_it() {
    let mut s = Store::new();
    assert_eq!(s.create_church(church(10, "A"), 1), Ok(10));
    assert_eq!(s.create_church(church(0, "B"), 2), Ok(11));
    assert_eq!(s.create_church(church(5, "C"), 3), Ok(5));
    assert_eq!(s.create_church(church(0, "D"), 4), Ok(12));
    let names: Vec<&str> = s.list_churches().iter().map(|c| c.name.as_str()).collect();
    assert_eq!(names, vec!["A", "B", "C", "D"]);
}

#[test]
fn duplicate_id_conflicts() {
    let mut s = Store::new();
    assert_eq!(s.create_church(church(7, "A"), 1), Ok(7));
    assert_eq!(s.create_church(church(7, "B"), 2), Err(StoreError::Conflict));
    assert_eq!(s.list_churches().len(), 1);
    assert_eq!(s.get_church(7).unwrap().name, "A");
}

#[test]
fn generated_ids_exhausted_is_storage_error() {
    let mut s = Store::new();
    assert_eq!(s.create_fund_type(fund_type(i32::MAX, "Last"), 1), Ok(i32::MAX));
    assert_eq!(s.create_fund_type(fund_type(0, "Next"), 2), Err(StoreError::StorageError));
    assert_eq!(s.list_fund_types().len(), 1);
}

#[test]
fn update_twice_changes_only_modified_at() {
    let mut s = Store::new();
    let id = s.create_church(church(0, "St. Mark"), 100).unwrap();
    let mut changed = church(id, "St. Mark's");
    changed.phone2 = Some("555-0199".to_string());
    assert_eq!(s.update_church(changed.clone(), 150), Ok(()));
    let first = s.get_church(id).unwrap().clone();
    assert_eq!(s.update_church(changed.clone(), 200), Ok(()));
    let second = s.get_church(id).unwrap().clone();
    assert_eq!(first.modified_at, 150);
    assert_eq!(second.modified_at, 200);
    assert_eq!(second.created_at, 100);
    let mut first_restamped = first.clone();
    first_restamped.modified_at = second.modified_at;
    assert_eq!(first_restamped, second);
    assert_eq!(second.name, "St. Mark's");
}

#[test]
fn update_with_stale_clock_still_advances_modified_at() {
    let mut s = Store::new();
    let id = s.create_fund_type(fund_type(0, "Tithe"), 500).unwrap();
    assert_eq!(s.update_fund_type(fund_type(id, "Tithes"), 400), Ok(()));
    assert_eq!(s.get_fund_type(id).unwrap().modified_at, 501);
    assert_eq!(s.update_fund_type(fund_type(id, "Tithes"), 501), Ok(()));
    assert_eq!(s.get_fund_type(id).unwrap().modified_at, 502);
    assert_eq!(s.get_fund_type(id).unwrap().created_at, 500);
}

#[test]
fn update_at_last_instant_is_storage_error() {
    let mut s = Store::new();
    let mut c = church(0, "St. Mark");
    c.created_at = i64::MAX;
    c.modified_at = i64::MAX;
    let id = s.create_church(c, 1).unwrap();
    assert_eq!(s.update_church(church(id, "Other"), 5), Err(StoreError::StorageError));
    assert_eq!(s.get_church(id).unwrap().name, "St. Mark");
}

#[test]
fn update_of_missing_record_is_not_found() {
    let mut s = Store::new();
    assert_eq!(s.update_church(church(4, "Nowhere"), 5), Err(StoreError::NotFound));
    assert_eq!(s.update_fund(fund(1, 1, 1, 10), 5), Err(StoreError::NotFound));
}

#[test]
fn update_member_to_missing_church_is_not_found() {
    let mut s = Store::new();
    let cid = s.create_church(church(0, "St. Mark"), 1).unwrap();
    let mid = s.create_member(member(0, "Jane Doe", cid), 2).unwrap();
    assert_eq!(s.update_member(member(mid, "Jane Roe", 99), 3), Err(StoreError::NotFound));
    assert_eq!(s.get_member(mid).unwrap().name, "Jane Doe");
    assert_eq!(s.get_member(mid).unwrap().church_id, ChurchId { id: cid });
}

#[test]
fn create_member_of_missing_church_is_not_found_and_stores_nothing() {
    let mut s = Store::new();
    assert_eq!(s.create_member(member(0, "Jane Doe", 1), 1), Err(StoreError::NotFound));
    assert!(s.list_members().is_empty());
    assert_eq!(s.get_member(1), Err(StoreError::NotFound));
}

#[test]
fn create_fund_needs_member_and_fund_type() {
    let mut s = Store::new();
    let cid = s.create_church(church(0, "St. Mark"), 1).unwrap();
    let mid = s.create_member(member(0, "Jane Doe", cid), 2).unwrap();
    assert_eq!(s.create_fund(fund(0, mid, 1, 100), 3), Err(StoreError::NotFound));
    let tid = s.create_fund_type(fund_type(0, "Tithe"), 4).unwrap();
    assert_eq!(s.create_fund(fund(0, mid + 1, tid, 100), 5), Err(StoreError::NotFound));
    assert!(s.list_funds().is_empty());
    assert_eq!(s.create_fund(fund(0, mid, tid, 100), 6), Ok(1));
}

#[test]
fn delete_with_contributions_conflicts_then_leaf_delete_succeeds() {
    let mut s = Store::new();
    let cid = s.create_church(church(0, "St. Mark"), 1).unwrap();
    let mid = s.create_member(member(0, "Jane Doe", cid), 2).unwrap();
    let tid = s.create_fund_type(fund_type(0, "Tithe"), 3).unwrap();
    let fid = s.create_fund(fund(0, mid, tid, 1000), 4).unwrap();
    assert_eq!(s.delete_member(mid).map(|m| m.id), Err(StoreError::Conflict));
    assert_eq!(s.delete_fund_type(tid).map(|t| t.id), Err(StoreError::Conflict));
    assert_eq!(s.delete_fund(fid).map(|f| f.amount_cents), Ok(1000));
    assert_eq!(s.get_fund(fid), Err(StoreError::NotFound));
    assert_eq!(s.delete_fund_type(tid).map(|t| t.id), Ok(FundTypeId { id: tid }));
    assert_eq!(s.get_fund_type(tid), Err(StoreError::NotFound));
    assert_eq!(s.delete_member(mid).map(|m| m.id), Ok(ChurchMemberId { id: mid }));
    assert_eq!(s.get_member(mid), Err(StoreError::NotFound));
    assert_eq!(s.delete_church(cid).map(|c| c.id), Ok(ChurchId { id: cid }));
    assert_eq!(s.get_church(cid), Err(StoreError::NotFound));
}

#[test]
fn delete_of_missing_record_is_not_found() {
    let mut s = Store::new();
    assert_eq!(s.delete_church(1).map(|c| c.id), Err(StoreError::NotFound));
    assert_eq!(s.delete_member(1).map(|m| m.id), Err(StoreError::NotFound));
    assert_eq!(s.delete_fund_type(1).map(|t| t.id), Err(StoreError::NotFound));
    assert_eq!(s.delete_fund(1).map(|f| f.id), Err(StoreError::NotFound));
}

#[test]
fn delete_keeps_other_rows_in_order() {
    let mut s = Store::new();
    s.create_church(church(0, "A"), 1).unwrap();
    s.create_church(church(0, "B"), 1).unwrap();
    s.create_church(church(0, "C"), 1).unwrap();
    assert!(s.delete_church(2).is_ok());
    let names: Vec<&str> = s.list_churches().iter().map(|c| c.name.as_str()).collect();
    assert_eq!(names, vec!["A", "C"]);
    assert_eq!(s.create_church(church(0, "D"), 1), Ok(4));
}

#[test]
fn empty_required_field_is_validation_error() {
    let mut s = Store::new();
    assert_eq!(s.create_church(church(0, ""), 1), Err(StoreError::ValidationError));
    let mut no_phone = church(0, "St. Mark");
    no_phone.phone1 = String::new();
    assert_eq!(s.create_church(no_phone, 1), Err(StoreError::ValidationError));
    assert!(s.list_churches().is_empty());
    let id = s.create_church(church(0, "St. Mark"), 1).unwrap();
    assert_eq!(s.create_member(member(0, "", id), 2), Err(StoreError::ValidationError));
    assert_eq!(s.create_fund_type(fund_type(0, ""), 3), Err(StoreError::ValidationError));
    assert_eq!(s.update_church(church(id, ""), 4), Err(StoreError::ValidationError));
    assert_eq!(s.get_church(id).unwrap().name, "St. Mark");
    assert_eq!(s.get_church(id).unwrap().modified_at, 1);
}

#[test]
fn store_opens_only_over_migrated_schema() {
    let mut schema = Schema::new();
    assert_eq!(Store::open(&schema).map(|s| s.list_churches().len()), Err(StoreError::StorageError));
    schema.upgrade(1).unwrap();
    assert_eq!(Store::open(&schema).map(|s| s.list_churches().len()), Ok(0));
}
