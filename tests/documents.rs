use mongodb::bson::{Bson, Document};
use todo_api::document::{
    address_filter, append_operation, lookup_step, push_update, set_update, task_document, task_filter,
    update_operation, user_document, wipe_filter, StoredLookup,
};
use todo_api::model::{TaskRecord, TaskUpdate, UserRecord};
use todo_api::protocol::{FieldPatch, Status};

fn request(task_name: Option<&str>, checked: Option<bool>, deleted: Option<bool>) -> TaskUpdate {
    TaskUpdate {
        address: "addr1".to_string(),
        task_id: 1,
        task_name: task_name.map(|s| s.to_string()),
        checked,
        deleted,
    }
}

#[test]
fn task_document_holds_every_field_in_order() {
    let t = TaskRecord {
        task_id: 7,
        task_name: Some("X".to_string()),
        checked: Some(false),
        deleted: Some(false),
        disabled: false,
    };
    assert_eq!(
        task_document(&t).to_string(),
        r#"{ "taskID": 7, "taskName": "X", "checked": false, "deleted": false, "disabled": false }"#
    );
}

#[test]
fn task_document_stores_absent_fields_as_null() {
    let t = TaskRecord { task_id: -3, task_name: None, checked: None, deleted: Some(true), disabled: false };
    assert_eq!(
        task_document(&t).to_string(),
        r#"{ "taskID": -3, "taskName": null, "checked": null, "deleted": true, "disabled": false }"#
    );
}

#[test]
fn user_document_of_new_user_has_empty_data() {
    let u = UserRecord::new(&"addr2".to_string());
    assert_eq!(user_document(&u).to_string(), r#"{ "userAddress": "addr2", "data": [] }"#);
}

#[test]
fn user_document_embeds_tasks_in_order() {
    let mut u = UserRecord::new(&"a".to_string());
    u.data.push(TaskRecord { task_id: 1, task_name: Some("p".to_string()), checked: None, deleted: None, disabled: false });
    u.data.push(TaskRecord { task_id: 2, task_name: None, checked: Some(true), deleted: None, disabled: false });
    assert_eq!(
        user_document(&u).to_string(),
        [
            r#"{ "userAddress": "a", "data": ["#,
            r#"{ "taskID": 1, "taskName": "p", "checked": null, "deleted": null, "disabled": false }, "#,
            r#"{ "taskID": 2, "taskName": null, "checked": true, "deleted": null, "disabled": false }] }"#,
        ]
        .join("")
    );
}

#[test]
fn filters_select_by_address_and_task() {
    assert_eq!(address_filter(&"addr2".to_string()).to_string(), r#"{ "userAddress": "addr2" }"#);
    assert_eq!(
        task_filter(&"addr1".to_string(), 1).to_string(),
        r#"{ "userAddress": "addr1", "data.taskID": 1 }"#
    );
    assert_eq!(wipe_filter().to_string(), "{}");
}

#[test]
fn set_updates_target_the_matched_task() {
    assert_eq!(
        set_update(&FieldPatch::Name("Buy milk".to_string())).to_string(),
        r#"{ "$set": { "data.$.taskName": "Buy milk" } }"#
    );
    assert_eq!(set_update(&FieldPatch::Checked(true)).to_string(), r#"{ "$set": { "data.$.checked": true } }"#);
    assert_eq!(set_update(&FieldPatch::Deleted(true)).to_string(), r#"{ "$set": { "data.$.deleted": true } }"#);
}

#[test]
fn push_update_appends_the_task() {
    let t = TaskRecord { task_id: 7, task_name: Some("X".to_string()), checked: Some(false), deleted: Some(false), disabled: false };
    assert_eq!(
        push_update(&t).to_string(),
        r#"{ "$push": { "data": { "taskID": 7, "taskName": "X", "checked": false, "deleted": false, "disabled": false } } }"#
    );
}

#[test]
fn update_operation_applies_name_before_checked() {
    let (filter, update) = match update_operation(&request(Some("Buy milk"), Some(true), None)) {
        Ok(op) => op,
        Err(_) => panic!("expected an operation"),
    };
    assert_eq!(filter.to_string(), r#"{ "userAddress": "addr1", "data.taskID": 1 }"#);
    assert_eq!(update.to_string(), r#"{ "$set": { "data.$.taskName": "Buy milk" } }"#);
}

#[test]
fn update_operation_applies_checked_before_deleted() {
    match update_operation(&request(None, Some(false), Some(true))) {
        Ok((_, update)) => assert_eq!(update.to_string(), r#"{ "$set": { "data.$.checked": false } }"#),
        Err(_) => panic!("expected an operation"),
    }
}

#[test]
fn update_operation_refuses_empty_request() {
    assert!(matches!(update_operation(&request(None, None, None)), Err(Status::BadRequest)));
}

#[test]
fn append_operation_pushes_a_never_disabled_task() {
    let req = TaskUpdate {
        address: "addr2".to_string(),
        task_id: 7,
        task_name: Some("X".to_string()),
        checked: Some(false),
        deleted: Some(false),
    };
    let (filter, update) = append_operation(&req);
    assert_eq!(filter.to_string(), r#"{ "userAddress": "addr2" }"#);
    assert_eq!(
        update.to_string(),
        r#"{ "$push": { "data": { "taskID": 7, "taskName": "X", "checked": false, "deleted": false, "disabled": false } } }"#
    );
}

#[test]
fn lookup_step_strips_the_internal_identifier() {
    let mut stored = Document::new();
    stored.insert("_id", Bson::Int32(42));
    stored.insert("userAddress", "addr3");
    stored.insert("data", Vec::<Bson>::new());
    match lookup_step(&"addr3".to_string(), Some(stored)) {
        StoredLookup::Found(answer) => {
            assert_eq!(answer.to_string(), r#"{ "userAddress": "addr3", "data": [] }"#);
        }
        StoredLookup::Create(_) => panic!("expected the stored record"),
    }
}

#[test]
fn lookup_step_creates_a_fresh_record() {
    match lookup_step(&"addr4".to_string(), None) {
        StoredLookup::Create(record) => {
            assert_eq!(record.to_string(), r#"{ "userAddress": "addr4", "data": [] }"#);
        }
        StoredLookup::Found(_) => panic!("expected a new record"),
    }
}
