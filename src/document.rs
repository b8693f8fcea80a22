//! The store-level form of the protocol: the filter and update documents that
//! each operation hands to the document store, built with bson's `Document`.
use vstd::prelude::*;
use mongodb::bson::{Bson, Document};
use crate::model::{
    TaskRecord, TaskUpdate, TaskView, UserRecord, UserView, ADDRESS_KEY, CHECKED_KEY, DATA_KEY,
    DELETED_KEY, DISABLED_KEY, INTERNAL_ID_KEY, TASK_ID_KEY, TASK_ID_PATH, TASK_NAME_KEY,
    new_user,
};
use crate::protocol::{FieldPatch, PatchView, Status, new_task, patch_of, select_patch, task_of};

verus! {

#[verifier::external_type_specification]
#[verifier::external_body]
pub struct ExDocument(Document);

/// Mathematical value of the BSON values that the protocol writes.
pub enum BsonView {
    Null,
    Boolean(bool),
    Int32(i32),
    Str(Seq<char>),
    Doc(Seq<(Seq<char>, BsonView)>),
    Array(Seq<BsonView>),
}

/// The entries of a document, as key and value, in the document's order.
pub uninterp spec fn entries_of(d: Document) -> Seq<(Seq<char>, BsonView)>;

/// Whether an entry has key `k`.
pub open spec fn has_key(e: Seq<(Seq<char>, BsonView)>, k: Seq<char>) -> bool {
    exists|i: int| 0 <= i < e.len() && (#[trigger] e[i]).0 == k
}

/// Relies on bson's `Document::new`: a document with no entries.
#[verifier::external_body]
fn new_document() -> (r: Document)
    ensures
        entries_of(r) == Seq::<(Seq<char>, BsonView)>::empty(),
{
    Document::new()
}

/// A value that the protocol writes into a document.
pub enum FieldValue {
    Null,
    Boolean(bool),
    Int32(i32),
    Str(String),
    Doc(Document),
    Docs(Vec<Document>),
}

impl View for FieldValue {
    type V = BsonView;

    open spec fn view(&self) -> BsonView {
        match self {
            FieldValue::Null => BsonView::Null,
            FieldValue::Boolean(b) => BsonView::Boolean(*b),
            FieldValue::Int32(i) => BsonView::Int32(*i),
            FieldValue::Str(s) => BsonView::Str(s@),
            FieldValue::Doc(d) => BsonView::Doc(entries_of(*d)),
            FieldValue::Docs(v) => BsonView::Array(
                v@.map_values(|d: Document| BsonView::Doc(entries_of(d))),
            ),
        }
    }
}

/// Relies on bson's `Document::insert`, an `IndexMap` insert: a new key is
/// appended, an existing key keeps its place and takes the new value. The
/// value becomes the `Bson` variant of the same name; a list of documents
/// becomes an array of embedded documents in the same order.
#[verifier::external_body]
fn insert(d: &mut Document, key: &str, value: FieldValue)
    ensures
        !has_key(entries_of(*old(d)), key@) ==> entries_of(*final(d)) == entries_of(*old(d)).push(
            (key@, value@),
        ),
        forall|i: int|
            0 <= i < entries_of(*old(d)).len() && (#[trigger] entries_of(*old(d))[i]).0 == key@
                ==> entries_of(*final(d)) == entries_of(*old(d)).update(i, (key@, value@)),
{
    let bson = match value {
        FieldValue::Null => Bson::Null,
        FieldValue::Boolean(b) => Bson::Boolean(b),
        FieldValue::Int32(i) => Bson::Int32(i),
        FieldValue::Str(s) => Bson::String(s),
        FieldValue::Doc(sub) => Bson::Document(sub),
        FieldValue::Docs(subs) => Bson::Array(subs.into_iter().map(Bson::Document).collect()),
    };
    d.insert(key, bson);
}

/// The value of an optional string: null when absent.
fn opt_str_value(s: &Option<String>) -> (r: FieldValue)
    ensures
        r@ == opt_str_bson(crate::model::opt_str_view(*s)),
{
    match s {
        Some(v) => FieldValue::Str(v.clone()),
        None => FieldValue::Null,
    }
}

/// The value of an optional flag: null when absent.
fn opt_bool_value(b: Option<bool>) -> (r: FieldValue)
    ensures
        r@ == opt_bool_bson(b),
{
    match b {
        Some(v) => FieldValue::Boolean(v),
        None => FieldValue::Null,
    }
}

/// The BSON value of an optional string: null when absent.
pub open spec fn opt_str_bson(s: Option<Seq<char>>) -> BsonView {
    match s {
        Some(v) => BsonView::Str(v),
        None => BsonView::Null,
    }
}

/// The BSON value of an optional flag: null when absent.
pub open spec fn opt_bool_bson(b: Option<bool>) -> BsonView {
    match b {
        Some(v) => BsonView::Boolean(v),
        None => BsonView::Null,
    }
}






/// The stored form of a task.
pub open spec fn task_entries(t: TaskView) -> Seq<(Seq<char>, BsonView)> {
    seq![
        (TASK_ID_KEY@, BsonView::Int32(t.task_id)),
        (TASK_NAME_KEY@, opt_str_bson(t.task_name)),
        (CHECKED_KEY@, opt_bool_bson(t.checked)),
        (DELETED_KEY@, opt_bool_bson(t.deleted)),
        (DISABLED_KEY@, BsonView::Boolean(t.disabled)),
    ]
}

/// The stored form of a sequence of tasks, as an array of documents.
pub open spec fn tasks_bson(data: Seq<TaskView>) -> BsonView {
    BsonView::Array(data.map_values(|t: TaskView| BsonView::Doc(task_entries(t))))
}

/// The stored form of a user record: its address, then its tasks. This is
/// also the whole answer to a lookup; it never holds the store's own
/// identifier.
pub open spec fn user_entries(u: UserView) -> Seq<(Seq<char>, BsonView)> {
    seq![(ADDRESS_KEY@, BsonView::Str(u.user_address)), (DATA_KEY@, tasks_bson(u.data))]
}

/// The filter that selects the user record of `address`.
pub open spec fn address_filter_entries(address: Seq<char>) -> Seq<(Seq<char>, BsonView)> {
    seq![(ADDRESS_KEY@, BsonView::Str(address))]
}

/// The filter that selects the user record of `address` that holds a task
/// with identifier `task_id`.
pub open spec fn task_filter_entries(address: Seq<char>, task_id: i32) -> Seq<(Seq<char>, BsonView)> {
    seq![(ADDRESS_KEY@, BsonView::Str(address)), (TASK_ID_PATH@, BsonView::Int32(task_id))]
}

/// The path of the patched field in the task that the filter matched.
pub open spec fn patch_path(p: PatchView) -> Seq<char> {
    match p {
        PatchView::Name(_) => "data.$.taskName"@,
        PatchView::Checked(_) => "data.$.checked"@,
        PatchView::Deleted(_) => "data.$.deleted"@,
    }
}

/// The new value of the patched field.
pub open spec fn patch_value(p: PatchView) -> BsonView {
    match p {
        PatchView::Name(n) => BsonView::Str(n),
        PatchView::Checked(b) => BsonView::Boolean(b),
        PatchView::Deleted(b) => BsonView::Boolean(b),
    }
}

/// The update that sets the patched field of the matched task only.
pub open spec fn set_update_entries(p: PatchView) -> Seq<(Seq<char>, BsonView)> {
    seq![("$set"@, BsonView::Doc(seq![(patch_path(p), patch_value(p))]))]
}

/// The update that appends a task to the end of the user's tasks.
pub open spec fn push_update_entries(t: TaskView) -> Seq<(Seq<char>, BsonView)> {
    seq![("$push"@, BsonView::Doc(seq![(DATA_KEY@, BsonView::Doc(task_entries(t)))]))]
}

/// The field names that the protocol writes side by side are distinct.
proof fn lemma_keys_distinct()
    ensures
        TASK_ID_KEY@ != TASK_NAME_KEY@,
        TASK_ID_KEY@ != CHECKED_KEY@,
        TASK_ID_KEY@ != DELETED_KEY@,
        TASK_ID_KEY@ != DISABLED_KEY@,
        TASK_NAME_KEY@ != CHECKED_KEY@,
        TASK_NAME_KEY@ != DELETED_KEY@,
        TASK_NAME_KEY@ != DISABLED_KEY@,
        CHECKED_KEY@ != DELETED_KEY@,
        CHECKED_KEY@ != DISABLED_KEY@,
        DELETED_KEY@ != DISABLED_KEY@,
        ADDRESS_KEY@ != DATA_KEY@,
        ADDRESS_KEY@ != TASK_ID_PATH@,
{
    reveal_strlit("taskID");
    reveal_strlit("taskName");
    reveal_strlit("checked");
    reveal_strlit("deleted");
    reveal_strlit("disabled");
    reveal_strlit("userAddress");
    reveal_strlit("data");
    reveal_strlit("data.taskID");
    assert(TASK_ID_KEY@.len() == 6);
    assert(TASK_NAME_KEY@.len() == 8 && TASK_NAME_KEY@[0] == 't');
    assert(CHECKED_KEY@.len() == 7 && CHECKED_KEY@[0] == 'c');
    assert(DELETED_KEY@.len() == 7 && DELETED_KEY@[0] == 'd');
    assert(DISABLED_KEY@.len() == 8 && DISABLED_KEY@[0] == 'd');
    assert(ADDRESS_KEY@.len() == 11 && ADDRESS_KEY@[0] == 'u');
    assert(DATA_KEY@.len() == 4);
    assert(TASK_ID_PATH@.len() == 11 && TASK_ID_PATH@[0] == 'd');
}

/// The stored form of `task`.
pub fn task_document(task: &TaskRecord) -> (r: Document)
    ensures
        entries_of(r) == task_entries(task@),
{
    proof {
        lemma_keys_distinct();
    }
    let mut d = new_document();
    insert(&mut d, TASK_ID_KEY, FieldValue::Int32(task.task_id));
    assert(!has_key(entries_of(d), TASK_NAME_KEY@));
    insert(&mut d, TASK_NAME_KEY, opt_str_value(&task.task_name));
    assert(!has_key(entries_of(d), CHECKED_KEY@));
    insert(&mut d, CHECKED_KEY, opt_bool_value(task.checked));
    assert(!has_key(entries_of(d), DELETED_KEY@));
    insert(&mut d, DELETED_KEY, opt_bool_value(task.deleted));
    assert(!has_key(entries_of(d), DISABLED_KEY@));
    insert(&mut d, DISABLED_KEY, FieldValue::Boolean(task.disabled));
    assert(entries_of(d) =~= task_entries(task@));
    d
}

/// The stored form of `user`, which is also the answer to a lookup.
pub fn user_document(user: &UserRecord) -> (r: Document)
    ensures
        entries_of(r) == user_entries(user@),
{
    proof {
        lemma_keys_distinct();
    }
    let ghost data = user@.data;
    let mut tasks: Vec<Document> = Vec::new();
    let n = user.data.len();
    let mut i: usize = 0;
    while i < n
        invariant
            n == user.data@.len(),
            data == user@.data,
            i <= n,
            tasks@.len() == i,
            forall|k: int| 0 <= k < i ==> entries_of(#[trigger] tasks@[k]) == task_entries(data[k]),
        decreases n - i,
    {
        let t = task_document(&user.data[i]);
        tasks.push(t);
        i = i + 1;
    }
    assert(FieldValue::Docs(tasks)@ == tasks_bson(data)) by {
        assert(tasks@.map_values(|s: Document| BsonView::Doc(entries_of(s))) =~= data.map_values(
            |t: TaskView| BsonView::Doc(task_entries(t)),
        ));
    }
    let mut d = new_document();
    insert(&mut d, ADDRESS_KEY, FieldValue::Str(user.user_address.clone()));
    assert(!has_key(entries_of(d), DATA_KEY@));
    insert(&mut d, DATA_KEY, FieldValue::Docs(tasks));
    assert(entries_of(d) =~= user_entries(user@));
    d
}

/// The filter of a lookup and of an append: the user record of `address`.
pub fn address_filter(address: &String) -> (r: Document)
    ensures
        entries_of(r) == address_filter_entries(address@),
{
    let mut d = new_document();
    insert(&mut d, ADDRESS_KEY, FieldValue::Str(address.clone()));
    assert(entries_of(d) =~= address_filter_entries(address@));
    d
}

/// The filter of a field update: the user record of `address` that holds a
/// task with identifier `task_id`.
pub fn task_filter(address: &String, task_id: i32) -> (r: Document)
    ensures
        entries_of(r) == task_filter_entries(address@, task_id),
{
    proof {
        lemma_keys_distinct();
    }
    let mut d = new_document();
    insert(&mut d, ADDRESS_KEY, FieldValue::Str(address.clone()));
    assert(!has_key(entries_of(d), TASK_ID_PATH@));
    insert(&mut d, TASK_ID_PATH, FieldValue::Int32(task_id));
    assert(entries_of(d) =~= task_filter_entries(address@, task_id));
    d
}

/// The update that sets the patched field of the task that the filter
/// matched.
pub fn set_update(patch: &FieldPatch) -> (r: Document)
    ensures
        entries_of(r) == set_update_entries(patch@),
{
    let path = patch.set_path();
    let mut fields = new_document();
    match patch {
        FieldPatch::Name(n) => insert(&mut fields, path.as_str(), FieldValue::Str(n.clone())),
        FieldPatch::Checked(b) => insert(&mut fields, path.as_str(), FieldValue::Boolean(*b)),
        FieldPatch::Deleted(b) => insert(&mut fields, path.as_str(), FieldValue::Boolean(*b)),
    }
    let mut d = new_document();
    insert(&mut d, "$set", FieldValue::Doc(fields));
    proof {
        reveal_strlit("$set");
    }
    assert(entries_of(d) =~= set_update_entries(patch@));
    d
}

/// The update that appends `task` to the end of the user's tasks.
pub fn push_update(task: &TaskRecord) -> (r: Document)
    ensures
        entries_of(r) == push_update_entries(task@),
{
    let mut fields = new_document();
    insert(&mut fields, DATA_KEY, FieldValue::Doc(task_document(task)));
    let mut d = new_document();
    insert(&mut d, "$push", FieldValue::Doc(fields));
    assert(entries_of(d) =~= push_update_entries(task@));
    d
}

/// The filter of a wipe: it matches every record.
pub fn wipe_filter() -> (r: Document)
    ensures
        entries_of(r) == Seq::<(Seq<char>, BsonView)>::empty(),
{
    new_document()
}

/// The store operation of a field update: the filter and the update, or the
/// refusal of a request that names no field to set.
pub fn update_operation(req: &TaskUpdate) -> (r: Result<(Document, Document), Status>)
    ensures
        match patch_of(req@) {
            Some(p) => r is Ok && entries_of(r->Ok_0.0) == task_filter_entries(
                req@.address,
                req@.task_id,
            ) && entries_of(r->Ok_0.1) == set_update_entries(p),
            None => r is Err && r->Err_0 == Status::BadRequest,
        },
{
    match select_patch(req) {
        Ok(patch) => Ok((task_filter(&req.address, req.task_id), set_update(&patch))),
        Err(status) => Err(status),
    }
}

/// The store operation of an append: the filter of the owner and the update
/// that pushes the new task.
pub fn append_operation(req: &TaskUpdate) -> (r: (Document, Document))
    ensures
        entries_of(r.0) == address_filter_entries(req@.address),
        entries_of(r.1) == push_update_entries(task_of(req@)),
{
    let task = new_task(req);
    (address_filter(&req.address), push_update(&task))
}

/// The entries of `e` without the one under key `k`.
pub open spec fn without_key(e: Seq<(Seq<char>, BsonView)>, k: Seq<char>) -> Seq<(Seq<char>, BsonView)> {
    e.filter(|x: (Seq<char>, BsonView)| x.0 != k)
}

/// Relies on bson's `Document::remove` (an `IndexMap` shift_remove): the
/// entry under the key goes, the others keep their order.
#[verifier::external_body]
fn remove_key(d: &mut Document, key: &str)
    ensures
        entries_of(*final(d)) == without_key(entries_of(*old(d)), key@),
{
    d.remove(key);
}

/// What a lookup does with the document that the store found.
pub enum StoredLookup {
    /// A record exists: answer with it.
    Found(Document),
    /// None does: insert this fresh record and answer with it.
    Create(Document),
}

/// Decides a lookup of `address` from what the store found: the stored
/// record without the store's own identifier, or a fresh record with no
/// tasks, to be inserted.
pub fn lookup_step(address: &String, found: Option<Document>) -> (r: StoredLookup)
    ensures
        match found {
            Some(d) => r is Found && entries_of(r->Found_0) == without_key(
                entries_of(d),
                INTERNAL_ID_KEY@,
            ),
            None => r is Create && entries_of(r->Create_0) == user_entries(new_user(address@)),
        },
{
    match found {
        Some(record) => {
            let mut answer = record;
            remove_key(&mut answer, INTERNAL_ID_KEY);
            StoredLookup::Found(answer)
        },
        None => StoredLookup::Create(user_document(&UserRecord::new(address))),
    }
}

} // verus!
