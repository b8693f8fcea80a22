//! The update protocol: which single field a task update sets, what an
//! appended task holds, what a lookup answers, and the status of each outcome.
use vstd::prelude::*;
use crate::model::{TaskRecord, TaskUpdate, TaskUpdateView, TaskView, UserRecord, copy_opt_string, new_user, opt_str_view};

verus! {

/// The outcome of an operation as the transport layer reports it.
#[derive(PartialEq, Eq, Structural, Clone, Copy, Debug)]
pub enum Status {
    Success,
    BadRequest,
    InternalServerError,
}

impl Status {
    /// The HTTP status code of the outcome.
    pub fn code(&self) -> (r: u16)
        ensures
            *self == Status::Success ==> r == 200,
            *self == Status::BadRequest ==> r == 400,
            *self == Status::InternalServerError ==> r == 500,
    {
        match self {
            Status::Success => 200,
            Status::BadRequest => 400,
            Status::InternalServerError => 500,
        }
    }
}

/// Any store error is an internal failure; its detail is not passed on.
pub fn status_of_store<T, E>(outcome: &Result<T, E>) -> (r: Status)
    ensures
        outcome is Ok ==> r == Status::Success,
        outcome is Err ==> r == Status::InternalServerError,
{
    match outcome {
        Ok(_) => Status::Success,
        Err(_) => Status::InternalServerError,
    }
}

/// Mathematical value of a field patch.
pub enum PatchView {
    Name(Seq<char>),
    Checked(bool),
    Deleted(bool),
}

/// The one field of one task that an update sets, with its new value.
pub enum FieldPatch {
    Name(String),
    Checked(bool),
    Deleted(bool),
}

impl View for FieldPatch {
    type V = PatchView;

    open spec fn view(&self) -> PatchView {
        match self {
            FieldPatch::Name(n) => PatchView::Name(n@),
            FieldPatch::Checked(b) => PatchView::Checked(*b),
            FieldPatch::Deleted(b) => PatchView::Deleted(*b),
        }
    }
}

/// The patch that an update request asks for: the first present field in the
/// order task name, checked, deleted; none when all three are absent.
pub open spec fn patch_of(u: TaskUpdateView) -> Option<PatchView> {
    if u.task_name is Some {
        Some(PatchView::Name(u.task_name->0))
    } else if u.checked is Some {
        Some(PatchView::Checked(u.checked->0))
    } else if u.deleted is Some {
        Some(PatchView::Deleted(u.deleted->0))
    } else {
        None
    }
}

/// A task with the patched field replaced and every other field kept.
pub open spec fn patched_task(t: TaskView, p: PatchView) -> TaskView {
    match p {
        PatchView::Name(n) => TaskView { task_name: Some(n), ..t },
        PatchView::Checked(b) => TaskView { checked: Some(b), ..t },
        PatchView::Deleted(b) => TaskView { deleted: Some(b), ..t },
    }
}

/// The task that an append request creates: the supplied fields verbatim,
/// and never disabled.
pub open spec fn task_of(u: TaskUpdateView) -> TaskView {
    TaskView {
        task_id: u.task_id,
        task_name: u.task_name,
        checked: u.checked,
        deleted: u.deleted,
        disabled: false,
    }
}

/// Picks the field that an update request sets. A request with none of the
/// three fields is malformed.
pub fn select_patch(req: &TaskUpdate) -> (r: Result<FieldPatch, Status>)
    ensures
        match patch_of(req@) {
            Some(p) => r is Ok && r->Ok_0@ == p,
            None => r == Err::<FieldPatch, Status>(Status::BadRequest),
        },
{
    if let Some(name) = &req.task_name {
        Ok(FieldPatch::Name(name.clone()))
    } else if let Some(checked) = req.checked {
        Ok(FieldPatch::Checked(checked))
    } else if let Some(deleted) = req.deleted {
        Ok(FieldPatch::Deleted(deleted))
    } else {
        Err(Status::BadRequest)
    }
}

/// Builds the task that an append request adds to its owner's sequence.
pub fn new_task(req: &TaskUpdate) -> (r: TaskRecord)
    ensures
        r@ == task_of(req@),
{
    TaskRecord {
        task_id: req.task_id,
        task_name: copy_opt_string(&req.task_name),
        checked: req.checked,
        deleted: req.deleted,
        disabled: false,
    }
}

impl FieldPatch {
    /// Sets the patched field of `task`.
    pub fn apply(&self, task: &mut TaskRecord)
        ensures
            final(task)@ == patched_task(old(task)@, self@),
    {
        match self {
            FieldPatch::Name(n) => {
                task.task_name = Some(n.clone());
            },
            FieldPatch::Checked(b) => {
                task.checked = Some(*b);
            },
            FieldPatch::Deleted(b) => {
                task.deleted = Some(*b);
            },
        }
    }

    /// The store path of the patched field in the task that the update's
    /// filter matched.
    pub fn set_path(&self) -> (r: String)
        ensures
            self is Name ==> r@ == "data.$.taskName"@,
            self is Checked ==> r@ == "data.$.checked"@,
            self is Deleted ==> r@ == "data.$.deleted"@,
    {
        match self {
            FieldPatch::Name(_) => String::from_str("data.$.taskName"),
            FieldPatch::Checked(_) => String::from_str("data.$.checked"),
            FieldPatch::Deleted(_) => String::from_str("data.$.deleted"),
        }
    }
}

/// What a lookup does with what the store found for an address.
pub enum ReadStep {
    /// The record exists: answer with it.
    Found(UserRecord),
    /// It does not: insert this fresh record and answer with it.
    Create(UserRecord),
}

/// Decides a lookup from what the store found for `address`.
pub fn resolve_lookup(address: &String, found: Option<UserRecord>) -> (r: ReadStep)
    ensures
        match found {
            Some(u) => r is Found && r->Found_0@ == u@,
            None => r is Create && r->Create_0@ == new_user(address@),
        },
{
    match found {
        Some(u) => ReadStep::Found(u),
        None => ReadStep::Create(UserRecord::new(address)),
    }
}

} // verus!
