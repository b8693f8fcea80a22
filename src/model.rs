//! The document data model: a user record and its embedded task records.
use vstd::prelude::*;

verus! {

/// Field names of a user document.
pub const ADDRESS_KEY: &'static str = "userAddress";
pub const DATA_KEY: &'static str = "data";
/// The store's own identifier of a document, never part of an answer.
pub const INTERNAL_ID_KEY: &'static str = "_id";
/// The filter path that matches a user document by the identifier of one
/// of its tasks.
pub const TASK_ID_PATH: &'static str = "data.taskID";

/// Field names of a task sub-document.
pub const TASK_ID_KEY: &'static str = "taskID";
pub const TASK_NAME_KEY: &'static str = "taskName";
pub const CHECKED_KEY: &'static str = "checked";
pub const DELETED_KEY: &'static str = "deleted";
pub const DISABLED_KEY: &'static str = "disabled";

/// Mathematical value of one embedded task.
pub struct TaskView {
    pub task_id: i32,
    pub task_name: Option<Seq<char>>,
    pub checked: Option<bool>,
    pub deleted: Option<bool>,
    pub disabled: bool,
}

/// Mathematical value of one user record.
pub struct UserView {
    pub user_address: Seq<char>,
    pub data: Seq<TaskView>,
}

pub open spec fn opt_str_view(s: Option<String>) -> Option<Seq<char>> {
    match s {
        Some(v) => Some(v@),
        None => None,
    }
}

/// One task, embedded in its owner's `data` sequence.
pub struct TaskRecord {
    pub task_id: i32,
    pub task_name: Option<String>,
    pub checked: Option<bool>,
    pub deleted: Option<bool>,
    pub disabled: bool,
}

impl View for TaskRecord {
    type V = TaskView;

    open spec fn view(&self) -> TaskView {
        TaskView {
            task_id: self.task_id,
            task_name: opt_str_view(self.task_name),
            checked: self.checked,
            deleted: self.deleted,
            disabled: self.disabled,
        }
    }
}

pub fn copy_opt_string(s: &Option<String>) -> (r: Option<String>)
    ensures
        opt_str_view(r) == opt_str_view(*s),
{
    match s {
        Some(v) => Some(v.clone()),
        None => None,
    }
}

impl TaskRecord {
    /// A field-for-field copy.
    pub fn duplicate(&self) -> (r: TaskRecord)
        ensures
            r@ == self@,
    {
        TaskRecord {
            task_id: self.task_id,
            task_name: copy_opt_string(&self.task_name),
            checked: self.checked,
            deleted: self.deleted,
            disabled: self.disabled,
        }
    }
}

/// The view of a sequence of tasks, element by element.
pub open spec fn tasks_view(s: Seq<TaskRecord>) -> Seq<TaskView> {
    s.map_values(|t: TaskRecord| t@)
}

/// The record of one user: its address, which is its key, and its tasks in
/// the order they were appended.
pub struct UserRecord {
    pub user_address: String,
    pub data: Vec<TaskRecord>,
}

impl View for UserRecord {
    type V = UserView;

    open spec fn view(&self) -> UserView {
        UserView { user_address: self.user_address@, data: tasks_view(self.data@) }
    }
}

/// A fresh user record: the address and no tasks.
pub open spec fn new_user(address: Seq<char>) -> UserView {
    UserView { user_address: address, data: Seq::empty() }
}

impl UserRecord {
    /// A record for `address` that holds no tasks yet.
    pub fn new(address: &String) -> (r: UserRecord)
        ensures
            r@ == new_user(address@),
    {
        let r = UserRecord { user_address: address.clone(), data: Vec::new() };
        assert(r@.data =~= Seq::<TaskView>::empty());
        r
    }

    /// A deep copy: the same address and the same tasks, in the same order.
    pub fn duplicate(&self) -> (r: UserRecord)
        ensures
            r@ == self@,
    {
        let mut data: Vec<TaskRecord> = Vec::new();
        let n = self.data.len();
        let mut i: usize = 0;
        while i < n
            invariant
                n == self.data@.len(),
                i <= n,
                tasks_view(data@) =~= tasks_view(self.data@).subrange(0, i as int),
            decreases n - i,
        {
            let t = self.data[i].duplicate();
            let ghost before = data@;
            data.push(t);
            assert(tasks_view(data@) =~= tasks_view(before).push(self.data@[i as int]@));
            i = i + 1;
        }
        assert(tasks_view(self.data@).subrange(0, n as int) =~= tasks_view(self.data@));
        UserRecord { user_address: self.user_address.clone(), data }
    }
}

/// The payload that names a user.
pub struct UserAddress {
    pub address: String,
}

/// The payload of a task update or of a task append: the owner's address, the
/// task's identifier, and the fields that the client supplied.
pub struct TaskUpdate {
    pub address: String,
    pub task_id: i32,
    pub task_name: Option<String>,
    pub checked: Option<bool>,
    pub deleted: Option<bool>,
}

/// Mathematical value of a task update payload.
pub struct TaskUpdateView {
    pub address: Seq<char>,
    pub task_id: i32,
    pub task_name: Option<Seq<char>>,
    pub checked: Option<bool>,
    pub deleted: Option<bool>,
}

impl View for TaskUpdate {
    type V = TaskUpdateView;

    open spec fn view(&self) -> TaskUpdateView {
        TaskUpdateView {
            address: self.address@,
            task_id: self.task_id,
            task_name: opt_str_view(self.task_name),
            checked: self.checked,
            deleted: self.deleted,
        }
    }
}

} // verus!
