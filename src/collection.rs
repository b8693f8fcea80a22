//! A collection of user records with the store's operation semantics: a
//! filter selects the first matching record, a positional update sets a field
//! of the first matching task, a push appends a task, a wipe removes all.
use vstd::prelude::*;
use crate::model::{TaskRecord, TaskUpdate, TaskView, UserRecord, UserView, new_user, tasks_view};
use crate::protocol::{
    FieldPatch, PatchView, ReadStep, Status, new_task, patch_of, patched_task, resolve_lookup,
    select_patch, task_of,
};

verus! {

/// Index of the first task among `data[0..n]` whose identifier is `id`.
pub open spec fn find_task(data: Seq<TaskView>, id: i32, n: int) -> Option<int>
    decreases n,
{
    if n <= 0 {
        None
    } else {
        match find_task(data, id, n - 1) {
            Some(j) => Some(j),
            None => if data[n - 1].task_id == id {
                Some(n - 1)
            } else {
                None
            },
        }
    }
}

/// Index of the first task of `data` whose identifier is `id`.
pub open spec fn first_task(data: Seq<TaskView>, id: i32) -> Option<int> {
    find_task(data, id, data.len() as int)
}

/// Whether a user record satisfies a filter on its address and, if given, on
/// holding a task with that identifier.
pub open spec fn user_matches(u: UserView, address: Seq<char>, task_id: Option<i32>) -> bool {
    &&& u.user_address == address
    &&& match task_id {
        Some(id) => first_task(u.data, id) is Some,
        None => true,
    }
}

/// Index of the first record among `users[0..n]` that satisfies the filter.
pub open spec fn find_user(
    users: Seq<UserView>,
    address: Seq<char>,
    task_id: Option<i32>,
    n: int,
) -> Option<int>
    decreases n,
{
    if n <= 0 {
        None
    } else {
        match find_user(users, address, task_id, n - 1) {
            Some(i) => Some(i),
            None => if user_matches(users[n - 1], address, task_id) {
                Some(n - 1)
            } else {
                None
            },
        }
    }
}

/// Index of the first record of `users` that satisfies the filter.
pub open spec fn first_user(users: Seq<UserView>, address: Seq<char>, task_id: Option<i32>) -> Option<int> {
    find_user(users, address, task_id, users.len() as int)
}

/// A user record with the patch applied to its first task with identifier `id`.
pub open spec fn patched_user(u: UserView, id: i32, p: PatchView) -> UserView {
    match first_task(u.data, id) {
        Some(j) => UserView { data: u.data.update(j, patched_task(u.data[j], p)), ..u },
        None => u,
    }
}

/// The records after a field update of task `id` of the user at `address`.
pub open spec fn after_update(users: Seq<UserView>, address: Seq<char>, id: i32, p: PatchView) -> Seq<UserView> {
    match first_user(users, address, Some(id)) {
        Some(i) => users.update(i, patched_user(users[i], id, p)),
        None => users,
    }
}

/// The records after appending task `t` to the user at `address`.
pub open spec fn after_push(users: Seq<UserView>, address: Seq<char>, t: TaskView) -> Seq<UserView> {
    match first_user(users, address, None) {
        Some(i) => users.update(i, UserView { data: users[i].data.push(t), ..users[i] }),
        None => users,
    }
}

/// The records after a lookup of `address`: unchanged if it has a record,
/// else with a fresh one appended.
pub open spec fn after_lookup(users: Seq<UserView>, address: Seq<char>) -> Seq<UserView> {
    match first_user(users, address, None) {
        Some(_) => users,
        None => users.push(new_user(address)),
    }
}

/// The record that a lookup of `address` answers with.
pub open spec fn lookup_result(users: Seq<UserView>, address: Seq<char>) -> UserView {
    match first_user(users, address, None) {
        Some(i) => users[i],
        None => new_user(address),
    }
}

/// A match found among the first `k` tasks is the first among any longer prefix.
pub proof fn lemma_find_task_stable(data: Seq<TaskView>, id: i32, k: int, n: int)
    requires
        find_task(data, id, k) is Some,
        k <= n,
    ensures
        find_task(data, id, n) == find_task(data, id, k),
    decreases n - k,
{
    if n > k {
        lemma_find_task_stable(data, id, k, n - 1);
    }
}

/// A match found among the first `k` records is the first among any longer prefix.
pub proof fn lemma_find_user_stable(
    users: Seq<UserView>,
    address: Seq<char>,
    task_id: Option<i32>,
    k: int,
    n: int,
)
    requires
        find_user(users, address, task_id, k) is Some,
        k <= n,
    ensures
        find_user(users, address, task_id, n) == find_user(users, address, task_id, k),
    decreases n - k,
{
    if n > k {
        lemma_find_user_stable(users, address, task_id, k, n - 1);
    }
}

/// A found index lies in the searched prefix and satisfies the filter.
pub proof fn lemma_find_user_found(users: Seq<UserView>, address: Seq<char>, task_id: Option<i32>, n: int)
    requires
        n <= users.len(),
        find_user(users, address, task_id, n) is Some,
    ensures
        0 <= find_user(users, address, task_id, n)->0 < n,
        user_matches(users[find_user(users, address, task_id, n)->0], address, task_id),
    decreases n,
{
    if n > 0 && find_user(users, address, task_id, n - 1) is Some {
        lemma_find_user_found(users, address, task_id, n - 1);
    }
}

/// A found index lies in the searched prefix and holds the identifier.
pub proof fn lemma_find_task_found(data: Seq<TaskView>, id: i32, n: int)
    requires
        n <= data.len(),
        find_task(data, id, n) is Some,
    ensures
        0 <= find_task(data, id, n)->0 < n,
        data[find_task(data, id, n)->0].task_id == id,
    decreases n,
{
    if n > 0 && find_task(data, id, n - 1) is Some {
        lemma_find_task_found(data, id, n - 1);
    }
}

/// Position of the first task of `data` with identifier `id`.
fn task_position(data: &Vec<TaskRecord>, id: i32) -> (r: Option<usize>)
    ensures
        r is Some <==> first_task(tasks_view(data@), id) is Some,
        r is Some ==> first_task(tasks_view(data@), id) == Some(r->0 as int),
{
    let ghost d = tasks_view(data@);
    let n = data.len();
    let mut i: usize = 0;
    while i < n
        invariant
            n == data@.len(),
            d == tasks_view(data@),
            i <= n,
            find_task(d, id, i as int) is None,
        decreases n - i,
    {
        if data[i].task_id == id {
            proof {
                lemma_find_task_stable(d, id, i + 1, n as int);
            }
            return Some(i);
        }
        i = i + 1;
    }
    None
}

/// The record store of one collection.
pub struct UserCollection {
    users: Vec<UserRecord>,
}

impl View for UserCollection {
    type V = Seq<UserView>;

    closed spec fn view(&self) -> Seq<UserView> {
        self.users@.map_values(|u: UserRecord| u@)
    }
}

impl UserCollection {
    /// An empty collection.
    pub fn new() -> (r: UserCollection)
        ensures
            r@ == Seq::<UserView>::empty(),
    {
        let r = UserCollection { users: Vec::new() };
        assert(r@ =~= Seq::<UserView>::empty());
        r
    }

    /// The number of records.
    pub fn len(&self) -> (r: usize)
        ensures
            r == self@.len(),
    {
        self.users.len()
    }

    /// Position of the first record that satisfies the filter.
    fn position(&self, address: &String, task_id: Option<i32>) -> (r: Option<usize>)
        ensures
            r is Some <==> first_user(self@, address@, task_id) is Some,
            r is Some ==> first_user(self@, address@, task_id) == Some(r->0 as int),
    {
        let ghost s = self@;
        let n = self.users.len();
        let mut i: usize = 0;
        while i < n
            invariant
                n == self.users@.len(),
                s == self@,
                i <= n,
                find_user(s, address@, task_id, i as int) is None,
            decreases n - i,
        {
            let u = &self.users[i];
            if u.user_address == *address {
                let hit = match task_id {
                    Some(id) => task_position(&u.data, id).is_some(),
                    None => true,
                };
                if hit {
                    proof {
                        lemma_find_user_stable(s, address@, task_id, i + 1, n as int);
                    }
                    return Some(i);
                }
            }
            i = i + 1;
        }
        None
    }

    /// A copy of the first record for `address`, if there is one.
    pub fn find_one(&self, address: &String) -> (r: Option<UserRecord>)
        ensures
            match first_user(self@, address@, None) {
                Some(i) => r is Some && r->0@ == self@[i],
                None => r is None,
            },
    {
        match self.position(address, None) {
            Some(i) => {
                proof {
                    lemma_find_user_found(self@, address@, None, self@.len() as int);
                    assert(self@[i as int] == self.users@[i as int]@);
                }
                Some(self.users[i].duplicate())
            },
            None => None,
        }
    }

    /// Adds a record at the end.
    pub fn insert_one(&mut self, user: UserRecord)
        ensures
            final(self)@ == old(self)@.push(user@),
    {
        let ghost before = self@;
        self.users.push(user);
        assert(self@ =~= before.push(user@));
    }

    /// Sets one field of the first task with identifier `task_id` in the first
    /// record for `address` that holds such a task; nothing when none does.
    pub fn set_task_field(&mut self, address: &String, task_id: i32, patch: &FieldPatch)
        ensures
            final(self)@ == after_update(old(self)@, address@, task_id, patch@),
    {
        let ghost before = self@;
        match self.position(address, Some(task_id)) {
            Some(i) => {
                proof {
                    lemma_find_user_found(before, address@, Some(task_id), before.len() as int);
                }
                let j = task_position(&self.users[i].data, task_id);
                match j {
                    Some(j) => {
                        let ghost d = before[i as int].data;
                        proof {
                            lemma_find_task_found(d, task_id, d.len() as int);
                        }
                        let mut user = self.users[i].duplicate();
                        let mut task = user.data[j].duplicate();
                        patch.apply(&mut task);
                        user.data[j] = task;
                        assert(user@.data =~= d.update(j as int, patched_task(d[j as int], patch@)));
                        self.users[i] = user;
                        assert(self@ =~= after_update(before, address@, task_id, patch@));
                    },
                    None => {},
                }
            },
            None => {},
        }
    }

    /// Appends `task` to the tasks of the first record for `address`; nothing
    /// when there is none.
    pub fn push_task(&mut self, address: &String, task: TaskRecord)
        ensures
            final(self)@ == after_push(old(self)@, address@, task@),
    {
        let ghost before = self@;
        match self.position(address, None) {
            Some(i) => {
                proof {
                    lemma_find_user_found(before, address@, None, before.len() as int);
                }
                let mut user = self.users[i].duplicate();
                user.data.push(task);
                assert(user@.data =~= before[i as int].data.push(task@));
                self.users[i] = user;
                assert(self@ =~= after_push(before, address@, task@));
            },
            None => {},
        }
    }

    /// Removes every record.
    pub fn delete_many(&mut self)
        ensures
            final(self)@ == Seq::<UserView>::empty(),
    {
        self.users = Vec::new();
        assert(self@ =~= Seq::<UserView>::empty());
    }
}

/// The operations of the service, each one round trip to the collection.
impl UserCollection {
    /// Removes every user record.
    pub fn wipe_database(&mut self) -> (r: Status)
        ensures
            r == Status::Success,
            final(self)@ == Seq::<UserView>::empty(),
    {
        self.delete_many();
        Status::Success
    }

    /// Answers with the record for `address`, creating an empty one first
    /// when there is none.
    pub fn retrieve_user(&mut self, address: &String) -> (r: UserRecord)
        ensures
            r@ == lookup_result(old(self)@, address@),
            final(self)@ == after_lookup(old(self)@, address@),
    {
        let found = self.find_one(address);
        match resolve_lookup(address, found) {
            ReadStep::Found(u) => u,
            ReadStep::Create(u) => {
                let answer = u.duplicate();
                self.insert_one(u);
                answer
            },
        }
    }

    /// Sets the one field that `req` selects on the task `req.task_id` of
    /// the user `req.address`. A request with no field to set is refused and
    /// changes nothing; a request whose task does not exist succeeds and
    /// changes nothing.
    pub fn update_task(&mut self, req: &TaskUpdate) -> (r: Status)
        ensures
            match patch_of(req@) {
                Some(p) => r == Status::Success && final(self)@ == after_update(
                    old(self)@,
                    req@.address,
                    req@.task_id,
                    p,
                ),
                None => r == Status::BadRequest && final(self)@ == old(self)@,
            },
    {
        match select_patch(req) {
            Ok(patch) => {
                self.set_task_field(&req.address, req.task_id, &patch);
                Status::Success
            },
            Err(status) => status,
        }
    }

    /// Appends the task that `req` describes to the tasks of the user
    /// `req.address`; succeeds and changes nothing when that user has no
    /// record.
    pub fn append_task(&mut self, req: &TaskUpdate) -> (r: Status)
        ensures
            r == Status::Success,
            final(self)@ == after_push(old(self)@, req@.address, task_of(req@)),
    {
        let task = new_task(req);
        self.push_task(&req.address, task);
        Status::Success
    }
}

} // verus!
