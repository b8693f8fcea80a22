//! Properties of the operations that hold over every state of the collection.
use vstd::prelude::*;
use crate::model::{TaskUpdateView, TaskView, UserView, new_user};
use crate::protocol::{PatchView, patch_of, patched_task, task_of};
use crate::collection::{
    after_lookup, after_push, after_update, find_user, first_task, first_user, lemma_find_task_found,
    lemma_find_user_found, lookup_result, user_matches,
};

verus! {

/// Two sequences that agree on their first `n` records give the same first
/// match among those records.
proof fn lemma_find_user_same_prefix(
    s: Seq<UserView>,
    t: Seq<UserView>,
    address: Seq<char>,
    task_id: Option<i32>,
    n: int,
)
    requires
        n <= s.len(),
        n <= t.len(),
        forall|i: int| 0 <= i < n ==> s[i] == t[i],
    ensures
        find_user(s, address, task_id, n) == find_user(t, address, task_id, n),
    decreases n,
{
    if n > 0 {
        lemma_find_user_same_prefix(s, t, address, task_id, n - 1);
    }
}

/// Replacing one record by another that satisfies the filter exactly when it
/// did leaves the first match where it was.
proof fn lemma_find_user_replace(
    s: Seq<UserView>,
    i: int,
    u: UserView,
    address: Seq<char>,
    task_id: Option<i32>,
    n: int,
)
    requires
        0 <= i < s.len(),
        n <= s.len(),
        user_matches(u, address, task_id) == user_matches(s[i], address, task_id),
    ensures
        find_user(s.update(i, u), address, task_id, n) == find_user(s, address, task_id, n),
    decreases n,
{
    if n > 0 {
        lemma_find_user_replace(s, i, u, address, task_id, n - 1);
    }
}

/// A lookup answers with a record for the address it was given; where a
/// record for it exists, with the first such record as it stands, and
/// nothing is created.
pub proof fn lookup_answers_current_record(users: Seq<UserView>, address: Seq<char>)
    ensures
        lookup_result(users, address).user_address == address,
        first_user(users, address, None) is Some ==> {
            &&& lookup_result(users, address) == users[first_user(users, address, None)->0]
            &&& after_lookup(users, address) == users
        },
{
    if first_user(users, address, None) is Some {
        lemma_find_user_found(users, address, None, users.len() as int);
    }
}

/// Looking up an address twice in a row: when the address has no record, the
/// first lookup adds exactly one, for that address and with no tasks; the
/// second lookup adds nothing and answers with the same record.
pub proof fn lookup_twice(users: Seq<UserView>, address: Seq<char>)
    ensures
        first_user(users, address, None) is None ==> {
            &&& after_lookup(users, address) == users.push(new_user(address))
            &&& lookup_result(users, address) == new_user(address)
        },
        first_user(after_lookup(users, address), address, None) is Some,
        after_lookup(after_lookup(users, address), address) == after_lookup(users, address),
        lookup_result(after_lookup(users, address), address) == lookup_result(users, address),
{
    let s1 = after_lookup(users, address);
    if first_user(users, address, None) is None {
        let n = users.len() as int;
        lemma_find_user_same_prefix(s1, users, address, None, n);
        assert(user_matches(s1[n], address, None));
        assert(first_user(s1, address, None) == Some(n));
    }
}

/// A request that carries a task name sets that name alone: the task keeps
/// its identifier, checked flag, deleted flag and disabled flag, whatever else
/// the request carries.
pub proof fn name_takes_priority(req: TaskUpdateView, t: TaskView)
    requires
        req.task_name is Some,
    ensures
        patch_of(req) == Some(PatchView::Name(req.task_name->0)),
        patched_task(t, patch_of(req)->0) == (TaskView { task_name: req.task_name, ..t }),
{
}

/// Setting the deleted flag removes no task: every record keeps its address
/// and its tasks in number and order, and every task keeps its identifier,
/// name and checked flag.
pub proof fn soft_delete_keeps_task(users: Seq<UserView>, address: Seq<char>, task_id: i32)
    ensures
        ({
            let s = after_update(users, address, task_id, PatchView::Deleted(true));
            &&& s.len() == users.len()
            &&& forall|i: int|
                0 <= i < users.len() ==> {
                    &&& #[trigger] s[i].user_address == users[i].user_address
                    &&& s[i].data.len() == users[i].data.len()
                    &&& forall|j: int|
                        0 <= j < users[i].data.len() ==> {
                            &&& #[trigger] s[i].data[j].task_id == users[i].data[j].task_id
                            &&& s[i].data[j].task_name == users[i].data[j].task_name
                            &&& s[i].data[j].checked == users[i].data[j].checked
                        }
                }
        }),
{
    if first_user(users, address, Some(task_id)) is Some {
        lemma_find_user_found(users, address, Some(task_id), users.len() as int);
        let k = first_user(users, address, Some(task_id))->0;
        let d = users[k].data;
        lemma_find_task_found(d, task_id, d.len() as int);
    }
}

/// After a lookup of an address, an append for it, and another lookup, the
/// answer holds one task more, and its last task is the appended one.
pub proof fn append_then_read(users: Seq<UserView>, req: TaskUpdateView)
    ensures
        ({
            let a = req.address;
            let s1 = after_lookup(users, a);
            let s2 = after_push(s1, a, task_of(req));
            &&& lookup_result(s2, a).data.len() == lookup_result(s1, a).data.len() + 1
            &&& lookup_result(s2, a).data.last() == task_of(req)
        }),
{
    let a = req.address;
    let s1 = after_lookup(users, a);
    lookup_twice(users, a);
    let i = first_user(s1, a, None)->0;
    lemma_find_user_found(s1, a, None, s1.len() as int);
    let u = UserView { data: s1[i].data.push(task_of(req)), ..s1[i] };
    lemma_find_user_replace(s1, i, u, a, None, s1.len() as int);
}

/// After a wipe, which leaves no record, a lookup of any address behaves as
/// for an address never seen: it creates one fresh record with no tasks and
/// answers with it.
pub proof fn wipe_then_lookup(address: Seq<char>)
    ensures
        first_user(Seq::<UserView>::empty(), address, None) is None,
        after_lookup(Seq::<UserView>::empty(), address) == seq![new_user(address)],
        lookup_result(Seq::<UserView>::empty(), address) == new_user(address),
{
    assert(Seq::<UserView>::empty().push(new_user(address)) =~= seq![new_user(address)]);
}

/// An update of a task that no record for the address holds changes no record.
pub proof fn update_missing_task_is_noop(
    users: Seq<UserView>,
    address: Seq<char>,
    task_id: i32,
    p: PatchView,
)
    requires
        forall|i: int|
            0 <= i < users.len() && users[i].user_address == address ==> first_task(
                #[trigger] users[i].data,
                task_id,
            ) is None,
    ensures
        after_update(users, address, task_id, p) == users,
{
    if first_user(users, address, Some(task_id)) is Some {
        lemma_find_user_found(users, address, Some(task_id), users.len() as int);
    }
}

} // verus!
