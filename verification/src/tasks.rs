//! Tasks and their ownership: every task belongs to exactly one user, and
//! a listing for a session must hand out that user's tasks and nobody
//! else's.

use vstd::prelude::*;
use vstd::seq_lib::group_filter_ensures;
use crate::authz::AuthenticatedUser;

verus! {

/// One to-do item, owned by exactly one user.
pub struct Task {
    pub id: i32,
    pub item: String,
    pub user_id: i32,
}

impl Clone for Task {
    fn clone(&self) -> (r: Task)
        ensures
            r == *self,
    {
        Task { id: self.id, item: self.item.clone(), user_id: self.user_id }
    }
}

/// A task not yet persisted: what the add-task route hands the task store.
pub struct NewTask {
    pub item: String,
    pub user_id: i32,
}

/// A new task is owned by the session's user — never by a user of the
/// form's choosing.
pub fn new_task_for(user: &AuthenticatedUser, item: String) -> (r: NewTask)
    ensures
        r.user_id == user.user_id,
        r.item == item,
{
    NewTask { item, user_id: user.user_id }
}

/// True exactly when `task` belongs to the authenticated user.
pub fn authorize_owns_task(user: &AuthenticatedUser, task: &Task) -> (r: bool)
    ensures
        r == (task.user_id == user.user_id),
{
    task.user_id == user.user_id
}

/// The tasks of `tasks` that `user_id` owns, in their stored order.
pub open spec fn owned_tasks(tasks: Seq<Task>, user_id: i32) -> Seq<Task> {
    tasks.filter(|t: Task| t.user_id == user_id)
}

/// The listing a session is granted: exactly the authenticated user's own
/// tasks, in their stored order.
pub fn list_owned_tasks(tasks: &Vec<Task>, user: &AuthenticatedUser) -> (r: Vec<Task>)
    ensures
        r@ == owned_tasks(tasks@, user.user_id),
{
    let n: usize = tasks.len();
    let mut r: Vec<Task> = Vec::new();
    let mut j: usize = 0;
    proof {
        reveal(Seq::filter);
        assert(tasks@.take(0) =~= Seq::<Task>::empty());
    }
    while j < n
        invariant
            0 <= j <= n,
            n == tasks@.len(),
            r@ == owned_tasks(tasks@.take(j as int), user.user_id),
        decreases n - j,
    {
        proof {
            reveal(Seq::filter);
            assert(tasks@.take(j + 1).drop_last() =~= tasks@.take(j as int));
            assert(tasks@.take(j + 1).last() == tasks@[j as int]);
        }
        if tasks[j].user_id == user.user_id {
            r.push(tasks[j].clone());
        }
        j = j + 1;
    }
    proof {
        assert(tasks@.take(n as int) =~= tasks@);
    }
    r
}

/// Every task the listing grants belongs to the user, and every task of
/// the user's makes it into the listing.
pub proof fn lemma_owned_tasks_exact(tasks: Seq<Task>, user_id: i32)
    ensures
        forall|i: int|
            0 <= i < owned_tasks(tasks, user_id).len() ==> (#[trigger] owned_tasks(
                tasks,
                user_id,
            )[i]).user_id == user_id,
        forall|i: int|
            0 <= i < tasks.len() && (#[trigger] tasks[i]).user_id == user_id ==> owned_tasks(
                tasks,
                user_id,
            ).contains(tasks[i]),
{
    broadcast use group_filter_ensures;

}

/// The edit the edit-task route applies: the item text is replaced, the id
/// and the owner stand. The route authenticates but does not check that
/// the task belongs to the session's user; a caller that wants that check
/// guards the call with `authorize_owns_task`.
pub fn apply_edit(task: Task, new_item: String) -> (r: Task)
    ensures
        r.id == task.id,
        r.user_id == task.user_id,
        r.item == new_item,
{
    Task { id: task.id, item: new_item, user_id: task.user_id }
}

} // verus!
