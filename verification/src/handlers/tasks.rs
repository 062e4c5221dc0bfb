//! Task administration (admin only) and the cached "my tasks" view.
use vstd::prelude::*;

use crate::cache::TaskCache;
use crate::clock::is_clock_text;
use crate::errors::{spec_status, AppError};
use crate::middleware::auth::{is_admin_role, require_admin};
use crate::models::{
    duplicate_tasks, task_views, CacheMeta, CachedTasks, CachedTasksView, CreateTaskRequest,
    JwtClaims, MyTasksResponse, MyTasksView, Task, TaskResponse, TaskResponseView, TaskSummary,
    User, UserSummary,
};
use crate::text::{
    decimal, decimal_string, is_plain_numeral, is_uuid_v4_text, lemma_decimal_reads_back, numeral_value, opt_text,
    same_text,
};

verus! {

/// The priority a new task gets: the requested one, "medium" when none is given.
pub open spec fn spec_effective_priority(requested: Option<Seq<char>>) -> Seq<char> {
    match requested {
        Some(p) => p,
        None => "medium"@,
    }
}

/// The priorities a task may have.
pub open spec fn is_valid_priority(p: Seq<char>) -> bool {
    p == "low"@ || p == "medium"@ || p == "high"@
}

/// The outcome of a request to create a task: refused for non-admins, refused for an
/// unknown priority, else a new "todo" task with the requested fields, unassigned.
pub open spec fn is_new_task_outcome(claims: &JwtClaims, req: &CreateTaskRequest, task: Result<Task, AppError>) -> bool {
    let priority = spec_effective_priority(opt_text(req.priority));
    if !is_admin_role(claims.role@) {
        task matches Err(AppError::Forbidden(m)) && m@ == "Only admins can perform this action"@
    } else if !is_valid_priority(priority) {
        task matches Err(AppError::BadRequest(m)) && m@ == "priority must be 'low', 'medium', or 'high'"@
    } else {
        task matches Ok(t) && t.title@ == req.title@ && opt_text(t.description) == opt_text(req.description)
            && t.status@ == "todo"@ && t.priority@ == priority && t.created_by_id@ == claims.sub@
            && t.assigned_to_id is None && is_uuid_v4_text(t.id@) && t.created_at@ == t.updated_at@
            && is_clock_text(t.created_at@)
    }
}

/// POST /tasks, without the storage: only admins may create tasks, and the priority
/// must be "low", "medium" or "high" ("medium" when none is given).
pub fn new_task_for(claims: &JwtClaims, req: &CreateTaskRequest) -> (task: Result<Task, AppError>)
    ensures
        is_new_task_outcome(claims, req, task),
{
    require_admin(claims)?;
    let priority: &str = match &req.priority {
        Some(p) => p.as_str(),
        None => "medium",
    };
    if !(same_text(priority, "low") || same_text(priority, "medium") || same_text(priority, "high")) {
        return Err(AppError::BadRequest("priority must be 'low', 'medium', or 'high'".to_owned()));
    }
    let description: Option<&str> = match &req.description {
        Some(d) => Some(d.as_str()),
        None => None,
    };
    Ok(Task::new(req.title.as_str(), description, priority, claims.sub.as_str()))
}

/// POST /tasks/assign, the target: the user named by e-mail must exist.
pub fn assignment_target(found: Option<User>, user_email: &str) -> (target: Result<User, AppError>)
    ensures
        match found {
            Some(u) => target matches Ok(v) && v == u,
            None => target matches Err(AppError::NotFound(m)) && m@ == "User '"@ + user_email@ + "' not found"@,
        },
{
    match found {
        Some(u) => Ok(u),
        None => {
            let mut m = "User '".to_owned();
            m.append(user_email);
            m.append("' not found");
            Err(AppError::NotFound(m))
        },
    }
}

/// POST /tasks/assign, one update. A task that no row matched does not exist: the
/// assignment stops there, and when earlier tasks of the request were already moved
/// to the target user, that user's cached task list is dropped. Otherwise the count of
/// assigned tasks goes up by one and the cache is untouched.
pub fn record_task_update(
    cache: &mut TaskCache,
    target_user_id: &str,
    task_id: &str,
    rows_affected: u64,
    assigned_count: usize,
) -> (r: Result<usize, AppError>)
    requires
        assigned_count < usize::MAX,
    ensures
        rows_affected == 0 ==> (r matches Err(AppError::NotFound(m)) && m@ == "Task '"@ + task_id@
            + "' not found"@),
        rows_affected == 0 && assigned_count > 0 ==> final(cache)@ == old(cache)@.remove(target_user_id@),
        rows_affected == 0 && assigned_count == 0 ==> final(cache)@ == old(cache)@,
        rows_affected != 0 ==> r == Ok::<usize, AppError>((assigned_count + 1) as usize)
            && final(cache)@ == old(cache)@,
{
    if rows_affected == 0 {
        if assigned_count > 0 {
            cache.invalidate(target_user_id);
        }
        let mut m = "Task '".to_owned();
        m.append(task_id);
        m.append("' not found");
        return Err(AppError::NotFound(m));
    }
    Ok(assigned_count + 1)
}

/// Message of a completed assignment.
pub open spec fn spec_assigned_message(count: nat, email: Seq<char>) -> Seq<char> {
    decimal(count) + " task(s) assigned to "@ + email
}

/// POST /tasks/assign, the end: the target user's cached task list is dropped, and
/// the answer says how many tasks went to whom.
pub fn finish_assignment(cache: &mut TaskCache, target_user_id: &str, user_email: &str, assigned_count: usize) -> (message: String)
    ensures
        final(cache)@ == old(cache)@.remove(target_user_id@),
        message@ == spec_assigned_message(assigned_count as nat, user_email@),
        exists|numeral: Seq<char>| #![trigger numeral_value(numeral)]
            is_plain_numeral(numeral) && numeral_value(numeral) == assigned_count && message@ == numeral
                + " task(s) assigned to "@ + user_email@,
{
    proof {
        law_assigned_message_counts(assigned_count as nat, user_email@);
    }
    cache.invalidate(target_user_id);
    let mut m = decimal_string(assigned_count as u64);
    m.append(" task(s) assigned to ");
    m.append(user_email);
    m
}

/// The "my tasks" answer drawn from a cache entry.
pub open spec fn view_of_entry(entry: CachedTasksView, hit: bool) -> MyTasksView {
    MyTasksView {
        email: entry.user_email,
        role: entry.user_role,
        tasks: entry.tasks,
        total_assigned_tasks: entry.tasks.len(),
        hit,
    }
}

/// GET /tasks/view-my-tasks, from the cache: the caller's cached list, if any, with
/// `cache.hit = true`.
pub fn cached_view(cache: &TaskCache, user_id: &str) -> (answer: Option<MyTasksResponse>)
    ensures
        match answer {
            Some(r) => cache@.contains_key(user_id@) && r@ == view_of_entry(cache@[user_id@], true),
            None => !cache@.contains_key(user_id@),
        },
{
    match cache.get(user_id) {
        Some(cached) => {
            let total = cached.tasks.len();
            Some(MyTasksResponse {
                user: UserSummary { email: cached.user_email, role: cached.user_role },
                tasks: cached.tasks,
                summary: TaskSummary { total_assigned_tasks: total },
                cache: CacheMeta { hit: true },
            })
        },
        None => None,
    }
}

/// How a stored task is shown to the user it is assigned to.
pub open spec fn shown_task(t: Task, assignee_email: Seq<char>) -> TaskResponseView {
    TaskResponseView {
        id: t.id@,
        title: t.title@,
        status: t.status@,
        priority: t.priority@,
        assigned_to: Some(assignee_email),
    }
}

/// The cache entry for a user and the tasks assigned to them, in the given order.
pub open spec fn entry_for(user: User, tasks: Seq<Task>) -> CachedTasksView {
    CachedTasksView {
        tasks: tasks.map_values(|t: Task| shown_task(t, user.email@)),
        user_email: user.email@,
        user_role: user.role@,
    }
}

/// GET /tasks/view-my-tasks, after a cache miss: the tasks assigned to the user (as
/// loaded, oldest first) are shown and cached, with `cache.hit = false`.
pub fn fresh_view(cache: &mut TaskCache, user_id: &str, user: &User, tasks: &Vec<Task>) -> (answer: MyTasksResponse)
    ensures
        final(cache)@ == old(cache)@.insert(user_id@, entry_for(*user, tasks@)),
        answer@ == view_of_entry(entry_for(*user, tasks@), false),
        answer@.email == user.email@,
        answer@.role == user.role@,
        !answer@.hit,
        answer@.total_assigned_tasks == tasks@.len(),
        answer@.tasks.len() == tasks@.len(),
        forall|i: int| #![trigger answer@.tasks[i]] 0 <= i < tasks@.len() ==> {
            &&& answer@.tasks[i].id == tasks@[i].id@
            &&& answer@.tasks[i].title == tasks@[i].title@
            &&& answer@.tasks[i].status == tasks@[i].status@
            &&& answer@.tasks[i].priority == tasks@[i].priority@
            &&& answer@.tasks[i].assigned_to == Some(user.email@)
        },
        final(cache)@.contains_key(user_id@) && final(cache)@[user_id@].tasks == answer@.tasks,
{
    let mut shown: Vec<TaskResponse> = Vec::new();
    let mut i: usize = 0;
    while i < tasks.len()
        invariant
            i <= tasks.len(),
            shown@.len() == i,
            forall|j: int| 0 <= j < i ==> #[trigger] shown@[j]@ == shown_task(tasks@[j], user.email@),
        decreases tasks.len() - i,
    {
        let t = &tasks[i];
        shown.push(TaskResponse {
            id: t.id.clone(),
            title: t.title.clone(),
            status: t.status.clone(),
            priority: t.priority.clone(),
            assigned_to: Some(user.email.clone()),
        });
        i = i + 1;
    }
    assert(task_views(shown@) =~= entry_for(*user, tasks@).tasks);
    let total = shown.len();
    cache.set(
        user_id,
        CachedTasks {
            tasks: duplicate_tasks(&shown),
            user_email: user.email.clone(),
            user_role: user.role.clone(),
        },
    );
    MyTasksResponse {
        user: UserSummary { email: user.email.clone(), role: user.role.clone() },
        tasks: shown,
        summary: TaskSummary { total_assigned_tasks: total },
        cache: CacheMeta { hit: false },
    }
}

/// Staff (any role but admin) never creates a task: the request is answered 403.
pub proof fn law_staff_cannot_create_task(claims: &JwtClaims, req: &CreateTaskRequest, task: Result<Task, AppError>)
    requires
        is_new_task_outcome(claims, req, task),
        !is_admin_role(claims.role@),
    ensures
        task matches Err(e) && spec_status(e) == 403,
{
}

/// The second "my tasks" view after a miss is a hit and shows the same user, tasks and
/// count as the first; only `cache.hit` differs.
pub proof fn law_second_view_hits(
    before: Map<Seq<char>, CachedTasksView>,
    user_id: Seq<char>,
    user: User,
    tasks: Seq<Task>,
)
    ensures
        ({
            let after = before.insert(user_id, entry_for(user, tasks));
            let first = view_of_entry(entry_for(user, tasks), false);
            let second = view_of_entry(after[user_id], true);
            &&& after.contains_key(user_id)
            &&& second.email == first.email
            &&& second.role == first.role
            &&& second.tasks == first.tasks
            &&& second.total_assigned_tasks == first.total_assigned_tasks
            &&& !first.hit && second.hit
        }),
{
}

/// The first view shows each assigned task, in load order, as assigned to the user,
/// with the task's own title, status and priority, and counts them.
pub proof fn law_view_shows_assigned_tasks(user: User, tasks: Seq<Task>, i: int)
    requires
        0 <= i < tasks.len(),
    ensures
        view_of_entry(entry_for(user, tasks), false).total_assigned_tasks == tasks.len(),
        view_of_entry(entry_for(user, tasks), false).tasks[i].id == tasks[i].id@,
        view_of_entry(entry_for(user, tasks), false).tasks[i].title == tasks[i].title@,
        view_of_entry(entry_for(user, tasks), false).tasks[i].status == tasks[i].status@,
        view_of_entry(entry_for(user, tasks), false).tasks[i].priority == tasks[i].priority@,
        view_of_entry(entry_for(user, tasks), false).tasks[i].assigned_to == Some(user.email@),
        view_of_entry(entry_for(user, tasks), false).email == user.email@,
{
}

/// The message of a completed assignment opens with a plain numeral that reads back as
/// the number of tasks assigned, followed by " task(s) assigned to " and the e-mail
/// address.
pub proof fn law_assigned_message_counts(count: nat, email: Seq<char>)
    ensures
        exists|numeral: Seq<char>| #![trigger numeral_value(numeral)]
            is_plain_numeral(numeral) && numeral_value(numeral) == count && spec_assigned_message(count, email)
                == numeral + " task(s) assigned to "@ + email,
{
    lemma_decimal_reads_back(count);
    assert(numeral_value(decimal(count)) == count);
}

/// After tasks are assigned to a user (all of them, or some before a missing one),
/// that user's next view misses the cache (and is loaded afresh); every other user's
/// cache entry is kept.
pub proof fn law_assignment_clears_view(before: Map<Seq<char>, CachedTasksView>, target: Seq<char>, other: Seq<char>)
    ensures
        !before.remove(target).contains_key(target),
        other != target ==> before.remove(target).contains_key(other) == before.contains_key(other),
        other != target && before.contains_key(other) ==> before.remove(target)[other] == before[other],
{
}

} // verus!
