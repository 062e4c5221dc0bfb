//! Records of the service (users, tasks, login challenges, sent e-mails) and the
//! request and response bodies of its endpoints.
use vstd::prelude::*;

use crate::clock::{
    add_seconds, current_rfc3339, format_rfc3339, is_clock_instant, is_clock_text, now_utc, parse_rfc3339,
    in_chrono_range, spec_parse_rfc3339, spec_rfc3339, Timestamp,
};
use crate::text::{copy_opt, is_uuid_v4_text, opt_text};

verus! {

/// Calls `uuid::Uuid::new_v4` and writes it with `to_string`. Trusted: the identifier
/// is random; `new_v4` sets the version bits to 4 and the variant bits to `10`, and
/// `to_string` writes the hyphenated lower-case form.
#[verifier::external_body]
fn new_id() -> (id: String)
    ensures
        is_uuid_v4_text(id@),
{
    uuid::Uuid::new_v4().to_string()
}

// ── User ────────────────────────────────────────────────────────────────────

#[derive(Debug, Clone)]
pub struct User {
    pub id: String,
    pub full_name: String,
    pub email: String,
    pub hashed_password: String,
    pub role: String,
    pub created_at: String,
    pub updated_at: String,
}

impl User {
    /// A new account with a fresh identifier, created and updated now.
    pub fn new(full_name: &str, email: &str, hashed_password: &str, role: &str) -> (user: Self)
        ensures
            user.full_name@ == full_name@,
            user.email@ == email@,
            user.hashed_password@ == hashed_password@,
            user.role@ == role@,
            is_uuid_v4_text(user.id@),
            user.created_at@ == user.updated_at@,
            is_clock_text(user.created_at@),
    {
        let text = current_rfc3339();
        let updated = text.clone();
        Self {
            id: new_id(),
            full_name: full_name.to_owned(),
            email: email.to_owned(),
            hashed_password: hashed_password.to_owned(),
            role: role.to_owned(),
            created_at: text,
            updated_at: updated,
        }
    }
}

// ── Task ────────────────────────────────────────────────────────────────────

#[derive(Debug, Clone)]
pub struct Task {
    pub id: String,
    pub title: String,
    pub description: Option<String>,
    pub status: String,
    pub priority: String,
    pub created_by_id: String,
    pub assigned_to_id: Option<String>,
    pub created_at: String,
    pub updated_at: String,
}

/// The text of an optional borrowed string.
pub open spec fn opt_str(o: Option<&str>) -> Option<Seq<char>> {
    match o {
        Some(s) => Some(s@),
        None => None,
    }
}

impl Task {
    /// A new task in status "todo", assigned to nobody, created and updated now.
    pub fn new(title: &str, description: Option<&str>, priority: &str, created_by_id: &str) -> (task: Self)
        ensures
            task.title@ == title@,
            opt_text(task.description) == opt_str(description),
            task.status@ == "todo"@,
            task.priority@ == priority@,
            task.created_by_id@ == created_by_id@,
            task.assigned_to_id is None,
            is_uuid_v4_text(task.id@),
            task.created_at@ == task.updated_at@,
            is_clock_text(task.created_at@),
    {
        let text = current_rfc3339();
        let updated = text.clone();
        let description = match description {
            Some(d) => Some(d.to_owned()),
            None => None,
        };
        Self {
            id: new_id(),
            title: title.to_owned(),
            description,
            status: "todo".to_owned(),
            priority: priority.to_owned(),
            created_by_id: created_by_id.to_owned(),
            assigned_to_id: None,
            created_at: text,
            updated_at: updated,
        }
    }
}

// ── LoginChallenge ───────────────────────────────────────────────────────────

#[derive(Debug, Clone)]
pub struct LoginChallenge {
    pub id: String,
    pub user_id: String,
    pub code_hash: String,
    pub used: i64,
    pub expires_at: String,
    pub created_at: String,
}

/// Whether an expiry read from text has passed at `now`. For text that does not read
/// as an instant, the expiry is taken to be `unreadable_expiry`, an earlier reading of
/// the clock; the challenge has then expired when the clock moved on in between.
pub open spec fn expired_at(expiry: Option<(i64, u32)>, unreadable_expiry: Timestamp, now: Timestamp) -> bool {
    match expiry {
        Some(e) => now.is_after(e),
        None => now.is_after(unreadable_expiry.pair()),
    }
}

/// Expiry is monotone in time: a challenge that has expired at `earlier` has also
/// expired at every instant `later` that is not before it.
pub proof fn law_expiry_is_monotone(
    expiry: Option<(i64, u32)>,
    unreadable_expiry: Timestamp,
    earlier: Timestamp,
    later: Timestamp,
)
    requires
        expired_at(expiry, unreadable_expiry, earlier),
        !earlier.is_after(later.pair()),
    ensures
        expired_at(expiry, unreadable_expiry, later),
{
}

impl LoginChallenge {
    /// The instant `expiry_minutes` after `created`, where it fits the seconds' type.
    pub open spec fn expiry_of(created: Timestamp, expiry_minutes: i64) -> Timestamp {
        Timestamp { secs: (created.secs + expiry_minutes * 60) as i64, nanos: created.nanos }
    }

    /// Whether `c` is the challenge for `user_id` and `code_hash` made at `created`,
    /// unused and expiring `expiry_minutes` later. Its expiry text reads back as the
    /// expiry instant where that instant lies in the years 0000 to 9999.
    pub open spec fn made_at(
        c: LoginChallenge,
        user_id: Seq<char>,
        code_hash: Seq<char>,
        expiry_minutes: i64,
        created: Timestamp,
    ) -> bool {
        let expiry = Self::expiry_of(created, expiry_minutes);
        &&& c.user_id@ == user_id
        &&& c.code_hash@ == code_hash
        &&& c.used == 0
        &&& is_uuid_v4_text(c.id@)
        &&& spec_rfc3339(created.secs, created.nanos) == Some(c.created_at@)
        &&& created.nanos < 1_000_000_000
        &&& i64::MIN <= created.secs + expiry_minutes * 60 <= i64::MAX
        &&& spec_rfc3339(expiry.secs, expiry.nanos) == Some(c.expires_at@)
        &&& expiry.in_four_digit_years() ==> spec_parse_rfc3339(c.expires_at@) == Some(expiry.pair())
    }

    /// Whether a challenge made at `now` can expire `expiry_minutes` later: both the
    /// creation instant and the expiry instant lie within `chrono`'s range.
    pub open spec fn can_expire(now: Timestamp, expiry_minutes: i64) -> bool {
        in_chrono_range(now.secs as int) && in_chrono_range(now.secs + expiry_minutes * 60)
    }

    /// A new unused challenge made at `now`, expiring `expiry_minutes` later; `None`
    /// where it cannot expire then (`chrono` would overflow).
    pub fn new_at(user_id: &str, code_hash: &str, expiry_minutes: i64, now: Timestamp) -> (c: Option<Self>)
        requires
            now.nanos < 1_000_000_000,
        ensures
            c is Some <==> Self::can_expire(now, expiry_minutes),
            c matches Some(ch) ==> Self::made_at(ch, user_id@, code_hash@, expiry_minutes, now),
    {
        let created_at = match format_rfc3339(now) {
            Some(s) => s,
            None => return None,
        };
        let delta = match expiry_minutes.checked_mul(60) {
            Some(d) => d,
            None => return None,
        };
        let expiry = match add_seconds(now, delta) {
            Some(e) => e,
            None => return None,
        };
        let expires_at = match format_rfc3339(expiry) {
            Some(s) => s,
            None => return None,
        };
        let ch = Self {
            id: new_id(),
            user_id: user_id.to_owned(),
            code_hash: code_hash.to_owned(),
            used: 0,
            expires_at,
            created_at,
        };
        assert(Self::made_at(ch, user_id@, code_hash@, expiry_minutes, now));
        Some(ch)
    }

    /// A new unused challenge, created now and expiring `expiry_minutes` later.
    /// `None` where the expiry instant is beyond what `chrono` can represent
    /// (where adding the minutes makes `chrono` overflow).
    pub fn new(user_id: &str, code_hash: &str, expiry_minutes: i64) -> (c: Option<Self>)
        ensures
            exists|now: Timestamp| #![trigger Self::can_expire(now, expiry_minutes)]
                is_clock_instant(now) && (c is Some <==> Self::can_expire(now, expiry_minutes)) && (
                c matches Some(ch) ==> Self::made_at(ch, user_id@, code_hash@, expiry_minutes, now)),
    {
        let now = now_utc();
        Self::new_at(user_id, code_hash, expiry_minutes, now)
    }

    /// Whether the challenge has expired at `now`; an unreadable expiry counts as
    /// `unreadable_expiry`.
    pub fn is_expired_at(&self, unreadable_expiry: Timestamp, now: Timestamp) -> (expired: bool)
        ensures
            expired == expired_at(spec_parse_rfc3339(self.expires_at@), unreadable_expiry, now),
    {
        let expiry = match parse_rfc3339(self.expires_at.as_str()) {
            Some(e) => e,
            None => unreadable_expiry,
        };
        now.secs > expiry.secs || (now.secs == expiry.secs && now.nanos > expiry.nanos)
    }

    /// Whether the challenge has expired now. An unreadable expiry is replaced by a
    /// reading of the clock taken before the one it is compared with.
    pub fn is_expired(&self) -> (expired: bool)
        ensures
            exists|unreadable_expiry: Timestamp, now: Timestamp|
                #![trigger expired_at(spec_parse_rfc3339(self.expires_at@), unreadable_expiry, now)]
                is_clock_instant(unreadable_expiry) && is_clock_instant(now) && expired == expired_at(
                    spec_parse_rfc3339(self.expires_at@),
                    unreadable_expiry,
                    now,
                ),
    {
        let unreadable_expiry = now_utc();
        let now = now_utc();
        self.is_expired_at(unreadable_expiry, now)
    }

    /// A challenge made at `created` to last `expiry_minutes` (its expiry in the years
    /// 0000 to 9999, whose text reads back) has not expired at any instant up to
    /// `expiry_minutes` minutes after its creation, and has expired at every instant
    /// after that.
    pub proof fn law_expires_after_its_minutes(
        c: LoginChallenge,
        user_id: Seq<char>,
        code_hash: Seq<char>,
        expiry_minutes: i64,
        created: Timestamp,
        unreadable_expiry: Timestamp,
        now: Timestamp,
    )
        requires
            Self::made_at(c, user_id, code_hash, expiry_minutes, created),
            Self::expiry_of(created, expiry_minutes).in_four_digit_years(),
        ensures
            expired_at(spec_parse_rfc3339(c.expires_at@), unreadable_expiry, now) <==> (now.secs
                > created.secs + expiry_minutes * 60 || (now.secs == created.secs + expiry_minutes * 60
                && now.nanos > created.nanos)),
    {
    }

    /// Marks the challenge as used, so that it cannot be redeemed again.
    pub fn mark_used(&mut self)
        ensures
            final(self).used == 1,
            final(self).id@ == old(self).id@,
            final(self).user_id@ == old(self).user_id@,
            final(self).code_hash@ == old(self).code_hash@,
            final(self).expires_at@ == old(self).expires_at@,
            final(self).created_at@ == old(self).created_at@,
    {
        self.used = 1;
    }
}

// ── EmailLog ─────────────────────────────────────────────────────────────────

#[derive(Debug, Clone)]
pub struct EmailLog {
    pub id: String,
    pub to_email: String,
    pub subject: String,
    pub body: String,
    pub sent_at: String,
}

impl EmailLog {
    /// A record of an e-mail sent now.
    pub fn new(to_email: &str, subject: &str, body: &str) -> (log: Self)
        ensures
            log.to_email@ == to_email@,
            log.subject@ == subject@,
            log.body@ == body@,
            is_uuid_v4_text(log.id@),
            is_clock_text(log.sent_at@),
    {
        let sent_at = current_rfc3339();
        Self {
            id: new_id(),
            to_email: to_email.to_owned(),
            subject: subject.to_owned(),
            body: body.to_owned(),
            sent_at,
        }
    }
}

} // verus!

verus! {

// ── Request / Response DTOs ───────────────────────────────────────────────────

#[derive(Debug, Clone)]
pub struct LoginRequest {
    pub email: String,
    pub password: String,
}

#[derive(Debug, Clone)]
pub struct LoginChallengeResponse {
    pub login_challenge_id: String,
    pub message: String,
}

#[derive(Debug, Clone)]
pub struct Verify2FARequest {
    pub login_challenge_id: String,
    pub code: String,
}

#[derive(Debug, Clone)]
pub struct AuthTokenResponse {
    pub access_token: String,
    pub token_type: String,
}

#[derive(Debug, Clone)]
pub struct CreateTaskRequest {
    pub title: String,
    pub description: Option<String>,
    /// "low" | "medium" | "high"
    pub priority: Option<String>,
}

#[derive(Debug, Clone)]
pub struct TaskResponse {
    pub id: String,
    pub title: String,
    pub status: String,
    pub priority: String,
    pub assigned_to: Option<String>,
}

/// The content of a task as shown to its assignee.
pub struct TaskResponseView {
    pub id: Seq<char>,
    pub title: Seq<char>,
    pub status: Seq<char>,
    pub priority: Seq<char>,
    pub assigned_to: Option<Seq<char>>,
}

impl View for TaskResponse {
    type V = TaskResponseView;

    open spec fn view(&self) -> TaskResponseView {
        TaskResponseView {
            id: self.id@,
            title: self.title@,
            status: self.status@,
            priority: self.priority@,
            assigned_to: opt_text(self.assigned_to),
        }
    }
}

/// The contents of a list of tasks.
pub open spec fn task_views(tasks: Seq<TaskResponse>) -> Seq<TaskResponseView> {
    tasks.map_values(|t: TaskResponse| t@)
}

impl TaskResponse {
    /// A copy with the same content.
    pub fn duplicate(&self) -> (c: TaskResponse)
        ensures
            c@ == self@,
    {
        TaskResponse {
            id: self.id.clone(),
            title: self.title.clone(),
            status: self.status.clone(),
            priority: self.priority.clone(),
            assigned_to: copy_opt(&self.assigned_to),
        }
    }
}

/// A copy of a list of tasks, in the same order, with the same contents.
pub fn duplicate_tasks(tasks: &Vec<TaskResponse>) -> (c: Vec<TaskResponse>)
    ensures
        task_views(c@) == task_views(tasks@),
{
    let mut out: Vec<TaskResponse> = Vec::new();
    let mut i: usize = 0;
    while i < tasks.len()
        invariant
            i <= tasks.len(),
            out@.len() == i,
            forall|j: int| 0 <= j < i ==> #[trigger] out@[j]@ == tasks@[j]@,
        decreases tasks.len() - i,
    {
        out.push(tasks[i].duplicate());
        i = i + 1;
    }
    assert(task_views(out@) =~= task_views(tasks@));
    out
}

#[derive(Debug, Clone)]
pub struct AssignTasksRequest {
    pub task_ids: Vec<String>,
    pub user_email: String,
}

#[derive(Debug, Clone)]
pub struct MyTasksResponse {
    pub user: UserSummary,
    pub tasks: Vec<TaskResponse>,
    pub summary: TaskSummary,
    pub cache: CacheMeta,
}

/// The content of a "my tasks" answer.
pub struct MyTasksView {
    pub email: Seq<char>,
    pub role: Seq<char>,
    pub tasks: Seq<TaskResponseView>,
    pub total_assigned_tasks: nat,
    pub hit: bool,
}

impl View for MyTasksResponse {
    type V = MyTasksView;

    open spec fn view(&self) -> MyTasksView {
        MyTasksView {
            email: self.user.email@,
            role: self.user.role@,
            tasks: task_views(self.tasks@),
            total_assigned_tasks: self.summary.total_assigned_tasks as nat,
            hit: self.cache.hit,
        }
    }
}

#[derive(Debug, Clone)]
pub struct UserSummary {
    pub email: String,
    pub role: String,
}

#[derive(Debug, Clone)]
pub struct TaskSummary {
    pub total_assigned_tasks: usize,
}

#[derive(Debug, Clone)]
pub struct CacheMeta {
    pub hit: bool,
}

#[derive(Debug, Clone)]
pub struct SeedResponse {
    pub message: String,
    pub admin_email: String,
    pub staff_email: String,
}

#[derive(Debug, Clone)]
pub struct ApiError {
    pub error: String,
    pub message: String,
}

// ── JWT Claims ────────────────────────────────────────────────────────────────

#[derive(Debug, Clone)]
pub struct JwtClaims {
    /// The user's identifier.
    pub sub: String,
    pub email: String,
    pub role: String,
    pub exp: usize,
}

// ── Cached task list ─────────────────────────────────────────────────────────

#[derive(Debug, Clone)]
pub struct CachedTasks {
    pub tasks: Vec<TaskResponse>,
    pub user_email: String,
    pub user_role: String,
}

/// The content of a cache entry.
pub struct CachedTasksView {
    pub tasks: Seq<TaskResponseView>,
    pub user_email: Seq<char>,
    pub user_role: Seq<char>,
}

impl View for CachedTasks {
    type V = CachedTasksView;

    open spec fn view(&self) -> CachedTasksView {
        CachedTasksView {
            tasks: task_views(self.tasks@),
            user_email: self.user_email@,
            user_role: self.user_role@,
        }
    }
}

impl CachedTasks {
    /// A copy with the same content.
    pub fn duplicate(&self) -> (c: CachedTasks)
        ensures
            c@ == self@,
    {
        CachedTasks {
            tasks: duplicate_tasks(&self.tasks),
            user_email: self.user_email.clone(),
            user_role: self.user_role.clone(),
        }
    }
}

} // verus!
