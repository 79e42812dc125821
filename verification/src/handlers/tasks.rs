use crate::auth::jwt::Claims;
use crate::cache::task_cache::{
    cached_listings, get_user_tasks, invalidate_user_tasks, lookup, set_user_tasks, TaskCache,
};
use crate::ids::{is_random_uuid, new_uuid_v4, parse_uuid, uuid_parsed, uuid_text, uuid_to_text};
use crate::status::Status;
use crate::text::text_eq;
use vstd::prelude::*;

verus! {

/// The role that may create and assign tasks.
pub open spec fn admin_role() -> Seq<char> {
    seq!['a', 'd', 'm', 'i', 'n']
}

/// The body of a request to create a task.
#[derive(Clone, Debug)]
pub struct CreateTaskRequest {
    pub title: String,
    pub description: String,
    pub priority: String,
}

/// The body of a request to assign tasks to a user.
#[derive(Clone, Debug)]
pub struct AssignTasksRequest {
    pub task_ids: Vec<u128>,
    pub assigned_to_email: String,
}

/// One task as a user's listing shows it.
#[derive(Clone, Debug)]
pub struct TaskResponse {
    pub id: u128,
    pub title: String,
    pub status: String,
    pub priority: String,
    pub assigned_to: String,
}

/// One row of the tasks assigned to a user, joined with the assignee's
/// e-mail.
#[derive(Clone, Debug)]
pub struct AssignedTask {
    pub id: u128,
    pub title: String,
    pub status: String,
    pub priority: String,
    pub email: String,
}

/// A user's listing of their tasks.
#[derive(Clone, Debug)]
pub struct TaskListResponse {
    pub user_email: String,
    pub user_role: String,
    pub tasks: Vec<TaskResponse>,
    pub total_assigned_tasks: usize,
    pub cache_hit: bool,
}

/// A task to be stored.
#[derive(Clone, Debug)]
pub struct NewTask {
    pub id: u128,
    pub title: String,
    pub description: String,
    pub status: String,
    pub priority: String,
    pub created_by: u128,
}

/// The answer to a created task.
#[derive(Clone, Debug)]
pub struct CreateTaskResponse {
    pub message: String,
    pub task_id: u128,
}

/// The answer to an assignment.
#[derive(Clone, Debug)]
pub struct AssignResponse {
    pub message: String,
    pub assigned_to: String,
    pub count: usize,
}

/// The user that tasks are assigned to, as looked up by e-mail.
#[derive(Clone, Debug)]
pub struct Assignee {
    pub id: u128,
    pub email: String,
}

/// Two listings with the same content.
pub open spec fn same_listing(a: TaskListResponse, b: TaskListResponse) -> bool {
    &&& a.user_email == b.user_email
    &&& a.user_role == b.user_role
    &&& a.tasks@ == b.tasks@
    &&& a.total_assigned_tasks == b.total_assigned_tasks
    &&& a.cache_hit == b.cache_hit
}

impl TaskResponse {
    /// A field-by-field copy.
    pub fn duplicate(&self) -> (r: TaskResponse)
        ensures
            r == *self,
    {
        TaskResponse {
            id: self.id,
            title: self.title.clone(),
            status: self.status.clone(),
            priority: self.priority.clone(),
            assigned_to: self.assigned_to.clone(),
        }
    }
}

impl TaskListResponse {
    /// A field-by-field copy.
    pub fn duplicate(&self) -> (r: TaskListResponse)
        ensures
            same_listing(r, *self),
    {
        let mut tasks: Vec<TaskResponse> = Vec::new();
        let mut i: usize = 0;
        while i < self.tasks.len()
            invariant
                i <= self.tasks@.len(),
                tasks@ =~= self.tasks@.take(i as int),
            decreases self.tasks@.len() - i,
        {
            tasks.push(self.tasks[i].duplicate());
            i = i + 1;
        }
        proof {
            assert(self.tasks@.take(self.tasks@.len() as int) =~= self.tasks@);
        }
        TaskListResponse {
            user_email: self.user_email.clone(),
            user_role: self.user_role.clone(),
            tasks,
            total_assigned_tasks: self.total_assigned_tasks,
            cache_hit: self.cache_hit,
        }
    }
}

/// Whether the claims carry the administrator role.
pub fn is_admin(claims: &Claims) -> (r: bool)
    ensures
        r == (claims.role@ == admin_role()),
{
    let admin = "admin";
    proof {
        reveal_strlit("admin");
        assert(admin@ =~= admin_role());
    }
    text_eq(claims.role.as_str(), admin)
}

/// Why a task is not created.
#[derive(Clone, Copy, Debug, PartialEq, Eq, Structural)]
pub enum CreateTaskRefusal {
    /// The caller is no administrator (403).
    Forbidden,
    /// The caller's subject is no user identifier; the service stops.
    MalformedSubject,
}

/// Decides on a request to create a task: administrators get a new task
/// under a freshly drawn random (version 4) identifier, in state `todo`,
/// created by the caller.
pub fn create_task(claims: &Claims, request: CreateTaskRequest) -> (r: Result<NewTask, CreateTaskRefusal>)
    ensures
        claims.role@ != admin_role() ==> r == Err::<NewTask, CreateTaskRefusal>(
            CreateTaskRefusal::Forbidden,
        ),
        claims.role@ == admin_role() ==> match uuid_parsed(claims.sub@) {
            None => r == Err::<NewTask, CreateTaskRefusal>(CreateTaskRefusal::MalformedSubject),
            Some(creator) => (r matches Ok(t) && t.title == request.title && t.description
                == request.description && t.priority == request.priority && t.status@ == "todo"@
                && t.created_by == creator && is_random_uuid(t.id)),
        },
{
    if !is_admin(claims) {
        return Err(CreateTaskRefusal::Forbidden);
    }
    let id = new_uuid_v4();
    match parse_uuid(claims.sub.as_str()) {
        None => Err(CreateTaskRefusal::MalformedSubject),
        Some(creator) => Ok(
            NewTask {
                id,
                title: request.title,
                description: request.description,
                status: "todo".to_owned(),
                priority: request.priority,
                created_by: creator,
            },
        ),
    }
}

/// The answer once the new task was (or was not) stored.
pub fn create_task_outcome(task_id: u128, stored: bool) -> (r: Result<CreateTaskResponse, Status>)
    ensures
        !stored ==> r == Err::<CreateTaskResponse, Status>(Status::InternalServerError),
        stored ==> (r matches Ok(resp) && resp.message@ == "task created"@ && resp.task_id == task_id),
{
    if stored {
        Ok(CreateTaskResponse { message: "task created".to_owned(), task_id })
    } else {
        Err(Status::InternalServerError)
    }
}

/// Where an assignment stands.
#[derive(Clone, Debug)]
pub enum AssignStage {
    /// The assignee is being looked up.
    AwaitAssignee,
    /// The task at `index` of the request is being updated.
    AwaitUpdate { assignee: Assignee, index: usize },
    /// The answer was given.
    Finished,
}

/// An assignment in progress.
#[derive(Clone, Debug)]
pub struct AssignFlow {
    pub request: AssignTasksRequest,
    pub stage: AssignStage,
}

/// What the storage reported.
#[derive(Clone, Debug)]
pub enum AssignEvent {
    /// The user with the requested e-mail, if there is one.
    AssigneeFound(Option<Assignee>),
    /// Whether the last task update succeeded.
    TaskUpdated(bool),
}

/// What to do next.
#[derive(Debug)]
pub enum AssignAction {
    /// Look up the user with this e-mail.
    FindAssignee(String),
    /// Give the task with the first identifier to the user with the second.
    UpdateTask { task_id: u128, user_id: u128 },
    /// Answer the request.
    Respond(Result<AssignResponse, Status>),
}

/// The assignment answered successfully for `assignee`.
pub open spec fn answered_assigned(
    request: AssignTasksRequest,
    assignee: Assignee,
    r: (AssignFlow, AssignAction),
) -> bool {
    &&& r.0.request == request
    &&& r.0.stage is Finished
    &&& r.1 matches AssignAction::Respond(Ok(resp))
    &&& resp.message@ == "tasks assigned"@
    &&& resp.assigned_to == assignee.email
    &&& resp.count == request.task_ids@.len()
}

/// The assignment answered with an error status.
pub open spec fn answered_error(request: AssignTasksRequest, status: Status, r: (AssignFlow, AssignAction)) -> bool {
    &&& r.0.request == request
    &&& r.0.stage is Finished
    &&& r.1 matches AssignAction::Respond(Err(s))
    &&& s == status
}

/// The assignment moves on to updating the task at `index`.
pub open spec fn updating(
    request: AssignTasksRequest,
    assignee: Assignee,
    index: int,
    r: (AssignFlow, AssignAction),
) -> bool {
    &&& r.0.request == request
    &&& r.0.stage matches AssignStage::AwaitUpdate { assignee: a, index: i }
    &&& a == assignee
    &&& i == index
    &&& r.1 matches AssignAction::UpdateTask { task_id, user_id }
    &&& task_id == request.task_ids@[index]
    &&& user_id == assignee.id
}

/// How an assignment begins for the caller with these claims.
pub open spec fn assign_started(claims: Claims, request: AssignTasksRequest, r: (AssignFlow, AssignAction)) -> bool {
    if claims.role@ != admin_role() {
        answered_error(request, Status::Forbidden, r)
    } else {
        &&& r.1 matches AssignAction::FindAssignee(email)
        &&& email == request.assigned_to_email
        &&& r.0.request == request
        &&& r.0.stage is AwaitAssignee
    }
}

/// How an assignment moves on from `stage` by `event`, the cache holding
/// `before` and then `after`.
pub open spec fn assign_transition(
    request: AssignTasksRequest,
    stage: AssignStage,
    event: AssignEvent,
    before: Map<Seq<char>, TaskListResponse>,
    after: Map<Seq<char>, TaskListResponse>,
    r: (AssignFlow, AssignAction),
) -> bool {
    match (stage, event) {
        (AssignStage::AwaitAssignee, AssignEvent::AssigneeFound(None)) => answered_error(
            request,
            Status::NotFound,
            r,
        ) && after == before,
        (AssignStage::AwaitAssignee, AssignEvent::AssigneeFound(Some(a))) => if request.task_ids@.len()
            == 0 {
            answered_assigned(request, a, r) && after == before.remove(uuid_text(a.id))
        } else {
            updating(request, a, 0, r) && after == before
        },
        (AssignStage::AwaitUpdate { assignee: a, index: i }, AssignEvent::TaskUpdated(ok)) => if !ok
            || i >= request.task_ids@.len() {
            answered_error(request, Status::InternalServerError, r) && after == before
        } else if i + 1 < request.task_ids@.len() {
            updating(request, a, i + 1, r) && after == before
        } else {
            answered_assigned(request, a, r) && after == before.remove(uuid_text(a.id))
        },
        _ => answered_error(request, Status::InternalServerError, r) && after == before,
    }
}

/// Starts an assignment: administrators look up the assignee by e-mail,
/// everybody else gets 403.
pub fn assign_tasks(claims: &Claims, request: AssignTasksRequest) -> (r: (AssignFlow, AssignAction))
    ensures
        assign_started(*claims, request, r),
{
    if !is_admin(claims) {
        return (
            AssignFlow { request, stage: AssignStage::Finished },
            AssignAction::Respond(Err(Status::Forbidden)),
        );
    }
    let email = request.assigned_to_email.clone();
    (AssignFlow { request, stage: AssignStage::AwaitAssignee }, AssignAction::FindAssignee(email))
}

/// Ends an assignment for `assignee`: the assignee's cached listing is
/// forgotten and the assignment is confirmed.
fn finish_assignment(request: AssignTasksRequest, assignee: Assignee, cache: &mut TaskCache) -> (r: (
    AssignFlow,
    AssignAction,
))
    ensures
        answered_assigned(request, assignee, r),
        cached_listings(*final(cache)) == cached_listings(*old(cache)).remove(uuid_text(assignee.id)),
{
    let key = uuid_to_text(assignee.id);
    invalidate_user_tasks(cache, key.as_str());
    let count = request.task_ids.len();
    let resp = AssignResponse {
        message: "tasks assigned".to_owned(),
        assigned_to: assignee.email,
        count,
    };
    (AssignFlow { request, stage: AssignStage::Finished }, AssignAction::Respond(Ok(resp)))
}

/// Moves an assignment on by what the storage reported. The assignee not
/// found gives 404, a failed update 500; each task of the request is
/// assigned in order, and after the last one the assignee's cached listing
/// is forgotten and the count of tasks is confirmed. An event that does not
/// fit the stage gives 500.
pub fn assign_tasks_step(flow: AssignFlow, event: AssignEvent, cache: &mut TaskCache) -> (r: (
    AssignFlow,
    AssignAction,
))
    ensures
        assign_transition(
            flow.request,
            flow.stage,
            event,
            cached_listings(*old(cache)),
            cached_listings(*final(cache)),
            r,
        ),
        flow.stage matches AssignStage::AwaitUpdate { index: i, .. } ==> (
            r.0.stage matches AssignStage::AwaitUpdate { index: n, .. } ==> n == i + 1),
        r.1 matches AssignAction::UpdateTask { task_id, user_id } ==> (
            r.0.stage matches AssignStage::AwaitUpdate { assignee, index }
            && task_id == flow.request.task_ids@[index as int] && user_id == assignee.id),
{
    let AssignFlow { request, stage } = flow;
    match stage {
        AssignStage::AwaitAssignee => match event {
            AssignEvent::AssigneeFound(None) => (
                AssignFlow { request, stage: AssignStage::Finished },
                AssignAction::Respond(Err(Status::NotFound)),
            ),
            AssignEvent::AssigneeFound(Some(a)) => {
                if request.task_ids.len() == 0 {
                    finish_assignment(request, a, cache)
                } else {
                    let task_id = request.task_ids[0];
                    let user_id = a.id;
                    (
                        AssignFlow { request, stage: AssignStage::AwaitUpdate { assignee: a, index: 0 } },
                        AssignAction::UpdateTask { task_id, user_id },
                    )
                }
            },
            AssignEvent::TaskUpdated(_) => (
                AssignFlow { request, stage: AssignStage::Finished },
                AssignAction::Respond(Err(Status::InternalServerError)),
            ),
        },
        AssignStage::AwaitUpdate { assignee, index } => match event {
            AssignEvent::TaskUpdated(ok) => {
                if !ok || index >= request.task_ids.len() {
                    (
                        AssignFlow { request, stage: AssignStage::Finished },
                        AssignAction::Respond(Err(Status::InternalServerError)),
                    )
                } else if index + 1 < request.task_ids.len() {
                    let task_id = request.task_ids[index + 1];
                    let user_id = assignee.id;
                    (
                        AssignFlow {
                            request,
                            stage: AssignStage::AwaitUpdate { assignee, index: index + 1 },
                        },
                        AssignAction::UpdateTask { task_id, user_id },
                    )
                } else {
                    finish_assignment(request, assignee, cache)
                }
            },
            AssignEvent::AssigneeFound(_) => (
                AssignFlow { request, stage: AssignStage::Finished },
                AssignAction::Respond(Err(Status::InternalServerError)),
            ),
        },
        AssignStage::Finished => (
            AssignFlow { request, stage: AssignStage::Finished },
            AssignAction::Respond(Err(Status::InternalServerError)),
        ),
    }
}

/// How a view of one's tasks begins.
#[derive(Clone, Debug)]
pub enum TaskView {
    /// The cached listing, marked as served from the cache.
    Cached(TaskListResponse),
    /// No listing is cached: read the tasks assigned to this user.
    Fetch(u128),
    /// The caller's subject is no user identifier; the service stops.
    MalformedSubject,
}

/// How a view begins when the cache holds `entries`.
pub open spec fn view_start(entries: Map<Seq<char>, TaskListResponse>, sub: Seq<char>) -> TaskView {
    match lookup(entries, sub) {
        Some(l) => TaskView::Cached(TaskListResponse { cache_hit: true, ..l }),
        None => match uuid_parsed(sub) {
            None => TaskView::MalformedSubject,
            Some(id) => TaskView::Fetch(id),
        },
    }
}

/// The listing entry of one row.
pub open spec fn task_of(row: AssignedTask) -> TaskResponse {
    TaskResponse {
        id: row.id,
        title: row.title,
        status: row.status,
        priority: row.priority,
        assigned_to: row.email,
    }
}

/// `listing` is the fresh listing for the caller with these rows.
pub open spec fn fresh_listing(listing: TaskListResponse, claims: Claims, rows: Seq<AssignedTask>) -> bool {
    &&& listing.user_email == claims.email
    &&& listing.user_role == claims.role
    &&& listing.tasks@ == rows.map_values(|row: AssignedTask| task_of(row))
    &&& listing.total_assigned_tasks == rows.len()
    &&& !listing.cache_hit
}

/// Begins a view of the caller's tasks: a cached listing is served marked
/// as a cache hit; otherwise the caller's tasks are to be read.
pub fn view_my_tasks(cache: &TaskCache, claims: &Claims) -> (r: TaskView)
    ensures
        r == view_start(cached_listings(*cache), claims.sub@),
{
    match get_user_tasks(cache, claims.sub.as_str()) {
        Some(cached) => {
            let mut listing = cached;
            listing.cache_hit = true;
            TaskView::Cached(listing)
        },
        None => match parse_uuid(claims.sub.as_str()) {
            None => TaskView::MalformedSubject,
            Some(id) => TaskView::Fetch(id),
        },
    }
}

/// Turns the rows read into the listing.
fn listing_from_rows(claims: &Claims, rows: Vec<AssignedTask>) -> (r: TaskListResponse)
    ensures
        fresh_listing(r, *claims, rows@),
{
    let mut tasks: Vec<TaskResponse> = Vec::new();
    let mut i: usize = 0;
    while i < rows.len()
        invariant
            i <= rows@.len(),
            tasks@ =~= rows@.take(i as int).map_values(|row: AssignedTask| task_of(row)),
        decreases rows@.len() - i,
    {
        let row = &rows[i];
        let task = TaskResponse {
            id: row.id,
            title: row.title.clone(),
            status: row.status.clone(),
            priority: row.priority.clone(),
            assigned_to: row.email.clone(),
        };
        tasks.push(task);
        proof {
            assert(rows@.take(i + 1) =~= rows@.take(i as int).push(rows@[i as int]));
        }
        i = i + 1;
    }
    proof {
        assert(rows@.take(rows@.len() as int) =~= rows@);
    }
    let total = tasks.len();
    TaskListResponse {
        user_email: claims.email.clone(),
        user_role: claims.role.clone(),
        tasks,
        total_assigned_tasks: total,
        cache_hit: false,
    }
}

/// Ends a view of the caller's tasks with the rows read: when they could
/// not be read the answer is 500 and the cache is left alone; otherwise the
/// fresh listing is cached under the caller's subject and served.
pub fn view_my_tasks_finish(cache: &mut TaskCache, claims: &Claims, rows: Option<Vec<AssignedTask>>) -> (r:
    Result<TaskListResponse, Status>)
    ensures
        rows is None ==> r == Err::<TaskListResponse, Status>(Status::InternalServerError) && *final(cache) == *old(cache),
        rows matches Some(v) ==> (r matches Ok(l) && fresh_listing(l, *claims, v@)
            && cached_listings(*final(cache)).dom().contains(claims.sub@)
            && same_listing(cached_listings(*final(cache))[claims.sub@], l)
            && cached_listings(*final(cache)) == cached_listings(*old(cache)).insert(
                claims.sub@,
                cached_listings(*final(cache))[claims.sub@],
            )),
        rows matches Some(v) ==> (r matches Ok(l) && l.tasks@.len() == v@.len() && forall|i: int|
            0 <= i < v@.len() ==> (#[trigger] l.tasks@[i]).id == v@[i].id && l.tasks@[i].title
                == v@[i].title && l.tasks@[i].status == v@[i].status && l.tasks@[i].priority
                == v@[i].priority && l.tasks@[i].assigned_to == v@[i].email),
{
    match rows {
        None => Err(Status::InternalServerError),
        Some(rows) => {
            let listing = listing_from_rows(claims, rows);
            proof {
                lemma_listing_keeps_row_fields(listing, *claims, rows@);
            }
            let stored = listing.duplicate();
            set_user_tasks(cache, claims.sub.clone(), stored);
            Ok(listing)
        },
    }
}

/// A fresh listing shows the rows in their order, one task per row, each
/// with the row's identifier, title, status and priority and the row's
/// e-mail as its assignee.
pub proof fn lemma_listing_keeps_row_fields(listing: TaskListResponse, claims: Claims, rows: Seq<AssignedTask>)
    requires
        fresh_listing(listing, claims, rows),
    ensures
        listing.tasks@.len() == rows.len(),
        listing.total_assigned_tasks == rows.len(),
        forall|i: int|
            0 <= i < rows.len() ==> (#[trigger] listing.tasks@[i]).id == rows[i].id
                && listing.tasks@[i].title == rows[i].title && listing.tasks@[i].status
                == rows[i].status && listing.tasks@[i].priority == rows[i].priority
                && listing.tasks@[i].assigned_to == rows[i].email,
{
}

/// A second view of one's tasks, after a listing was cached for one's
/// subject, is served from the cache: the same listing, marked as a hit.
pub proof fn lemma_view_after_store(
    entries: Map<Seq<char>, TaskListResponse>,
    sub: Seq<char>,
    listing: TaskListResponse,
)
    ensures
        view_start(entries.insert(sub, listing), sub) == TaskView::Cached(
            TaskListResponse { cache_hit: true, ..listing },
        ),
{
}

/// After an assignment to a user, that user's next view is not served from
/// the cache.
pub proof fn lemma_view_after_assignment(entries: Map<Seq<char>, TaskListResponse>, user_id: u128)
    ensures
        !(view_start(entries.remove(uuid_text(user_id)), uuid_text(user_id)) is Cached),
{
}

/// A whole assignment: it starts from the caller's request, and each step
/// takes the flow on by the event reported, the cache holding `entries[i]`
/// before step `i` and `entries[i + 1]` after it.
pub open spec fn assign_run(
    claims: Claims,
    request: AssignTasksRequest,
    steps: Seq<AssignEvent>,
    flows: Seq<(AssignFlow, AssignAction)>,
    entries: Seq<Map<Seq<char>, TaskListResponse>>,
) -> bool {
    &&& flows.len() == steps.len() + 1
    &&& entries.len() == steps.len() + 1
    &&& assign_started(claims, request, flows[0])
    &&& forall|i: int|
        0 <= i < steps.len() ==> #[trigger] assign_transition(
            flows[i].0.request,
            flows[i].0.stage,
            steps[i],
            entries[i],
            entries[i + 1],
            flows[i + 1],
        )
}

/// Every flow of a run carries the run's request, and once the run is
/// answered it stays finished and leaves the cache alone.
proof fn lemma_assign_after_answer(
    claims: Claims,
    request: AssignTasksRequest,
    steps: Seq<AssignEvent>,
    flows: Seq<(AssignFlow, AssignAction)>,
    entries: Seq<Map<Seq<char>, TaskListResponse>>,
    k: int,
    j: int,
)
    requires
        assign_run(claims, request, steps, flows, entries),
        0 <= k <= j < flows.len(),
        flows[k].0.stage is Finished,
    ensures
        flows[j].0.stage is Finished,
        entries[j] == entries[k],
    decreases j - k,
{
    if j > k {
        assert(assign_transition(
            flows[k].0.request,
            flows[k].0.stage,
            steps[k],
            entries[k],
            entries[k + 1],
            flows[k + 1],
        ));
        lemma_assign_after_answer(claims, request, steps, flows, entries, k + 1, j);
    }
}

/// The assignee whose updates a run awaits was reported by an earlier step.
proof fn lemma_assignee_was_found(
    claims: Claims,
    request: AssignTasksRequest,
    steps: Seq<AssignEvent>,
    flows: Seq<(AssignFlow, AssignAction)>,
    entries: Seq<Map<Seq<char>, TaskListResponse>>,
    k: int,
)
    requires
        assign_run(claims, request, steps, flows, entries),
        0 <= k < flows.len(),
    ensures
        flows[k].0.stage matches AssignStage::AwaitUpdate { assignee, .. } ==> exists|j: int|
            0 <= j < k && #[trigger] steps[j] == AssignEvent::AssigneeFound(Some(assignee)),
    decreases k,
{
    if k > 0 {
        let i = k - 1;
        lemma_assignee_was_found(claims, request, steps, flows, entries, i);
        assert(assign_transition(
            flows[i].0.request,
            flows[i].0.stage,
            steps[i],
            entries[i],
            entries[i + 1],
            flows[i + 1],
        ));
        if let AssignStage::AwaitUpdate { assignee, .. } = flows[k].0.stage {
            if let AssignStage::AwaitUpdate { assignee: before, .. } = flows[i].0.stage {
                let j = choose|j: int|
                    0 <= j < i && #[trigger] steps[j] == AssignEvent::AssigneeFound(Some(before));
                assert(steps[j] == AssignEvent::AssigneeFound(Some(assignee)));
            } else {
                assert(steps[i] == AssignEvent::AssigneeFound(Some(assignee)));
            }
        }
    }
}

/// The assignee that a confirming step confirms: the one whose update was
/// awaited, or the one just found for an empty request.
pub open spec fn confirmed_assignee(stage: AssignStage, event: AssignEvent) -> Assignee {
    match (stage, event) {
        (AssignStage::AwaitUpdate { assignee, .. }, _) => assignee,
        (_, AssignEvent::AssigneeFound(Some(found))) => found,
        _ => arbitrary(),
    }
}

/// A step that confirms an assignment forgets the confirmed assignee's
/// cached listing and names that assignee in the answer.
proof fn lemma_confirming_step(
    request: AssignTasksRequest,
    stage: AssignStage,
    event: AssignEvent,
    before: Map<Seq<char>, TaskListResponse>,
    after: Map<Seq<char>, TaskListResponse>,
    r: (AssignFlow, AssignAction),
)
    requires
        assign_transition(request, stage, event, before, after, r),
        r.1 matches AssignAction::Respond(Ok(_)),
    ensures
        after == before.remove(uuid_text(confirmed_assignee(stage, event).id)),
        r.0.stage is Finished,
        r.1 matches AssignAction::Respond(Ok(resp)) && resp.assigned_to == confirmed_assignee(
            stage,
            event,
        ).email,
{
}

/// After an assignment run is confirmed, the assignee it confirms has no
/// cached listing for the rest of the run, so that assignee's next view of
/// their tasks is read afresh and not served from the cache. Only an
/// administrator's run is ever confirmed.
pub proof fn lemma_assignment_run_refreshes_view(
    claims: Claims,
    request: AssignTasksRequest,
    steps: Seq<AssignEvent>,
    flows: Seq<(AssignFlow, AssignAction)>,
    entries: Seq<Map<Seq<char>, TaskListResponse>>,
    k: int,
)
    requires
        assign_run(claims, request, steps, flows, entries),
        0 <= k < steps.len(),
        flows[k + 1].1 matches AssignAction::Respond(Ok(_)),
    ensures
        claims.role@ == admin_role(),
        exists|j: int|
            0 <= j <= k && #[trigger] steps[j] == AssignEvent::AssigneeFound(
                Some(confirmed_assignee(flows[k].0.stage, steps[k])),
            ),
        flows[k + 1].1 matches AssignAction::Respond(Ok(resp)) && resp.assigned_to
            == confirmed_assignee(flows[k].0.stage, steps[k]).email,
        lookup(
            entries[steps.len() as int],
            uuid_text(confirmed_assignee(flows[k].0.stage, steps[k]).id),
        ) is None,
        !(view_start(
            entries[steps.len() as int],
            uuid_text(confirmed_assignee(flows[k].0.stage, steps[k]).id),
        ) is Cached),
{
    assert(assign_transition(
        flows[k].0.request,
        flows[k].0.stage,
        steps[k],
        entries[k],
        entries[k + 1],
        flows[k + 1],
    ));
    if claims.role@ != admin_role() {
        lemma_assign_after_answer(claims, request, steps, flows, entries, 0, k);
        assert(false);
    }
    lemma_confirming_step(
        flows[k].0.request,
        flows[k].0.stage,
        steps[k],
        entries[k],
        entries[k + 1],
        flows[k + 1],
    );
    lemma_assign_after_answer(claims, request, steps, flows, entries, k + 1, steps.len() as int);
    lemma_assignee_was_found(claims, request, steps, flows, entries, k);
    if !(flows[k].0.stage is AwaitUpdate) {
        assert(steps[k] == AssignEvent::AssigneeFound(
            Some(confirmed_assignee(flows[k].0.stage, steps[k])),
        ));
    }
}

/// A run that is answered at step `k` was not answered before: no flow up
/// to step `k` is finished.
proof fn lemma_unanswered_before_confirmation(
    claims: Claims,
    request: AssignTasksRequest,
    steps: Seq<AssignEvent>,
    flows: Seq<(AssignFlow, AssignAction)>,
    entries: Seq<Map<Seq<char>, TaskListResponse>>,
    k: int,
    m: int,
)
    requires
        assign_run(claims, request, steps, flows, entries),
        0 <= m <= k < steps.len(),
        flows[k + 1].1 matches AssignAction::Respond(Ok(_)),
    ensures
        !(flows[m].0.stage is Finished),
{
    assert(assign_transition(
        flows[k].0.request,
        flows[k].0.stage,
        steps[k],
        entries[k],
        entries[k + 1],
        flows[k + 1],
    ));
    if flows[m].0.stage is Finished {
        lemma_assign_after_answer(claims, request, steps, flows, entries, m, k);
    }
}

/// Before a run is answered at step `k`, step `j` (counting from one) awaits
/// the update of the task at position `j - 1` of the request, for the
/// assignee reported first, and has sent that update.
proof fn lemma_confirmed_run_prefix(
    claims: Claims,
    request: AssignTasksRequest,
    steps: Seq<AssignEvent>,
    flows: Seq<(AssignFlow, AssignAction)>,
    entries: Seq<Map<Seq<char>, TaskListResponse>>,
    k: int,
    j: int,
)
    requires
        assign_run(claims, request, steps, flows, entries),
        0 <= k < steps.len(),
        flows[k + 1].1 matches AssignAction::Respond(Ok(_)),
        1 <= j <= k,
    ensures
        flows[0].0.stage is AwaitAssignee,
        flows[j].0.request == request,
        j <= request.task_ids@.len(),
        steps[0] matches AssignEvent::AssigneeFound(Some(a))
            && flows[j].0.stage matches AssignStage::AwaitUpdate { assignee: b, index: i }
            && b == a && i == j - 1
            && flows[j].1 == (AssignAction::UpdateTask { task_id: request.task_ids@[j - 1], user_id: a.id }),
        2 <= j ==> steps[j - 1] == AssignEvent::TaskUpdated(true),
    decreases j,
{
    lemma_unanswered_before_confirmation(claims, request, steps, flows, entries, k, 0);
    lemma_unanswered_before_confirmation(claims, request, steps, flows, entries, k, j);
    let i = j - 1;
    assert(assign_transition(
        flows[i].0.request,
        flows[i].0.stage,
        steps[i],
        entries[i],
        entries[i + 1],
        flows[i + 1],
    ));
    if j > 1 {
        lemma_confirmed_run_prefix(claims, request, steps, flows, entries, k, i);
    }
}

/// A confirmed assignment gave every task of the request to the assignee,
/// in the request's order, and nothing else: when a run is answered with a
/// confirmation at step `k`, the assignee was reported by the first step,
/// the `k` actions before the answer are the updates of the request's task
/// identifiers one by one, each to that assignee, every update succeeded,
/// and `k` is the number of identifiers in the request.
pub proof fn lemma_confirmed_run_assigns_every_task(
    claims: Claims,
    request: AssignTasksRequest,
    steps: Seq<AssignEvent>,
    flows: Seq<(AssignFlow, AssignAction)>,
    entries: Seq<Map<Seq<char>, TaskListResponse>>,
    k: int,
)
    requires
        assign_run(claims, request, steps, flows, entries),
        0 <= k < steps.len(),
        flows[k + 1].1 matches AssignAction::Respond(Ok(_)),
    ensures
        k == request.task_ids@.len(),
        steps[0] matches AssignEvent::AssigneeFound(Some(a)) && forall|m: int|
            0 <= m < k ==> #[trigger] flows[m + 1].1 == (AssignAction::UpdateTask {
                task_id: request.task_ids@[m],
                user_id: a.id,
            }),
        forall|m: int| 1 <= m <= k ==> #[trigger] steps[m] == AssignEvent::TaskUpdated(true),
{
    lemma_unanswered_before_confirmation(claims, request, steps, flows, entries, k, 0);
    lemma_unanswered_before_confirmation(claims, request, steps, flows, entries, k, k);
    assert(assign_transition(
        flows[k].0.request,
        flows[k].0.stage,
        steps[k],
        entries[k],
        entries[k + 1],
        flows[k + 1],
    ));
    if k == 0 {
        assert(assign_transition(
            flows[0].0.request,
            flows[0].0.stage,
            steps[0],
            entries[0],
            entries[1],
            flows[1],
        ));
    } else {
        lemma_confirmed_run_prefix(claims, request, steps, flows, entries, k, k);
        assert forall|m: int| 0 <= m < k implies #[trigger] flows[m + 1].1 == (AssignAction::UpdateTask {
            task_id: request.task_ids@[m],
            user_id: steps[0]->AssigneeFound_0->Some_0.id,
        }) by {
            lemma_confirmed_run_prefix(claims, request, steps, flows, entries, k, m + 1);
        }
        assert forall|m: int| 1 <= m <= k implies #[trigger] steps[m] == AssignEvent::TaskUpdated(
            true,
        ) by {
            if m < k {
                lemma_confirmed_run_prefix(claims, request, steps, flows, entries, k, m + 1);
            }
        }
    }
}

} // verus!
