use taskhub::auth::jwt::Claims;
use taskhub::cache::task_cache::{
    clear_all, get_user_tasks, invalidate_user_tasks, new_task_cache, set_user_tasks,
};
use taskhub::handlers::tasks::{
    assign_tasks, assign_tasks_step, create_task, create_task_outcome, is_admin, view_my_tasks,
    view_my_tasks_finish, AssignAction, AssignEvent, AssignTasksRequest, AssignedTask, Assignee,
    CreateTaskRefusal, CreateTaskRequest, TaskListResponse, TaskView,
};
use taskhub::status::Status;

const ADMIN: u128 = 0x1111_1111_1111_4111_8111_1111_1111_1111;
const STAFF: u128 = 0x2222_2222_2222_4222_8222_2222_2222_2222;
const STAFF_TEXT: &str = "22222222-2222-4222-8222-222222222222";

fn claims(sub: &str, email: &str, role: &str) -> Claims {
    Claims { sub: sub.to_string(), email: email.to_string(), role: role.to_string(), exp: 0 }
}

fn listing(email: &str, n: usize) -> TaskListResponse {
    TaskListResponse {
        user_email: email.to_string(),
        user_role: "staff".to_string(),
        tasks: Vec::new(),
        total_assigned_tasks: n,
        cache_hit: false,
    }
}

#[test]
fn cache_reads_back_what_was_stored() {
    let mut cache = new_task_cache();
    assert!(get_user_tasks(&cache, "u1").is_none());
    set_user_tasks(&mut cache, "u1".to_string(), listing("a", 1));
    set_user_tasks(&mut cache, "u2".to_string(), listing("b", 2));
    assert_eq!(get_user_tasks(&cache, "u1").unwrap().total_assigned_tasks, 1);
    set_user_tasks(&mut cache, "u1".to_string(), listing("a", 3));
    assert_eq!(get_user_tasks(&cache, "u1").unwrap().total_assigned_tasks, 3);
    assert_eq!(get_user_tasks(&cache, "u2").unwrap().user_email, "b");
}

#[test]
fn cache_invalidation_and_clearing() {
    let mut cache = new_task_cache();
    set_user_tasks(&mut cache, "u1".to_string(), listing("a", 1));
    set_user_tasks(&mut cache, "u2".to_string(), listing("b", 2));
    invalidate_user_tasks(&mut cache, "u1");
    assert!(get_user_tasks(&cache, "u1").is_none());
    assert!(get_user_tasks(&cache, "u2").is_some());
    invalidate_user_tasks(&mut cache, "absent");
    clear_all(&mut cache);
    assert!(get_user_tasks(&cache, "u2").is_none());
}

#[test]
fn only_admins_are_admins() {
    assert!(is_admin(&claims("x", "x", "admin")));
    assert!(!is_admin(&claims("x", "x", "staff")));
    assert!(!is_admin(&claims("x", "x", "Admin")));
}

#[test]
fn create_task_checks_role_then_subject() {
    let req = CreateTaskRequest {
        title: "t".to_string(),
        description: "d".to_string(),
        priority: "high".to_string(),
    };
    let r = create_task(&claims("not-a-uuid", "x", "staff"), req.clone());
    assert_eq!(r.unwrap_err(), CreateTaskRefusal::Forbidden);
    let r = create_task(&claims("not-a-uuid", "x", "admin"), req.clone());
    assert_eq!(r.unwrap_err(), CreateTaskRefusal::MalformedSubject);
    let admin_sub = "11111111-1111-4111-8111-111111111111";
    let t = create_task(&claims(admin_sub, "x", "admin"), req).unwrap();
    assert_eq!(t.title, "t");
    assert_eq!(t.description, "d");
    assert_eq!(t.priority, "high");
    assert_eq!(t.status, "todo");
    assert_eq!(t.created_by, ADMIN);
}

#[test]
fn create_task_outcome_reports_storage() {
    let ok = create_task_outcome(7, true).unwrap();
    assert_eq!(ok.message, "task created");
    assert_eq!(ok.task_id, 7);
    assert_eq!(create_task_outcome(7, false).unwrap_err(), Status::InternalServerError);
}

#[test]
fn assign_refused_to_non_admins() {
    let req = AssignTasksRequest { task_ids: vec![1, 2], assigned_to_email: "s@x".to_string() };
    let (_, action) = assign_tasks(&claims("x", "x", "staff"), req);
    assert!(matches!(action, AssignAction::Respond(Err(Status::Forbidden))));
}

#[test]
fn assign_updates_each_task_then_forgets_the_listing() {
    let mut cache = new_task_cache();
    set_user_tasks(&mut cache, STAFF_TEXT.to_string(), listing("s@x", 0));
    set_user_tasks(&mut cache, "other".to_string(), listing("o@x", 0));
    let req = AssignTasksRequest { task_ids: vec![10, 20], assigned_to_email: "s@x".to_string() };
    let (flow, action) = assign_tasks(&claims("x", "x", "admin"), req);
    assert!(matches!(action, AssignAction::FindAssignee(ref e) if e == "s@x"));
    let assignee = Assignee { id: STAFF, email: "s@x".to_string() };
    let (flow, action) = assign_tasks_step(flow, AssignEvent::AssigneeFound(Some(assignee)), &mut cache);
    assert!(matches!(action, AssignAction::UpdateTask { task_id: 10, user_id: STAFF }));
    let (flow, action) = assign_tasks_step(flow, AssignEvent::TaskUpdated(true), &mut cache);
    assert!(matches!(action, AssignAction::UpdateTask { task_id: 20, user_id: STAFF }));
    assert!(get_user_tasks(&cache, STAFF_TEXT).is_some());
    let (_, action) = assign_tasks_step(flow, AssignEvent::TaskUpdated(true), &mut cache);
    match action {
        AssignAction::Respond(Ok(resp)) => {
            assert_eq!(resp.message, "tasks assigned");
            assert_eq!(resp.assigned_to, "s@x");
            assert_eq!(resp.count, 2);
        }
        other => panic!("unexpected {:?}", other),
    }
    assert!(get_user_tasks(&cache, STAFF_TEXT).is_none());
    assert!(get_user_tasks(&cache, "other").is_some());
}

#[test]
fn assign_errors() {
    let mut cache = new_task_cache();
    let req = AssignTasksRequest { task_ids: vec![10], assigned_to_email: "s@x".to_string() };
    let (flow, _) = assign_tasks(&claims("x", "x", "admin"), req.clone());
    let (_, action) = assign_tasks_step(flow, AssignEvent::AssigneeFound(None), &mut cache);
    assert!(matches!(action, AssignAction::Respond(Err(Status::NotFound))));
    let (flow, _) = assign_tasks(&claims("x", "x", "admin"), req.clone());
    let assignee = Assignee { id: STAFF, email: "s@x".to_string() };
    let (flow, _) = assign_tasks_step(flow, AssignEvent::AssigneeFound(Some(assignee)), &mut cache);
    let (_, action) = assign_tasks_step(flow, AssignEvent::TaskUpdated(false), &mut cache);
    assert!(matches!(action, AssignAction::Respond(Err(Status::InternalServerError))));
    let (flow, _) = assign_tasks(&claims("x", "x", "admin"), req);
    let (_, action) = assign_tasks_step(flow, AssignEvent::TaskUpdated(true), &mut cache);
    assert!(matches!(action, AssignAction::Respond(Err(Status::InternalServerError))));
}

#[test]
fn assign_of_no_tasks_answers_at_once() {
    let mut cache = new_task_cache();
    set_user_tasks(&mut cache, STAFF_TEXT.to_string(), listing("s@x", 0));
    let req = AssignTasksRequest { task_ids: vec![], assigned_to_email: "s@x".to_string() };
    let (flow, _) = assign_tasks(&claims("x", "x", "admin"), req);
    let assignee = Assignee { id: STAFF, email: "s@x".to_string() };
    let (_, action) = assign_tasks_step(flow, AssignEvent::AssigneeFound(Some(assignee)), &mut cache);
    assert!(matches!(action, AssignAction::Respond(Ok(ref r)) if r.count == 0));
    assert!(get_user_tasks(&cache, STAFF_TEXT).is_none());
}

fn row(id: u128, title: &str) -> AssignedTask {
    AssignedTask {
        id,
        title: title.to_string(),
        status: "todo".to_string(),
        priority: "low".to_string(),
        email: "s@x".to_string(),
    }
}

#[test]
fn second_view_is_served_from_the_cache() {
    let mut cache = new_task_cache();
    let me = claims(STAFF_TEXT, "s@x", "staff");
    match view_my_tasks(&cache, &me) {
        TaskView::Fetch(id) => assert_eq!(id, STAFF),
        other => panic!("unexpected {:?}", other),
    }
    let first = view_my_tasks_finish(&mut cache, &me, Some(vec![row(1, "a"), row(2, "b")])).unwrap();
    assert!(!first.cache_hit);
    assert_eq!(first.total_assigned_tasks, 2);
    assert_eq!(first.user_email, "s@x");
    assert_eq!(first.user_role, "staff");
    assert_eq!(first.tasks[1].title, "b");
    assert_eq!(first.tasks[0].assigned_to, "s@x");
    match view_my_tasks(&cache, &me) {
        TaskView::Cached(l) => {
            assert!(l.cache_hit);
            assert_eq!(l.total_assigned_tasks, 2);
            assert_eq!(l.tasks[0].id, 1);
        }
        other => panic!("unexpected {:?}", other),
    }
    assert!(!get_user_tasks(&cache, STAFF_TEXT).unwrap().cache_hit);
}

#[test]
fn failed_read_is_not_cached() {
    let mut cache = new_task_cache();
    let me = claims(STAFF_TEXT, "s@x", "staff");
    assert_eq!(view_my_tasks_finish(&mut cache, &me, None).unwrap_err(), Status::InternalServerError);
    assert!(get_user_tasks(&cache, STAFF_TEXT).is_none());
}

#[test]
fn malformed_subject_is_reported() {
    let cache = new_task_cache();
    assert!(matches!(view_my_tasks(&cache, &claims("zzz", "s@x", "staff")), TaskView::MalformedSubject));
}
