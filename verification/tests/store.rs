use task_tracker::repository::{RepositoryError, TaskRepository};
use task_tracker::service::TaskService;
use task_tracker::task::{NewTask, Task};

fn unsaved(title: &str) -> Task {
    Task::new_unsaved(title.to_string())
}

#[test]
fn create_sets_defaults() {
    let mut service = TaskService::new(TaskRepository::new());
    let t = service.create_task("buy milk").unwrap();
    assert_eq!(t.id, 1);
    assert_eq!(t.title, "buy milk");
    assert!(!t.done);
    assert_eq!(t.created_at, t.updated_at);
}

#[test]
fn create_assigns_fresh_ids() {
    let mut service = TaskService::new(TaskRepository::new());
    let a = service.create_task("a").unwrap();
    let b = service.create_task("b").unwrap();
    let c = service.create_task("c").unwrap();
    assert_ne!(a.id, b.id);
    assert_ne!(b.id, c.id);
    assert_ne!(a.id, c.id);
    assert_eq!((a.id, b.id, c.id), (1, 2, 3));
}

#[test]
fn create_accepts_empty_title() {
    let mut service = TaskService::new(TaskRepository::new());
    let t = service.create_task("").unwrap();
    assert_eq!(t.title, "");
    assert_eq!(t.id, 1);
}

#[test]
fn mark_done_on_missing_id_is_not_found() {
    let mut service = TaskService::new(TaskRepository::new());
    assert!(service.mark_done(7).is_none());
}

#[test]
fn mark_done_sets_done_and_advances_stamp() {
    let mut service = TaskService::new(TaskRepository::new());
    let repo = &mut service.repository;
    let t = repo.save(unsaved("a"), 100).unwrap();
    assert!(!t.done);
    let u = service.mark_done(t.id).unwrap();
    assert!(u.done);
    assert_eq!(u.id, t.id);
    assert_eq!(u.title, "a");
    assert_eq!(u.created_at, 100);
    assert!(u.updated_at >= t.updated_at);
}

#[test]
fn mark_done_twice_is_idempotent_on_done() {
    let mut service = TaskService::new(TaskRepository::new());
    let t = service.create_task("a").unwrap();
    let first = service.mark_done(t.id).unwrap();
    let second = service.mark_done(t.id).unwrap();
    assert!(first.done);
    assert!(second.done);
    assert_eq!(second.title, first.title);
    assert_eq!(second.created_at, first.created_at);
}

#[test]
fn rename_replaces_only_the_title() {
    let mut service = TaskService::new(TaskRepository::new());
    let t = service.repository.save(unsaved("old name"), 100).unwrap();
    let u = service.rename_task(t.id, "new name".to_string()).unwrap();
    assert_eq!(u.id, t.id);
    assert_eq!(u.title, "new name");
    assert_eq!(u.done, t.done);
    assert_eq!(u.created_at, t.created_at);
    assert!(u.updated_at >= t.updated_at);
}

#[test]
fn rename_on_missing_id_is_not_found() {
    let mut service = TaskService::new(TaskRepository::new());
    assert!(service.rename_task(1, "x".to_string()).is_none());
}

#[test]
fn get_task_round_trips_every_field() {
    let mut service = TaskService::new(TaskRepository::new());
    let t = service.create_task("roundtrip").unwrap();
    let g = service.get_task(t.id).unwrap();
    assert_eq!(g.id, t.id);
    assert_eq!(g.title, t.title);
    assert_eq!(g.done, t.done);
    assert_eq!(g.created_at, t.created_at);
    assert_eq!(g.updated_at, t.updated_at);
}

#[test]
fn get_task_on_missing_id_is_not_found() {
    let service = TaskService::new(TaskRepository::new());
    assert!(service.get_task(1).is_none());
}

#[test]
fn list_tasks_returns_all_in_insertion_order() {
    let mut service = TaskService::new(TaskRepository::new());
    service.create_task("a").unwrap();
    service.create_task("b").unwrap();
    service.create_task("c").unwrap();
    let all = service.list_tasks();
    let titles: Vec<&str> = all.iter().map(|t| t.title.as_str()).collect();
    assert_eq!(titles, vec!["a", "b", "c"]);
    let ids: Vec<i64> = all.iter().map(|t| t.id).collect();
    assert_eq!(ids, vec![1, 2, 3]);
}

#[test]
fn list_tasks_on_empty_store_is_empty() {
    let service = TaskService::new(TaskRepository::new());
    assert!(service.list_tasks().is_empty());
}

#[test]
fn save_insert_stamps_both_timestamps() {
    let mut repo = TaskRepository::new();
    let t = repo.save(unsaved("a"), 42).unwrap();
    assert_eq!(t.created_at, 42);
    assert_eq!(t.updated_at, 42);
    assert_eq!(t.id, 1);
}

#[test]
fn save_insert_keeps_the_done_flag() {
    let mut repo = TaskRepository::new();
    let mut task = unsaved("already finished");
    task.done = true;
    let t = repo.save(task, 1).unwrap();
    assert!(t.done);
}

#[test]
fn save_update_keeps_created_at_and_restamps_updated_at() {
    let mut repo = TaskRepository::new();
    let t = repo.save(unsaved("a"), 100).unwrap();
    let mut changed = t;
    changed.title = "b".to_string();
    let u = repo.save(changed, 250).unwrap();
    assert_eq!(u.id, 1);
    assert_eq!(u.title, "b");
    assert_eq!(u.created_at, 100);
    assert_eq!(u.updated_at, 250);
}

#[test]
fn save_update_on_missing_id_is_not_found() {
    let mut repo = TaskRepository::new();
    let mut stray = unsaved("stray");
    stray.id = 5;
    assert!(matches!(repo.save(stray, 1), Err(RepositoryError::NotFound)));
}

#[test]
fn save_insert_fails_when_ids_are_exhausted() {
    let mut repo = TaskRepository {
        tasks: Vec::new(),
        next_id: i64::MAX,
    };
    assert!(matches!(repo.save(unsaved("a"), 1), Err(RepositoryError::IdExhausted)));
}

#[test]
fn new_task_carries_a_title() {
    let payload = NewTask {
        title: "from the wire".to_string(),
    };
    let mut service = TaskService::new(TaskRepository::new());
    let t = service.create_task(payload.title.as_str()).unwrap();
    assert_eq!(t.title, "from the wire");
}
