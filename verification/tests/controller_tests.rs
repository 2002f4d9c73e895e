use todo_cli::control::TodoController;
use todo_cli::db::init;
use todo_cli::util::format_ymd;
use todo_cli::{AddOptions, EditOptions, ListOptions, TodoError, UuidOptions};

fn controller() -> TodoController {
    let conn = rusqlite::Connection::open_in_memory().unwrap();
    init(&conn).unwrap();
    TodoController::new(conn)
}

fn add_opts(title: &str, date: Option<&str>, time: Option<&str>) -> AddOptions {
    AddOptions {
        title: title.to_string(),
        date: date.map(|s| s.to_string()),
        time: time.map(|s| s.to_string()),
        description: None,
        url: None,
    }
}

fn list_opts(status: &str) -> ListOptions {
    ListOptions { status: status.to_string() }
}

fn edit_opts(uuid: &str) -> EditOptions {
    EditOptions {
        uuid: uuid.to_string(),
        title: None,
        date: None,
        time: None,
        description: None,
        url: None,
    }
}

#[test]
fn add_and_list_round_trip() {
    let c = controller();
    let mut opts = add_opts("Buy milk", Some("2024-12-31"), None);
    opts.description = Some("two bottles".to_string());
    opts.url = Some("https://example.test/milk".to_string());
    c.add_todo(&opts).unwrap();

    let pending = c.list_todos(&list_opts("0")).unwrap();
    assert_eq!(pending.len(), 1);
    let t = &pending[0];
    assert_eq!(t.title, "Buy milk");
    assert_eq!(t.done, 0);
    assert_eq!(t.description.as_deref(), Some("two bottles"));
    assert_eq!(t.url.as_deref(), Some("https://example.test/milk"));
    assert_eq!(format_ymd(&t.start_date.unwrap()), "2024-12-31");
    assert!(t.start_time.is_none());
    assert_eq!(t.uuid.len(), 36);
    assert_eq!(t.created_at, t.updated_at);

    let fetched = c.get(t.uuid.clone()).unwrap();
    assert_eq!(fetched.title, t.title);
    assert_eq!(fetched.uuid, t.uuid);
}

#[test]
fn fresh_uuids_differ() {
    let c = controller();
    c.add_todo(&add_opts("one", None, None)).unwrap();
    c.add_todo(&add_opts("two", None, None)).unwrap();
    let pending = c.list_todos(&list_opts("0")).unwrap();
    assert_eq!(pending.len(), 2);
    assert_ne!(pending[0].uuid, pending[1].uuid);
}

#[test]
fn done_and_undone_flip_the_listing() {
    let c = controller();
    c.add_todo(&add_opts("Task", None, None)).unwrap();
    let uuid = c.list_todos(&list_opts("0")).unwrap()[0].uuid.clone();

    c.done(&UuidOptions { uuid: uuid.clone() }).unwrap();
    assert_eq!(c.list_todos(&list_opts("0")).unwrap().len(), 0);
    let done = c.list_todos(&list_opts("1")).unwrap();
    assert_eq!(done.len(), 1);
    assert_eq!(done[0].title, "Task");

    c.undone(&UuidOptions { uuid: uuid.clone() }).unwrap();
    assert_eq!(c.list_todos(&list_opts("1")).unwrap().len(), 0);
    assert_eq!(c.list_todos(&list_opts("0")).unwrap().len(), 1);
}

#[test]
fn done_twice_is_idempotent() {
    let c = controller();
    c.add_todo(&add_opts("Task", None, None)).unwrap();
    let uuid = c.list_todos(&list_opts("0")).unwrap()[0].uuid.clone();
    c.done(&UuidOptions { uuid: uuid.clone() }).unwrap();
    c.done(&UuidOptions { uuid: uuid.clone() }).unwrap();
    assert_eq!(c.get(uuid).unwrap().done, 1);
}

#[test]
fn done_normalizes_the_uuid_spelling() {
    let c = controller();
    c.add_todo(&add_opts("Task", None, None)).unwrap();
    let uuid = c.list_todos(&list_opts("0")).unwrap()[0].uuid.clone();

    // The stored spelling is lowercase hyphenated; an uppercase spelling
    // of the same uuid must reach the same row.
    let upper = uuid.to_uppercase();
    assert_ne!(upper, uuid);
    c.done(&UuidOptions { uuid: upper }).unwrap();
    assert_eq!(c.get(uuid).unwrap().done, 1);
}

#[test]
fn done_rejects_garbage_and_misses() {
    let c = controller();
    assert_eq!(
        c.done(&UuidOptions { uuid: "not-a-uuid".to_string() }),
        Err(TodoError::InvalidUuid)
    );
    assert_eq!(
        c.done(&UuidOptions { uuid: "123e4567-e89b-12d3-a456-426614174000".to_string() }),
        Err(TodoError::NotFound)
    );
}

#[test]
fn edit_updates_title_and_keeps_description() {
    let c = controller();
    let mut opts = add_opts("Old title", None, None);
    opts.description = Some("keep me".to_string());
    c.add_todo(&opts).unwrap();
    let uuid = c.list_todos(&list_opts("0")).unwrap()[0].uuid.clone();

    let mut e = edit_opts(&uuid);
    e.title = Some("New title".to_string());
    c.edit(&e).unwrap();

    let t = c.get(uuid).unwrap();
    assert_eq!(t.title, "New title");
    assert_eq!(t.description.as_deref(), Some("keep me"));
}

#[test]
fn edit_reports_errors() {
    let c = controller();
    assert_eq!(c.edit(&edit_opts("u-404")), Err(TodoError::NotFound));

    c.add_todo(&add_opts("Task", None, None)).unwrap();
    let uuid = c.list_todos(&list_opts("0")).unwrap()[0].uuid.clone();
    let mut e = edit_opts(&uuid);
    e.date = Some("12/31/2024".to_string());
    assert_eq!(c.edit(&e), Err(TodoError::InvalidDate));
    let mut e2 = edit_opts(&uuid);
    e2.time = Some("midnight".to_string());
    assert_eq!(c.edit(&e2), Err(TodoError::InvalidTime));
    assert_eq!(c.get(uuid).unwrap().title, "Task");
}

#[test]
fn add_rejects_bad_inputs_before_writing() {
    let c = controller();
    let r = c.add_todo(&add_opts("Task", Some("2024-13-01"), None));
    assert_eq!(r, Err(TodoError::InvalidDate));
    let r = c.add_todo(&add_opts("Task", None, Some("25:00:00")));
    assert_eq!(r, Err(TodoError::InvalidTime));
    assert_eq!(c.list_todos(&list_opts("0")).unwrap().len(), 0);
}

#[test]
fn edit_reports_not_found_before_input_errors() {
    let c = controller();
    let mut e = edit_opts("u-404");
    e.date = Some("2024-13-01".to_string());
    assert_eq!(c.edit(&e), Err(TodoError::NotFound));
}

#[test]
fn list_rejects_other_status_strings() {
    let c = controller();
    assert_eq!(c.list_todos(&list_opts("2")).err(), Some(TodoError::InvalidStatus));
    assert_eq!(c.list_todos(&list_opts("")).err(), Some(TodoError::InvalidStatus));
    assert_eq!(c.list_todos(&list_opts("pending")).err(), Some(TodoError::InvalidStatus));
}

#[test]
fn listing_from_storage_is_sorted_by_creation() {
    let c = controller();
    c.add_todo(&add_opts("a", None, None)).unwrap();
    c.add_todo(&add_opts("b", None, None)).unwrap();
    c.add_todo(&add_opts("c", None, None)).unwrap();
    let pending = c.list_todos(&list_opts("0")).unwrap();
    assert_eq!(pending.len(), 3);
    for w in pending.windows(2) {
        assert!(w[0].created_at.le(&w[1].created_at));
    }
}

#[test]
fn app_paths_are_under_the_home_directory() {
    assert_eq!(todo_cli::app_dir::app_dir_in("/home/someone"), "/home/someone/.todo");
    assert_eq!(
        todo_cli::app_dir::app_db_path_in("/home/someone"),
        "/home/someone/.todo/todo.db"
    );
    if let Some(p) = todo_cli::app_dir::get_app_db_path() {
        assert!(p.ends_with("/.todo/todo.db"));
    }
}
