use todo_cli::model::Todo;
use todo_cli::store::TodoStore;
use todo_cli::util::{format_ymd, DateTime};
use todo_cli::{AddOptions, EditOptions, TodoError};

fn dt(year: u32, month: u32, day: u32, hour: u32, minute: u32, second: u32) -> DateTime {
    DateTime { year, month, day, hour, minute, second }
}

fn add_opts(title: &str, date: Option<&str>, time: Option<&str>) -> AddOptions {
    AddOptions {
        title: title.to_string(),
        date: date.map(|s| s.to_string()),
        time: time.map(|s| s.to_string()),
        description: None,
        url: None,
    }
}

fn edit_opts(uuid: &str) -> EditOptions {
    EditOptions {
        uuid: uuid.to_string(),
        title: None,
        date: None,
        time: None,
        description: None,
        url: None,
    }
}

#[test]
fn add_with_date_lists_pending_row() {
    let mut store = TodoStore::new();
    let now = dt(2026, 10, 12, 9, 0, 0);
    store.add(&add_opts("Buy milk", Some("2024-12-31"), None), "u-1".to_string(), now).unwrap();

    let pending: Vec<Todo> = store.list(0);
    assert_eq!(pending.len(), 1);
    assert_eq!(pending[0].title, "Buy milk");
    assert_eq!(pending[0].done, 0);
    let start = pending[0].start_date.expect("start date was supplied");
    assert_eq!(format_ymd(&start), "2024-12-31");
    assert!(pending[0].start_time.is_none());
}

#[test]
fn add_then_done_moves_between_listings() {
    let mut store = TodoStore::new();
    let now = dt(2026, 10, 12, 9, 0, 0);
    store.add(&add_opts("Task", None, None), "u-1".to_string(), now).unwrap();
    let uuid = store.list(0)[0].uuid.clone();

    store.set_done(&uuid, 1, dt(2026, 10, 12, 9, 5, 0)).unwrap();
    assert_eq!(store.list(0).len(), 0);
    let done = store.list(1);
    assert_eq!(done.len(), 1);
    assert_eq!(done[0].title, "Task");
}

#[test]
fn mark_done_twice_stays_done() {
    let mut store = TodoStore::new();
    let now = dt(2026, 10, 12, 9, 0, 0);
    store.add(&add_opts("Task", None, None), "u-1".to_string(), now).unwrap();

    store.set_done("u-1", 1, dt(2026, 10, 12, 9, 1, 0)).unwrap();
    store.set_done("u-1", 1, dt(2026, 10, 12, 9, 2, 0)).unwrap();
    assert_eq!(store.get_by_uuid("u-1").unwrap().done, 1);

    store.set_done("u-1", 0, dt(2026, 10, 12, 9, 3, 0)).unwrap();
    store.set_done("u-1", 0, dt(2026, 10, 12, 9, 4, 0)).unwrap();
    assert_eq!(store.get_by_uuid("u-1").unwrap().done, 0);
}

#[test]
fn edit_without_fields_changes_only_updated_at() {
    let mut store = TodoStore::new();
    let created = dt(2026, 10, 12, 9, 0, 0);
    let mut opts = add_opts("Task", Some("2024-12-31"), Some("10:00:00"));
    opts.description = Some("notes".to_string());
    opts.url = Some("https://example.test".to_string());
    store.add(&opts, "u-1".to_string(), created).unwrap();
    let before = store.get_by_uuid("u-1").unwrap();

    let later = dt(2026, 10, 12, 10, 0, 0);
    store.edit(&edit_opts("u-1"), later).unwrap();
    let after = store.get_by_uuid("u-1").unwrap();

    assert_eq!(after.updated_at, later);
    assert_eq!(after.id, before.id);
    assert_eq!(after.uuid, before.uuid);
    assert_eq!(after.created_at, before.created_at);
    assert_eq!(after.done, before.done);
    assert_eq!(after.title, before.title);
    assert_eq!(after.start_date, before.start_date);
    assert_eq!(after.start_time, before.start_time);
    assert_eq!(after.description, before.description);
    assert_eq!(after.url, before.url);
}

#[test]
fn edit_title_keeps_description() {
    let mut store = TodoStore::new();
    let now = dt(2026, 10, 12, 9, 0, 0);
    let mut opts = add_opts("Old title", None, None);
    opts.description = Some("keep me".to_string());
    store.add(&opts, "u-1".to_string(), now).unwrap();

    let mut e = edit_opts("u-1");
    e.title = Some("New title".to_string());
    store.edit(&e, dt(2026, 10, 12, 9, 30, 0)).unwrap();

    let t = store.get_by_uuid("u-1").unwrap();
    assert_eq!(t.title, "New title");
    assert_eq!(t.description.as_deref(), Some("keep me"));
}

#[test]
fn edit_rejects_malformed_date_and_changes_nothing() {
    let mut store = TodoStore::new();
    let now = dt(2026, 10, 12, 9, 0, 0);
    store.add(&add_opts("Task", None, None), "u-1".to_string(), now).unwrap();
    let before = store.get_by_uuid("u-1").unwrap();

    let mut e = edit_opts("u-1");
    e.date = Some("31-12-2024".to_string());
    assert_eq!(store.edit(&e, dt(2026, 10, 12, 9, 30, 0)), Err(TodoError::InvalidDate));
    let after = store.get_by_uuid("u-1").unwrap();
    assert_eq!(after.updated_at, before.updated_at);
    assert_eq!(after.title, before.title);
}

#[test]
fn listing_is_sorted_by_creation_time() {
    let mut store = TodoStore::new();
    store.add(&add_opts("second", None, None), "u-2".to_string(), dt(2026, 5, 1, 0, 0, 0))
        .unwrap();
    store.add(&add_opts("third", None, None), "u-3".to_string(), dt(2026, 5, 1, 0, 0, 1))
        .unwrap();
    store.add(&add_opts("first", None, None), "u-1".to_string(), dt(2025, 12, 31, 23, 59, 59))
        .unwrap();

    let pending = store.list(0);
    let titles: Vec<&str> = pending.iter().map(|t| t.title.as_str()).collect();
    assert_eq!(titles, vec!["first", "second", "third"]);
}

#[test]
fn lookup_of_unknown_uuid_is_not_found() {
    let store = TodoStore::new();
    assert_eq!(store.get_by_uuid("u-404").err(), Some(TodoError::NotFound));
    let mut store = store;
    assert_eq!(
        store.set_done("u-404", 1, dt(2026, 10, 12, 9, 0, 0)),
        Err(TodoError::NotFound)
    );
    assert_eq!(
        store.edit(&edit_opts("u-404"), dt(2026, 10, 12, 9, 0, 0)),
        Err(TodoError::NotFound)
    );
}

#[test]
fn duplicate_uuid_is_refused() {
    let mut store = TodoStore::new();
    let now = dt(2026, 10, 12, 9, 0, 0);
    store.add(&add_opts("one", None, None), "u-1".to_string(), now).unwrap();
    assert_eq!(
        store.add(&add_opts("two", None, None), "u-1".to_string(), now),
        Err(TodoError::Storage)
    );
    assert_eq!(store.list(0).len(), 1);
}

#[test]
fn add_rejects_malformed_inputs() {
    let mut store = TodoStore::new();
    let now = dt(2026, 10, 12, 9, 0, 0);
    assert_eq!(
        store.add(&add_opts("t", Some("2024-02-30"), None), "u-1".to_string(), now),
        Err(TodoError::InvalidDate)
    );
    assert_eq!(
        store.add(&add_opts("t", None, Some("25:00:00")), "u-1".to_string(), now),
        Err(TodoError::InvalidTime)
    );
    assert_eq!(store.list(0).len(), 0);
}
