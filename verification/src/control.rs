use vstd::prelude::*;

use crate::db::{db_insert_row, db_select_all, db_update_done, db_update_row};
use crate::model::{make_todo, merge_todo, row_to_todo, todo_to_row, Todo};
use crate::store::{filter_and_sort, sorted_by_created};
use crate::util::{
    check_date_str, check_time_str, combine, format_rfc3339, now_utc, str_eq, valid_date_str,
    valid_time_str,
};
use crate::{AddOptions, EditOptions, ListOptions, TodoError, UuidOptions};

verus! {

/// The canonical rendering of a uuid string: `None` when the string is
/// not a uuid in any of the textual forms the uuid crate accepts, else
/// the hyphenated lowercase form. A function of the characters alone.
pub uninterp spec fn uuid_canon(s: Seq<char>) -> Option<Seq<char>>;

/// Relies on uuid::Uuid::parse_str and the hyphenated `Display`
/// rendering: parsing accepts the crate's documented textual uuid forms,
/// the rendering is the canonical 36-character hyphenated form, and both
/// depend on the input characters alone.
#[verifier::external_body]
fn normalize_uuid(s: &str) -> (r: Option<String>)
    ensures
        r.deep_view() == uuid_canon(s@),
        r matches Some(u) ==> u@.len() == 36,
{
    match uuid::Uuid::parse_str(s) {
        Ok(u) => Some(u.to_string()),
        Err(_) => None,
    }
}

/// Relies on uuid::Uuid::new_v4 and the hyphenated `Display` rendering:
/// a freshly generated random uuid, rendered as 36 hyphenated characters.
/// Nothing else can be promised of a random value.
#[verifier::external_body]
fn new_uuid() -> (r: String)
    ensures
        r@.len() == 36,
{
    uuid::Uuid::new_v4().to_string()
}

/// The input-validation error an add or edit with these date and time
/// inputs must report, if any: a malformed date first, then a malformed
/// time.
pub open spec fn spec_input_err(
    date: Option<Seq<char>>,
    time: Option<Seq<char>>,
) -> Option<TodoError> {
    if date matches Some(d) && !valid_date_str(d) {
        Some(TodoError::InvalidDate)
    } else if time matches Some(t) && !valid_time_str(t) {
        Some(TodoError::InvalidTime)
    } else {
        None
    }
}

/// The repository: every command's database work goes through here, one
/// connection per process handed in by the caller.
pub struct TodoController {
    conn: rusqlite::Connection,
}

impl TodoController {
    pub fn new(conn: rusqlite::Connection) -> (c: TodoController) {
        TodoController { conn }
    }

    /// Create a todo from the given fields: a fresh uuid, both record
    /// timestamps stamped from the clock, the start date and time
    /// combined by the documented policy and stored exactly when the
    /// corresponding input was supplied.
    ///
    /// A malformed date or time input is reported as exactly its own
    /// error, before the clock is read; with well-formed inputs the
    /// outcome rests only with the clock (`Clock`) and the database
    /// (`Storage`).
    pub fn add_todo(&self, options: &AddOptions) -> (r: Result<(), TodoError>)
        requires
            options.title@.len() > 0,
        ensures
            match spec_input_err(options.date.deep_view(), options.time.deep_view()) {
                Some(e) => r == Err::<(), TodoError>(e),
                None => r is Ok || r == Err::<(), TodoError>(TodoError::Clock) || r == Err::<
                    (),
                    TodoError,
                >(TodoError::Storage),
            },
    {
        match &options.date {
            Some(d) => {
                if !check_date_str(d.as_str()) {
                    return Err(TodoError::InvalidDate);
                }
            },
            None => {},
        }
        match &options.time {
            Some(t) => {
                if !check_time_str(t.as_str()) {
                    return Err(TodoError::InvalidTime);
                }
            },
            None => {},
        }
        let now = now_utc();
        if !now.check_valid() {
            return Err(TodoError::Clock);
        }
        let start = match combine(&options.date, &options.time, now) {
            Ok(s) => s,
            Err(e) => {
                return Err(e);
            },
        };
        let uuid = new_uuid();
        let todo = make_todo(options, uuid, now, start);
        let row = todo_to_row(&todo);
        match db_insert_row(&self.conn, &row) {
            Ok(_) => Ok(()),
            Err(_) => Err(TodoError::Storage),
        }
    }

    /// Mark the todo with the given uuid done.
    ///
    /// A string that is no uuid is reported as `InvalidUuid`, exactly
    /// when the uuid crate cannot parse it; every other failure is
    /// `NotFound`, `Clock` or `Storage`.
    pub fn done(&self, options: &UuidOptions) -> (r: Result<(), TodoError>)
        ensures
            r == Err::<(), TodoError>(TodoError::InvalidUuid) <==> uuid_canon(
                options.uuid@,
            ) is None,
            r is Err ==> r == Err::<(), TodoError>(TodoError::InvalidUuid) || r == Err::<
                (),
                TodoError,
            >(TodoError::NotFound) || r == Err::<(), TodoError>(TodoError::Clock) || r == Err::<
                (),
                TodoError,
            >(TodoError::Storage),
    {
        self.set_done(options, 1)
    }

    /// Mark the todo with the given uuid pending again.
    pub fn undone(&self, options: &UuidOptions) -> (r: Result<(), TodoError>)
        ensures
            r == Err::<(), TodoError>(TodoError::InvalidUuid) <==> uuid_canon(
                options.uuid@,
            ) is None,
            r is Err ==> r == Err::<(), TodoError>(TodoError::InvalidUuid) || r == Err::<
                (),
                TodoError,
            >(TodoError::NotFound) || r == Err::<(), TodoError>(TodoError::Clock) || r == Err::<
                (),
                TodoError,
            >(TodoError::Storage),
    {
        self.set_done(options, 0)
    }

    /// Decide a mutation's outcome from how many rows the executed
    /// statement changed: no changed row means no stored todo carried
    /// the uuid.
    fn outcome_of_change_count(n: usize) -> (r: Result<(), TodoError>)
        ensures
            n == 0 ==> r == Err::<(), TodoError>(TodoError::NotFound),
            n > 0 ==> r is Ok,
    {
        if n == 0 {
            Err(TodoError::NotFound)
        } else {
            Ok(())
        }
    }

    /// Set the completion state of the todo with the given uuid, and
    /// refresh its update timestamp. `NotFound` when no stored row
    /// matched.
    fn set_done(&self, options: &UuidOptions, value: i64) -> (r: Result<(), TodoError>)
        requires
            value == 0 || value == 1,
        ensures
            r == Err::<(), TodoError>(TodoError::InvalidUuid) <==> uuid_canon(
                options.uuid@,
            ) is None,
            r is Err ==> r == Err::<(), TodoError>(TodoError::InvalidUuid) || r == Err::<
                (),
                TodoError,
            >(TodoError::NotFound) || r == Err::<(), TodoError>(TodoError::Clock) || r == Err::<
                (),
                TodoError,
            >(TodoError::Storage),
    {
        let canon = match normalize_uuid(options.uuid.as_str()) {
            Some(u) => u,
            None => {
                return Err(TodoError::InvalidUuid);
            },
        };
        let now = now_utc();
        if !now.check_valid() {
            return Err(TodoError::Clock);
        }
        let stamp = format_rfc3339(&now);
        match db_update_done(&self.conn, canon.as_str(), value, stamp.as_str()) {
            Ok(n) => Self::outcome_of_change_count(n),
            Err(_) => Err(TodoError::Storage),
        }
    }

    /// All stored todos with the requested status (`"0"` pending, `"1"`
    /// done), oldest first: every returned record has exactly that
    /// status, is well-formed, and the sequence is sorted ascending by
    /// creation timestamp. Any other status string is `InvalidStatus`; a
    /// row that does not parse back is `Storage`.
    pub fn list_todos(&self, options: &ListOptions) -> (r: Result<Vec<Todo>, TodoError>)
        ensures
            r == Err::<Vec<Todo>, TodoError>(TodoError::InvalidStatus) <==> !(options.status@
                == "0"@ || options.status@ == "1"@),
            r is Err ==> r == Err::<Vec<Todo>, TodoError>(TodoError::InvalidStatus) || r == Err::<
                Vec<Todo>,
                TodoError,
            >(TodoError::Storage),
            r matches Ok(v) ==> sorted_by_created(v.deep_view()),
            r matches Ok(v) ==> forall|i: int|
                0 <= i < v.deep_view().len() ==> (#[trigger] v.deep_view()[i]).wf(),
            r matches Ok(v) ==> (options.status@ == "0"@ ==> forall|i: int|
                0 <= i < v.deep_view().len() ==> (#[trigger] v.deep_view()[i]).done == 0),
            r matches Ok(v) ==> (options.status@ == "1"@ ==> forall|i: int|
                0 <= i < v.deep_view().len() ==> (#[trigger] v.deep_view()[i]).done == 1),
    {
        let status: i64 = if str_eq(options.status.as_str(), "0") {
            0
        } else if str_eq(options.status.as_str(), "1") {
            1
        } else {
            return Err(TodoError::InvalidStatus);
        };
        let rows = match db_select_all(&self.conn) {
            Ok(r) => r,
            Err(_) => {
                return Err(TodoError::Storage);
            },
        };
        let mut todos: Vec<Todo> = Vec::new();
        let mut i: usize = 0;
        while i < rows.len()
            invariant
                i <= rows@.len(),
                status == 0 ==> options.status@ == "0"@,
                status == 1 ==> options.status@ == "1"@,
                status == 0 || status == 1,
                forall|j: int|
                    0 <= j < todos.deep_view().len() ==> (#[trigger] todos.deep_view()[j]).wf(),
            decreases rows@.len() - i,
        {
            let ghost pre = todos.deep_view();
            let t = match row_to_todo(&rows[i]) {
                Ok(t) => t,
                Err(_) => {
                    return Err(TodoError::Storage);
                },
            };
            todos.push(t);
            proof {
                assert(todos.deep_view() =~= pre.push(t@));
            }
            i += 1;
        }
        proof {
            reveal_strlit("0");
            reveal_strlit("1");
            assert("0"@[0] == '0');
            assert("1"@[0] == '1');
            assert("0"@ != "1"@);
        }
        Ok(filter_and_sort(&todos, status))
    }

    /// Exact-match lookup of a stored todo by its uuid string.
    /// `NotFound` when no stored row carries it; a matching row that does
    /// not parse back is `Storage`.
    pub fn get(&self, uuid: String) -> (r: Result<Todo, TodoError>)
        ensures
            r matches Ok(t) ==> t@.uuid == uuid@ && t@.wf(),
            r is Err ==> r == Err::<Todo, TodoError>(TodoError::NotFound) || r == Err::<
                Todo,
                TodoError,
            >(TodoError::Storage),
    {
        let rows = match db_select_all(&self.conn) {
            Ok(r) => r,
            Err(_) => {
                return Err(TodoError::Storage);
            },
        };
        let mut i: usize = 0;
        while i < rows.len()
            invariant
                i <= rows@.len(),
            decreases rows@.len() - i,
        {
            if str_eq(rows[i].uuid.as_str(), uuid.as_str()) {
                let t = row_to_todo(&rows[i])?;
                return Ok(t);
            }
            i += 1;
        }
        Err(TodoError::NotFound)
    }

    /// Apply a partial update to the todo with the given uuid: supplied
    /// fields replace the stored ones, absent fields keep their previous
    /// values, and the update timestamp is refreshed.
    ///
    /// The stored row is fetched first, so an unknown uuid is `NotFound`
    /// before any input is looked at; after that a malformed date or
    /// time reports exactly its own error, before the clock is read, and
    /// nothing is written. With a found row and well-formed inputs the
    /// outcome rests only with the clock and the database.
    pub fn edit(&self, options: &EditOptions) -> (r: Result<(), TodoError>)
        ensures
            match spec_input_err(options.date.deep_view(), options.time.deep_view()) {
                Some(e) => r == Err::<(), TodoError>(e) || r == Err::<(), TodoError>(
                    TodoError::NotFound,
                ) || r == Err::<(), TodoError>(TodoError::Storage),
                None => r is Ok || r == Err::<(), TodoError>(TodoError::NotFound) || r == Err::<
                    (),
                    TodoError,
                >(TodoError::Storage) || r == Err::<(), TodoError>(TodoError::Clock),
            },
    {
        let prev = match self.get(options.uuid.clone()) {
            Ok(t) => t,
            Err(e) => {
                return Err(e);
            },
        };
        match &options.date {
            Some(d) => {
                if !check_date_str(d.as_str()) {
                    return Err(TodoError::InvalidDate);
                }
            },
            None => {},
        }
        match &options.time {
            Some(t) => {
                if !check_time_str(t.as_str()) {
                    return Err(TodoError::InvalidTime);
                }
            },
            None => {},
        }
        let now = now_utc();
        if !now.check_valid() {
            return Err(TodoError::Clock);
        }
        let start = match combine(&options.date, &options.time, now) {
            Ok(s) => s,
            Err(e) => {
                return Err(e);
            },
        };
        let merged = merge_todo(&prev, options, start, now);
        let row = todo_to_row(&merged);
        match db_update_row(&self.conn, &row) {
            Ok(_) => Ok(()),
            Err(_) => Err(TodoError::Storage),
        }
    }
}

} // verus!
