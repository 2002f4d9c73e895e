use vstd::prelude::*;

use crate::util::{
    rfc3339_dt, spec_fmt_rfc3339, valid_rfc3339_str, format_rfc3339, parse_rfc3339, DateTime,
};
use crate::{AddOptions, EditOptions, TodoError};

verus! {

/// The mathematical value of a stored todo: every field as a plain
/// mathematical object.
pub ghost struct TodoView {
    pub id: int,
    pub uuid: Seq<char>,
    pub created_at: DateTime,
    pub updated_at: DateTime,
    pub done: int,
    pub title: Seq<char>,
    pub start_date: Option<DateTime>,
    pub start_time: Option<DateTime>,
    pub description: Option<Seq<char>>,
    pub url: Option<Seq<char>>,
}

impl TodoView {
    /// Well-formedness of a record: `done` is the 0/1 encoding of a
    /// boolean and every timestamp is a valid calendar datetime.
    pub open spec fn wf(self) -> bool {
        &&& self.done == 0 || self.done == 1
        &&& self.created_at.valid()
        &&& self.updated_at.valid()
        &&& (self.start_date matches Some(d) ==> d.valid())
        &&& (self.start_time matches Some(t) ==> t.valid())
    }
}

/// A todo record, the sole entity.
///
/// `start_date` and `start_time` are each present exactly when the
/// corresponding input was supplied at creation or on the latest edit that
/// set them; when both were supplied together they hold the same combined
/// timestamp.
pub struct Todo {
    pub id: i64,
    pub uuid: String,
    pub created_at: DateTime,
    pub updated_at: DateTime,
    pub done: i64,
    pub title: String,
    pub start_date: Option<DateTime>,
    pub start_time: Option<DateTime>,
    pub description: Option<String>,
    pub url: Option<String>,
}

impl View for Todo {
    type V = TodoView;

    open spec fn view(&self) -> TodoView {
        TodoView {
            id: self.id as int,
            uuid: self.uuid@,
            created_at: self.created_at,
            updated_at: self.updated_at,
            done: self.done as int,
            title: self.title@,
            start_date: self.start_date,
            start_time: self.start_time,
            description: self.description.deep_view(),
            url: self.url.deep_view(),
        }
    }
}

fn clone_opt_string(o: &Option<String>) -> (r: Option<String>)
    ensures
        r == *o,
{
    match o {
        Some(s) => Some(s.clone()),
        None => None,
    }
}

impl Clone for Todo {
    fn clone(&self) -> (r: Todo)
        ensures
            r == *self,
    {
        Todo {
            id: self.id,
            uuid: self.uuid.clone(),
            created_at: self.created_at,
            updated_at: self.updated_at,
            done: self.done,
            title: self.title.clone(),
            start_date: self.start_date,
            start_time: self.start_time,
            description: clone_opt_string(&self.description),
            url: clone_opt_string(&self.url),
        }
    }
}

/// The record `add` creates: pending, stamped `now` for both timestamps,
/// `start_date`/`start_time` present exactly when the date/time input was,
/// both holding the combined timestamp `start`.
pub open spec fn spec_make_todo(
    title: Seq<char>,
    date_given: bool,
    time_given: bool,
    description: Option<Seq<char>>,
    url: Option<Seq<char>>,
    uuid: Seq<char>,
    now: DateTime,
    start: DateTime,
) -> TodoView {
    TodoView {
        id: 0,
        uuid: uuid,
        created_at: now,
        updated_at: now,
        done: 0,
        title: title,
        start_date: if date_given {
            Some(start)
        } else {
            None
        },
        start_time: if time_given {
            Some(start)
        } else {
            None
        },
        description: description,
        url: url,
    }
}

/// Build the record `add` inserts. `start` is the combined date/time
/// value; the id is 0 until storage assigns one.
pub fn make_todo(options: &AddOptions, uuid: String, now: DateTime, start: DateTime) -> (t: Todo)
    ensures
        t@ == spec_make_todo(
            options.title@,
            options.date is Some,
            options.time is Some,
            options.description.deep_view(),
            options.url.deep_view(),
            uuid@,
            now,
            start,
        ),
{
    Todo {
        id: 0,
        uuid: uuid,
        created_at: now,
        updated_at: now,
        done: 0,
        title: options.title.clone(),
        start_date: if options.date.is_some() {
            Some(start)
        } else {
            None
        },
        start_time: if options.time.is_some() {
            Some(start)
        } else {
            None
        },
        description: clone_opt_string(&options.description),
        url: clone_opt_string(&options.url),
    }
}

/// The record an edit leaves behind: each editable field takes the new
/// value if one was supplied and keeps the previous one otherwise;
/// `updated_at` is always refreshed; id, uuid, `created_at` and `done`
/// never change.
pub open spec fn spec_merge(
    prev: TodoView,
    title: Option<Seq<char>>,
    date_given: bool,
    time_given: bool,
    start: DateTime,
    description: Option<Seq<char>>,
    url: Option<Seq<char>>,
    now: DateTime,
) -> TodoView {
    TodoView {
        id: prev.id,
        uuid: prev.uuid,
        created_at: prev.created_at,
        updated_at: now,
        done: prev.done,
        title: match title {
            Some(t) => t,
            None => prev.title,
        },
        start_date: if date_given {
            Some(start)
        } else {
            prev.start_date
        },
        start_time: if time_given {
            Some(start)
        } else {
            prev.start_time
        },
        description: if description is Some {
            description
        } else {
            prev.description
        },
        url: if url is Some {
            url
        } else {
            prev.url
        },
    }
}

/// Apply an edit to a previously stored record. `start` is the combined
/// date/time value, used only for the parts that were supplied.
pub fn merge_todo(prev: &Todo, options: &EditOptions, start: DateTime, now: DateTime) -> (t: Todo)
    ensures
        t@ == spec_merge(
            prev@,
            options.title.deep_view(),
            options.date is Some,
            options.time is Some,
            start,
            options.description.deep_view(),
            options.url.deep_view(),
            now,
        ),
{
    Todo {
        id: prev.id,
        uuid: prev.uuid.clone(),
        created_at: prev.created_at,
        updated_at: now,
        done: prev.done,
        title: match &options.title {
            Some(t) => t.clone(),
            None => prev.title.clone(),
        },
        start_date: if options.date.is_some() {
            Some(start)
        } else {
            prev.start_date
        },
        start_time: if options.time.is_some() {
            Some(start)
        } else {
            prev.start_time
        },
        description: if options.description.is_some() {
            clone_opt_string(&options.description)
        } else {
            clone_opt_string(&prev.description)
        },
        url: if options.url.is_some() {
            clone_opt_string(&options.url)
        } else {
            clone_opt_string(&prev.url)
        },
    }
}

/// An edit that supplies no fields changes `updated_at` and nothing else.
pub proof fn lemma_edit_no_fields(prev: TodoView, start: DateTime, now: DateTime)
    ensures
        spec_merge(prev, None, false, false, start, None, None, now) == (TodoView {
            updated_at: now,
            ..prev
        }),
{
}

/// An edit that supplies only a title updates the title, refreshes
/// `updated_at`, and leaves every other field — the description in
/// particular — unchanged.
pub proof fn lemma_edit_title_only(
    prev: TodoView,
    title: Seq<char>,
    start: DateTime,
    now: DateTime,
)
    ensures
        spec_merge(prev, Some(title), false, false, start, None, None, now) == (TodoView {
            title: title,
            updated_at: now,
            ..prev
        }),
{
}

/// A row of the backing table, with every column as the plain value the
/// database stores: timestamps as RFC 3339 text, `done` as a 0/1 integer.
pub struct RawRow {
    pub id: i64,
    pub uuid: String,
    pub created_at: String,
    pub updated_at: String,
    pub done: i64,
    pub title: String,
    pub start_date: Option<String>,
    pub start_time: Option<String>,
    pub description: Option<String>,
    pub url: Option<String>,
}

/// A stored optional timestamp column is either absent or well-formed
/// RFC 3339 text.
pub open spec fn opt_ts_ok(s: Option<Seq<char>>) -> bool {
    s matches Some(v) ==> valid_rfc3339_str(v)
}

/// The optional timestamp a stored optional column names.
pub open spec fn opt_ts_dt(s: Option<Seq<char>>) -> Option<DateTime> {
    match s {
        Some(v) => Some(rfc3339_dt(v)),
        None => None,
    }
}

/// A readable row: both timestamps parse, optional ones parse when
/// present, and `done` is 0 or 1.
pub open spec fn row_ok(r: RawRow) -> bool {
    &&& valid_rfc3339_str(r.created_at@)
    &&& valid_rfc3339_str(r.updated_at@)
    &&& opt_ts_ok(r.start_date.deep_view())
    &&& opt_ts_ok(r.start_time.deep_view())
    &&& (r.done == 0 || r.done == 1)
}

/// The record a readable row holds.
pub open spec fn row_todo(r: RawRow) -> TodoView {
    TodoView {
        id: r.id as int,
        uuid: r.uuid@,
        created_at: rfc3339_dt(r.created_at@),
        updated_at: rfc3339_dt(r.updated_at@),
        done: r.done as int,
        title: r.title@,
        start_date: opt_ts_dt(r.start_date.deep_view()),
        start_time: opt_ts_dt(r.start_time.deep_view()),
        description: r.description.deep_view(),
        url: r.url.deep_view(),
    }
}

fn format_opt_ts(o: &Option<DateTime>) -> (r: Option<String>)
    requires
        o matches Some(d) ==> d.valid(),
    ensures
        r is Some <==> o is Some,
        o matches Some(d) ==> r matches Some(s) && s@ == spec_fmt_rfc3339(*d),
{
    match o {
        Some(d) => Some(format_rfc3339(d)),
        None => None,
    }
}

/// Render a record as the row that persists it.
pub fn todo_to_row(t: &Todo) -> (r: RawRow)
    requires
        t@.wf(),
    ensures
        r.id == t@.id,
        r.uuid@ == t@.uuid,
        r.created_at@ == spec_fmt_rfc3339(t@.created_at),
        r.updated_at@ == spec_fmt_rfc3339(t@.updated_at),
        r.done == t@.done,
        r.title@ == t@.title,
        r.start_date is Some <==> t@.start_date is Some,
        t@.start_date matches Some(d) ==> r.start_date matches Some(s) && s@ == spec_fmt_rfc3339(d),
        r.start_time is Some <==> t@.start_time is Some,
        t@.start_time matches Some(d) ==> r.start_time matches Some(s) && s@ == spec_fmt_rfc3339(d),
        r.description.deep_view() == t@.description,
        r.url.deep_view() == t@.url,
        row_ok(r),
        row_todo(r) == t@,
{
    let r = RawRow {
        id: t.id,
        uuid: t.uuid.clone(),
        created_at: format_rfc3339(&t.created_at),
        updated_at: format_rfc3339(&t.updated_at),
        done: t.done,
        title: t.title.clone(),
        start_date: format_opt_ts(&t.start_date),
        start_time: format_opt_ts(&t.start_time),
        description: clone_opt_string(&t.description),
        url: clone_opt_string(&t.url),
    };
    proof {
        crate::util::lemma_rfc3339_round_trip(t@.created_at);
        crate::util::lemma_rfc3339_round_trip(t@.updated_at);
        match t@.start_date {
            Some(d) => crate::util::lemma_rfc3339_round_trip(d),
            None => (),
        }
        match t@.start_time {
            Some(d) => crate::util::lemma_rfc3339_round_trip(d),
            None => (),
        }
        assert(row_todo(r) == t@);
    }
    r
}

fn parse_opt_ts(o: &Option<String>) -> (r: Result<Option<DateTime>, TodoError>)
    ensures
        opt_ts_ok(o.deep_view()) ==> r == Ok::<Option<DateTime>, TodoError>(
            opt_ts_dt(o.deep_view()),
        ),
        !opt_ts_ok(o.deep_view()) ==> r == Err::<Option<DateTime>, TodoError>(TodoError::Storage),
        r matches Ok(Some(d)) ==> d.valid(),
{
    match o {
        Some(s) => {
            let d = parse_rfc3339(s.as_str())?;
            Ok(Some(d))
        },
        None => Ok(None),
    }
}

/// Read a persisted row back into a record. A row that does not parse can
/// only come from a corrupted store and reports `Storage`.
pub fn row_to_todo(r: &RawRow) -> (t: Result<Todo, TodoError>)
    ensures
        t is Ok <==> row_ok(*r),
        t matches Ok(v) ==> v@ == row_todo(*r) && v@.wf(),
        t is Err ==> t == Err::<Todo, TodoError>(TodoError::Storage),
{
    let created_at = parse_rfc3339(r.created_at.as_str())?;
    let updated_at = parse_rfc3339(r.updated_at.as_str())?;
    let start_date = parse_opt_ts(&r.start_date)?;
    let start_time = parse_opt_ts(&r.start_time)?;
    if !(r.done == 0 || r.done == 1) {
        return Err(TodoError::Storage);
    }
    Ok(
        Todo {
            id: r.id,
            uuid: r.uuid.clone(),
            created_at,
            updated_at,
            done: r.done,
            title: r.title.clone(),
            start_date,
            start_time,
            description: clone_opt_string(&r.description),
            url: clone_opt_string(&r.url),
        },
    )
}

} // verus!
