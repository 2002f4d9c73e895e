use vstd::prelude::*;
use vstd::pervasive::VecAdditionalExecFns;

use crate::model::{spec_make_todo, spec_merge, make_todo, merge_todo, Todo, TodoView};
use crate::util::{
    spec_combine, combine, lemma_le_total, lemma_le_trans, str_eq, DateTime,
};
use crate::{AddOptions, EditOptions, TodoError};

verus! {

broadcast use {vstd::seq_lib::group_to_multiset_ensures, vstd::seq_lib::group_filter_ensures};

impl DeepView for Todo {
    type V = TodoView;

    open spec fn deep_view(&self) -> TodoView {
        self.view()
    }
}

/// Some record in `s` carries the uuid `u`.
pub open spec fn contains_uuid(s: Seq<TodoView>, u: Seq<char>) -> bool {
    exists|i: int| 0 <= i < s.len() && (#[trigger] s[i]).uuid == u
}

/// The record an `add` with these inputs appends to a table that already
/// holds `n` rows: `spec_make_todo` with the next sequential id.
pub open spec fn spec_added(
    n: int,
    title: Seq<char>,
    date_given: bool,
    time_given: bool,
    description: Option<Seq<char>>,
    url: Option<Seq<char>>,
    uuid: Seq<char>,
    now: DateTime,
    start: DateTime,
) -> TodoView {
    TodoView {
        id: n + 1,
        ..spec_make_todo(title, date_given, time_given, description, url, uuid, now, start)
    }
}

/// The todos table itself, as a value: every stored record, in insertion
/// order. The repository semantics are verified against this model.
pub struct TodoStore {
    pub todos: Vec<Todo>,
}

impl View for TodoStore {
    type V = Seq<TodoView>;

    open spec fn view(&self) -> Seq<TodoView> {
        self.todos.deep_view()
    }
}

impl TodoStore {
    /// The table's invariant: every record is well-formed, uuids are
    /// unique, and ids are the insertion order, counted from 1.
    pub open spec fn wf(self) -> bool {
        &&& forall|i: int| 0 <= i < self@.len() ==> (#[trigger] self@[i]).wf()
        &&& forall|i: int, j: int|
            0 <= i < self@.len() && 0 <= j < self@.len() && i != j ==> (#[trigger] self@[i]).uuid
                != (#[trigger] self@[j]).uuid
        &&& forall|i: int| 0 <= i < self@.len() ==> (#[trigger] self@[i]).id == i + 1
    }

    /// An empty table.
    pub fn new() -> (s: TodoStore)
        ensures
            s.wf(),
            s@ =~= Seq::<TodoView>::empty(),
    {
        TodoStore { todos: Vec::new() }
    }

    /// Whether some record carries the uuid `u`.
    pub fn contains_uuid_exec(&self, u: &str) -> (b: bool)
        ensures
            b == contains_uuid(self@, u@),
    {
        let mut i: usize = 0;
        while i < self.todos.len()
            invariant
                i <= self@.len(),
                self@.len() == self.todos@.len(),
                forall|j: int| 0 <= j < i ==> (#[trigger] self@[j]).uuid != u@,
            decreases self@.len() - i,
        {
            if str_eq(self.todos[i].uuid.as_str(), u) {
                proof {
                    assert(self@[i as int].uuid == u@);
                }
                return true;
            }
            proof {
                assert(self@[i as int].uuid == self.todos@[i as int]@.uuid);
            }
            i += 1;
        }
        false
    }

    /// Insert a new pending record built from `options`, with the given
    /// fresh uuid and the current timestamp `now`.
    pub fn add(&mut self, options: &AddOptions, uuid: String, now: DateTime) -> (r: Result<
        (),
        TodoError,
    >)
        requires
            old(self).wf(),
            now.valid(),
            old(self)@.len() < 0x7fff_ffff_ffff_ffff,
        ensures
            final(self).wf(),
            ({
                let c = spec_combine(options.date.deep_view(), options.time.deep_view(), now);
                match c {
                    Err(e) => r == Err::<(), TodoError>(e) && final(self)@ == old(self)@,
                    Ok(start) => if contains_uuid(old(self)@, uuid@) {
                        r == Err::<(), TodoError>(TodoError::Storage) && final(self)@ == old(
                            self,
                        )@
                    } else {
                        r is Ok && final(self)@ == old(self)@.push(
                            spec_added(
                                old(self)@.len() as int,
                                options.title@,
                                options.date is Some,
                                options.time is Some,
                                options.description.deep_view(),
                                options.url.deep_view(),
                                uuid@,
                                now,
                                start,
                            ),
                        )
                    },
                }
            }),
    {
        let start = match combine(&options.date, &options.time, now) {
            Ok(s) => s,
            Err(e) => {
                return Err(e);
            },
        };
        if self.contains_uuid_exec(uuid.as_str()) {
            return Err(TodoError::Storage);
        }
        let id = self.todos.len() as i64 + 1;
        let mut t = make_todo(options, uuid, now, start);
        t.id = id;
        self.todos.push(t);
        proof {
            assert(self@ =~= old(self)@.push(
                spec_added(
                    old(self)@.len() as int,
                    options.title@,
                    options.date is Some,
                    options.time is Some,
                    options.description.deep_view(),
                    options.url.deep_view(),
                    uuid@,
                    now,
                    start,
                ),
            ));
        }
        Ok(())
    }

    /// Exact-match lookup by uuid; `NotFound` exactly when no record
    /// carries the uuid.
    pub fn get_by_uuid(&self, uuid: &str) -> (r: Result<Todo, TodoError>)
        requires
            self.wf(),
        ensures
            r is Ok <==> contains_uuid(self@, uuid@),
            r matches Ok(t) ==> t@.uuid == uuid@ && exists|i: int|
                0 <= i < self@.len() && #[trigger] self@[i] == t@,
            r is Err ==> r == Err::<Todo, TodoError>(TodoError::NotFound),
    {
        let mut i: usize = 0;
        while i < self.todos.len()
            invariant
                i <= self@.len(),
                self@.len() == self.todos@.len(),
                forall|j: int| 0 <= j < i ==> (#[trigger] self@[j]).uuid != uuid@,
            decreases self@.len() - i,
        {
            if str_eq(self.todos[i].uuid.as_str(), uuid) {
                let t = self.todos[i].clone();
                proof {
                    assert(self@[i as int] == t@);
                    assert(self@[i as int].uuid == uuid@);
                }
                return Ok(t);
            }
            proof {
                assert(self@[i as int].uuid == self.todos@[i as int]@.uuid);
            }
            i += 1;
        }
        Err(TodoError::NotFound)
    }
}

/// The records with the given completion status, in stored order.
pub open spec fn status_filter(s: Seq<TodoView>, status: int) -> Seq<TodoView> {
    s.filter(|t: TodoView| t.done == status)
}

/// Ascending by creation timestamp.
pub open spec fn sorted_by_created(s: Seq<TodoView>) -> bool {
    forall|i: int, j: int|
        0 <= i < j < s.len() ==> (#[trigger] s[i]).created_at.spec_le(
            (#[trigger] s[j]).created_at,
        )
}

/// Filtering past one more record keeps it exactly when its status matches.
proof fn lemma_filter_push(s: Seq<TodoView>, x: TodoView, status: int)
    ensures
        status_filter(s.push(x), status) == if x.done == status {
            status_filter(s, status).push(x)
        } else {
            status_filter(s, status)
        },
{
    reveal_with_fuel(Seq::<_>::filter, 2);
    assert(s.push(x).drop_last() =~= s);
    assert(s.push(x).last() == x);
}

fn filter_status(todos: &Vec<Todo>, status: i64) -> (r: Vec<Todo>)
    ensures
        r.deep_view() == status_filter(todos.deep_view(), status as int),
{
    let mut kept: Vec<Todo> = Vec::new();
    let mut i: usize = 0;
    while i < todos.len()
        invariant
            i <= todos@.len(),
            kept.deep_view() =~= status_filter(
                todos.deep_view().subrange(0, i as int),
                status as int,
            ),
        decreases todos@.len() - i,
    {
        let ghost pre = kept.deep_view();
        if todos[i].done == status {
            kept.push(todos[i].clone());
        }
        proof {
            let dv = todos.deep_view();
            assert(dv.subrange(0, i + 1) =~= dv.subrange(0, i as int).push(dv[i as int]));
            lemma_filter_push(dv.subrange(0, i as int), dv[i as int], status as int);
            if todos@[i as int]@.done == status {
                assert(kept.deep_view() =~= pre.push(dv[i as int]));
            }
        }
        i += 1;
    }
    proof {
        assert(todos.deep_view().subrange(0, todos@.len() as int) =~= todos.deep_view());
    }
    kept
}

/// Sort records ascending by creation timestamp; the result holds exactly
/// the records given.
pub fn sort_by_created(v: Vec<Todo>) -> (r: Vec<Todo>)
    ensures
        sorted_by_created(r.deep_view()),
        r.deep_view().to_multiset() == v.deep_view().to_multiset(),
{
    let ghost orig = v.deep_view();
    let mut src = v;
    let mut out: Vec<Todo> = Vec::new();
    while src.len() > 0
        invariant
            out.deep_view().to_multiset().add(src.deep_view().to_multiset())
                == orig.to_multiset(),
            sorted_by_created(out.deep_view()),
            forall|a: int, b: int|
                0 <= a < out.deep_view().len() && 0 <= b < src.deep_view().len() ==> (
                #[trigger] out.deep_view()[a]).created_at.spec_le(
                    (#[trigger] src.deep_view()[b]).created_at,
                ),
        decreases src.len(),
    {
        let ghost src0 = src.deep_view();
        let ghost out0 = out.deep_view();
        let mut m: usize = 0;
        let mut k: usize = 1;
        while k < src.len()
            invariant
                src.deep_view() == src0,
                0 < src0.len(),
                m < k,
                k <= src0.len(),
                src.len() == src0.len(),
                forall|i: int|
                    0 <= i < k ==> src0[m as int].created_at.spec_le(
                        (#[trigger] src0[i]).created_at,
                    ),
            decreases src0.len() - k,
        {
            if !src[m].created_at.le(&src[k].created_at) {
                proof {
                    lemma_le_total(src0[m as int].created_at, src0[k as int].created_at);
                    assert forall|i: int| 0 <= i < k + 1 implies src0[k as int].created_at.spec_le(
                        (#[trigger] src0[i]).created_at,
                    ) by {
                        if i < k {
                            lemma_le_trans(
                                src0[k as int].created_at,
                                src0[m as int].created_at,
                                src0[i].created_at,
                            );
                        }
                    }
                }
                m = k;
            }
            k += 1;
        }
        let x = src.remove(m);
        out.push(x);
        proof {
            assert(src.deep_view() =~= src0.remove(m as int));
            assert(out.deep_view() =~= out0.push(src0[m as int]));
            assert(src0.to_multiset().count(src0[m as int]) > 0);
            assert(out.deep_view().to_multiset().add(src.deep_view().to_multiset())
                =~= orig.to_multiset());
            assert forall|a: int, b: int|
                0 <= a < out.deep_view().len() && 0 <= b < src.deep_view().len() implies (
            #[trigger] out.deep_view()[a]).created_at.spec_le(
                (#[trigger] src.deep_view()[b]).created_at,
            ) by {
                let bb = if b < m { b } else { b + 1 };
                assert(src.deep_view()[b] == src0[bb]);
                if a < out0.len() {
                    assert(out0[a].created_at.spec_le(src0[bb].created_at));
                } else {
                    assert(out.deep_view()[a] == src0[m as int]);
                    assert(src0[m as int].created_at.spec_le(src0[bb].created_at));
                }
            }
        }
    }
    out
}

/// Every record the filter keeps is one of the records filtered.
proof fn lemma_filter_subset(s: Seq<TodoView>, status: int)
    ensures
        forall|k: int|
            0 <= k < status_filter(s, status).len() ==> s.contains(
                #[trigger] status_filter(s, status)[k],
            ),
    decreases s.len(),
{
    reveal_with_fuel(Seq::<_>::filter, 2);
    if s.len() == 0 {
    } else {
        lemma_filter_subset(s.drop_last(), status);
        assert forall|k: int| 0 <= k < status_filter(s, status).len() implies s.contains(
            #[trigger] status_filter(s, status)[k],
        ) by {
            let x = status_filter(s, status)[k];
            if k < status_filter(s.drop_last(), status).len() {
                assert(s.drop_last().contains(x));
                let j = choose|j: int| 0 <= j < s.drop_last().len() && s.drop_last()[j] == x;
                assert(s[j] == x);
            } else {
                assert(x == s.last());
            }
        }
    }
}

/// Keep the records with the given completion status and sort them oldest
/// first: the result holds exactly the matching records, each of that
/// status, sorted ascending by creation timestamp, and well-formed
/// whenever the given records are.
pub fn filter_and_sort(todos: &Vec<Todo>, status: i64) -> (r: Vec<Todo>)
    ensures
        sorted_by_created(r.deep_view()),
        r.deep_view().to_multiset() == status_filter(
            todos.deep_view(),
            status as int,
        ).to_multiset(),
        forall|i: int|
            0 <= i < r.deep_view().len() ==> (#[trigger] r.deep_view()[i]).done == status as int,
        (forall|i: int|
            0 <= i < todos.deep_view().len() ==> (#[trigger] todos.deep_view()[i]).wf())
            ==> forall|i: int|
            0 <= i < r.deep_view().len() ==> (#[trigger] r.deep_view()[i]).wf(),
{
    let kept = filter_status(todos, status);
    let r = sort_by_created(kept);
    proof {
        let tv = todos.deep_view();
        let rv = r.deep_view();
        let fv = status_filter(tv, status as int);
        lemma_filter_subset(tv, status as int);
        assert forall|i: int| 0 <= i < rv.len() implies (#[trigger] rv[i]).done == status as int by {
            assert(rv.to_multiset().count(rv[i]) > 0);
            assert(fv.contains(rv[i]));
            let j = choose|j: int| 0 <= j < fv.len() && fv[j] == rv[i];
            assert(fv[j].done == status as int);
        }
        if forall|i: int| 0 <= i < tv.len() ==> (#[trigger] tv[i]).wf() {
            assert forall|i: int| 0 <= i < rv.len() implies (#[trigger] rv[i]).wf() by {
                assert(rv.to_multiset().count(rv[i]) > 0);
                assert(fv.contains(rv[i]));
                let j = choose|j: int| 0 <= j < fv.len() && fv[j] == rv[i];
                assert(tv.contains(fv[j]));
                let k = choose|k: int| 0 <= k < tv.len() && tv[k] == fv[j];
                assert(tv[k].wf());
            }
        }
    }
    r
}

impl TodoStore {
    /// All records with the requested completion status, oldest first.
    ///
    /// No returned record has the other status, and the result is sorted
    /// ascending by creation timestamp.
    pub fn list(&self, status: i64) -> (r: Vec<Todo>)
        requires
            self.wf(),
        ensures
            sorted_by_created(r.deep_view()),
            r.deep_view().to_multiset() == status_filter(self@, status as int).to_multiset(),
            forall|i: int|
                0 <= i < r.deep_view().len() ==> (#[trigger] r.deep_view()[i]).done
                    == status as int,
    {
        filter_and_sort(&self.todos, status)
    }

    /// The record at `i` with its completion state set and its update
    /// timestamp refreshed; everything else unchanged.
    pub open spec fn spec_set_done(
        s: Seq<TodoView>,
        i: int,
        value: int,
        now: DateTime,
    ) -> Seq<TodoView> {
        s.update(i, TodoView { done: value, updated_at: now, ..s[i] })
    }

    /// Set the completion state of the record carrying `uuid`;
    /// `NotFound` exactly when no record carries it.
    pub fn set_done(&mut self, uuid: &str, value: i64, now: DateTime) -> (r: Result<
        (),
        TodoError,
    >)
        requires
            old(self).wf(),
            now.valid(),
            value == 0 || value == 1,
        ensures
            final(self).wf(),
            r is Ok <==> contains_uuid(old(self)@, uuid@),
            r is Err ==> r == Err::<(), TodoError>(TodoError::NotFound) && final(self)@ == old(self)@,
            forall|i: int|
                0 <= i < old(self)@.len() && (#[trigger] old(self)@[i]).uuid == uuid@
                    ==> final(self)@ == Self::spec_set_done(old(self)@, i, value as int, now),
    {
        let ghost s0 = self@;
        let mut i: usize = 0;
        while i < self.todos.len()
            invariant
                self@ == s0,
                s0 == old(self)@,
                old(self).wf(),
                now.valid(),
                value == 0 || value == 1,
                i <= s0.len(),
                self.todos@.len() == s0.len(),
                forall|j: int| 0 <= j < i ==> (#[trigger] s0[j]).uuid != uuid@,
            decreases s0.len() - i,
        {
            if str_eq(self.todos[i].uuid.as_str(), uuid) {
                proof {
                    assert(s0[i as int].uuid == uuid@);
                    assert(contains_uuid(s0, uuid@));
                }
                let mut t = self.todos[i].clone();
                t.done = value;
                t.updated_at = now;
                self.todos.set(i, t);
                proof {
                    assert(self@ =~= Self::spec_set_done(s0, i as int, value as int, now));
                }
                return Ok(());
            }
            proof {
                assert(self@[i as int].uuid == self.todos@[i as int]@.uuid);
            }
            i += 1;
        }
        Err(TodoError::NotFound)
    }

    /// Apply a partial update to the record carrying the given uuid:
    /// supplied fields replace the stored ones, absent fields keep them,
    /// and `updated_at` is refreshed. `NotFound` exactly when no record
    /// carries the uuid; a malformed date or time reports its own error
    /// and leaves the table unchanged.
    pub fn edit(&mut self, options: &EditOptions, now: DateTime) -> (r: Result<(), TodoError>)
        requires
            old(self).wf(),
            now.valid(),
        ensures
            final(self).wf(),
            !contains_uuid(old(self)@, options.uuid@) ==> r == Err::<(), TodoError>(
                TodoError::NotFound,
            ) && final(self)@ == old(self)@,
            contains_uuid(old(self)@, options.uuid@) ==> ({
                let c = spec_combine(options.date.deep_view(), options.time.deep_view(), now);
                match c {
                    Err(e) => r == Err::<(), TodoError>(e) && final(self)@ == old(self)@,
                    Ok(start) => r is Ok && forall|i: int|
                        0 <= i < old(self)@.len() && (#[trigger] old(self)@[i]).uuid
                            == options.uuid@ ==> final(self)@ == old(self)@.update(
                            i,
                            spec_merge(
                                old(self)@[i],
                                options.title.deep_view(),
                                options.date is Some,
                                options.time is Some,
                                start,
                                options.description.deep_view(),
                                options.url.deep_view(),
                                now,
                            ),
                        ),
                }
            }),
    {
        let ghost s0 = self@;
        let mut i: usize = 0;
        while i < self.todos.len()
            invariant
                self@ == s0,
                s0 == old(self)@,
                old(self).wf(),
                now.valid(),
                i <= s0.len(),
                self.todos@.len() == s0.len(),
                forall|j: int| 0 <= j < i ==> (#[trigger] s0[j]).uuid != options.uuid@,
            decreases s0.len() - i,
        {
            if str_eq(self.todos[i].uuid.as_str(), options.uuid.as_str()) {
                proof {
                    assert(s0[i as int].uuid == options.uuid@);
                    assert(contains_uuid(s0, options.uuid@));
                }
                let start = match combine(&options.date, &options.time, now) {
                    Ok(s) => s,
                    Err(e) => {
                        return Err(e);
                    },
                };
                let merged = merge_todo(&self.todos[i], options, start, now);
                self.todos.set(i, merged);
                proof {
                    assert(self@ =~= s0.update(
                        i as int,
                        spec_merge(
                            s0[i as int],
                            options.title.deep_view(),
                            options.date is Some,
                            options.time is Some,
                            start,
                            options.description.deep_view(),
                            options.url.deep_view(),
                            now,
                        ),
                    ));
                }
                return Ok(());
            }
            proof {
                assert(self@[i as int].uuid == self.todos@[i as int]@.uuid);
            }
            i += 1;
        }
        Err(TodoError::NotFound)
    }
}

/// Setting a record's completion state twice leaves exactly the state of
/// the second call: marking done (or undone) again is a no-op but for the
/// update timestamp.
pub proof fn lemma_set_done_idempotent(
    s: Seq<TodoView>,
    i: int,
    value: int,
    n1: DateTime,
    n2: DateTime,
)
    requires
        0 <= i < s.len(),
    ensures
        TodoStore::spec_set_done(TodoStore::spec_set_done(s, i, value, n1), i, value, n2)
            == TodoStore::spec_set_done(s, i, value, n2),
{
    assert(TodoStore::spec_set_done(TodoStore::spec_set_done(s, i, value, n1), i, value, n2)
        =~= TodoStore::spec_set_done(s, i, value, n2));
}

/// A record added with a fresh uuid is found again by that uuid, exactly
/// as it was inserted.
pub proof fn lemma_add_then_get(s: Seq<TodoView>, tv: TodoView)
    requires
        !contains_uuid(s, tv.uuid),
    ensures
        contains_uuid(s.push(tv), tv.uuid),
        forall|i: int|
            0 <= i < s.push(tv).len() && (#[trigger] s.push(tv)[i]).uuid == tv.uuid ==> s.push(
                tv,
            )[i] == tv,
{
    assert(s.push(tv)[s.len() as int] == tv);
}

/// Round trip: a record added with a fresh uuid is read back by that uuid
/// with the same title, description, url and the pending state, and with
/// `start_date`/`start_time` present exactly when the date/time input was
/// supplied.
pub proof fn lemma_add_round_trip(
    s: Seq<TodoView>,
    title: Seq<char>,
    date_given: bool,
    time_given: bool,
    description: Option<Seq<char>>,
    url: Option<Seq<char>>,
    uuid: Seq<char>,
    now: DateTime,
    start: DateTime,
)
    requires
        !contains_uuid(s, uuid),
    ensures
        ({
            let s2 = s.push(
                spec_added(
                    s.len() as int,
                    title,
                    date_given,
                    time_given,
                    description,
                    url,
                    uuid,
                    now,
                    start,
                ),
            );
            contains_uuid(s2, uuid) && forall|i: int|
                0 <= i < s2.len() && (#[trigger] s2[i]).uuid == uuid ==> s2[i].title == title
                    && s2[i].description == description && s2[i].url == url && s2[i].done == 0
                    && (s2[i].start_date is Some <==> date_given) && (s2[i].start_time is Some
                    <==> time_given)
        }),
{
    let tv = spec_added(
        s.len() as int,
        title,
        date_given,
        time_given,
        description,
        url,
        uuid,
        now,
        start,
    );
    lemma_add_then_get(s, tv);
}

/// A pending record appears among the pending rows and not among the done
/// ones; once marked done, the opposite holds.
pub proof fn lemma_status_listing(s: Seq<TodoView>, i: int, now: DateTime)
    requires
        0 <= i < s.len(),
    ensures
        s[i].done == 0 ==> status_filter(s, 0).contains(s[i]),
        s[i].done == 0 ==> !status_filter(s, 1).contains(s[i]),
        ({
            let s2 = TodoStore::spec_set_done(s, i, 1, now);
            status_filter(s2, 1).contains(s2[i]) && !status_filter(s2, 0).contains(s2[i])
        }),
{
    let s2 = TodoStore::spec_set_done(s, i, 1, now);
    assert(s2[i].done == 1);
    if s[i].done == 0 {
        if status_filter(s, 1).contains(s[i]) {
            let j = choose|j: int|
                0 <= j < status_filter(s, 1).len() && status_filter(s, 1)[j] == s[i];
            assert(status_filter(s, 1)[j].done == 1);
        }
    }
    if status_filter(s2, 0).contains(s2[i]) {
        let j = choose|j: int|
            0 <= j < status_filter(s2, 0).len() && status_filter(s2, 0)[j] == s2[i];
        assert(status_filter(s2, 0)[j].done == 0);
    }
}

} // verus!
