use diesel::sql_types::{Integer, Text};
use diesel::sqlite::SqliteConnection;
use vstd::prelude::*;

use crate::item::{CompletionLevel, Event, Importance, Task};
use crate::mem_model::MemModel;
use crate::store::{Model, StoreError, StoreFault};
use crate::JulianDay;

verus! {

#[verifier::external_type_specification]
#[verifier::external_body]
pub struct ExSqliteConnection(SqliteConnection);

/// One stored row of either table: date, index, title and the tag's code.
pub type Row = (i32, i32, String, i32);

const SCHEMA: &'static str = "CREATE TABLE IF NOT EXISTS events (date INTEGER NOT NULL, \"index\" INTEGER NOT NULL, title TEXT NOT NULL, importance INTEGER NOT NULL, PRIMARY KEY (date, \"index\")); CREATE TABLE IF NOT EXISTS tasks (date INTEGER NOT NULL, \"index\" INTEGER NOT NULL, title TEXT NOT NULL, completion_level INTEGER NOT NULL, PRIMARY KEY (date, \"index\"));";

const BEGIN: &'static str = "BEGIN";

const COMMIT: &'static str = "COMMIT";

const ROLLBACK: &'static str = "ROLLBACK";

const LOAD_EVENTS: &'static str = "SELECT date, \"index\", title, importance FROM events ORDER BY date, \"index\"";

const LOAD_TASKS: &'static str = "SELECT date, \"index\", title, completion_level FROM tasks ORDER BY date, \"index\"";

// Moving a run of rows by one goes through negative indices, so that no two
// rows of a day share an index at any step; `laws::lemma_insert_keeps_density`
// and `laws::lemma_delete_keeps_density` prove what these statements do to the
// keys of a day.
const EVENTS_UP_FLIP: &'static str = "UPDATE events SET \"index\" = -\"index\" - 1 WHERE date = ?1 AND \"index\" >= ?2";

const EVENTS_UP_SETTLE: &'static str = "UPDATE events SET \"index\" = -\"index\" WHERE date = ?1 AND \"index\" <= -?2 - 1";

const EVENTS_DOWN_FLIP: &'static str = "UPDATE events SET \"index\" = -\"index\" WHERE date = ?1 AND \"index\" > ?2";

const EVENTS_DOWN_SETTLE: &'static str = "UPDATE events SET \"index\" = -\"index\" - 1 WHERE date = ?1 AND \"index\" <= -?2 - 1";

const EVENTS_INSERT: &'static str = "INSERT INTO events (date, \"index\", title, importance) VALUES (?1, ?2, ?3, ?4)";

const EVENTS_DELETE: &'static str = "DELETE FROM events WHERE date = ?1 AND \"index\" = ?2";

const EVENTS_UPDATE: &'static str = "UPDATE events SET title = ?3, importance = ?4 WHERE date = ?1 AND \"index\" = ?2";

const TASKS_UP_FLIP: &'static str = "UPDATE tasks SET \"index\" = -\"index\" - 1 WHERE date = ?1 AND \"index\" >= ?2";

const TASKS_UP_SETTLE: &'static str = "UPDATE tasks SET \"index\" = -\"index\" WHERE date = ?1 AND \"index\" <= -?2 - 1";

const TASKS_DOWN_FLIP: &'static str = "UPDATE tasks SET \"index\" = -\"index\" WHERE date = ?1 AND \"index\" > ?2";

const TASKS_DOWN_SETTLE: &'static str = "UPDATE tasks SET \"index\" = -\"index\" - 1 WHERE date = ?1 AND \"index\" <= -?2 - 1";

const TASKS_INSERT: &'static str = "INSERT INTO tasks (date, \"index\", title, completion_level) VALUES (?1, ?2, ?3, ?4)";

const TASKS_DELETE: &'static str = "DELETE FROM tasks WHERE date = ?1 AND \"index\" = ?2";

const TASKS_UPDATE: &'static str = "UPDATE tasks SET title = ?3, completion_level = ?4 WHERE date = ?1 AND \"index\" = ?2";

/// Relies on diesel's `SimpleConnection::batch_execute` to run `sql`; whether
/// it succeeds depends on the database alone.
#[verifier::external_body]
fn exec_plain(conn: &mut SqliteConnection, sql: &str) -> bool {
    diesel::connection::SimpleConnection::batch_execute(conn, sql).is_ok()
}

/// Relies on diesel's `sql_query(..).bind(..).execute(..)` to run `sql` with
/// `?1` bound to `date` and `?2` to `index`.
#[verifier::external_body]
fn exec_keyed(conn: &mut SqliteConnection, sql: &str, date: i32, index: i32) -> bool {
    let query = diesel::sql_query(sql).bind::<Integer, _>(date).bind::<Integer, _>(index);
    diesel::RunQueryDsl::execute(query, conn).is_ok()
}

/// Relies on diesel's `sql_query(..).bind(..).execute(..)` to run `sql` with
/// `?1` to `?4` bound to the row's date, index, title and tag code.
#[verifier::external_body]
fn exec_row(
    conn: &mut SqliteConnection,
    sql: &str,
    date: i32,
    index: i32,
    title: &str,
    code: i32,
) -> bool {
    let query = diesel::sql_query(sql)
        .bind::<Integer, _>(date)
        .bind::<Integer, _>(index)
        .bind::<Text, _>(title)
        .bind::<Integer, _>(code);
    diesel::RunQueryDsl::execute(query, conn).is_ok()
}

/// Relies on diesel's `dsl::sql(..).load(..)` to run the query `sql`, whose
/// columns are three integers and a text, in the order the query gives;
/// `None` where the query fails. What comes back is whatever the tables hold.
#[verifier::external_body]
fn load_rows(conn: &mut SqliteConnection, sql: &str) -> Option<Vec<Row>> {
    diesel::RunQueryDsl::load::<Row>(diesel::dsl::sql::<(Integer, Integer, Text, Integer)>(sql), conn)
        .ok()
}

/// The events that the rows hold for `date`, in row order.
pub open spec fn day_events(rows: Seq<Row>, date: JulianDay) -> Seq<Event>
    decreases rows.len(),
{
    if rows.len() == 0 {
        Seq::empty()
    } else {
        let prev = day_events(rows.drop_last(), date);
        let row = rows.last();
        if row.0 == date {
            prev.push(Event { title: row.2, importance: Importance::from_code_spec(row.3).unwrap() })
        } else {
            prev
        }
    }
}

/// The tasks that the rows hold for `date`, in row order.
pub open spec fn day_tasks(rows: Seq<Row>, date: JulianDay) -> Seq<Task>
    decreases rows.len(),
{
    if rows.len() == 0 {
        Seq::empty()
    } else {
        let prev = day_tasks(rows.drop_last(), date);
        let row = rows.last();
        if row.0 == date {
            prev.push(
                Task { title: row.2, completion_level: CompletionLevel::from_code_spec(row.3).unwrap() },
            )
        } else {
            prev
        }
    }
}

/// Every row of the events table holds a valid importance, and each day's
/// rows come in index order `0, 1, 2, ...` with no gap.
pub open spec fn dense_events(rows: Seq<Row>) -> bool {
    forall|k: int|
        0 <= k < rows.len() ==> {
            &&& (#[trigger] rows[k]).1 == day_events(rows.take(k), rows[k].0).len()
            &&& Importance::from_code_spec(rows[k].3) is Some
        }
}

/// Every row of the tasks table holds a valid level, and each day's rows
/// come in index order `0, 1, 2, ...` with no gap.
pub open spec fn dense_tasks(rows: Seq<Row>) -> bool {
    forall|k: int|
        0 <= k < rows.len() ==> {
            &&& (#[trigger] rows[k]).1 == day_tasks(rows.take(k), rows[k].0).len()
            &&& CompletionLevel::from_code_spec(rows[k].3) is Some
        }
}

/// The two tables of the durable layout.
#[derive(Debug, Clone, Copy, PartialEq, Eq, Structural)]
pub enum Table {
    Events,
    Tasks,
}

/// One statement sent to the database. Each names its table and, where it
/// has them, the date, index and tag code bound to it; the statement text is
/// the constant of the same name for that table.
#[derive(Debug, Clone, Copy, PartialEq, Eq, Structural)]
pub enum Stmt {
    Begin,
    Commit,
    Rollback,
    /// `UP_FLIP`: rows of the date from the index on go to `-index - 1`.
    UpFlip(Table, i32, i32),
    /// `UP_SETTLE`: rows of the date at or below `-index - 1` go to `-index`.
    UpSettle(Table, i32, i32),
    /// `DOWN_FLIP`: rows of the date above the index go to `-index`.
    DownFlip(Table, i32, i32),
    /// `DOWN_SETTLE`: rows of the date at or below `-index - 1` go to
    /// `-index - 1`.
    DownSettle(Table, i32, i32),
    /// `DELETE`: the row of the date and index goes.
    DeleteRow(Table, i32, i32),
    /// `INSERT`: a row with an empty title and the tag code.
    InsertRow(Table, i32, i32, i32),
    /// `UPDATE`: the row gets the title sent with the plan and the tag code.
    UpdateRow(Table, i32, i32, i32),
}

/// The statements that put a blank row in at `index` of `date`.
pub open spec fn insert_plan_spec(table: Table, date: i32, index: i32, code: i32) -> Seq<Stmt> {
    seq![
        Stmt::Begin,
        Stmt::UpFlip(table, date, index),
        Stmt::UpSettle(table, date, index),
        Stmt::InsertRow(table, date, index, code),
        Stmt::Commit,
    ]
}

/// The statements that take out the row at `index` of `date`.
pub open spec fn delete_plan_spec(table: Table, date: i32, index: i32) -> Seq<Stmt> {
    seq![
        Stmt::Begin,
        Stmt::DeleteRow(table, date, index),
        Stmt::DownFlip(table, date, index),
        Stmt::DownSettle(table, date, index),
        Stmt::Commit,
    ]
}

/// The statements that overwrite the row at `index` of `date`.
pub open spec fn update_plan_spec(table: Table, date: i32, index: i32, code: i32) -> Seq<Stmt> {
    seq![Stmt::Begin, Stmt::UpdateRow(table, date, index, code), Stmt::Commit]
}

/// What is sent when the statement at `k` of `plan` fails: the statements up
/// to it, then `Rollback`.
pub open spec fn attempted(plan: Seq<Stmt>, k: int) -> Seq<Stmt> {
    plan.take(k + 1).push(Stmt::Rollback)
}

/// `after` is `before` followed by the whole of `plan`, or by a failed
/// attempt at it.
pub open spec fn transmitted(before: Seq<Stmt>, after: Seq<Stmt>, plan: Seq<Stmt>) -> bool {
    ||| after == before + plan
    ||| exists|k: int| 0 <= k < plan.len() && after == before + attempted(plan, k)
}

pub fn insert_plan(table: Table, date: i32, index: i32, code: i32) -> (r: Vec<Stmt>)
    ensures
        r@ == insert_plan_spec(table, date, index, code),
{
    let mut r: Vec<Stmt> = Vec::new();
    r.push(Stmt::Begin);
    r.push(Stmt::UpFlip(table, date, index));
    r.push(Stmt::UpSettle(table, date, index));
    r.push(Stmt::InsertRow(table, date, index, code));
    r.push(Stmt::Commit);
    proof {
        assert(r@ =~= insert_plan_spec(table, date, index, code));
    }
    r
}

pub fn delete_plan(table: Table, date: i32, index: i32) -> (r: Vec<Stmt>)
    ensures
        r@ == delete_plan_spec(table, date, index),
{
    let mut r: Vec<Stmt> = Vec::new();
    r.push(Stmt::Begin);
    r.push(Stmt::DeleteRow(table, date, index));
    r.push(Stmt::DownFlip(table, date, index));
    r.push(Stmt::DownSettle(table, date, index));
    r.push(Stmt::Commit);
    proof {
        assert(r@ =~= delete_plan_spec(table, date, index));
    }
    r
}

pub fn update_plan(table: Table, date: i32, index: i32, code: i32) -> (r: Vec<Stmt>)
    ensures
        r@ == update_plan_spec(table, date, index, code),
{
    let mut r: Vec<Stmt> = Vec::new();
    r.push(Stmt::Begin);
    r.push(Stmt::UpdateRow(table, date, index, code));
    r.push(Stmt::Commit);
    proof {
        assert(r@ =~= update_plan_spec(table, date, index, code));
    }
    r
}

fn pick(table: Table, events: &'static str, tasks: &'static str) -> &'static str {
    match table {
        Table::Events => events,
        Table::Tasks => tasks,
    }
}

/// Sends one statement; `title` is bound where the statement takes one.
/// `true` where the database reports success.
fn send(conn: &mut SqliteConnection, stmt: Stmt, title: &str) -> bool {
    match stmt {
        Stmt::Begin => exec_plain(conn, BEGIN),
        Stmt::Commit => exec_plain(conn, COMMIT),
        Stmt::Rollback => exec_plain(conn, ROLLBACK),
        Stmt::UpFlip(t, d, i) => exec_keyed(conn, pick(t, EVENTS_UP_FLIP, TASKS_UP_FLIP), d, i),
        Stmt::UpSettle(t, d, i) => exec_keyed(
            conn,
            pick(t, EVENTS_UP_SETTLE, TASKS_UP_SETTLE),
            d,
            i,
        ),
        Stmt::DownFlip(t, d, i) => exec_keyed(
            conn,
            pick(t, EVENTS_DOWN_FLIP, TASKS_DOWN_FLIP),
            d,
            i,
        ),
        Stmt::DownSettle(t, d, i) => exec_keyed(
            conn,
            pick(t, EVENTS_DOWN_SETTLE, TASKS_DOWN_SETTLE),
            d,
            i,
        ),
        Stmt::DeleteRow(t, d, i) => exec_keyed(conn, pick(t, EVENTS_DELETE, TASKS_DELETE), d, i),
        Stmt::InsertRow(t, d, i, c) => exec_row(
            conn,
            pick(t, EVENTS_INSERT, TASKS_INSERT),
            d,
            i,
            "",
            c,
        ),
        Stmt::UpdateRow(t, d, i, c) => exec_row(
            conn,
            pick(t, EVENTS_UPDATE, TASKS_UPDATE),
            d,
            i,
            title,
            c,
        ),
    }
}

/// A plan that ends in `Commit` and a failed attempt at it differ.
proof fn lemma_attempt_is_not_plan(before: Seq<Stmt>, plan: Seq<Stmt>, k: int)
    requires
        plan.len() > 0,
        plan.last() == Stmt::Commit,
        0 <= k < plan.len(),
    ensures
        before + attempted(plan, k) != before + plan,
{
    let a = before + attempted(plan, k);
    let b = before + plan;
    assert(a.last() == Stmt::Rollback);
    assert(b.last() == Stmt::Commit);
}

/// The durable store: two tables `events` and `tasks` keyed by date and
/// index, mirrored in memory. Reads are served from the mirror, which holds
/// the rows read when the store was opened and every write committed since.
/// Each write sends its plan of statements as one transaction and, once it
/// is committed, makes the same change to the mirror. A failed statement is
/// rolled back and latches the fault, after which nothing more is sent.
pub struct SqliteModel {
    conn: SqliteConnection,
    mirror: MemModel,
    fault: bool,
    /// Every statement sent since the store was opened, in order.
    log: Ghost<Seq<Stmt>>,
}

impl SqliteModel {
    /// Opens the store on `sqlite_connection`, making its two tables where
    /// they are missing and reading them. Unless the fault is latched, what it
    /// holds is what some dense, well-tagged rows of the two tables hold.
    pub fn new(sqlite_connection: SqliteConnection) -> (r: Self)
        ensures
            r.sent().len() == 0,
            !r.faulted() ==> exists|ev: Seq<Row>, tk: Seq<Row>|
                #![trigger dense_events(ev), dense_tasks(tk)]
                {
                    &&& dense_events(ev)
                    &&& dense_tasks(tk)
                    &&& forall|d: JulianDay| #[trigger] r.events(d) == day_events(ev, d)
                    &&& forall|d: JulianDay| #[trigger] r.tasks(d) == day_tasks(tk, d)
                },
    {
        let mut conn = sqlite_connection;
        exec_plain(&mut conn, SCHEMA);
        let events = load_rows(&mut conn, LOAD_EVENTS);
        let tasks = load_rows(&mut conn, LOAD_TASKS);
        match (events, tasks) {
            (Some(event_rows), Some(task_rows)) => {
                let r = SqliteModel::from_rows(conn, &event_rows, &task_rows);
                proof {
                    if !r.faulted() {
                        assert(dense_events(event_rows@) && dense_tasks(task_rows@));
                    }
                }
                r
            },
            _ => SqliteModel { conn, mirror: MemModel::new(), fault: true, log: Ghost(Seq::empty()) },
        }
    }

    /// Every statement the store has sent since it was opened, in order.
    pub closed spec fn sent(&self) -> Seq<Stmt> {
        self.log@
    }

    /// Sends the statements of `plan` in order, stopping at the first that
    /// fails and then sending `Rollback`; `true` once all of them succeeded.
    fn run(&mut self, plan: &Vec<Stmt>, title: &str) -> (committed: bool)
        ensures
            final(self).mirror == old(self).mirror,
            final(self).fault == old(self).fault,
            committed ==> final(self).log@ == old(self).log@ + plan@,
            !committed ==> exists|k: int|
                0 <= k < plan@.len() && final(self).log@ == old(self).log@ + attempted(plan@, k),
    {
        let mut i: usize = 0;
        while i < plan.len()
            invariant
                i <= plan@.len(),
                self.log@ == old(self).log@ + plan@.take(i as int),
                self.mirror == old(self).mirror,
                self.fault == old(self).fault,
            decreases plan@.len() - i,
        {
            let stmt = plan[i];
            let ok = send(&mut self.conn, stmt, title);
            self.log = Ghost(self.log@.push(stmt));
            proof {
                assert(plan@.take(i + 1) =~= plan@.take(i as int).push(stmt));
            }
            if !ok {
                send(&mut self.conn, Stmt::Rollback, "");
                self.log = Ghost(self.log@.push(Stmt::Rollback));
                proof {
                    assert(self.log@ =~= old(self).log@ + attempted(plan@, i as int));
                }
                return false;
            }
            i = i + 1;
        }
        proof {
            assert(plan@.take(i as int) =~= plan@);
        }
        true
    }

    /// Closes the store, handing back its connection.
    pub fn into_connection(self) -> SqliteConnection {
        self.conn
    }

    /// The store over `conn` whose tables hold `event_rows` and `task_rows`,
    /// each ordered by date and index. Rows that skip or repeat an index, or
    /// hold a tag outside its enum, latch the fault.
    pub fn from_rows(conn: SqliteConnection, event_rows: &Vec<Row>, task_rows: &Vec<Row>) -> (r:
        Self)
        ensures
            !r.faulted() <==> dense_events(event_rows@) && dense_tasks(task_rows@),
            !r.faulted() ==> forall|d: JulianDay| #[trigger]
                r.events(d) == day_events(event_rows@, d),
            !r.faulted() ==> forall|d: JulianDay| #[trigger]
                r.tasks(d) == day_tasks(task_rows@, d),
            r.sent().len() == 0,
    {
        let mut mirror = MemModel::new();
        let mut k: usize = 0;
        while k < event_rows.len()
            invariant
                k <= event_rows@.len(),
                forall|j: int| 0 <= j < k ==> {
                    &&& (#[trigger] event_rows@[j]).1 == day_events(event_rows@.take(j), event_rows@[j].0).len()
                    &&& Importance::from_code_spec(event_rows@[j].3) is Some
                },
                forall|d: JulianDay| #[trigger] mirror.events(d) == day_events(event_rows@.take(k as int), d),
                forall|d: JulianDay| #[trigger] mirror.tasks(d).len() == 0,
            decreases event_rows@.len() - k,
        {
            let date = event_rows[k].0;
            let index = event_rows[k].1;
            let code = event_rows[k].3;
            let len = mirror.events_len(date);
            let importance = match Importance::from_code(code) {
                Some(i) => i,
                None => {
                    return SqliteModel { conn, mirror: MemModel::new(), fault: true, log: Ghost(Seq::empty()) };
                },
            };
            if index < 0 || index as usize != len {
                return SqliteModel { conn, mirror: MemModel::new(), fault: true, log: Ghost(Seq::empty()) };
            }
            let ghost before = mirror;
            mirror.push_event(date, Event { title: event_rows[k].2.clone(), importance });
            proof {
                let next = event_rows@.take(k + 1);
                assert(next.drop_last() =~= event_rows@.take(k as int));
                assert(next.last() == event_rows@[k as int]);
                assert forall|d: JulianDay| #[trigger]
                    mirror.events(d) == day_events(next, d) by {
                    if d != date {
                        assert(mirror.events(d) == before.events(d));
                    }
                }
            }
            k = k + 1;
        }
        proof {
            assert(event_rows@.take(k as int) =~= event_rows@);
        }
        k = 0;
        while k < task_rows.len()
            invariant
                k <= task_rows@.len(),
                dense_events(event_rows@),
                forall|j: int| 0 <= j < k ==> {
                    &&& (#[trigger] task_rows@[j]).1 == day_tasks(task_rows@.take(j), task_rows@[j].0).len()
                    &&& CompletionLevel::from_code_spec(task_rows@[j].3) is Some
                },
                forall|d: JulianDay| #[trigger] mirror.events(d) == day_events(event_rows@, d),
                forall|d: JulianDay| #[trigger] mirror.tasks(d) == day_tasks(task_rows@.take(k as int), d),
            decreases task_rows@.len() - k,
        {
            let date = task_rows[k].0;
            let index = task_rows[k].1;
            let code = task_rows[k].3;
            let len = mirror.tasks_len(date);
            let level = match CompletionLevel::from_code(code) {
                Some(l) => l,
                None => {
                    return SqliteModel { conn, mirror: MemModel::new(), fault: true, log: Ghost(Seq::empty()) };
                },
            };
            if index < 0 || index as usize != len {
                return SqliteModel { conn, mirror: MemModel::new(), fault: true, log: Ghost(Seq::empty()) };
            }
            let ghost before = mirror;
            mirror.push_task(date, Task { title: task_rows[k].2.clone(), completion_level: level });
            proof {
                let next = task_rows@.take(k + 1);
                assert(next.drop_last() =~= task_rows@.take(k as int));
                assert(next.last() == task_rows@[k as int]);
                assert forall|d: JulianDay| #[trigger]
                    mirror.tasks(d) == day_tasks(next, d) by {
                    if d != date {
                        assert(mirror.tasks(d) == before.tasks(d));
                    }
                }
            }
            k = k + 1;
        }
        proof {
            assert(task_rows@.take(k as int) =~= task_rows@);
        }
        SqliteModel { conn, mirror, fault: false, log: Ghost(Seq::empty()) }
    }
}

impl Model for SqliteModel {
    closed spec fn events(&self, date: JulianDay) -> Seq<Event> {
        if self.fault {
            Seq::empty()
        } else {
            self.mirror.events(date)
        }
    }

    closed spec fn tasks(&self, date: JulianDay) -> Seq<Task> {
        if self.fault {
            Seq::empty()
        } else {
            self.mirror.tasks(date)
        }
    }

    closed spec fn faulted(&self) -> bool {
        self.fault
    }

    proof fn lemma_fault_empties(&self, date: JulianDay) {
    }

    fn new_event(&mut self, date: JulianDay, index: usize) -> (r: Result<(), StoreError>)
        ensures
            old(self).faulted() || index > old(self).events(date).len() ==> final(self).sent()
                == old(self).sent() && final(self).faulted() == old(self).faulted(),
            !old(self).faulted() && index <= old(self).events(date).len() && old(self).events(
                date,
            ).len() >= i32::MAX ==> final(self).faulted() && final(self).sent() == old(self).sent(),
            !old(self).faulted() && index <= old(self).events(date).len() && old(self).events(
                date,
            ).len() < i32::MAX ==> {
                let plan = insert_plan_spec(Table::Events, date, index as i32, Importance::Normal.code_of());
                &&& transmitted(old(self).sent(), final(self).sent(), plan)
                &&& !final(self).faulted() <==> final(self).sent() == old(self).sent() + plan
            },
    {
        if self.fault {
            return if index == 0 {
                Ok(())
            } else {
                Err(StoreError::IndexOutOfBounds)
            };
        }
        let len = self.mirror.events_len(date);
        if index > len {
            return Err(StoreError::IndexOutOfBounds);
        }
        if len >= i32::MAX as usize {
            // the index column cannot number another row
            self.fault = true;
            return Ok(());
        }
        let plan = insert_plan(Table::Events, date, index as i32, Importance::Normal.code());
        if self.run(&plan, "") {
            let _ = self.mirror.new_event(date, index);
        } else {
            self.fault = true;
            proof {
                let k = choose|k: int|
                    0 <= k < plan@.len() && self.log@ == old(self).log@ + attempted(plan@, k);
                lemma_attempt_is_not_plan(old(self).log@, plan@, k);
            }
        }
        Ok(())
    }

    fn new_task(&mut self, date: JulianDay, index: usize) -> (r: Result<(), StoreError>)
        ensures
            old(self).faulted() || index > old(self).tasks(date).len() ==> final(self).sent()
                == old(self).sent() && final(self).faulted() == old(self).faulted(),
            !old(self).faulted() && index <= old(self).tasks(date).len() && old(self).tasks(
                date,
            ).len() >= i32::MAX ==> final(self).faulted() && final(self).sent() == old(self).sent(),
            !old(self).faulted() && index <= old(self).tasks(date).len() && old(self).tasks(
                date,
            ).len() < i32::MAX ==> {
                let plan = insert_plan_spec(Table::Tasks, date, index as i32, CompletionLevel::NotStarted.code_of());
                &&& transmitted(old(self).sent(), final(self).sent(), plan)
                &&& !final(self).faulted() <==> final(self).sent() == old(self).sent() + plan
            },
    {
        if self.fault {
            return if index == 0 {
                Ok(())
            } else {
                Err(StoreError::IndexOutOfBounds)
            };
        }
        let len = self.mirror.tasks_len(date);
        if index > len {
            return Err(StoreError::IndexOutOfBounds);
        }
        if len >= i32::MAX as usize {
            // the index column cannot number another row
            self.fault = true;
            return Ok(());
        }
        let plan = insert_plan(Table::Tasks, date, index as i32, CompletionLevel::NotStarted.code());
        if self.run(&plan, "") {
            let _ = self.mirror.new_task(date, index);
        } else {
            self.fault = true;
            proof {
                let k = choose|k: int|
                    0 <= k < plan@.len() && self.log@ == old(self).log@ + attempted(plan@, k);
                lemma_attempt_is_not_plan(old(self).log@, plan@, k);
            }
        }
        Ok(())
    }

    fn delete_event(&mut self, date: JulianDay, index: usize) -> (r: Result<(), StoreError>)
        ensures
            old(self).faulted() || index >= old(self).events(date).len() ==> final(self).sent()
                == old(self).sent() && final(self).faulted() == old(self).faulted(),
            !old(self).faulted() && index < old(self).events(date).len() && index > i32::MAX
                ==> final(self).faulted() && final(self).sent() == old(self).sent(),
            !old(self).faulted() && index < old(self).events(date).len() && index <= i32::MAX ==> {
                let plan = delete_plan_spec(Table::Events, date, index as i32);
                &&& transmitted(old(self).sent(), final(self).sent(), plan)
                &&& !final(self).faulted() <==> final(self).sent() == old(self).sent() + plan
            },
    {
        if self.fault {
            return Err(StoreError::IndexOutOfBounds);
        }
        if index >= self.mirror.events_len(date) {
            return Err(StoreError::IndexOutOfBounds);
        }
        if index > i32::MAX as usize {
            self.fault = true;
            return Ok(());
        }
        let plan = delete_plan(Table::Events, date, index as i32);
        if self.run(&plan, "") {
            let _ = self.mirror.delete_event(date, index);
        } else {
            self.fault = true;
            proof {
                let k = choose|k: int|
                    0 <= k < plan@.len() && self.log@ == old(self).log@ + attempted(plan@, k);
                lemma_attempt_is_not_plan(old(self).log@, plan@, k);
            }
        }
        Ok(())
    }

    fn delete_task(&mut self, date: JulianDay, index: usize) -> (r: Result<(), StoreError>)
        ensures
            old(self).faulted() || index >= old(self).tasks(date).len() ==> final(self).sent()
                == old(self).sent() && final(self).faulted() == old(self).faulted(),
            !old(self).faulted() && index < old(self).tasks(date).len() && index > i32::MAX
                ==> final(self).faulted() && final(self).sent() == old(self).sent(),
            !old(self).faulted() && index < old(self).tasks(date).len() && index <= i32::MAX ==> {
                let plan = delete_plan_spec(Table::Tasks, date, index as i32);
                &&& transmitted(old(self).sent(), final(self).sent(), plan)
                &&& !final(self).faulted() <==> final(self).sent() == old(self).sent() + plan
            },
    {
        if self.fault {
            return Err(StoreError::IndexOutOfBounds);
        }
        if index >= self.mirror.tasks_len(date) {
            return Err(StoreError::IndexOutOfBounds);
        }
        if index > i32::MAX as usize {
            self.fault = true;
            return Ok(());
        }
        let plan = delete_plan(Table::Tasks, date, index as i32);
        if self.run(&plan, "") {
            let _ = self.mirror.delete_task(date, index);
        } else {
            self.fault = true;
            proof {
                let k = choose|k: int|
                    0 <= k < plan@.len() && self.log@ == old(self).log@ + attempted(plan@, k);
                lemma_attempt_is_not_plan(old(self).log@, plan@, k);
            }
        }
        Ok(())
    }

    fn get_event(&self, date: JulianDay, index: usize) -> (r: Result<Event, StoreError>) {
        if self.fault {
            Err(StoreError::IndexOutOfBounds)
        } else {
            self.mirror.get_event(date, index)
        }
    }

    fn get_task(&self, date: JulianDay, index: usize) -> (r: Result<Task, StoreError>) {
        if self.fault {
            Err(StoreError::IndexOutOfBounds)
        } else {
            self.mirror.get_task(date, index)
        }
    }

    fn replace_event(&mut self, date: JulianDay, index: usize, event: Event) -> (r: Result<
        (),
        StoreError,
    >)
        ensures
            old(self).faulted() || index >= old(self).events(date).len() ==> final(self).sent()
                == old(self).sent() && final(self).faulted() == old(self).faulted(),
            !old(self).faulted() && index < old(self).events(date).len() && index > i32::MAX
                ==> final(self).faulted() && final(self).sent() == old(self).sent(),
            !old(self).faulted() && index < old(self).events(date).len() && index <= i32::MAX ==> {
                let plan = update_plan_spec(Table::Events, date, index as i32, event.importance.code_of());
                &&& transmitted(old(self).sent(), final(self).sent(), plan)
                &&& !final(self).faulted() <==> final(self).sent() == old(self).sent() + plan
            },
    {
        if self.fault {
            return Err(StoreError::IndexOutOfBounds);
        }
        if index >= self.mirror.events_len(date) {
            return Err(StoreError::IndexOutOfBounds);
        }
        if index > i32::MAX as usize {
            self.fault = true;
            return Ok(());
        }
        let plan = update_plan(Table::Events, date, index as i32, event.importance.code());
        if self.run(&plan, event.title.as_str()) {
            let _ = self.mirror.replace_event(date, index, event);
        } else {
            self.fault = true;
            proof {
                let k = choose|k: int|
                    0 <= k < plan@.len() && self.log@ == old(self).log@ + attempted(plan@, k);
                lemma_attempt_is_not_plan(old(self).log@, plan@, k);
            }
        }
        Ok(())
    }

    fn replace_task(&mut self, date: JulianDay, index: usize, task: Task) -> (r: Result<
        (),
        StoreError,
    >)
        ensures
            old(self).faulted() || index >= old(self).tasks(date).len() ==> final(self).sent()
                == old(self).sent() && final(self).faulted() == old(self).faulted(),
            !old(self).faulted() && index < old(self).tasks(date).len() && index > i32::MAX
                ==> final(self).faulted() && final(self).sent() == old(self).sent(),
            !old(self).faulted() && index < old(self).tasks(date).len() && index <= i32::MAX ==> {
                let plan = update_plan_spec(Table::Tasks, date, index as i32, task.completion_level.code_of());
                &&& transmitted(old(self).sent(), final(self).sent(), plan)
                &&& !final(self).faulted() <==> final(self).sent() == old(self).sent() + plan
            },
    {
        if self.fault {
            return Err(StoreError::IndexOutOfBounds);
        }
        if index >= self.mirror.tasks_len(date) {
            return Err(StoreError::IndexOutOfBounds);
        }
        if index > i32::MAX as usize {
            self.fault = true;
            return Ok(());
        }
        let plan = update_plan(Table::Tasks, date, index as i32, task.completion_level.code());
        if self.run(&plan, task.title.as_str()) {
            let _ = self.mirror.replace_task(date, index, task);
        } else {
            self.fault = true;
            proof {
                let k = choose|k: int|
                    0 <= k < plan@.len() && self.log@ == old(self).log@ + attempted(plan@, k);
                lemma_attempt_is_not_plan(old(self).log@, plan@, k);
            }
        }
        Ok(())
    }

    fn events_len(&self, date: JulianDay) -> (r: usize) {
        if self.fault {
            0
        } else {
            self.mirror.events_len(date)
        }
    }

    fn tasks_len(&self, date: JulianDay) -> (r: usize) {
        if self.fault {
            0
        } else {
            self.mirror.tasks_len(date)
        }
    }

    fn events_iter(&self, date: JulianDay) -> (r: Vec<Event>) {
        if self.fault {
            Vec::new()
        } else {
            self.mirror.events_iter(date)
        }
    }

    fn tasks_iter(&self, date: JulianDay) -> (r: Vec<Task>) {
        if self.fault {
            Vec::new()
        } else {
            self.mirror.tasks_iter(date)
        }
    }

    fn err(&self) -> (r: Result<(), StoreFault>) {
        if self.fault {
            Err(StoreFault)
        } else {
            Ok(())
        }
    }
}

} // verus!
