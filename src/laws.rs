use vstd::prelude::*;

use crate::store::{blank_event_at, blank_task_at, Model};
use crate::sqlite_model::{delete_plan_spec, insert_plan_spec, transmitted, Stmt, Table};
use crate::view::{in_range, others_kept, Selection, View};
use crate::JulianDay;

verus! {

/// `new_event(date, index)` then `delete_event(date, index)`, both `Ok`, the
/// store still sound at the end: every list of every day is as it was
/// before. The other requirements are what the two contracts give.
pub proof fn lemma_event_insert_delete_inverse<M: Model>(
    m0: M,
    m1: M,
    m2: M,
    date: JulianDay,
    index: usize,
)
    requires
        index <= m0.events(date).len(),
        !m1.faulted() ==> blank_event_at(m1.events(date), m0.events(date), index as int),
        !m1.faulted() ==> m1.tasks(date) == m0.tasks(date),
        !m1.faulted() ==> others_kept(m0, m1, date),
        m1.faulted() ==> m2.faulted(),
        index < m1.events(date).len(),
        !m2.faulted() ==> m2.events(date) == m1.events(date).remove(index as int),
        !m2.faulted() ==> m2.tasks(date) == m1.tasks(date),
        !m2.faulted() ==> others_kept(m1, m2, date),
        !m2.faulted(),
    ensures
        m2.events(date) == m0.events(date),
        m2.events(date).len() == m0.events(date).len(),
        m2.tasks(date) == m0.tasks(date),
        others_kept(m0, m2, date),
{
}

/// `new_task(date, index)` then `delete_task(date, index)`, both `Ok`, the
/// store still sound at the end: every list of every day is as it was.
pub proof fn lemma_task_insert_delete_inverse<M: Model>(
    m0: M,
    m1: M,
    m2: M,
    date: JulianDay,
    index: usize,
)
    requires
        index <= m0.tasks(date).len(),
        !m1.faulted() ==> blank_task_at(m1.tasks(date), m0.tasks(date), index as int),
        !m1.faulted() ==> m1.events(date) == m0.events(date),
        !m1.faulted() ==> others_kept(m0, m1, date),
        m1.faulted() ==> m2.faulted(),
        index < m1.tasks(date).len(),
        !m2.faulted() ==> m2.tasks(date) == m1.tasks(date).remove(index as int),
        !m2.faulted() ==> m2.events(date) == m1.events(date),
        !m2.faulted() ==> others_kept(m1, m2, date),
        !m2.faulted(),
    ensures
        m2.tasks(date) == m0.tasks(date),
        m2.tasks(date).len() == m0.tasks(date).len(),
        m2.events(date) == m0.events(date),
        others_kept(m0, m2, date),
{
}

/// Entering edit mode, typing `c` at the end of the title and deleting it
/// again gives back the title as it was, with the cursor at its end.
pub proof fn lemma_edit_round_trip<M: Model>(
    start: View<M>,
    editing: View<M>,
    typed: View<M>,
    erased: View<M>,
    c: char,
)
    requires
        start.wf(),
        start.active(),
        start.sel() is Some,
        start.title_of(start.sel().unwrap()).len() < usize::MAX,
        View::entered_edit(&start, &editing),
        View::inserted_char(&editing, &typed, c),
        View::deleted_char(&typed, &erased),
        !erased.faulted(),
    ensures
        erased.sel() == start.sel(),
        erased.title_of(start.sel().unwrap()) == start.title_of(start.sel().unwrap()),
        erased.cursor() == editing.cursor(),
{
    let s = start.sel().unwrap();
    let t = start.title_of(s);
    let k = t.len() as usize;
    assert(editing.cursor() == Some(k));
    assert(!typed.faulted());
    assert(typed.title_of(s) == t.insert(k as int, c)) by {
        match s {
            Selection::Events(i) => {},
            Selection::Tasks(i) => {},
        }
    }
    assert(erased.title_of(s) == t.insert(k as int, c).remove(k as int)) by {
        match s {
            Selection::Events(i) => {},
            Selection::Tasks(i) => {},
        }
    }
    assert(t.insert(k as int, c).remove(k as int) =~= t);
}

/// After a change of date or a deletion, the selection is either empty or
/// names an existing item of a list that is not empty.
pub proof fn lemma_selection_never_dangles<M: Model>(
    pre: View<M>,
    post: View<M>,
    date: JulianDay,
)
    requires
        pre.wf(),
        View::moved_to(&pre, &post, date) || View::deleted_selected(&pre, &post),
        !post.faulted(),
    ensures
        in_range(post.sel(), post.events_now().len(), post.tasks_now().len()),
        post.sel() matches Some(Selection::Events(i)) ==> i < post.events_now().len(),
        post.sel() matches Some(Selection::Tasks(i)) ==> i < post.tasks_now().len(),
{
}

/// The key of a stored row: its date and its index.
pub type RowKey = (JulianDay, int);

/// The rows of day `d` in `keys` hold the indices `0 .. n`, each exactly once.
pub open spec fn dense_day(keys: Seq<RowKey>, d: JulianDay, n: nat) -> bool {
    &&& forall|j: int| 0 <= j < keys.len() && (#[trigger] keys[j]).0 == d ==> 0 <= keys[j].1 < n
    &&& forall|j1: int, j2: int|
        0 <= j1 < keys.len() && 0 <= j2 < keys.len() && j1 != j2 && (#[trigger] keys[j1]).0 == d
            && (#[trigger] keys[j2]).0 == d ==> keys[j1].1 != keys[j2].1
    &&& forall|k: int| 0 <= k < n ==> #[trigger] has_key(keys, d, k)
}

pub open spec fn has_key(keys: Seq<RowKey>, d: JulianDay, k: int) -> bool {
    exists|j: int| 0 <= j < keys.len() && keys[j] == (d, k)
}

/// No two rows of day `d` share an index.
pub open spec fn unique_day(keys: Seq<RowKey>, d: JulianDay) -> bool {
    forall|j1: int, j2: int|
        0 <= j1 < keys.len() && 0 <= j2 < keys.len() && j1 != j2 && (#[trigger] keys[j1]).0 == d
            && (#[trigger] keys[j2]).0 == d ==> keys[j1].1 != keys[j2].1
}

/// The condition on the index in the `WHERE` clause of an update.
pub enum Cond {
    AtLeast(int),
    Above(int),
    AtMost(int),
}

pub open spec fn holds(cond: Cond, x: int) -> bool {
    match cond {
        Cond::AtLeast(b) => x >= b,
        Cond::Above(b) => x > b,
        Cond::AtMost(b) => x <= b,
    }
}

/// A statement `SET index = -index - off WHERE date = d AND <cond>` run over
/// every row.
pub open spec fn negate_where(keys: Seq<RowKey>, d: JulianDay, cond: Cond, off: int) -> Seq<
    RowKey,
> {
    keys.map_values(
        |key: RowKey| if key.0 == d && holds(cond, key.1) { (d, -key.1 - off) } else { key },
    )
}

/// The keys after the insert at index `i` of day `d`: the up-flip (rows from
/// `i` on go to `-index - 1`), the up-settle (rows at or below `-i - 1` go to
/// `-index`), then the new row `(d, i)`.
pub open spec fn keys_after_insert(keys: Seq<RowKey>, d: JulianDay, i: int) -> Seq<RowKey> {
    let flipped = negate_where(keys, d, Cond::AtLeast(i), 1);
    negate_where(flipped, d, Cond::AtMost(-i - 1), 0).push((d, i))
}

/// The keys after the delete of row `p`, of day `d` and index `i`: the row
/// goes, then the down-flip (rows above `i` go to `-index`) and the
/// down-settle (rows at or below `-i - 1` go to `-index - 1`).
pub open spec fn keys_after_delete(keys: Seq<RowKey>, d: JulianDay, p: int, i: int) -> Seq<RowKey> {
    let flipped = negate_where(keys.remove(p), d, Cond::Above(i), 0);
    negate_where(flipped, d, Cond::AtMost(-i - 1), 1)
}

/// Inserting at index `i` of a day whose rows hold `0 .. n` leaves them
/// holding `0 .. n + 1`; no two rows of the day share an index after either
/// update, and the rows of other days are not touched.
pub proof fn lemma_insert_keeps_density(keys: Seq<RowKey>, d: JulianDay, n: nat, i: int)
    requires
        dense_day(keys, d, n),
        0 <= i <= n,
    ensures
        dense_day(keys_after_insert(keys, d, i), d, n + 1),
        unique_day(negate_where(keys, d, Cond::AtLeast(i), 1), d),
        forall|j: int|
            0 <= j < keys.len() && keys[j].0 != d ==> #[trigger] keys_after_insert(keys, d, i)[j]
                == keys[j],
{
    let flipped = negate_where(keys, d, Cond::AtLeast(i), 1);
    let settled = negate_where(flipped, d, Cond::AtMost(-i - 1), 0);
    let out = keys_after_insert(keys, d, i);
    assert(out.len() == keys.len() + 1);
    assert forall|j: int| 0 <= j < keys.len() implies #[trigger] out[j] == (if keys[j].0 == d
        && keys[j].1 >= i {
        (d, keys[j].1 + 1)
    } else {
        keys[j]
    }) by {
        assert(out[j] == settled[j]);
        assert(settled[j] == (if flipped[j].0 == d && flipped[j].1 <= -i - 1 {
            (d, -flipped[j].1)
        } else {
            flipped[j]
        }));
    }
    assert(out[keys.len() as int] == (d, i));
    assert forall|j1: int, j2: int|
        0 <= j1 < flipped.len() && 0 <= j2 < flipped.len() && j1 != j2 && (#[trigger] flipped[j1]).0
            == d && (#[trigger] flipped[j2]).0 == d implies flipped[j1].1 != flipped[j2].1 by {
        assert(keys[j1].0 == d && keys[j2].0 == d);
    }
    assert forall|k: int| 0 <= k < n + 1 implies #[trigger] has_key(out, d, k) by {
        if k < i {
            assert(has_key(keys, d, k));
            let j = choose|j: int| 0 <= j < keys.len() && keys[j] == (d, k);
            assert(out[j] == (d, k));
        } else if k == i {
            assert(out[keys.len() as int] == (d, k));
        } else {
            assert(has_key(keys, d, k - 1));
            let j = choose|j: int| 0 <= j < keys.len() && keys[j] == (d, k - 1);
            assert(out[j] == (d, k));
        }
    }
    assert forall|j1: int, j2: int|
        0 <= j1 < out.len() && 0 <= j2 < out.len() && j1 != j2 && (#[trigger] out[j1]).0 == d
            && (#[trigger] out[j2]).0 == d implies out[j1].1 != out[j2].1 by {
        if j1 < keys.len() && j2 < keys.len() {
            assert(keys[j1].0 == d && keys[j2].0 == d);
        } else if j1 < keys.len() {
            assert(keys[j1].0 == d);
        } else {
            assert(keys[j2].0 == d);
        }
    }
}

/// Deleting the row of index `i` of a day whose rows hold `0 .. n` leaves
/// them holding `0 .. n - 1`; no two rows of the day share an index after
/// either update, and the rows of other days keep their keys.
pub proof fn lemma_delete_keeps_density(
    keys: Seq<RowKey>,
    d: JulianDay,
    n: nat,
    p: int,
    i: int,
)
    requires
        dense_day(keys, d, n),
        0 <= p < keys.len(),
        keys[p] == (d, i),
    ensures
        0 <= i < n,
        dense_day(keys_after_delete(keys, d, p, i), d, (n - 1) as nat),
        unique_day(negate_where(keys.remove(p), d, Cond::Above(i), 0), d),
        forall|j: int|
            0 <= j < keys.len() - 1 && keys.remove(p)[j].0 != d ==> #[trigger] keys_after_delete(
                keys,
                d,
                p,
                i,
            )[j] == keys.remove(p)[j],
{
    let rest = keys.remove(p);
    let flipped = negate_where(rest, d, Cond::Above(i), 0);
    let out = keys_after_delete(keys, d, p, i);
    assert(keys[p].0 == d);
    assert(out.len() == rest.len());
    assert forall|j: int| 0 <= j < rest.len() implies rest[j] == keys[if j < p {
        j
    } else {
        j + 1
    }] by {}
    assert forall|j: int| 0 <= j < rest.len() implies #[trigger] out[j] == (if rest[j].0 == d
        && rest[j].1 > i {
        (d, rest[j].1 - 1)
    } else {
        rest[j]
    }) by {
        if rest[j].0 == d {
            let jj = if j < p {
                j
            } else {
                j + 1
            };
            assert(keys[jj].0 == d);
            assert(jj != p);
            assert(rest[j].1 != i);
        }
    }
    assert forall|j1: int, j2: int|
        0 <= j1 < flipped.len() && 0 <= j2 < flipped.len() && j1 != j2 && (#[trigger] flipped[j1]).0
            == d && (#[trigger] flipped[j2]).0 == d implies flipped[j1].1 != flipped[j2].1 by {
        let a = if j1 < p {
            j1
        } else {
            j1 + 1
        };
        let b = if j2 < p {
            j2
        } else {
            j2 + 1
        };
        assert(keys[a].0 == d && keys[b].0 == d);
    }
    assert forall|k: int| 0 <= k < n - 1 implies #[trigger] has_key(out, d, k) by {
        let kk = if k < i {
            k
        } else {
            k + 1
        };
        assert(has_key(keys, d, kk));
        let j = choose|j: int| 0 <= j < keys.len() && keys[j] == (d, kk);
        assert(j != p);
        let jr = if j < p {
            j
        } else {
            j - 1
        };
        assert(rest[jr] == keys[j]);
        assert(out[jr] == (d, k));
    }
    assert forall|j1: int, j2: int|
        0 <= j1 < out.len() && 0 <= j2 < out.len() && j1 != j2 && (#[trigger] out[j1]).0 == d
            && (#[trigger] out[j2]).0 == d implies out[j1].1 != out[j2].1 by {
        let a = if j1 < p {
            j1
        } else {
            j1 + 1
        };
        let b = if j2 < p {
            j2
        } else {
            j2 + 1
        };
        assert(keys[a].0 == d && keys[b].0 == d);
    }
    assert forall|j: int| 0 <= j < out.len() && (#[trigger] out[j]).0 == d implies 0 <= out[j].1 < n
        - 1 by {
        let a = if j < p {
            j
        } else {
            j + 1
        };
        assert(keys[a].0 == d);
        assert(a != p);
    }
}

/// Whether each step of `ops` addresses a valid index of a day that starts
/// with `n` rows: `(true, i)` inserts at `i <= n`, `(false, i)` deletes
/// `i < n`.
pub open spec fn ops_fit(n: int, ops: Seq<(bool, int)>) -> bool
    decreases ops.len(),
{
    if ops.len() == 0 {
        true
    } else if ops[0].0 {
        0 <= ops[0].1 <= n && ops_fit(n + 1, ops.drop_first())
    } else {
        0 <= ops[0].1 < n && ops_fit(n - 1, ops.drop_first())
    }
}

/// The number of rows of the day after `ops`.
pub open spec fn len_after_ops(n: int, ops: Seq<(bool, int)>) -> int
    decreases ops.len(),
{
    if ops.len() == 0 {
        n
    } else if ops[0].0 {
        len_after_ops(n + 1, ops.drop_first())
    } else {
        len_after_ops(n - 1, ops.drop_first())
    }
}

/// The keys after running `ops` on day `d`, each insert and delete as the
/// durable store runs it.
pub open spec fn keys_after_ops(keys: Seq<RowKey>, d: JulianDay, ops: Seq<(bool, int)>) -> Seq<
    RowKey,
>
    decreases ops.len(),
{
    if ops.len() == 0 {
        keys
    } else {
        let i = ops[0].1;
        let next = if ops[0].0 {
            keys_after_insert(keys, d, i)
        } else {
            let p = choose|p: int| 0 <= p < keys.len() && keys[p] == (d, i);
            keys_after_delete(keys, d, p, i)
        };
        keys_after_ops(next, d, ops.drop_first())
    }
}

/// After any sequence of valid inserts and deletes on day `d`, its rows hold
/// the indices `0 .. len`, each exactly once.
pub proof fn lemma_ops_keep_density(
    keys: Seq<RowKey>,
    d: JulianDay,
    n: nat,
    ops: Seq<(bool, int)>,
)
    requires
        dense_day(keys, d, n),
        ops_fit(n as int, ops),
    ensures
        len_after_ops(n as int, ops) >= 0,
        dense_day(keys_after_ops(keys, d, ops), d, len_after_ops(n as int, ops) as nat),
    decreases ops.len(),
{
    if ops.len() > 0 {
        let i = ops[0].1;
        if ops[0].0 {
            lemma_insert_keeps_density(keys, d, n, i);
            lemma_ops_keep_density(keys_after_insert(keys, d, i), d, n + 1, ops.drop_first());
        } else {
            assert(has_key(keys, d, i));
            let p = choose|p: int| 0 <= p < keys.len() && keys[p] == (d, i);
            lemma_delete_keeps_density(keys, d, n, p, i);
            lemma_ops_keep_density(
                keys_after_delete(keys, d, p, i),
                d,
                (n - 1) as nat,
                ops.drop_first(),
            );
        }
    }
}

/// What `stmt` does to the keys of `table`'s rows, as its SQL text says;
/// statements on the other table, and those that touch no key, leave them.
pub open spec fn stmt_keys(keys: Seq<RowKey>, table: Table, stmt: Stmt) -> Seq<RowKey> {
    match stmt {
        Stmt::UpFlip(t, d, i) => if t == table {
            negate_where(keys, d, Cond::AtLeast(i as int), 1)
        } else {
            keys
        },
        Stmt::UpSettle(t, d, i) => if t == table {
            negate_where(keys, d, Cond::AtMost(-i - 1), 0)
        } else {
            keys
        },
        Stmt::DownFlip(t, d, i) => if t == table {
            negate_where(keys, d, Cond::Above(i as int), 0)
        } else {
            keys
        },
        Stmt::DownSettle(t, d, i) => if t == table {
            negate_where(keys, d, Cond::AtMost(-i - 1), 1)
        } else {
            keys
        },
        Stmt::DeleteRow(t, d, i) => if t == table && has_key(keys, d, i as int) {
            keys.remove(choose|p: int| 0 <= p < keys.len() && keys[p] == (d, i as int))
        } else {
            keys
        },
        Stmt::InsertRow(t, d, i, _) => if t == table {
            keys.push((d, i as int))
        } else {
            keys
        },
        _ => keys,
    }
}

/// What the statements of `plan`, run in order, do to the keys of `table`.
pub open spec fn plan_keys(keys: Seq<RowKey>, table: Table, plan: Seq<Stmt>) -> Seq<RowKey>
    decreases plan.len(),
{
    if plan.len() == 0 {
        keys
    } else {
        plan_keys(stmt_keys(keys, table, plan[0]), table, plan.drop_first())
    }
}

/// The keys of `table` once a transaction for `plan` has ended, the log of
/// sent statements having gone from `before` to `after`: all of the plan if
/// it was sent whole and so committed, none of it if it was rolled back.
pub open spec fn outcome_keys(
    keys: Seq<RowKey>,
    table: Table,
    plan: Seq<Stmt>,
    before: Seq<Stmt>,
    after: Seq<Stmt>,
) -> Seq<RowKey> {
    if after == before + plan {
        plan_keys(keys, table, plan)
    } else {
        keys
    }
}

proof fn lemma_plan_keys_five(keys: Seq<RowKey>, table: Table, plan: Seq<Stmt>)
    requires
        plan.len() == 5,
    ensures
        plan_keys(keys, table, plan) == stmt_keys(
            stmt_keys(
                stmt_keys(stmt_keys(stmt_keys(keys, table, plan[0]), table, plan[1]), table, plan[2]),
                table,
                plan[3],
            ),
            table,
            plan[4],
        ),
{
    let k1 = stmt_keys(keys, table, plan[0]);
    let k2 = stmt_keys(k1, table, plan[1]);
    let k3 = stmt_keys(k2, table, plan[2]);
    let k4 = stmt_keys(k3, table, plan[3]);
    let k5 = stmt_keys(k4, table, plan[4]);
    let p1 = plan.drop_first();
    let p2 = p1.drop_first();
    let p3 = p2.drop_first();
    let p4 = p3.drop_first();
    let p5 = p4.drop_first();
    assert(p5.len() == 0);
    assert(plan_keys(k5, table, p5) == k5);
    assert(plan_keys(k4, table, p4) == plan_keys(k5, table, p5));
    assert(plan_keys(k3, table, p3) == plan_keys(k4, table, p4));
    assert(plan_keys(k2, table, p2) == plan_keys(k3, table, p3));
    assert(plan_keys(k1, table, p1) == plan_keys(k2, table, p2));
}

/// The insert plan that the durable store sends for index `i` of day `d`,
/// on a table whose rows of `d` hold `0 .. n`: once its transaction ends,
/// committed or rolled back, those rows hold `0 .. n + 1` or still `0 .. n`,
/// never anything between; after the first update no two of them share an
/// index; rows of other days keep their keys.
pub proof fn lemma_insert_plan_keeps_density(
    keys: Seq<RowKey>,
    table: Table,
    d: i32,
    n: nat,
    i: i32,
    code: i32,
    before: Seq<Stmt>,
    after: Seq<Stmt>,
)
    requires
        dense_day(keys, d, n),
        0 <= i <= n,
        transmitted(before, after, insert_plan_spec(table, d, i, code)),
    ensures
        ({
            let plan = insert_plan_spec(table, d, i, code);
            let out = outcome_keys(keys, table, plan, before, after);
            &&& after == before + plan ==> dense_day(out, d, n + 1)
            &&& after != before + plan ==> out == keys
            &&& unique_day(plan_keys(keys, table, plan.take(2)), d)
            &&& forall|j: int|
                0 <= j < keys.len() && keys[j].0 != d ==> #[trigger] out[j] == keys[j]
        }),
{
    let plan = insert_plan_spec(table, d, i, code);
    lemma_plan_keys_five(keys, table, plan);
    let ii = i as int;
    assert(plan_keys(keys, table, plan) =~= keys_after_insert(keys, d, ii));
    let t = plan.take(2);
    let t1 = t.drop_first();
    let flipped = stmt_keys(keys, table, plan[1]);
    assert(t[0] == Stmt::Begin);
    assert(stmt_keys(keys, table, t[0]) == keys);
    assert(t1[0] == plan[1]);
    assert(t1.drop_first().len() == 0);
    assert(plan_keys(flipped, table, t1.drop_first()) == flipped);
    assert(plan_keys(keys, table, t1) == flipped);
    assert(plan_keys(keys, table, t) == plan_keys(keys, table, t1));
    assert(flipped == negate_where(keys, d, Cond::AtLeast(ii), 1));
    lemma_insert_keeps_density(keys, d, n, ii);
}

/// The delete plan that the durable store sends for index `i` of day `d`,
/// on a table whose rows of `d` hold `0 .. n` with `i < n`: once its
/// transaction ends, committed or rolled back, those rows hold `0 .. n - 1`
/// or still `0 .. n`, never anything between.
pub proof fn lemma_delete_plan_keeps_density(
    keys: Seq<RowKey>,
    table: Table,
    d: i32,
    n: nat,
    i: i32,
    before: Seq<Stmt>,
    after: Seq<Stmt>,
)
    requires
        dense_day(keys, d, n),
        0 <= i < n,
        transmitted(before, after, delete_plan_spec(table, d, i)),
    ensures
        ({
            let plan = delete_plan_spec(table, d, i);
            let out = outcome_keys(keys, table, plan, before, after);
            &&& after == before + plan ==> dense_day(out, d, (n - 1) as nat)
            &&& after != before + plan ==> out == keys
        }),
{
    let plan = delete_plan_spec(table, d, i);
    lemma_plan_keys_five(keys, table, plan);
    let ii = i as int;
    assert(has_key(keys, d, ii));
    let p = choose|p: int| 0 <= p < keys.len() && keys[p] == (d, ii);
    assert(plan_keys(keys, table, plan) =~= keys_after_delete(keys, d, p, ii));
    lemma_delete_keeps_density(keys, d, n, p, ii);
}

} // verus!
