//! Requests that count views of one page at the same time.
//!
//! Each request runs the counter of `stats` against one table. The store
//! serves one operation at a time, in whatever order the requests come. A
//! lookup that finds the row locks it until the request has written, and a
//! lookup of a locked row waits. An insert that meets a row is refused.
//!
//! Whatever the order, and however many the requests: the page has one row,
//! the row counts the requests that are done, and a request fails only
//! where the counter is at its limit.

use vstd::prelude::*;
use crate::access::{Gate, PermissionDenied};
use crate::pages::{content_for, counting_for, two_phase_answer, PageText, ShellText};
use crate::request::RequestMode;
use crate::variant::RequestContext;
use crate::stats::{
    first_view_of,
    is_final,
    lemma_counting_ends,
    one_more_view,
    operations_left,
    step_after,
    CounterStep,
    PageStatEntry,
    PersistenceError,
};
use crate::table::{
    answer_of,
    counted,
    distinct_page_types,
    has_row,
    lemma_one_row_or_none,
    lemma_row_is_found,
    lemma_row_of_pushed,
    lemma_row_of_updated,
    row_index,
    row_of,
    rows_after,
    rows_with,
};

verus! {

/// The table, the requests that count views of `page_type`, and the request
/// that holds the lock of the row, if one does.
pub ghost struct World {
    pub page_type: i16,
    pub rows: Seq<PageStatEntry>,
    pub holder: Option<int>,
    pub steps: Seq<CounterStep>,
}

/// Whether request `i` waits for the lock of the row.
pub open spec fn waits(w: World, i: int) -> bool {
    w.steps[i] is Lookup && has_row(w.rows, w.page_type) && w.holder is Some
}

/// Whether the store can serve request `i` now.
pub open spec fn can_serve(w: World, i: int) -> bool {
    0 <= i < w.steps.len() && !is_final(w.steps[i]) && !waits(w, i)
}

/// The world after the store has served the next operation of request `i`.
pub open spec fn serve(w: World, i: int) -> World {
    let next = step_after(w.steps[i], answer_of(w.rows, w.steps[i]));
    World {
        page_type: w.page_type,
        rows: rows_after(w.rows, w.steps[i]),
        holder: if next is Update {
            Some(i)
        } else if w.holder == Some(i) {
            None
        } else {
            w.holder
        },
        steps: w.steps.update(i, next),
    }
}

/// The world after the store has gone through `schedule`, serving each
/// request named there that can be served at its turn.
pub open spec fn run(w: World, schedule: Seq<int>) -> World
    decreases schedule.len(),
{
    if schedule.len() == 0 {
        w
    } else {
        let before = run(w, schedule.drop_last());
        if can_serve(before, schedule.last()) {
            serve(before, schedule.last())
        } else {
            before
        }
    }
}

/// `n` requests that are about to count a view of `page_type`.
pub open spec fn arrivals(rows: Seq<PageStatEntry>, page_type: i16, n: nat) -> World {
    World {
        page_type,
        rows,
        holder: None,
        steps: Seq::new(n, |i: int| CounterStep::Lookup { page_type, retried: false }),
    }
}

/// How many of the requests are done.
pub open spec fn done_count(steps: Seq<CounterStep>) -> nat
    decreases steps.len(),
{
    if steps.len() == 0 {
        0
    } else if steps.last() is Done {
        done_count(steps.drop_last()) + 1
    } else {
        done_count(steps.drop_last())
    }
}

/// Whether all requests have ended.
pub open spec fn all_ended(steps: Seq<CounterStep>) -> bool {
    forall|i: int| 0 <= i < steps.len() ==> is_final(#[trigger] steps[i])
}

/// The row with `done` more views.
pub open spec fn with_views(row: PageStatEntry, done: nat) -> PageStatEntry {
    PageStatEntry { view_count: (row.view_count + done) as i32, ..row }
}

/// The row of the page after `done` of the requests are done: the row that
/// was there with `done` more views, or the row of `done` first views.
pub open spec fn row_after(start: Seq<PageStatEntry>, page_type: i16, done: nat) -> Option<
    PageStatEntry,
> {
    match row_of(start, page_type) {
        Some(row) => Some(with_views(row, done)),
        None => if done == 0 {
            None
        } else {
            Some(counted(page_type, done as int))
        },
    }
}

/// The table after `done` of the requests are done: the rows of the other
/// pages as they were, in their places.
pub open spec fn table_after(start: Seq<PageStatEntry>, page_type: i16, done: nat) -> Seq<
    PageStatEntry,
> {
    match row_of(start, page_type) {
        Some(row) => start.update(row_index(start, page_type), with_views(row, done)),
        None => if done == 0 {
            start
        } else {
            start.push(counted(page_type, done as int))
        },
    }
}

/// The views that the row held before the requests came.
pub open spec fn views_before(start: Seq<PageStatEntry>, page_type: i16) -> int {
    match row_of(start, page_type) {
        Some(row) => row.view_count as int,
        None => 0,
    }
}

/// What holds of one request while the row of the page is `row`.
pub open spec fn request_in_order(
    step: CounterStep,
    i: int,
    holder: Option<int>,
    page_type: i16,
    row: Option<PageStatEntry>,
) -> bool {
    match step {
        CounterStep::Lookup { page_type: asked, retried } => asked == page_type && (retried
            ==> row is Some),
        CounterStep::Insert { row: fresh } => fresh == first_view_of(page_type),
        CounterStep::Update { row: counted_up } => {
            &&& holder == Some(i)
            &&& row matches Some(current)
            &&& current.view_count < i32::MAX
            &&& counted_up == one_more_view(current)
        },
        CounterStep::Done { row: written } => true,
        CounterStep::Failed { error } => {
            &&& error == PersistenceError::CounterExhausted
            &&& row matches Some(current)
            &&& current.view_count == i32::MAX
        },
    }
}

/// What holds of the world at every moment: the row counts the requests
/// that are done, a request has failed only at the limit of the counter,
/// and the lock is held by the one request that is about to write.
pub open spec fn in_order(w: World, start: Seq<PageStatEntry>, n: nat) -> bool {
    &&& w.steps.len() == n
    &&& views_before(start, w.page_type) + done_count(w.steps) <= i32::MAX
    &&& w.rows == table_after(start, w.page_type, done_count(w.steps))
    &&& forall|i: int|
        0 <= i < n ==> request_in_order(
            #[trigger] w.steps[i],
            i,
            w.holder,
            w.page_type,
            row_after(start, w.page_type, done_count(w.steps)),
        )
    &&& w.holder matches Some(h) ==> 0 <= h < n && w.steps[h] is Update
}

proof fn lemma_done_count_after(steps: Seq<CounterStep>, i: int, next: CounterStep)
    requires
        0 <= i < steps.len(),
    ensures
        done_count(steps.update(i, next)) + (if steps[i] is Done {
            1nat
        } else {
            0nat
        }) == done_count(steps) + (if next is Done {
            1nat
        } else {
            0nat
        }),
    decreases steps.len(),
{
    let updated = steps.update(i, next);
    if i == steps.len() - 1 {
        assert(updated.drop_last() =~= steps.drop_last());
    } else {
        assert(updated.drop_last() =~= steps.drop_last().update(i, next));
        lemma_done_count_after(steps.drop_last(), i, next);
    }
}

proof fn lemma_done_count_bounds(steps: Seq<CounterStep>)
    ensures
        done_count(steps) <= steps.len(),
        (forall|i: int| 0 <= i < steps.len() ==> (#[trigger] steps[i]) is Done) ==> done_count(
            steps,
        ) == steps.len(),
        (exists|i: int| 0 <= i < steps.len() && !((#[trigger] steps[i]) is Done)) ==> done_count(
            steps,
        ) < steps.len(),
    decreases steps.len(),
{
    if steps.len() > 0 {
        let front = steps.drop_last();
        lemma_done_count_bounds(front);
        if forall|i: int| 0 <= i < steps.len() ==> (#[trigger] steps[i]) is Done {
            assert forall|i: int| 0 <= i < front.len() implies (#[trigger] front[i]) is Done by {
                assert(steps[i] is Done);
            }
            assert(steps[steps.len() - 1] is Done);
        }
        if exists|i: int| 0 <= i < steps.len() && !((#[trigger] steps[i]) is Done) {
            let k = choose|i: int| 0 <= i < steps.len() && !((#[trigger] steps[i]) is Done);
            if k < steps.len() - 1 {
                assert(!(front[k] is Done));
            }
        }
    }
}

proof fn lemma_nobody_done_at_arrival(n: nat, page_type: i16)
    ensures
        done_count(Seq::new(n, |i: int| CounterStep::Lookup { page_type, retried: false })) == 0,
    decreases n,
{
    let steps = Seq::new(n, |i: int| CounterStep::Lookup { page_type, retried: false });
    if n > 0 {
        assert(steps.drop_last() =~= Seq::new(
            (n - 1) as nat,
            |i: int| CounterStep::Lookup { page_type, retried: false },
        ));
        lemma_nobody_done_at_arrival((n - 1) as nat, page_type);
    }
}

/// The table after `done` requests holds the row after `done` requests as
/// the one row of the page, and the rows of the other pages as they were.
pub proof fn lemma_table_after(start: Seq<PageStatEntry>, page_type: i16, done: nat)
    requires
        distinct_page_types(start),
    ensures
        distinct_page_types(table_after(start, page_type, done)),
        row_of(table_after(start, page_type, done), page_type) == row_after(
            start,
            page_type,
            done,
        ),
        row_after(start, page_type, done) matches Some(row) ==> row.page_type == page_type,
        forall|other: i16|
            other != page_type ==> row_of(table_after(start, page_type, done), other) == row_of(
                start,
                other,
            ),
        rows_with(table_after(start, page_type, done), page_type) == if row_after(
            start,
            page_type,
            done,
        ) is Some {
            1nat
        } else {
            0nat
        },
{
    match row_of(start, page_type) {
        Some(row) => {
            let at = row_index(start, page_type);
            assert(start[at].page_type == page_type);
            lemma_row_of_updated(start, with_views(row, done));
        },
        None => {
            if done > 0 {
                lemma_row_of_pushed(start, counted(page_type, done as int));
            }
        },
    }
    lemma_one_row_or_none(table_after(start, page_type, done), page_type);
}

/// One more request done is one more view in the row of the page.
proof fn lemma_table_after_one_more(start: Seq<PageStatEntry>, page_type: i16, done: nat)
    requires
        distinct_page_types(start),
        views_before(start, page_type) + done < i32::MAX,
    ensures
        match row_after(start, page_type, done) {
            Some(row) => table_after(start, page_type, done).update(
                row_index(table_after(start, page_type, done), page_type),
                one_more_view(row),
            ) == table_after(start, page_type, done + 1) && row.view_count == views_before(
                start,
                page_type,
            ) + done,
            None => table_after(start, page_type, done).push(first_view_of(page_type))
                == table_after(start, page_type, done + 1),
        },
        row_after(start, page_type, done + 1) == match row_after(start, page_type, done) {
            Some(row) => Some(one_more_view(row)),
            None => Some(first_view_of(page_type)),
        },
{
    let table = table_after(start, page_type, done);
    lemma_table_after(start, page_type, done);
    match row_of(start, page_type) {
        Some(row) => {
            let at = row_index(start, page_type);
            assert(table[at] == with_views(row, done));
            lemma_row_is_found(table, at);
            assert(one_more_view(with_views(row, done)) == with_views(row, done + 1));
            assert(table.update(at, with_views(row, done + 1)) =~= start.update(
                at,
                with_views(row, done + 1),
            ));
        },
        None => {
            if done == 0 {
                assert(first_view_of(page_type) == counted(page_type, 1));
            } else {
                let at = start.len() as int;
                assert(table[at] == counted(page_type, done as int));
                lemma_row_is_found(table, at);
                assert(one_more_view(counted(page_type, done as int)) == counted(
                    page_type,
                    (done + 1) as int,
                ));
                assert(table.update(at, counted(page_type, (done + 1) as int)) =~= start.push(
                    counted(page_type, (done + 1) as int),
                ));
            }
        },
    }
}

/// Serving a request keeps the world in order.
proof fn lemma_serve_keeps_order(w: World, start: Seq<PageStatEntry>, n: nat, i: int)
    requires
        distinct_page_types(start),
        in_order(w, start, n),
        can_serve(w, i),
    ensures
        in_order(serve(w, i), start, n),
{
    let pt = w.page_type;
    let done = done_count(w.steps);
    let step = w.steps[i];
    let event = answer_of(w.rows, step);
    let next = step_after(step, event);
    let after = serve(w, i);
    let row = row_after(start, pt, done);
    assert(request_in_order(w.steps[i], i, w.holder, pt, row));
    lemma_done_count_after(w.steps, i, next);
    lemma_table_after(start, pt, done);
    assert(row_of(w.rows, pt) == row);
    assert(has_row(w.rows, pt) == (row is Some));
    match step {
        CounterStep::Lookup { page_type, retried } => {
            assert(done_count(after.steps) == done);
            assert(after.rows == w.rows);
            match row {
                Some(current) => {
                    assert(w.holder is None);
                    assert(event == crate::stats::StoreEvent::Found(current));
                    if current.view_count == i32::MAX {
                        assert(next == CounterStep::Failed {
                            error: PersistenceError::CounterExhausted,
                        });
                    } else {
                        assert(next == CounterStep::Update { row: one_more_view(current) });
                    }
                },
                None => {
                    assert(next == CounterStep::Insert { row: first_view_of(pt) });
                },
            }
        },
        CounterStep::Insert { row: fresh } => {
            match row {
                Some(current) => {
                    assert(next == CounterStep::Lookup { page_type: pt, retried: true });
                    assert(done_count(after.steps) == done);
                },
                None => {
                    assert(next is Done);
                    assert(done == 0);
                    lemma_table_after_one_more(start, pt, done);
                    assert(done_count(after.steps) == done + 1);
                },
            }
        },
        CounterStep::Update { row: counted_up } => {
            assert(next is Done);
            lemma_table_after_one_more(start, pt, done);
            assert(done_count(after.steps) == done + 1);
        },
        _ => {},
    }
    let row_then = row_after(start, pt, done_count(after.steps));
    assert forall|j: int| 0 <= j < n implies request_in_order(
        #[trigger] after.steps[j],
        j,
        after.holder,
        pt,
        row_then,
    ) by {
        if j != i {
            assert(after.steps[j] == w.steps[j]);
            assert(request_in_order(w.steps[j], j, w.holder, pt, row));
        }
    }
}

/// However many requests count views of a page at the same time, whatever
/// the table held before, and however the store orders their operations,
/// the world stays in order.
pub proof fn lemma_concurrent_counting_stays_in_order(
    start: Seq<PageStatEntry>,
    page_type: i16,
    n: nat,
    schedule: Seq<int>,
)
    requires
        distinct_page_types(start),
    ensures
        in_order(run(arrivals(start, page_type, n), schedule), start, n),
        run(arrivals(start, page_type, n), schedule).page_type == page_type,
    decreases schedule.len(),
{
    let w0 = arrivals(start, page_type, n);
    if schedule.len() == 0 {
        lemma_nobody_done_at_arrival(n, page_type);
        match row_of(start, page_type) {
            Some(row) => {
                assert(with_views(row, 0) == row);
                assert(start.update(row_index(start, page_type), row) =~= start);
            },
            None => {},
        }
    } else {
        lemma_concurrent_counting_stays_in_order(start, page_type, n, schedule.drop_last());
        let before = run(w0, schedule.drop_last());
        if can_serve(before, schedule.last()) {
            lemma_serve_keeps_order(before, start, n, schedule.last());
        }
    }
}

/// The smaller of the views that were asked for and the views that the
/// counter can hold.
pub open spec fn views_held(before: int, n: nat) -> int {
    if before + n <= i32::MAX {
        before + n
    } else {
        i32::MAX as int
    }
}

/// Any number of requests that count views of a page at the same time, on a
/// table that may or may not hold a row of the page, leave, once all of
/// them have ended: one row of the page and no second one; in it the views
/// that were there and one for every request, as far as the counter goes;
/// the rows of the other pages as they were. No request ends with a failure
/// of the store: an insert that met the row of another request was tried
/// again as an update. A request fails only where the counter is at its
/// limit, and where the counter has room for all, every request is done.
pub proof fn lemma_concurrent_views(
    start: Seq<PageStatEntry>,
    page_type: i16,
    n: nat,
    schedule: Seq<int>,
)
    requires
        distinct_page_types(start),
        n >= 1,
        all_ended(run(arrivals(start, page_type, n), schedule).steps),
    ensures
        ({
            let end = run(arrivals(start, page_type, n), schedule);
            let before = views_before(start, page_type);
            &&& distinct_page_types(end.rows)
            &&& rows_with(end.rows, page_type) == 1
            &&& row_of(end.rows, page_type) matches Some(row) && row.view_count == views_held(
                before,
                n,
            )
            &&& forall|other: i16|
                other != page_type ==> row_of(end.rows, other) == row_of(start, other)
            &&& forall|i: int|
                0 <= i < n ==> (#[trigger] end.steps[i]) is Done || end.steps[i]
                    == (CounterStep::Failed { error: PersistenceError::CounterExhausted })
            &&& before + n <= i32::MAX ==> forall|i: int|
                0 <= i < n ==> (#[trigger] end.steps[i]) is Done
            &&& end.rows == table_after(start, page_type, done_count(end.steps))
        }),
{
    let end = run(arrivals(start, page_type, n), schedule);
    let before = views_before(start, page_type);
    let done = done_count(end.steps);
    let row = row_after(start, page_type, done);
    lemma_concurrent_counting_stays_in_order(start, page_type, n, schedule);
    lemma_table_after(start, page_type, done);
    lemma_done_count_bounds(end.steps);
    assert forall|i: int| 0 <= i < n implies (#[trigger] end.steps[i]) is Done || end.steps[i] == (
    CounterStep::Failed { error: PersistenceError::CounterExhausted }) by {
        assert(is_final(end.steps[i]));
        assert(request_in_order(end.steps[i], i, end.holder, page_type, row));
    }
    if exists|i: int| 0 <= i < n && !((#[trigger] end.steps[i]) is Done) {
        // a request failed: the counter is at its limit
        let k = choose|i: int| 0 <= i < n && !((#[trigger] end.steps[i]) is Done);
        assert(is_final(end.steps[k]));
        assert(request_in_order(end.steps[k], k, end.holder, page_type, row));
        assert(row->0.view_count == i32::MAX);
        assert(row->0.view_count == before + done);
    } else {
        assert(done == n);
        assert(is_final(end.steps[0]));
    }
}

/// The requests that count the first views of a page at the same time, not
/// more of them than the counter can hold, leave one row of that page with
/// a view for each behind the rows that were there, and every request is
/// done: no row twice, no view lost, no request turned away.
pub proof fn lemma_concurrent_first_views(
    start: Seq<PageStatEntry>,
    page_type: i16,
    n: nat,
    schedule: Seq<int>,
)
    requires
        distinct_page_types(start),
        !has_row(start, page_type),
        1 <= n <= i32::MAX,
        all_ended(run(arrivals(start, page_type, n), schedule).steps),
    ensures
        run(arrivals(start, page_type, n), schedule).rows == start.push(
            counted(page_type, n as int),
        ),
        rows_with(run(arrivals(start, page_type, n), schedule).rows, page_type) == 1,
        row_of(run(arrivals(start, page_type, n), schedule).rows, page_type) == Some(
            counted(page_type, n as int),
        ),
        forall|i: int|
            0 <= i < n ==> (#[trigger] run(arrivals(start, page_type, n), schedule).steps[i]) is Done,
{
    let end = run(arrivals(start, page_type, n), schedule);
    lemma_concurrent_views(start, page_type, n, schedule);
    lemma_done_count_bounds(end.steps);
    lemma_table_after(start, page_type, n);
}

/// While a request has not ended, the store can serve some request: the
/// requests never wait for each other in a circle.
pub proof fn lemma_concurrent_counting_goes_on(
    start: Seq<PageStatEntry>,
    page_type: i16,
    n: nat,
    schedule: Seq<int>,
)
    requires
        distinct_page_types(start),
        !all_ended(run(arrivals(start, page_type, n), schedule).steps),
    ensures
        exists|i: int| can_serve(run(arrivals(start, page_type, n), schedule), i),
{
    let w = run(arrivals(start, page_type, n), schedule);
    lemma_concurrent_counting_stays_in_order(start, page_type, n, schedule);
    match w.holder {
        Some(h) => {
            assert(can_serve(w, h));
        },
        None => {
            let i = choose|i: int| 0 <= i < w.steps.len() && !is_final(#[trigger] w.steps[i]);
            assert(can_serve(w, i));
        },
    }
}

/// A bound on the store operations that all requests together still need.
pub open spec fn operations_to_come(steps: Seq<CounterStep>) -> nat
    decreases steps.len(),
{
    if steps.len() == 0 {
        0
    } else {
        operations_to_come(steps.drop_last()) + operations_left(steps.last())
    }
}

proof fn lemma_operations_to_come_after(steps: Seq<CounterStep>, i: int, next: CounterStep)
    requires
        0 <= i < steps.len(),
    ensures
        operations_to_come(steps.update(i, next)) + operations_left(steps[i]) == operations_to_come(
            steps,
        ) + operations_left(next),
    decreases steps.len(),
{
    let updated = steps.update(i, next);
    if i == steps.len() - 1 {
        assert(updated.drop_last() =~= steps.drop_last());
    } else {
        assert(updated.drop_last() =~= steps.drop_last().update(i, next));
        lemma_operations_to_come_after(steps.drop_last(), i, next);
    }
}

/// Every operation that the store serves brings the requests nearer to
/// their end.
pub proof fn lemma_serving_uses_up_operations(w: World, i: int)
    requires
        can_serve(w, i),
    ensures
        operations_to_come(serve(w, i).steps) < operations_to_come(w.steps),
{
    let event = answer_of(w.rows, w.steps[i]);
    lemma_counting_ends(w.steps[i], event);
    lemma_operations_to_come_after(w.steps, i, step_after(w.steps[i], event));
}

proof fn lemma_schedule_can_be_finished(
    start: Seq<PageStatEntry>,
    page_type: i16,
    n: nat,
    schedule: Seq<int>,
)
    requires
        distinct_page_types(start),
    ensures
        exists|whole: Seq<int>| all_ended(#[trigger] run(arrivals(start, page_type, n), whole).steps),
    decreases operations_to_come(run(arrivals(start, page_type, n), schedule).steps),
{
    let w0 = arrivals(start, page_type, n);
    let w = run(w0, schedule);
    if !all_ended(w.steps) {
        lemma_concurrent_counting_goes_on(start, page_type, n, schedule);
        let i = choose|i: int| can_serve(w, i);
        let longer = schedule.push(i);
        assert(longer.drop_last() =~= schedule);
        assert(run(w0, longer) == serve(w, i));
        lemma_serving_uses_up_operations(w, i);
        lemma_schedule_can_be_finished(start, page_type, n, longer);
    }
}

/// The requests can all end: there is an order of serving them in which
/// every one of them does.
pub proof fn lemma_concurrent_counting_can_end(start: Seq<PageStatEntry>, page_type: i16, n: nat)
    requires
        distinct_page_types(start),
    ensures
        exists|schedule: Seq<int>|
            all_ended(#[trigger] run(arrivals(start, page_type, n), schedule).steps),
{
    lemma_schedule_can_be_finished(start, page_type, n, Seq::<int>::empty());
}

/// Fragment requests for a public page that counts its views, such as the
/// home page and the information page, however many come at the same time:
/// each is answered with content that names the page to count, and once
/// all of them have been counted the page has one row and no second one,
/// and no request has ended with a failure of the store. Where the page had
/// no row and the counter has room, the row holds a view for each request
/// and every request is done.
pub proof fn lemma_concurrent_page_views(
    requests: Seq<RequestContext>,
    shell: ShellText,
    page_type: i16,
    start: Seq<PageStatEntry>,
    schedule: Seq<int>,
)
    requires
        distinct_page_types(start),
        requests.len() >= 1,
        forall|i: int| 0 <= i < requests.len() ==> (#[trigger] requests[i]).mode == RequestMode::Fragment,
        all_ended(run(arrivals(start, page_type, requests.len()), schedule).steps),
    ensures
        ({
            let n = requests.len();
            let end = run(arrivals(start, page_type, n), schedule);
            &&& forall|i: int|
                0 <= i < n ==> two_phase_answer(
                    #[trigger] requests[i],
                    Gate::Public,
                    shell,
                    Some(page_type),
                ) == Ok::<PageText, PermissionDenied>(
                    PageText::Content(content_for(requests[i], Some(page_type))),
                ) && counting_for(content_for(requests[i], Some(page_type))) == Some(
                    arrivals(start, page_type, n).steps[i],
                )
            &&& rows_with(end.rows, page_type) == 1
            &&& forall|i: int|
                0 <= i < n ==> (#[trigger] end.steps[i]) is Done || end.steps[i]
                    == (CounterStep::Failed { error: PersistenceError::CounterExhausted })
            &&& !has_row(start, page_type) && n <= i32::MAX ==> row_of(end.rows, page_type)
                == Some(counted(page_type, n as int)) && forall|i: int|
                0 <= i < n ==> (#[trigger] end.steps[i]) is Done
        }),
{
    let n = requests.len();
    lemma_concurrent_views(start, page_type, n, schedule);
    if !has_row(start, page_type) && n <= i32::MAX {
        lemma_concurrent_first_views(start, page_type, n, schedule);
    }
}

} // verus!
