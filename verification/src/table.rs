//! The statistics table in memory: how a store answers the counter, and
//! what holds of counting views in it.

use vstd::prelude::*;
use crate::pages::ContentPlan;
use crate::stats::{
    begin_view,
    first_view_of,
    is_final,
    next_step,
    one_more_view,
    operations_left,
    CounterStep,
    PageStatEntry,
    PersistenceError,
    StoreEvent,
};

verus! {

/// Whether a row of `page_type` stands among `rows`.
pub open spec fn has_row(rows: Seq<PageStatEntry>, page_type: i16) -> bool {
    exists|i: int| 0 <= i < rows.len() && (#[trigger] rows[i]).page_type == page_type
}

/// The place of a row of `page_type` among `rows`, where there is one.
pub open spec fn row_index(rows: Seq<PageStatEntry>, page_type: i16) -> int {
    choose|i: int| 0 <= i < rows.len() && (#[trigger] rows[i]).page_type == page_type
}

/// The row of `page_type` among `rows`.
pub open spec fn row_of(rows: Seq<PageStatEntry>, page_type: i16) -> Option<PageStatEntry> {
    if has_row(rows, page_type) {
        Some(rows[row_index(rows, page_type)])
    } else {
        None
    }
}

/// No two of `rows` have the same page type.
pub open spec fn distinct_page_types(rows: Seq<PageStatEntry>) -> bool {
    forall|i: int, j: int|
        0 <= i < j < rows.len() ==> (#[trigger] rows[i]).page_type != (#[trigger] rows[j]).page_type
}

/// How many of `rows` have `page_type`.
pub open spec fn rows_with(rows: Seq<PageStatEntry>, page_type: i16) -> nat
    decreases rows.len(),
{
    if rows.len() == 0 {
        0
    } else {
        let before = rows_with(rows.drop_last(), page_type);
        if rows.last().page_type == page_type {
            before + 1
        } else {
            before
        }
    }
}

/// Whether the row of `page_type` is at the limit of its counter.
pub open spec fn exhausted(rows: Seq<PageStatEntry>, page_type: i16) -> bool {
    row_of(rows, page_type) matches Some(row) && row.view_count == i32::MAX
}

/// The rows after one view of `page_type`: its row counted up by one where
/// there is one, a row with one view added at the end where there is none.
/// At the limit of the counter the rows stay as they are.
pub open spec fn after_view(rows: Seq<PageStatEntry>, page_type: i16) -> Seq<PageStatEntry> {
    if !has_row(rows, page_type) {
        rows.push(first_view_of(page_type))
    } else if exhausted(rows, page_type) {
        rows
    } else {
        let i = row_index(rows, page_type);
        rows.update(i, one_more_view(rows[i]))
    }
}

/// The rows after `n` views of `page_type`, one after the other.
pub open spec fn after_views(rows: Seq<PageStatEntry>, page_type: i16, n: nat) -> Seq<
    PageStatEntry,
>
    decreases n,
{
    if n == 0 {
        rows
    } else {
        after_view(after_views(rows, page_type, (n - 1) as nat), page_type)
    }
}

/// What the store answers to the operation that `step` asks for.
pub open spec fn answer_of(rows: Seq<PageStatEntry>, step: CounterStep) -> StoreEvent {
    match step {
        CounterStep::Lookup { page_type, retried } => match row_of(rows, page_type) {
            Some(row) => StoreEvent::Found(row),
            None => StoreEvent::NotFound,
        },
        CounterStep::Insert { row } => if has_row(rows, row.page_type) {
            StoreEvent::Conflict
        } else {
            StoreEvent::Written
        },
        CounterStep::Update { row } => if has_row(rows, row.page_type) {
            StoreEvent::Written
        } else {
            StoreEvent::Failure
        },
        _ => StoreEvent::Failure,
    }
}

/// The rows after the operation that `step` asks for.
pub open spec fn rows_after(rows: Seq<PageStatEntry>, step: CounterStep) -> Seq<PageStatEntry> {
    match step {
        CounterStep::Insert { row } => if has_row(rows, row.page_type) {
            rows
        } else {
            rows.push(row)
        },
        CounterStep::Update { row } => if has_row(rows, row.page_type) {
            rows.update(row_index(rows, row.page_type), row)
        } else {
            rows
        },
        _ => rows,
    }
}

/// The statistics rows, one for each page type at most.
pub struct StatTable {
    rows: Vec<PageStatEntry>,
}

impl View for StatTable {
    type V = Seq<PageStatEntry>;

    closed spec fn view(&self) -> Seq<PageStatEntry> {
        self.rows@
    }
}

impl StatTable {
    /// What holds of every table: no page type has two rows.
    pub open spec fn well_formed(&self) -> bool {
        distinct_page_types(self@)
    }

    /// The table without rows.
    pub fn new() -> (table: StatTable)
        ensures
            table@ == Seq::<PageStatEntry>::empty(),
            table.well_formed(),
    {
        StatTable { rows: Vec::new() }
    }

    /// The table that holds `rows`, where no page type has two of them.
    pub fn from_rows(rows: Vec<PageStatEntry>) -> (r: Option<StatTable>)
        ensures
            r is Some <==> distinct_page_types(rows@),
            r matches Some(table) ==> table@ == rows@ && table.well_formed(),
    {
        let mut j: usize = 0;
        while j < rows.len()
            invariant
                j <= rows.len(),
                forall|a: int, b: int|
                    0 <= a < b < j ==> (#[trigger] rows@[a]).page_type != (
                    #[trigger] rows@[b]).page_type,
            decreases rows.len() - j,
        {
            let mut i: usize = 0;
            while i < j
                invariant
                    i <= j < rows.len(),
                    forall|a: int| 0 <= a < i ==> (#[trigger] rows@[a]).page_type != rows@[j as int].page_type,
                decreases j - i,
            {
                if rows[i].page_type == rows[j].page_type {
                    return None;
                }
                i += 1;
            }
            j += 1;
        }
        Some(StatTable { rows })
    }

    /// The number of rows.
    pub fn len(&self) -> (n: usize)
        ensures
            n == self@.len(),
    {
        self.rows.len()
    }

    /// The place of the row of `page_type`.
    fn position(&self, page_type: i16) -> (r: Option<usize>)
        requires
            self.well_formed(),
        ensures
            r is Some <==> has_row(self@, page_type),
            r matches Some(i) ==> i < self@.len() && self@[i as int].page_type == page_type && i
                == row_index(self@, page_type),
    {
        let mut i: usize = 0;
        while i < self.rows.len()
            invariant
                i <= self.rows.len(),
                self.well_formed(),
                forall|j: int| 0 <= j < i ==> (#[trigger] self.rows@[j]).page_type != page_type,
            decreases self.rows.len() - i,
        {
            if self.rows[i].page_type == page_type {
                proof {
                    lemma_row_is_found(self@, i as int);
                }
                return Some(i);
            }
            i += 1;
        }
        None
    }

    /// The row of `page_type`.
    pub fn get(&self, page_type: i16) -> (r: Option<PageStatEntry>)
        requires
            self.well_formed(),
        ensures
            r == row_of(self@, page_type),
    {
        match self.position(page_type) {
            Some(i) => Some(self.rows[i]),
            None => None,
        }
    }

    /// The rows, in the order in which they were created.
    pub fn rows(&self) -> (rows: Vec<PageStatEntry>)
        ensures
            rows@ == self@,
    {
        self.rows.clone()
    }

    /// Does what `step` asks of the store and answers as a store does.
    fn perform(&mut self, step: &CounterStep) -> (event: StoreEvent)
        requires
            !is_final(*step),
            old(self).well_formed(),
        ensures
            event == answer_of(old(self)@, *step),
            final(self)@ == rows_after(old(self)@, *step),
    {
        match step {
            CounterStep::Lookup { page_type, retried } => match self.get(*page_type) {
                Some(row) => StoreEvent::Found(row),
                None => StoreEvent::NotFound,
            },
            CounterStep::Insert { row } => match self.position(row.page_type) {
                Some(_) => StoreEvent::Conflict,
                None => {
                    self.rows.push(*row);
                    StoreEvent::Written
                },
            },
            CounterStep::Update { row } => match self.position(row.page_type) {
                Some(i) => {
                    self.rows.set(i, *row);
                    StoreEvent::Written
                },
                None => StoreEvent::Failure,
            },
            _ => StoreEvent::Failure,
        }
    }

    /// Counts one view of `page_type`: the first view creates the row, every
    /// later one counts it up. At the limit of the counter nothing changes and
    /// the error says so.
    pub fn record_view(&mut self, page_type: i16) -> (r: Result<PageStatEntry, PersistenceError>)
        requires
            old(self).well_formed(),
        ensures
            final(self).well_formed(),
            final(self)@ == after_view(old(self)@, page_type),
            r is Err <==> exhausted(old(self)@, page_type),
            r matches Ok(row) ==> row_of(final(self)@, page_type) == Some(row) && row.view_count
                == match row_of(old(self)@, page_type) {
                Some(before) => before.view_count + 1,
                None => 1,
            },
            r matches Err(error) ==> error == PersistenceError::CounterExhausted,
    {
        let mut step = begin_view(page_type);
        while !crate::stats::finished(&step)
            invariant
                distinct_page_types(old(self)@),
                match step {
                    CounterStep::Lookup { page_type: asked, retried } => self@ == old(self)@
                        && asked == page_type && !retried,
                    CounterStep::Insert { row } => self@ == old(self)@ && !has_row(
                        old(self)@,
                        page_type,
                    ) && row == first_view_of(page_type),
                    CounterStep::Update { row } => self@ == old(self)@ && has_row(
                        old(self)@,
                        page_type,
                    ) && !exhausted(old(self)@, page_type) && row == one_more_view(
                        old(self)@[row_index(old(self)@, page_type)],
                    ),
                    CounterStep::Done { row } => self@ == after_view(old(self)@, page_type)
                        && distinct_page_types(self@) && !exhausted(old(self)@, page_type) && row_of(self@, page_type) == Some(
                        row,
                    ) && row.view_count == match row_of(old(self)@, page_type) {
                        Some(before) => before.view_count + 1,
                        None => 1,
                    },
                    CounterStep::Failed { error } => self@ == old(self)@ && exhausted(
                        old(self)@,
                        page_type,
                    ) && error == PersistenceError::CounterExhausted,
                },
            decreases operations_left(step),
        {
            assert(self.well_formed());
            let ghost before = self@;
            let event = self.perform(&step);
            proof {
                match step {
                    CounterStep::Insert { row } => {
                        lemma_row_of_pushed(before, row);
                    },
                    CounterStep::Update { row } => {
                        lemma_row_of_updated(before, row);
                    },
                    _ => {},
                }
            }
            step = next_step(step, event);
        }
        match step {
            CounterStep::Done { row } => Ok(row),
            CounterStep::Failed { error } => Err(error),
            _ => Err(PersistenceError::QueryFailed),
        }
    }
    /// Counts the view that the content of a page asks for: a view of the
    /// page that the content names, nothing where it names no page.
    pub fn record_content(&mut self, plan: &ContentPlan) -> (r: Result<
        Option<PageStatEntry>,
        PersistenceError,
    >)
        requires
            old(self).well_formed(),
        ensures
            final(self).well_formed(),
            final(self)@ == match plan.counted_page {
                Some(page_type) => after_view(old(self)@, page_type),
                None => old(self)@,
            },
            r is Err <==> (plan.counted_page is Some && exhausted(
                old(self)@,
                plan.counted_page->0,
            )),
            r matches Err(error) ==> error == PersistenceError::CounterExhausted,
            r matches Ok(counted) ==> counted == match plan.counted_page {
                Some(page_type) => row_of(final(self)@, page_type),
                None => None::<PageStatEntry>,
            },
            r matches Ok(Some(row)) ==> plan.counted_page is Some && row.view_count == match row_of(
                old(self)@,
                plan.counted_page->0,
            ) {
                Some(before) => before.view_count + 1,
                None => 1,
            },
    {
        match plan.counted_page {
            Some(page_type) => match self.record_view(page_type) {
                Ok(row) => Ok(Some(row)),
                Err(error) => Err(error),
            },
            None => Ok(None),
        }
    }
}

/// Where no page type has two rows, a row is the row of its page type.
pub proof fn lemma_row_is_found(rows: Seq<PageStatEntry>, i: int)
    requires
        distinct_page_types(rows),
        0 <= i < rows.len(),
    ensures
        has_row(rows, rows[i].page_type),
        row_index(rows, rows[i].page_type) == i,
        row_of(rows, rows[i].page_type) == Some(rows[i]),
{
    let page_type = rows[i].page_type;
    assert(has_row(rows, page_type));
    let found = row_index(rows, page_type);
    assert(rows[found].page_type == page_type);
    if found < i {
        assert(rows[found].page_type != rows[i].page_type);
    }
    if i < found {
        assert(rows[i].page_type != rows[found].page_type);
    }
}

/// A row added for a page type that had none is the row of that page type,
/// and the rows of the other page types are as before.
pub proof fn lemma_row_of_pushed(rows: Seq<PageStatEntry>, row: PageStatEntry)
    requires
        distinct_page_types(rows),
        !has_row(rows, row.page_type),
    ensures
        distinct_page_types(rows.push(row)),
        row_of(rows.push(row), row.page_type) == Some(row),
        forall|other: i16|
            other != row.page_type ==> row_of(rows.push(row), other) == row_of(rows, other),
{
    let pushed = rows.push(row);
    assert(pushed[rows.len() as int] == row);
    assert forall|i: int, j: int| 0 <= i < j < pushed.len() implies (#[trigger] pushed[i]).page_type
        != (#[trigger] pushed[j]).page_type by {
        if j == rows.len() {
            assert(rows[i].page_type != row.page_type);
        } else {
            assert(rows[i].page_type != rows[j].page_type);
        }
    }
    lemma_row_is_found(pushed, rows.len() as int);
    assert forall|other: i16| other != row.page_type implies row_of(pushed, other) == row_of(
        rows,
        other,
    ) by {
        if has_row(rows, other) {
            let k = row_index(rows, other);
            assert(pushed[k] == rows[k]);
            lemma_row_is_found(pushed, k);
        } else if has_row(pushed, other) {
            let k = row_index(pushed, other);
            assert(rows[k].page_type == other);
        }
    }
}

/// A row put in the place of the row of its page type is the row of that
/// page type, and the rows of the other page types are as before.
pub proof fn lemma_row_of_updated(rows: Seq<PageStatEntry>, row: PageStatEntry)
    requires
        distinct_page_types(rows),
        has_row(rows, row.page_type),
    ensures
        distinct_page_types(rows.update(row_index(rows, row.page_type), row)),
        row_of(rows.update(row_index(rows, row.page_type), row), row.page_type) == Some(row),
        forall|other: i16|
            other != row.page_type ==> row_of(
                rows.update(row_index(rows, row.page_type), row),
                other,
            ) == row_of(rows, other),
{
    let at = row_index(rows, row.page_type);
    let updated = rows.update(at, row);
    assert(updated[at] == row);
    assert forall|i: int, j: int|
        0 <= i < j < updated.len() implies (#[trigger] updated[i]).page_type
        != (#[trigger] updated[j]).page_type by {
        assert(rows[i].page_type != rows[j].page_type);
    }
    lemma_row_is_found(updated, at);
    assert forall|other: i16| other != row.page_type implies row_of(updated, other) == row_of(
        rows,
        other,
    ) by {
        if has_row(rows, other) {
            let k = row_index(rows, other);
            assert(updated[k] == rows[k]);
            lemma_row_is_found(updated, k);
        } else if has_row(updated, other) {
            let k = row_index(updated, other);
            assert(rows[k].page_type == other);
        }
    }
}

/// The row of `page_type` after `n` views that began with none.
pub open spec fn counted(page_type: i16, n: int) -> PageStatEntry {
    PageStatEntry { view_count: n as i32, ..first_view_of(page_type) }
}

/// Where no page type has two rows, a page type has one row or none.
pub proof fn lemma_one_row_or_none(rows: Seq<PageStatEntry>, page_type: i16)
    requires
        distinct_page_types(rows),
    ensures
        rows_with(rows, page_type) == if has_row(rows, page_type) {
            1nat
        } else {
            0nat
        },
    decreases rows.len(),
{
    if rows.len() > 0 {
        let front = rows.drop_last();
        let last = rows.len() - 1;
        assert forall|i: int, j: int| 0 <= i < j < front.len() implies (#[trigger] front[i]).page_type
            != (#[trigger] front[j]).page_type by {
            assert(rows[i].page_type != rows[j].page_type);
        }
        lemma_one_row_or_none(front, page_type);
        if rows.last().page_type == page_type {
            assert(rows[last].page_type == page_type);
            if has_row(front, page_type) {
                let k = row_index(front, page_type);
                assert(rows[k].page_type != rows[last].page_type);
            }
        } else {
            if has_row(front, page_type) {
                let k = row_index(front, page_type);
                assert(rows[k].page_type == page_type);
            }
            if has_row(rows, page_type) {
                let k = row_index(rows, page_type);
                assert(front[k].page_type == page_type);
            }
        }
    }
}

/// Counting a view keeps the table well formed and leaves the rows of the
/// other page types as they are.
pub proof fn lemma_view_touches_one_row(rows: Seq<PageStatEntry>, page_type: i16)
    requires
        distinct_page_types(rows),
    ensures
        distinct_page_types(after_view(rows, page_type)),
        has_row(after_view(rows, page_type), page_type),
        rows_with(after_view(rows, page_type), page_type) == 1,
        forall|other: i16|
            other != page_type ==> row_of(after_view(rows, page_type), other) == row_of(rows, other),
        after_view(rows, page_type).len() == if has_row(rows, page_type) {
            rows.len()
        } else {
            rows.len() + 1
        },
{
    if !has_row(rows, page_type) {
        lemma_row_of_pushed(rows, first_view_of(page_type));
    } else if !exhausted(rows, page_type) {
        let i = row_index(rows, page_type);
        lemma_row_of_updated(rows, one_more_view(rows[i]));
    }
    lemma_one_row_or_none(after_view(rows, page_type), page_type);
}

/// The first view of a page type that has no row yet gives it a row with one
/// view; the second view counts that row up to two and adds no row.
pub proof fn lemma_first_and_second_view(rows: Seq<PageStatEntry>, page_type: i16)
    requires
        distinct_page_types(rows),
        !has_row(rows, page_type),
    ensures
        row_of(after_view(rows, page_type), page_type) == Some(counted(page_type, 1)),
        row_of(after_views(rows, page_type, 2), page_type) == Some(counted(page_type, 2)),
        after_views(rows, page_type, 2).len() == rows.len() + 1,
        rows_with(after_views(rows, page_type, 2), page_type) == 1,
{
    lemma_views_add_up(rows, page_type, 1);
    lemma_views_add_up(rows, page_type, 2);
    assert(after_views(rows, page_type, 1) == after_view(after_views(rows, page_type, 0), page_type));
}

/// `n` views of a page type that has no row yet, in whatever order the
/// requests are served one after the other, leave one row of that page type,
/// with `n` views, behind the rows that were there: no row twice, no view
/// lost.
pub proof fn lemma_views_add_up(rows: Seq<PageStatEntry>, page_type: i16, n: nat)
    requires
        distinct_page_types(rows),
        !has_row(rows, page_type),
        1 <= n <= i32::MAX,
    ensures
        after_views(rows, page_type, n) == rows.push(counted(page_type, n as int)),
        distinct_page_types(after_views(rows, page_type, n)),
        row_of(after_views(rows, page_type, n), page_type) == Some(counted(page_type, n as int)),
        rows_with(after_views(rows, page_type, n), page_type) == 1,
    decreases n,
{
    if n == 1 {
        assert(after_views(rows, page_type, 1) == after_view(after_views(rows, page_type, 0), page_type));
        assert(counted(page_type, 1) == first_view_of(page_type));
        lemma_row_of_pushed(rows, first_view_of(page_type));
    } else {
        lemma_views_add_up(rows, page_type, (n - 1) as nat);
        let row = counted(page_type, n - 1);
        let before = rows.push(row);
        assert(before[rows.len() as int] == row);
        lemma_row_is_found(before, rows.len() as int);
        assert(one_more_view(row) == counted(page_type, n as int));
        assert(before.update(rows.len() as int, counted(page_type, n as int)) =~= rows.push(
            counted(page_type, n as int),
        ));
        lemma_row_of_pushed(rows, counted(page_type, n as int));
    }
    lemma_one_row_or_none(after_views(rows, page_type, n), page_type);
}

/// `n` further views of a page type whose row has room for them count that
/// row up by `n` and change nothing else.
pub proof fn lemma_views_accumulate(rows: Seq<PageStatEntry>, page_type: i16, n: nat)
    requires
        distinct_page_types(rows),
        has_row(rows, page_type),
        rows[row_index(rows, page_type)].view_count + n <= i32::MAX,
    ensures
        after_views(rows, page_type, n) == rows.update(
            row_index(rows, page_type),
            PageStatEntry {
                view_count: (rows[row_index(rows, page_type)].view_count + n) as i32,
                ..rows[row_index(rows, page_type)]
            },
        ),
        distinct_page_types(after_views(rows, page_type, n)),
    decreases n,
{
    let at = row_index(rows, page_type);
    let row = rows[at];
    if n == 0 {
        assert(rows.update(at, row) =~= rows);
    } else {
        lemma_views_accumulate(rows, page_type, (n - 1) as nat);
        let so_far = PageStatEntry { view_count: (row.view_count + n - 1) as i32, ..row };
        let before = rows.update(at, so_far);
        assert(before[at] == so_far);
        lemma_row_is_found(before, at);
        assert(before.update(at, one_more_view(so_far)) =~= rows.update(
            at,
            PageStatEntry { view_count: (row.view_count + n) as i32, ..row },
        ));
        lemma_row_of_updated(before, one_more_view(so_far));
    }
}

} // verus!
