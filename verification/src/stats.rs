//! Page-view statistics: one row for each page type, created on the first
//! view and counted up on every later one.
//!
//! The counter is a small machine. It names the store operation that comes
//! next and takes the store's answer as an event, so that it can be run
//! against any store. `StatTable` is the store in memory; running the machine
//! against it is `StatTable::record_view`.

use vstd::prelude::*;

verus! {

/// The page type of the home page.
pub const HOME_PAGE: i16 = 1;

/// The page type of the information page.
pub const INFO_PAGE: i16 = 10;

/// The statistics of one page type.
#[derive(Clone, Copy, Debug, PartialEq, Eq, Structural)]
pub struct PageStatEntry {
    pub page_type: i16,
    pub view_count: i32,
    pub accumulated_duration: i32,
    pub accumulated_height: i64,
    pub unique_visit_count: i32,
}

/// Why a view could not be counted.
#[derive(Clone, Copy, Debug, PartialEq, Eq, Structural)]
pub enum PersistenceError {
    /// The counter of the row cannot go higher.
    CounterExhausted,
    /// The store failed, or answered what cannot follow the operation.
    QueryFailed,
}

/// What the store is asked to do next, or how the counting ended.
#[derive(Clone, Copy, Debug, PartialEq, Eq, Structural)]
pub enum CounterStep {
    /// Read the row of the page type. `retried` is set once an insert has met
    /// a row that another request wrote first.
    Lookup { page_type: i16, retried: bool },
    /// Insert the row; no row of its page type was there.
    Insert { row: PageStatEntry },
    /// Put the row in the place of the row of its page type.
    Update { row: PageStatEntry },
    /// The view is counted; the row is as stored.
    Done { row: PageStatEntry },
    /// The view is not counted.
    Failed { error: PersistenceError },
}

/// What the store answered.
#[derive(Clone, Copy, Debug, PartialEq, Eq, Structural)]
pub enum StoreEvent {
    /// The lookup found this row.
    Found(PageStatEntry),
    /// The lookup found no row.
    NotFound,
    /// The insert or the update went through.
    Written,
    /// The insert met a row of the same page type.
    Conflict,
    /// The operation failed.
    Failure,
}

/// The row of a page type after its first view.
pub open spec fn first_view_of(page_type: i16) -> PageStatEntry {
    PageStatEntry {
        page_type,
        view_count: 1,
        accumulated_duration: 0,
        accumulated_height: 0,
        unique_visit_count: 0,
    }
}

/// The row after one more view. It is meant for a row below the limit.
pub open spec fn one_more_view(row: PageStatEntry) -> PageStatEntry {
    PageStatEntry { view_count: (row.view_count + 1) as i32, ..row }
}

/// The transitions of the counter.
pub open spec fn step_after(step: CounterStep, event: StoreEvent) -> CounterStep {
    match step {
        CounterStep::Lookup { page_type, retried } => match event {
            StoreEvent::Found(row) => if row.page_type != page_type {
                CounterStep::Failed { error: PersistenceError::QueryFailed }
            } else if row.view_count == i32::MAX {
                CounterStep::Failed { error: PersistenceError::CounterExhausted }
            } else {
                CounterStep::Update { row: one_more_view(row) }
            },
            StoreEvent::NotFound => if retried {
                CounterStep::Failed { error: PersistenceError::QueryFailed }
            } else {
                CounterStep::Insert { row: first_view_of(page_type) }
            },
            _ => CounterStep::Failed { error: PersistenceError::QueryFailed },
        },
        CounterStep::Insert { row } => match event {
            StoreEvent::Written => CounterStep::Done { row },
            StoreEvent::Conflict => CounterStep::Lookup { page_type: row.page_type, retried: true },
            _ => CounterStep::Failed { error: PersistenceError::QueryFailed },
        },
        CounterStep::Update { row } => match event {
            StoreEvent::Written => CounterStep::Done { row },
            _ => CounterStep::Failed { error: PersistenceError::QueryFailed },
        },
        CounterStep::Done { row } => step,
        CounterStep::Failed { error } => step,
    }
}

/// Whether the counting has ended.
pub open spec fn is_final(step: CounterStep) -> bool {
    step is Done || step is Failed
}

/// A bound on the store operations that are still to come.
pub open spec fn operations_left(step: CounterStep) -> nat {
    match step {
        CounterStep::Lookup { page_type, retried } => if retried {
            2
        } else {
            4
        },
        CounterStep::Insert { row } => 3,
        CounterStep::Update { row } => 1,
        CounterStep::Done { row } => 0,
        CounterStep::Failed { error } => 0,
    }
}

impl PageStatEntry {
    /// The row of a page type after its first view: one view, all else zero.
    pub fn first_view(page_type: i16) -> (row: PageStatEntry)
        ensures
            row == first_view_of(page_type),
    {
        PageStatEntry {
            page_type,
            view_count: 1,
            accumulated_duration: 0,
            accumulated_height: 0,
            unique_visit_count: 0,
        }
    }

    /// The row after one more view, or the error where the counter is at its
    /// limit.
    pub fn viewed_again(&self) -> (r: Result<PageStatEntry, PersistenceError>)
        ensures
            self.view_count < i32::MAX ==> r == Ok::<PageStatEntry, PersistenceError>(
                one_more_view(*self),
            ),
            self.view_count == i32::MAX ==> r == Err::<PageStatEntry, PersistenceError>(
                PersistenceError::CounterExhausted,
            ),
    {
        if self.view_count == i32::MAX {
            Err(PersistenceError::CounterExhausted)
        } else {
            Ok(
                PageStatEntry {
                    page_type: self.page_type,
                    view_count: self.view_count + 1,
                    accumulated_duration: self.accumulated_duration,
                    accumulated_height: self.accumulated_height,
                    unique_visit_count: self.unique_visit_count,
                },
            )
        }
    }
}

/// The first step of counting a view of `page_type`.
pub fn begin_view(page_type: i16) -> (step: CounterStep)
    ensures
        step == (CounterStep::Lookup { page_type, retried: false }),
{
    CounterStep::Lookup { page_type, retried: false }
}

/// The step that follows `step` once the store has answered with `event`.
pub fn next_step(step: CounterStep, event: StoreEvent) -> (next: CounterStep)
    ensures
        next == step_after(step, event),
{
    match step {
        CounterStep::Lookup { page_type, retried } => match event {
            StoreEvent::Found(row) => if row.page_type != page_type {
                CounterStep::Failed { error: PersistenceError::QueryFailed }
            } else {
                match row.viewed_again() {
                    Ok(counted) => CounterStep::Update { row: counted },
                    Err(error) => CounterStep::Failed { error },
                }
            },
            StoreEvent::NotFound => if retried {
                CounterStep::Failed { error: PersistenceError::QueryFailed }
            } else {
                CounterStep::Insert { row: PageStatEntry::first_view(page_type) }
            },
            _ => CounterStep::Failed { error: PersistenceError::QueryFailed },
        },
        CounterStep::Insert { row } => match event {
            StoreEvent::Written => CounterStep::Done { row },
            StoreEvent::Conflict => CounterStep::Lookup { page_type: row.page_type, retried: true },
            _ => CounterStep::Failed { error: PersistenceError::QueryFailed },
        },
        CounterStep::Update { row } => match event {
            StoreEvent::Written => CounterStep::Done { row },
            _ => CounterStep::Failed { error: PersistenceError::QueryFailed },
        },
        CounterStep::Done { row } => CounterStep::Done { row },
        CounterStep::Failed { error } => CounterStep::Failed { error },
    }
}

/// Whether the counting has ended.
pub fn finished(step: &CounterStep) -> (b: bool)
    ensures
        b == is_final(*step),
{
    match step {
        CounterStep::Done { .. } => true,
        CounterStep::Failed { .. } => true,
        _ => false,
    }
}

/// How the counting ended, once it has.
pub fn outcome(step: &CounterStep) -> (r: Option<Result<PageStatEntry, PersistenceError>>)
    ensures
        r == match *step {
            CounterStep::Done { row } => Some(Ok::<PageStatEntry, PersistenceError>(row)),
            CounterStep::Failed { error } => Some(Err::<PageStatEntry, PersistenceError>(error)),
            _ => None::<Result<PageStatEntry, PersistenceError>>,
        },
{
    match step {
        CounterStep::Done { row } => Some(Ok(*row)),
        CounterStep::Failed { error } => Some(Err(*error)),
        _ => None,
    }
}

/// Every answer of the store brings the counting nearer to its end: it ends
/// after four store operations at most, whatever the store answers.
pub proof fn lemma_counting_ends(step: CounterStep, event: StoreEvent)
    requires
        !is_final(step),
    ensures
        operations_left(step_after(step, event)) < operations_left(step),
        operations_left(step) <= 4,
{
}

/// Once ended, the counting stays as it is.
pub proof fn lemma_end_is_final(step: CounterStep, event: StoreEvent)
    requires
        is_final(step),
    ensures
        step_after(step, event) == step,
{
}

/// The counting writes one row at most, and that of the page type it counts:
/// it is done only with the store's word that the one insert or update it
/// asked for went through, and it asks for nothing after that.
pub proof fn lemma_one_row_is_touched(step: CounterStep, event: StoreEvent)
    requires
        !is_final(step),
    ensures
        step_after(step, event) matches CounterStep::Done { row } ==> event == StoreEvent::Written
            && (step == (CounterStep::Insert { row }) || step == (CounterStep::Update { row })),
        event == StoreEvent::Failure ==> step_after(step, event) == (CounterStep::Failed {
            error: PersistenceError::QueryFailed,
        }),
{
}

} // verus!
