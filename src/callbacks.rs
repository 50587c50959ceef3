//! The three-phase pipeline of a mutation with lifecycle hooks: run the hook
//! before, then the write, then the hook after, stopping at the first failure.
use vstd::prelude::*;
use std::time::Duration;
use crate::query::{CharybdisQuery, Consistency, ModelMutation, PagingState, SerialConsistency};

verus! {

/// How a hooked mutation ended.
#[derive(Clone, Copy, Debug, PartialEq, Eq, Structural)]
pub enum CbOutcome {
    /// All three phases succeeded.
    Applied,
    /// The hook before failed; nothing was written.
    BeforeFailed,
    /// The write itself failed.
    WriteFailed,
    /// The write was applied, and the hook after failed.
    AfterFailed,
}

/// The phase that a hooked mutation is to run next, or how it ended.
#[derive(Clone, Copy, Debug, PartialEq, Eq, Structural)]
pub enum CbStep {
    BeforeExecute,
    Execute,
    AfterExecute,
    Done(CbOutcome),
}

pub open spec fn advance_spec(s: CbStep, succeeded: bool) -> CbStep {
    match s {
        CbStep::BeforeExecute => if succeeded { CbStep::Execute } else { CbStep::Done(CbOutcome::BeforeFailed) },
        CbStep::Execute => if succeeded { CbStep::AfterExecute } else { CbStep::Done(CbOutcome::WriteFailed) },
        CbStep::AfterExecute => if succeeded {
            CbStep::Done(CbOutcome::Applied)
        } else {
            CbStep::Done(CbOutcome::AfterFailed)
        },
        CbStep::Done(o) => CbStep::Done(o),
    }
}

impl CbStep {
    /// A hooked mutation starts with the hook before.
    pub fn start() -> (r: CbStep)
        ensures
            r == CbStep::BeforeExecute,
    {
        CbStep::BeforeExecute
    }

    /// The phase after this one, given whether this one succeeded.
    pub fn advance(self, succeeded: bool) -> (r: CbStep)
        requires
            !(self is Done),
        ensures
            r == advance_spec(self, succeeded),
    {
        match self {
            CbStep::BeforeExecute => if succeeded {
                CbStep::Execute
            } else {
                CbStep::Done(CbOutcome::BeforeFailed)
            },
            CbStep::Execute => if succeeded {
                CbStep::AfterExecute
            } else {
                CbStep::Done(CbOutcome::WriteFailed)
            },
            CbStep::AfterExecute => if succeeded {
                CbStep::Done(CbOutcome::Applied)
            } else {
                CbStep::Done(CbOutcome::AfterFailed)
            },
            CbStep::Done(o) => CbStep::Done(o),
        }
    }
}

/// The step reached after the phases' results `events`, from the start.
pub open spec fn step_after(events: Seq<bool>) -> CbStep
    decreases events.len(),
{
    if events.len() == 0 {
        CbStep::BeforeExecute
    } else {
        advance_spec(step_after(events.drop_last()), events.last())
    }
}

/// How many times the write was issued along `events`.
pub open spec fn writes_issued(events: Seq<bool>) -> nat
    decreases events.len(),
{
    if events.len() == 0 {
        0
    } else {
        writes_issued(events.drop_last()) + if step_after(events.drop_last()) == CbStep::Execute {
            1nat
        } else {
            0nat
        }
    }
}

/// A mutation whose hook before fails ends there and never issues the write.
pub proof fn lemma_before_failure_writes_nothing(events: Seq<bool>)
    requires
        events.len() > 0,
        !events[0],
    ensures
        step_after(events) == CbStep::Done(CbOutcome::BeforeFailed),
        writes_issued(events) == 0,
    decreases events.len(),
{
    if events.len() > 1 {
        let p = events.drop_last();
        assert(p[0] == events[0]);
        lemma_before_failure_writes_nothing(p);
    } else {
        let e0 = events.drop_last();
        assert(e0 =~= Seq::<bool>::empty());
        assert(events.last() == events[0]);
        assert(step_after(e0) == CbStep::BeforeExecute);
        assert(writes_issued(e0) == 0);
        assert(step_after(events) == advance_spec(step_after(e0), events[0]));
    }
}

/// A mutation whose hook before and write succeed and whose hook after fails
/// has issued the write exactly once, and reports the failure.
pub proof fn lemma_after_failure_wrote_once(events: Seq<bool>)
    requires
        events.len() >= 3,
        events[0],
        events[1],
        !events[2],
    ensures
        step_after(events) == CbStep::Done(CbOutcome::AfterFailed),
        writes_issued(events) == 1,
    decreases events.len(),
{
    if events.len() > 3 {
        let p = events.drop_last();
        assert(p[0] == events[0] && p[1] == events[1] && p[2] == events[2]);
        lemma_after_failure_wrote_once(p);
    } else {
        let e1 = events.take(1);
        let e2 = events.take(2);
        assert(events.drop_last() =~= e2);
        assert(e2.drop_last() =~= e1);
        let e0 = e1.drop_last();
        assert(e0 =~= Seq::<bool>::empty());
        assert(step_after(e0) == CbStep::BeforeExecute);
        assert(writes_issued(e0) == 0);
        assert(e1.last() == events[0] && e2.last() == events[1] && events.last() == events[2]);
        assert(step_after(e1) == CbStep::Execute);
        assert(writes_issued(e1) == 0);
        assert(step_after(e2) == CbStep::AfterExecute);
        assert(writes_issued(e2) == 1);
    }
}

/// Whatever the phases' results, the write is issued at most once.
pub proof fn lemma_write_at_most_once(events: Seq<bool>)
    ensures
        writes_issued(events) <= 1,
        writes_issued(events) == 1 <==> !(step_after(events) == CbStep::BeforeExecute || step_after(events)
            == CbStep::Execute || step_after(events) == CbStep::Done(CbOutcome::BeforeFailed)),
    decreases events.len(),
{
    if events.len() > 0 {
        lemma_write_at_most_once(events.drop_last());
    }
}

/// A mutation with lifecycle hooks: the write it will issue, and the phase it
/// is at. The values are bound once the hook before has run.
pub struct CharybdisCbQuery<V> {
    pub inner: CharybdisQuery<V, ModelMutation>,
    pub step: CbStep,
}

impl<V> CharybdisCbQuery<V> {
    /// A hooked mutation on `query`, its values still `unbound`, at the hook before.
    pub fn new(query: &'static str, unbound: V) -> (r: Self)
        ensures
            r.inner.query_string == query,
            r.inner.values == unbound,
            r.inner.options.is_default(),
            r.inner.paging_state == PagingState::Start,
            r.step == CbStep::BeforeExecute,
    {
        CharybdisCbQuery { inner: CharybdisQuery::new(query, unbound), step: CbStep::start() }
    }

    /// Records how the current phase went.
    pub fn advance(self, succeeded: bool) -> (r: Self)
        requires
            !(self.step is Done),
        ensures
            r.step == advance_spec(self.step, succeeded),
            r.inner == self.inner,
    {
        CharybdisCbQuery { inner: self.inner, step: self.step.advance(succeeded) }
    }

    /// Binds the values that the hooked model yields after its hook before.
    pub fn bind(self, values: V) -> (r: Self)
        ensures
            r.inner.values == values,
            r.inner.query_string == self.inner.query_string,
            r.inner.options == self.inner.options,
            r.inner.paging_state == self.inner.paging_state,
            r.step == self.step,
    {
        CharybdisCbQuery { inner: self.inner.values(values), step: self.step }
    }

    pub fn paging_state(self, paging_state: PagingState) -> (r: Self)
        ensures
            r.inner.paging_state == paging_state,
            r.inner.options == self.inner.options,
            r.inner.query_string == self.inner.query_string,
            r.inner.values == self.inner.values,
            r.step == self.step,
    {
        CharybdisCbQuery { inner: self.inner.paging_state(paging_state), step: self.step }
    }

    pub fn page_size(self, page_size: i32) -> (r: Self)
        ensures
            r.inner.options == self.inner.options.with_page_size(page_size),
            r.inner.query_string == self.inner.query_string,
            r.inner.values == self.inner.values,
            r.inner.paging_state == self.inner.paging_state,
            r.step == self.step,
    {
        CharybdisCbQuery { inner: self.inner.page_size(page_size), step: self.step }
    }

    pub fn consistency(self, consistency: Consistency) -> (r: Self)
        ensures
            r.inner.options == self.inner.options.with_consistency(consistency),
            r.inner.query_string == self.inner.query_string,
            r.inner.values == self.inner.values,
            r.inner.paging_state == self.inner.paging_state,
            r.step == self.step,
    {
        CharybdisCbQuery { inner: self.inner.consistency(consistency), step: self.step }
    }

    pub fn serial_consistency(self, consistency: Option<SerialConsistency>) -> (r: Self)
        ensures
            r.inner.options == self.inner.options.with_serial_consistency(consistency),
            r.inner.query_string == self.inner.query_string,
            r.inner.values == self.inner.values,
            r.inner.paging_state == self.inner.paging_state,
            r.step == self.step,
    {
        CharybdisCbQuery { inner: self.inner.serial_consistency(consistency), step: self.step }
    }

    pub fn idempotent(self, is_idempotent: bool) -> (r: Self)
        ensures
            r.inner.options == self.inner.options.with_idempotent(is_idempotent),
            r.inner.query_string == self.inner.query_string,
            r.inner.values == self.inner.values,
            r.inner.paging_state == self.inner.paging_state,
            r.step == self.step,
    {
        CharybdisCbQuery { inner: self.inner.idempotent(is_idempotent), step: self.step }
    }

    pub fn trace(self, is_tracing: bool) -> (r: Self)
        ensures
            r.inner.options == self.inner.options.with_tracing(is_tracing),
            r.inner.query_string == self.inner.query_string,
            r.inner.values == self.inner.values,
            r.inner.paging_state == self.inner.paging_state,
            r.step == self.step,
    {
        CharybdisCbQuery { inner: self.inner.trace(is_tracing), step: self.step }
    }

    pub fn timestamp(self, timestamp: Option<i64>) -> (r: Self)
        ensures
            r.inner.options == self.inner.options.with_timestamp(timestamp),
            r.inner.query_string == self.inner.query_string,
            r.inner.values == self.inner.values,
            r.inner.paging_state == self.inner.paging_state,
            r.step == self.step,
    {
        CharybdisCbQuery { inner: self.inner.timestamp(timestamp), step: self.step }
    }

    pub fn timeout(self, timeout: Option<Duration>) -> (r: Self)
        ensures
            r.inner.options == self.inner.options.with_timeout(timeout),
            r.inner.query_string == self.inner.query_string,
            r.inner.values == self.inner.values,
            r.inner.paging_state == self.inner.paging_state,
            r.step == self.step,
    {
        CharybdisCbQuery { inner: self.inner.timeout(timeout), step: self.step }
    }
}

} // verus!
