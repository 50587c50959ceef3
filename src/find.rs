//! Ready-made read queries of a model: by an arbitrary statement, by primary
//! key, and by partition key, in each result shape.
use vstd::prelude::*;
use crate::query::{CharybdisQuery, ModelPaged, ModelRow, ModelStream, OptionalModelRow, PagingState};

verus! {

/// A type that stands for one row of a table or a view: its key values and
/// the statements that read it by key.
pub trait BaseModel: Sized {
    /// The partition-key and clustering-key values, in table order.
    type PrimaryKey;

    /// The partition-key values, in table order.
    type PartitionKey;

    /// `SELECT * FROM <table> WHERE <primary-key clause>`
    fn find_by_primary_key_query() -> &'static str;

    /// `SELECT * FROM <table> WHERE <partition-key clause>`
    fn find_by_partition_key_query() -> &'static str;

    /// The partition-key read limited to its first row.
    fn find_first_by_partition_key_query() -> &'static str;

    fn primary_key_values(&self) -> Self::PrimaryKey;

    fn partition_key_values(&self) -> Self::PartitionKey;
}

/// `q` has default options and reads from the start.
pub open spec fn fresh_options<V, Qe>(q: CharybdisQuery<V, Qe>) -> bool {
    &&& q.options.is_default()
    &&& q.paging_state == PagingState::Start
}

/// `q` is bound to `values`, with default options, from the start.
pub open spec fn fresh_values<V, Qe>(q: CharybdisQuery<V, Qe>, values: V) -> bool {
    &&& q.values == values
    &&& q.options.is_default()
    &&& q.paging_state == PagingState::Start
}

/// `q` reads by `query` with `values`, default options, from the start.
pub open spec fn fresh<V, Qe>(q: CharybdisQuery<V, Qe>, query: &'static str, values: V) -> bool {
    &&& q.query_string == query
    &&& q.values == values
    &&& q.options.is_default()
    &&& q.paging_state == PagingState::Start
}

/// Ready-made reads, available on every model.
pub trait Find: BaseModel {
    /// Every row of `query` with `values`, as a stream.
    fn find<V>(query: &'static str, values: V) -> (r: CharybdisQuery<V, ModelStream<Self>>)
        ensures
            fresh(r, query, values),
    {
        CharybdisQuery::new(query, values)
    }

    /// One page of `query` with `values`, resuming at `paging_state`.
    fn find_paged<V>(query: &'static str, values: V, paging_state: PagingState) -> (r:
        CharybdisQuery<V, ModelPaged<Self>>)
        ensures
            r.query_string == query,
            r.values == values,
            r.options.is_default(),
            r.paging_state == paging_state,
    {
        CharybdisQuery::new(query, values).paging_state(paging_state)
    }

    /// The first row of `query` with `values`; none is a failure.
    fn find_first<V>(query: &'static str, values: V) -> (r: CharybdisQuery<V, ModelRow<Self>>)
        ensures
            fresh(r, query, values),
    {
        CharybdisQuery::new(query, values)
    }

    /// The first row of `query` with `values`, if any.
    fn maybe_find_first<V>(query: &'static str, values: V) -> (r: CharybdisQuery<
        V,
        OptionalModelRow<Self>,
    >)
        ensures
            fresh(r, query, values),
    {
        CharybdisQuery::new(query, values)
    }

    /// The row with primary key `value`; none is a failure.
    fn find_by_primary_key_value(value: Self::PrimaryKey) -> (r: CharybdisQuery<
        Self::PrimaryKey,
        ModelRow<Self>,
    >)
        ensures
            fresh_values(r, value),
    {
        CharybdisQuery::new(Self::find_by_primary_key_query(), value)
    }

    /// The row with primary key `value`, if any.
    fn maybe_find_by_primary_key_value(value: Self::PrimaryKey) -> (r: CharybdisQuery<
        Self::PrimaryKey,
        OptionalModelRow<Self>,
    >)
        ensures
            fresh_values(r, value),
    {
        CharybdisQuery::new(Self::find_by_primary_key_query(), value)
    }

    /// The rows of partition `value`, as a stream.
    fn find_by_partition_key_value(value: Self::PartitionKey) -> (r: CharybdisQuery<
        Self::PartitionKey,
        ModelStream<Self>,
    >)
        ensures
            fresh_values(r, value),
    {
        CharybdisQuery::new(Self::find_by_partition_key_query(), value)
    }

    /// The first row of partition `value`; none is a failure.
    fn find_first_by_partition_key_value(value: Self::PartitionKey) -> (r: CharybdisQuery<
        Self::PartitionKey,
        ModelRow<Self>,
    >)
        ensures
            fresh_values(r, value),
    {
        CharybdisQuery::new(Self::find_first_by_partition_key_query(), value)
    }

    /// The rows of partition `value`, one page at a time from the start.
    fn find_by_partition_key_value_paged(value: Self::PartitionKey) -> (r: CharybdisQuery<
        Self::PartitionKey,
        ModelPaged<Self>,
    >)
        ensures
            fresh_values(r, value),
    {
        CharybdisQuery::new(Self::find_by_partition_key_query(), value)
    }

    /// The row of `model`'s primary key; none is a failure.
    fn find_by_primary_key(&self) -> (r: CharybdisQuery<Self::PrimaryKey, ModelRow<Self>>)
        ensures
            fresh_options(r),
    {
        CharybdisQuery::new(Self::find_by_primary_key_query(), self.primary_key_values())
    }

    /// The row of `model`'s primary key, if any.
    fn maybe_find_by_primary_key(&self) -> (r: CharybdisQuery<
        Self::PrimaryKey,
        OptionalModelRow<Self>,
    >)
        ensures
            fresh_options(r),
    {
        CharybdisQuery::new(Self::find_by_primary_key_query(), self.primary_key_values())
    }

    /// The rows of `model`'s partition, as a stream.
    fn find_by_partition_key(&self) -> (r: CharybdisQuery<Self::PartitionKey, ModelStream<Self>>)
        ensures
            fresh_options(r),
    {
        CharybdisQuery::new(Self::find_by_partition_key_query(), self.partition_key_values())
    }
}

impl<M: BaseModel> Find for M {}

/// A paged and a streamed read built on the same statement and values run
/// the same query from the same start with the same options.
pub proof fn lemma_paged_and_streamed_agree<V, M>(
    query: &'static str,
    values: V,
    paged: CharybdisQuery<V, ModelPaged<M>>,
    streamed: CharybdisQuery<V, ModelStream<M>>,
)
    requires
        fresh(paged, query, values),
        fresh(streamed, query, values),
    ensures
        paged.query_string == streamed.query_string,
        paged.values == streamed.values,
        paged.paging_state == streamed.paging_state,
        paged.options == streamed.options,
{
}

} // verus!
