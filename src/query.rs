//! Query builders and the decisions that turn a session's replies into typed
//! results, one strategy per result shape.
use vstd::prelude::*;
use std::time::Duration;

verus! {

/// The consistency level that a statement asks for.
#[derive(Clone, Copy, Debug, PartialEq, Eq, Structural)]
pub enum Consistency {
    Any,
    One,
    Two,
    Three,
    Quorum,
    All,
    LocalQuorum,
    EachQuorum,
    LocalOne,
    Serial,
    LocalSerial,
}

/// The consistency level of the Paxos phase of a conditional statement.
#[derive(Clone, Copy, Debug, PartialEq, Eq, Structural)]
pub enum SerialConsistency {
    Serial,
    LocalSerial,
}

/// Where a paged read resumes: at the start, or after an opaque token that the
/// server handed out with the previous page.
#[derive(Clone, Debug, PartialEq, Eq)]
pub enum PagingState {
    Start,
    Resume(Vec<u8>),
}

/// What the server says after a page: where the next one starts, or that none is left.
#[derive(Clone, Debug, PartialEq, Eq)]
pub enum PagingStateResponse {
    HasMorePages(PagingState),
    NoMorePages,
}

/// The failures of a query, each carrying the query string it came from.
#[derive(Debug)]
pub enum CharybdisError {
    /// The session could not run the query.
    QueryError(&'static str, String),
    /// A query that must return a row returned none.
    NotFoundError(&'static str),
    /// The first row of a query that must return a row could not be decoded.
    FirstRowTypedError(&'static str, String),
    /// The row of a query that may return a row could not be decoded.
    MaybeFirstRowTypedError(&'static str, String),
    /// The reply of a paged query held no rows where rows were expected.
    RowsExpectedError(&'static str, String),
    /// A row of a stream or a page could not be decoded.
    RowTypedError(&'static str, usize, String),
}

/// Execution options of a statement; `None` leaves the session's default.
pub struct QueryOptions {
    pub page_size: Option<i32>,
    pub consistency: Option<Consistency>,
    pub serial_consistency: Option<SerialConsistency>,
    pub is_idempotent: bool,
    pub is_tracing: bool,
    pub timestamp: Option<i64>,
    pub timeout: Option<Duration>,
}

impl QueryOptions {
    pub open spec fn is_default(&self) -> bool {
        &&& self.page_size is None
        &&& self.consistency is None
        &&& self.serial_consistency is None
        &&& !self.is_idempotent
        &&& !self.is_tracing
        &&& self.timestamp is None
        &&& self.timeout is None
    }

    pub open spec fn with_page_size(self, n: i32) -> QueryOptions {
        QueryOptions { page_size: Some(n), ..self }
    }

    pub open spec fn with_consistency(self, c: Consistency) -> QueryOptions {
        QueryOptions { consistency: Some(c), ..self }
    }

    pub open spec fn with_serial_consistency(self, c: Option<SerialConsistency>) -> QueryOptions {
        QueryOptions { serial_consistency: c, ..self }
    }

    pub open spec fn with_idempotent(self, b: bool) -> QueryOptions {
        QueryOptions { is_idempotent: b, ..self }
    }

    pub open spec fn with_tracing(self, b: bool) -> QueryOptions {
        QueryOptions { is_tracing: b, ..self }
    }

    pub open spec fn with_timestamp(self, t: Option<i64>) -> QueryOptions {
        QueryOptions { timestamp: t, ..self }
    }

    pub open spec fn with_timeout(self, t: Option<Duration>) -> QueryOptions {
        QueryOptions { timeout: t, ..self }
    }

    pub fn new() -> (r: QueryOptions)
        ensures
            r.is_default(),
    {
        QueryOptions {
            page_size: None,
            consistency: None,
            serial_consistency: None,
            is_idempotent: false,
            is_tracing: false,
            timestamp: None,
            timeout: None,
        }
    }
}

/// Setting an option twice keeps only the second value, and leaves the other
/// options as they were.
pub proof fn lemma_setters_last_write_wins(
    o: QueryOptions,
    n1: i32,
    n2: i32,
    c1: Consistency,
    c2: Consistency,
    s1: Option<SerialConsistency>,
    s2: Option<SerialConsistency>,
    b1: bool,
    b2: bool,
    t1: Option<i64>,
    t2: Option<i64>,
    d1: Option<Duration>,
    d2: Option<Duration>,
)
    ensures
        o.with_page_size(n1).with_page_size(n2) == o.with_page_size(n2),
        o.with_consistency(c1).with_consistency(c2) == o.with_consistency(c2),
        o.with_serial_consistency(s1).with_serial_consistency(s2) == o.with_serial_consistency(s2),
        o.with_idempotent(b1).with_idempotent(b2) == o.with_idempotent(b2),
        o.with_tracing(b1).with_tracing(b2) == o.with_tracing(b2),
        o.with_timestamp(t1).with_timestamp(t2) == o.with_timestamp(t2),
        o.with_timeout(d1).with_timeout(d2) == o.with_timeout(d2),
        o.with_page_size(n1).consistency == o.consistency && o.with_page_size(n1).timeout == o.timeout
            && o.with_page_size(n1).is_idempotent == o.is_idempotent,
        o.with_consistency(c1).page_size == o.page_size && o.with_consistency(c1).serial_consistency
            == o.serial_consistency,
        o.with_page_size(n1).with_consistency(c1) == o.with_consistency(c1).with_page_size(n1),
{
}

/// A query not yet run: its statement, bound values, options and paging
/// cursor. `Qe` names the strategy that decodes its result.
pub struct CharybdisQuery<V, Qe> {
    pub query_string: &'static str,
    pub values: V,
    pub options: QueryOptions,
    pub paging_state: PagingState,
    pub strategy: std::marker::PhantomData<Qe>,
}

impl<V, Qe> CharybdisQuery<V, Qe> {
    /// A query on `query` bound to `values`, with default options, from the start.
    pub fn new(query: &'static str, values: V) -> (r: Self)
        ensures
            r.query_string == query,
            r.values == values,
            r.options.is_default(),
            r.paging_state == PagingState::Start,
    {
        CharybdisQuery {
            query_string: query,
            values,
            options: QueryOptions::new(),
            paging_state: PagingState::Start,
            strategy: std::marker::PhantomData,
        }
    }

    pub fn values(self, values: V) -> (r: Self)
        ensures
            r.values == values,
            r.query_string == self.query_string,
            r.options == self.options,
            r.paging_state == self.paging_state,
    {
        CharybdisQuery { values, ..self }
    }

    pub fn page_size(self, page_size: i32) -> (r: Self)
        ensures
            r.options == self.options.with_page_size(page_size),
            r.query_string == self.query_string,
            r.values == self.values,
            r.paging_state == self.paging_state,
    {
        let mut q = self;
        q.options.page_size = Some(page_size);
        q
    }

    pub fn consistency(self, consistency: Consistency) -> (r: Self)
        ensures
            r.options == self.options.with_consistency(consistency),
            r.query_string == self.query_string,
            r.values == self.values,
            r.paging_state == self.paging_state,
    {
        let mut q = self;
        q.options.consistency = Some(consistency);
        q
    }

    pub fn serial_consistency(self, consistency: Option<SerialConsistency>) -> (r: Self)
        ensures
            r.options == self.options.with_serial_consistency(consistency),
            r.query_string == self.query_string,
            r.values == self.values,
            r.paging_state == self.paging_state,
    {
        let mut q = self;
        q.options.serial_consistency = consistency;
        q
    }

    pub fn paging_state(self, paging_state: PagingState) -> (r: Self)
        ensures
            r.paging_state == paging_state,
            r.options == self.options,
            r.query_string == self.query_string,
            r.values == self.values,
    {
        CharybdisQuery { paging_state, ..self }
    }

    pub fn idempotent(self, is_idempotent: bool) -> (r: Self)
        ensures
            r.options == self.options.with_idempotent(is_idempotent),
            r.query_string == self.query_string,
            r.values == self.values,
            r.paging_state == self.paging_state,
    {
        let mut q = self;
        q.options.is_idempotent = is_idempotent;
        q
    }

    pub fn trace(self, is_tracing: bool) -> (r: Self)
        ensures
            r.options == self.options.with_tracing(is_tracing),
            r.query_string == self.query_string,
            r.values == self.values,
            r.paging_state == self.paging_state,
    {
        let mut q = self;
        q.options.is_tracing = is_tracing;
        q
    }

    pub fn timestamp(self, timestamp: Option<i64>) -> (r: Self)
        ensures
            r.options == self.options.with_timestamp(timestamp),
            r.query_string == self.query_string,
            r.values == self.values,
            r.paging_state == self.paging_state,
    {
        let mut q = self;
        q.options.timestamp = timestamp;
        q
    }

    pub fn timeout(self, timeout: Option<Duration>) -> (r: Self)
        ensures
            r.options == self.options.with_timeout(timeout),
            r.query_string == self.query_string,
            r.values == self.values,
            r.paging_state == self.paging_state,
    {
        let mut q = self;
        q.options.timeout = timeout;
        q
    }
}

/// Strategy: exactly one row, decoded as `M`.
pub struct ModelRow<M>(pub M);

/// Strategy: zero or one row, decoded as `Option<M>`.
pub struct OptionalModelRow<M>(pub Option<M>);

/// Strategy: every row of the result, fetched page by page in server order.
pub struct ModelStream<M>(pub Vec<M>);

/// Strategy: one page of rows and where the next page starts.
pub struct ModelPaged<M>(pub Vec<M>, pub PagingStateResponse);

/// Strategy: the bare acknowledgment of a write, no rows decoded.
pub struct ModelMutation;

/// What a strategy hands back when the query succeeds.
pub trait QueryType {
    type Output;
}

impl<M> QueryType for ModelRow<M> {
    type Output = M;
}

impl<M> QueryType for OptionalModelRow<M> {
    type Output = Option<M>;
}

impl<M> QueryType for ModelStream<M> {
    type Output = Vec<M>;
}

impl<M> QueryType for ModelPaged<M> {
    type Output = (Vec<M>, PagingStateResponse);
}

impl QueryType for ModelMutation {
    type Output = ();
}

/// What a required single-row read returns, given the decoding of its first
/// row (`None` where the reply held no row).
pub open spec fn required_row<M>(query: &'static str, first: Option<Result<M, String>>) -> Result<M, CharybdisError> {
    match first {
        None => Err(CharybdisError::NotFoundError(query)),
        Some(Err(e)) => Err(CharybdisError::FirstRowTypedError(query, e)),
        Some(Ok(m)) => Ok(m),
    }
}

/// What an optional single-row read returns, given the decoding of its first
/// row (`None` where the reply held no row).
pub open spec fn optional_row<M>(query: &'static str, first: Option<Result<M, String>>) -> Result<
    Option<M>,
    CharybdisError,
> {
    match first {
        None => Ok(None),
        Some(Err(e)) => Err(CharybdisError::MaybeFirstRowTypedError(query, e)),
        Some(Ok(m)) => Ok(Some(m)),
    }
}

impl<M> ModelRow<M> {
    /// The result of a required single-row read, from the decoding of its first
    /// row (`None` where the reply held no row).
    pub fn from_first_row(query: &'static str, first: Option<Result<M, String>>) -> (r: Result<M, CharybdisError>)
        ensures
            r == required_row(query, first),
    {
        match first {
            None => Err(CharybdisError::NotFoundError(query)),
            Some(Err(e)) => Err(CharybdisError::FirstRowTypedError(query, e)),
            Some(Ok(m)) => Ok(m),
        }
    }
}

impl<M> OptionalModelRow<M> {
    /// The result of an optional single-row read, from the decoding of its first
    /// row (`None` where the reply held no row).
    pub fn from_first_row(query: &'static str, first: Option<Result<M, String>>) -> (r: Result<
        Option<M>,
        CharybdisError,
    >)
        ensures
            r == optional_row(query, first),
    {
        match first {
            None => Ok(None),
            Some(Err(e)) => Err(CharybdisError::MaybeFirstRowTypedError(query, e)),
            Some(Ok(m)) => Ok(Some(m)),
        }
    }
}

/// On a reply with no row, the required read fails as not found, never as a
/// decoding failure, and the optional read of the same query succeeds with no
/// value.
pub proof fn lemma_no_row_not_found_or_absent<M>(query: &'static str)
    ensures
        required_row::<M>(query, None) == Err::<M, CharybdisError>(CharybdisError::NotFoundError(query)),
        !(required_row::<M>(query, None) matches Err(CharybdisError::FirstRowTypedError(_, _))),
        optional_row::<M>(query, None) == Ok::<Option<M>, CharybdisError>(None),
{
}

/// The rows decoded so far, in order, or the first row that failed to decode,
/// with its position and the query it came from.
pub open spec fn decoded_rows<M>(query: &'static str, rows: Seq<Result<M, String>>, offset: nat) -> Result<
    Seq<M>,
    CharybdisError,
>
    decreases rows.len(),
{
    if rows.len() == 0 {
        Ok(Seq::empty())
    } else {
        match rows[0] {
            Err(e) => Err(CharybdisError::RowTypedError(query, offset as usize, e)),
            Ok(m) => match decoded_rows(query, rows.drop_first(), offset + 1) {
                Ok(rest) => Ok(seq![m].add(rest)),
                Err(err) => Err(err),
            },
        }
    }
}

impl<M> ModelPaged<M> {
    /// The result of a one-page read: the page's rows and the server's word on
    /// what follows, or a failure where the reply held no rows.
    pub fn from_page(query: &'static str, rows: Result<Vec<M>, String>, next: PagingStateResponse) -> (r: Result<
        (Vec<M>, PagingStateResponse),
        CharybdisError,
    >)
        ensures
            rows matches Err(e) ==> r == Err::<(Vec<M>, PagingStateResponse), CharybdisError>(
                CharybdisError::RowsExpectedError(query, e),
            ),
            rows matches Ok(v) ==> r == Ok::<(Vec<M>, PagingStateResponse), CharybdisError>((v, next)),
    {
        match rows {
            Err(e) => Err(CharybdisError::RowsExpectedError(query, e)),
            Ok(v) => Ok((v, next)),
        }
    }
}

/// The rows that a server hands out from `offset` on, pages of `n` rows each.
pub open spec fn pages_from<T>(all: Seq<T>, n: nat, offset: nat) -> Seq<T>
    decreases all.len() - offset,
{
    if n == 0 || offset >= all.len() {
        Seq::empty()
    } else if offset + n >= all.len() {
        all.subrange(offset as int, all.len() as int)
    } else {
        all.subrange(offset as int, (offset + n) as int) + pages_from(all, n, offset + n)
    }
}

/// Driving a paged read to its end, each page resuming where the last one
/// stopped, enumerates the whole result once, in order.
pub proof fn lemma_pages_enumerate_all<T>(all: Seq<T>, n: nat)
    requires
        n > 0,
    ensures
        pages_from(all, n, 0) == all,
{
    lemma_pages_from_suffix(all, n, 0);
    assert(all.subrange(0, all.len() as int) =~= all);
}

proof fn lemma_pages_from_suffix<T>(all: Seq<T>, n: nat, offset: nat)
    requires
        n > 0,
        offset <= all.len(),
    ensures
        pages_from(all, n, offset) == all.subrange(offset as int, all.len() as int),
    decreases all.len() - offset,
{
    if offset >= all.len() {
        assert(all.subrange(offset as int, all.len() as int) =~= Seq::<T>::empty());
    } else if offset + n >= all.len() {
    } else {
        lemma_pages_from_suffix(all, n, offset + n);
        assert(all.subrange(offset as int, (offset + n) as int) + all.subrange((offset + n) as int, all.len() as int)
            =~= all.subrange(offset as int, all.len() as int));
    }
}

/// The state of a read that is drained page by page: the rows gathered so far
/// and where the next page starts, or that none is left.
pub struct PagedDrain<M> {
    pub rows: Vec<M>,
    pub next: Option<PagingState>,
}

impl<M> PagedDrain<M> {
    /// A drain that has fetched nothing and asks first for the start of the result.
    pub fn new() -> (r: Self)
        ensures
            r.rows@.len() == 0,
            r.next == Some(PagingState::Start),
    {
        PagedDrain { rows: Vec::new(), next: Some(PagingState::Start) }
    }

    pub open spec fn is_done(&self) -> bool {
        self.next is None
    }

    /// Takes in one page: its rows follow those gathered before, and the next
    /// page starts where the server said.
    pub fn accept(&mut self, page: Vec<M>, response: PagingStateResponse)
        requires
            !old(self).is_done(),
        ensures
            final(self).rows@ == old(self).rows@ + page@,
            response matches PagingStateResponse::HasMorePages(s) ==> final(self).next == Some(s),
            response is NoMorePages ==> final(self).next is None,
    {
        let mut page = page;
        self.rows.append(&mut page);
        self.next = match response {
            PagingStateResponse::HasMorePages(s) => Some(s),
            PagingStateResponse::NoMorePages => None,
        };
    }
}

/// `r` with `prefix` put before its rows, where it holds rows.
pub open spec fn prefixed<M>(prefix: Seq<M>, r: Result<Seq<M>, CharybdisError>) -> Result<Seq<M>, CharybdisError> {
    match r {
        Ok(rest) => Ok(prefix + rest),
        Err(e) => Err(e),
    }
}

/// Paging through a result with one page size or another yields the same rows.
pub proof fn lemma_page_size_keeps_rows<T>(all: Seq<T>, n1: nat, n2: nat)
    requires
        n1 > 0,
        n2 > 0,
    ensures
        pages_from(all, n1, 0) == pages_from(all, n2, 0),
        pages_from(all, n1, 0).to_multiset() == pages_from(all, n2, 0).to_multiset(),
{
    lemma_pages_enumerate_all(all, n1);
    lemma_pages_enumerate_all(all, n2);
}

impl<M> ModelStream<M> {
    /// The rows of one page of a stream in order, or the first one that failed
    /// to decode, with its position in the whole stream and the query string.
    pub fn decode_page(query: &'static str, page: Vec<Result<M, String>>, offset: usize) -> (r: Result<
        Vec<M>,
        CharybdisError,
    >)
        requires
            offset + page@.len() <= usize::MAX,
        ensures
            r matches Ok(v) ==> decoded_rows(query, page@, offset as nat) == Ok::<Seq<M>, CharybdisError>(v@),
            r matches Err(e) ==> decoded_rows(query, page@, offset as nat) == Err::<Seq<M>, CharybdisError>(e),
    {
        let ghost all = page@;
        let mut pending = page;
        let mut out: Vec<M> = Vec::new();
        assert(Seq::<M>::empty() + Seq::<M>::empty() =~= Seq::<M>::empty());
        proof {
            match decoded_rows(query, all, offset as nat) {
                Ok(v) => {
                    assert(Seq::<M>::empty() + v =~= v);
                },
                Err(_) => {},
            }
        }
        while pending.len() > 0
            invariant
                offset + out@.len() + pending@.len() == offset + all.len(),
                offset + all.len() <= usize::MAX,
                all == page@,
                decoded_rows(query, all, offset as nat) == prefixed(
                    out@,
                    decoded_rows(query, pending@, (offset + out@.len()) as nat),
                ),
            decreases pending@.len(),
        {
            let ghost before = pending@;
            let ghost out_before = out@;
            let x = pending.remove(0);
            assert(pending@ =~= before.drop_first());
            match x {
                Err(e) => {
                    let pos = offset + out.len();
                    proof {
                        let off = (offset + out_before.len()) as nat;
                        assert(before[0] == Err::<M, String>(e));
                        assert(decoded_rows(query, before, off) == Err::<Seq<M>, CharybdisError>(
                            CharybdisError::RowTypedError(query, pos, e),
                        ));
                        assert(decoded_rows(query, all, offset as nat) == Err::<Seq<M>, CharybdisError>(
                            CharybdisError::RowTypedError(query, pos, e),
                        ));
                    }
                    return Err(CharybdisError::RowTypedError(query, pos, e));
                },
                Ok(m) => {
                    out.push(m);
                    proof {
                        let off = (offset + out_before.len()) as nat;
                        match decoded_rows(query, pending@, off + 1) {
                            Ok(rest) => {
                                assert(out_before + (seq![m] + rest) =~= out@ + rest);
                            },
                            Err(_) => {},
                        }
                    }
                },
            }
        }
        proof {
            assert(out@ + Seq::<M>::empty() =~= out@);
        }
        Ok(out)
    }
}

} // verus!
