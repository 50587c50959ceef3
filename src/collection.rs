//! Generation of the query-string constants and builder-method names that
//! append to and remove from the collection-typed columns of a model.
use vstd::prelude::*;
use vstd::string::*;

verus! {

/// One declared column of a model, as the generator sees it.
pub struct FieldDesc {
    pub name: String,
    pub is_collection: bool,
}

/// The four forms of collection mutation.
#[derive(Clone, Copy, PartialEq, Eq, Structural)]
pub enum MutationKind {
    Push,
    PushIfExists,
    Pull,
    PullIfExists,
}

/// A generated query-string constant: its identifier and its CQL text.
pub struct GeneratedConst {
    pub name: String,
    pub query: String,
}

/// A generated builder method: its identifier and the path of the constant it binds.
pub struct GeneratedMethod {
    pub name: String,
    pub query_const: String,
}

pub uninterp spec fn upper_of(s: Seq<char>) -> Seq<char>;

/// Relies on str::to_uppercase: the result depends on the characters alone.
#[verifier::external_body]
fn to_upper(s: &str) -> (r: String)
    ensures
        r@ == upper_of(s@),
{
    s.to_uppercase()
}

pub open spec fn is_push(k: MutationKind) -> bool {
    k == MutationKind::Push || k == MutationKind::PushIfExists
}

pub open spec fn is_if_exists(k: MutationKind) -> bool {
    k == MutationKind::PushIfExists || k == MutationKind::PullIfExists
}

/// The arithmetic operator that the statement applies to the collection.
pub open spec fn op_text(k: MutationKind) -> Seq<char> {
    if is_push(k) { seq!['+'] } else { seq!['-'] }
}

pub open spec fn condition_text(k: MutationKind) -> Seq<char> {
    if is_if_exists(k) { " IF EXISTS"@ } else { ""@ }
}

/// `UPDATE T SET F = F <op> ? WHERE W[ IF EXISTS]`
pub open spec fn query_text(table: Seq<char>, col: Seq<char>, where_clause: Seq<char>, k: MutationKind) -> Seq<char> {
    "UPDATE "@ + table + " SET "@ + col + " = "@ + col + " "@ + op_text(k) + " ? WHERE "@ + where_clause
        + condition_text(k)
}

pub open spec fn const_prefix(k: MutationKind) -> Seq<char> {
    if is_push(k) { "PUSH_"@ } else { "PULL_"@ }
}

pub open spec fn const_suffix(k: MutationKind) -> Seq<char> {
    if is_if_exists(k) { "_IF_EXISTS_QUERY"@ } else { "_QUERY"@ }
}

/// `PUSH_<F>_QUERY` and its siblings, with the column name upper-cased.
pub open spec fn const_name(col: Seq<char>, k: MutationKind) -> Seq<char> {
    const_prefix(k) + upper_of(col) + const_suffix(k)
}

pub open spec fn method_prefix(k: MutationKind) -> Seq<char> {
    if is_push(k) { "push_"@ } else { "pull_"@ }
}

pub open spec fn method_suffix(k: MutationKind) -> Seq<char> {
    if is_if_exists(k) { "_if_exists"@ } else { ""@ }
}

/// `push_<f>` and its siblings, with the column name as declared.
pub open spec fn method_name(col: Seq<char>, k: MutationKind) -> Seq<char> {
    method_prefix(k) + col + method_suffix(k)
}

/// The path through which a generated method names its constant.
pub open spec fn const_path(col: Seq<char>, k: MutationKind) -> Seq<char> {
    "Self::"@ + const_name(col, k)
}

/// The names of the collection-typed columns, in declared order.
pub open spec fn collection_columns(fields: Seq<FieldDesc>) -> Seq<Seq<char>>
    decreases fields.len(),
{
    if fields.len() == 0 {
        Seq::empty()
    } else {
        let prev = collection_columns(fields.drop_last());
        if fields.last().is_collection {
            prev.push(fields.last().name@)
        } else {
            prev
        }
    }
}

/// A model without collection-typed columns gets no generated item.
pub proof fn lemma_no_collection_no_items(fields: Seq<FieldDesc>)
    requires
        forall|i: int| 0 <= i < fields.len() ==> !(#[trigger] fields[i]).is_collection,
    ensures
        collection_columns(fields).len() == 0,
    decreases fields.len(),
{
    if fields.len() > 0 {
        let prev = fields.drop_last();
        assert forall|i: int| 0 <= i < prev.len() implies !(#[trigger] prev[i]).is_collection by {
            assert(prev[i] == fields[i]);
        }
        lemma_no_collection_no_items(prev);
        assert(!fields[fields.len() - 1].is_collection);
    }
}

fn op_str(k: MutationKind) -> (r: &'static str)
    ensures
        r@ == op_text(k),
{
    proof {
        reveal_strlit("+");
        reveal_strlit("-");
    }
    match k {
        MutationKind::Push | MutationKind::PushIfExists => "+",
        _ => "-",
    }
}

fn condition_str(k: MutationKind) -> (r: &'static str)
    ensures
        r@ == condition_text(k),
{
    match k {
        MutationKind::PushIfExists | MutationKind::PullIfExists => " IF EXISTS",
        _ => "",
    }
}

/// `r` holds, in declared order, one constant of kind `k` per collection-typed column.
pub open spec fn consts_of(r: Seq<GeneratedConst>, table: Seq<char>, where_clause: Seq<char>, fields: Seq<FieldDesc>, k: MutationKind) -> bool {
    &&& r.len() == collection_columns(fields).len()
    &&& forall|i: int|
        0 <= i < r.len() ==> (#[trigger] r[i]).name@ == const_name(collection_columns(fields)[i], k)
            && r[i].query@ == query_text(table, collection_columns(fields)[i], where_clause, k)
}

/// `r` holds, in declared order, one builder method of kind `k` per collection-typed column.
pub open spec fn methods_of(r: Seq<GeneratedMethod>, fields: Seq<FieldDesc>, k: MutationKind) -> bool {
    &&& r.len() == collection_columns(fields).len()
    &&& forall|i: int|
        0 <= i < r.len() ==> (#[trigger] r[i]).name@ == method_name(collection_columns(fields)[i], k)
            && r[i].query_const@ == const_path(collection_columns(fields)[i], k)
}

/// Builds the CQL text of one collection mutation.
pub fn build_query(table: &str, col: &str, where_clause: &str, k: MutationKind) -> (r: String)
    ensures
        r@ == query_text(table@, col@, where_clause@, k),
{
    let mut s = String::from_str("UPDATE ");
    s.append(table);
    s.append(" SET ");
    s.append(col);
    s.append(" = ");
    s.append(col);
    s.append(" ");
    s.append(op_str(k));
    s.append(" ? WHERE ");
    s.append(where_clause);
    s.append(condition_str(k));
    s
}

/// Builds the identifier of the constant that holds one collection mutation.
pub fn build_const_name(col: &str, k: MutationKind) -> (r: String)
    ensures
        r@ == const_name(col@, k),
{
    let upper = to_upper(col);
    let mut s = match k {
        MutationKind::Push | MutationKind::PushIfExists => String::from_str("PUSH_"),
        _ => String::from_str("PULL_"),
    };
    s.append(upper.as_str());
    match k {
        MutationKind::PushIfExists | MutationKind::PullIfExists => s.append("_IF_EXISTS_QUERY"),
        _ => s.append("_QUERY"),
    }
    s
}

/// Builds the identifier of the builder method for one collection mutation.
pub fn build_method_name(col: &str, k: MutationKind) -> (r: String)
    ensures
        r@ == method_name(col@, k),
{
    let mut s = match k {
        MutationKind::Push | MutationKind::PushIfExists => String::from_str("push_"),
        _ => String::from_str("pull_"),
    };
    s.append(col);
    match k {
        MutationKind::PushIfExists | MutationKind::PullIfExists => s.append("_if_exists"),
        _ => s.append(""),
    }
    s
}

/// The constants of one mutation kind, one per collection-typed column, in
/// declared order; other columns get none.
pub fn collection_consts(table: &str, where_clause: &str, fields: &Vec<FieldDesc>, k: MutationKind) -> (r: Vec<
    GeneratedConst,
>)
    ensures
        r@.len() == collection_columns(fields@).len(),
        forall|i: int|
            0 <= i < r@.len() ==> (#[trigger] r@[i]).name@ == const_name(collection_columns(fields@)[i], k)
                && r@[i].query@ == query_text(table@, collection_columns(fields@)[i], where_clause@, k),
{
    let mut out: Vec<GeneratedConst> = Vec::new();
    let mut i: usize = 0;
    while i < fields.len()
        invariant
            i <= fields@.len(),
            out@.len() == collection_columns(fields@.take(i as int)).len(),
            forall|j: int|
                0 <= j < out@.len() ==> (#[trigger] out@[j]).name@ == const_name(
                    collection_columns(fields@.take(i as int))[j],
                    k,
                ) && out@[j].query@ == query_text(
                    table@,
                    collection_columns(fields@.take(i as int))[j],
                    where_clause@,
                    k,
                ),
        decreases fields@.len() - i,
    {
        let ghost before = fields@.take(i as int);
        assert(fields@.take(i as int + 1).drop_last() =~= before);
        let field = &fields[i];
        if field.is_collection {
            let c = GeneratedConst {
                name: build_const_name(field.name.as_str(), k),
                query: build_query(table, field.name.as_str(), where_clause, k),
            };
            out.push(c);
        }
        i = i + 1;
    }
    assert(fields@.take(fields@.len() as int) =~= fields@);
    out
}

/// The builder methods of one mutation kind, one per collection-typed column,
/// in declared order, each naming the constant of the same kind and column.
pub fn collection_methods(fields: &Vec<FieldDesc>, k: MutationKind) -> (r: Vec<GeneratedMethod>)
    ensures
        r@.len() == collection_columns(fields@).len(),
        forall|i: int|
            0 <= i < r@.len() ==> (#[trigger] r@[i]).name@ == method_name(collection_columns(fields@)[i], k)
                && r@[i].query_const@ == const_path(collection_columns(fields@)[i], k),
{
    let mut out: Vec<GeneratedMethod> = Vec::new();
    let mut i: usize = 0;
    while i < fields.len()
        invariant
            i <= fields@.len(),
            out@.len() == collection_columns(fields@.take(i as int)).len(),
            forall|j: int|
                0 <= j < out@.len() ==> (#[trigger] out@[j]).name@ == method_name(
                    collection_columns(fields@.take(i as int))[j],
                    k,
                ) && out@[j].query_const@ == const_path(collection_columns(fields@.take(i as int))[j], k),
        decreases fields@.len() - i,
    {
        let ghost before = fields@.take(i as int);
        assert(fields@.take(i as int + 1).drop_last() =~= before);
        let field = &fields[i];
        if field.is_collection {
            let mut path = String::from_str("Self::");
            let cname = build_const_name(field.name.as_str(), k);
            path.append(cname.as_str());
            let m = GeneratedMethod { name: build_method_name(field.name.as_str(), k), query_const: path };
            out.push(m);
        }
        i = i + 1;
    }
    assert(fields@.take(fields@.len() as int) =~= fields@);
    out
}

/// The `Push` constants of a model on `table` whose primary-key clause is `where_clause`.
pub fn push_to_collection_consts(table: &str, where_clause: &str, fields: &Vec<FieldDesc>) -> (r: Vec<GeneratedConst>)
    ensures
        consts_of(r@, table@, where_clause@, fields@, MutationKind::Push),
{
    collection_consts(table, where_clause, fields, MutationKind::Push)
}

/// The `PushIfExists` constants of a model on `table` whose primary-key clause is `where_clause`.
pub fn push_to_collection_consts_if_exists(table: &str, where_clause: &str, fields: &Vec<FieldDesc>) -> (r: Vec<GeneratedConst>)
    ensures
        consts_of(r@, table@, where_clause@, fields@, MutationKind::PushIfExists),
{
    collection_consts(table, where_clause, fields, MutationKind::PushIfExists)
}

/// The `Pull` constants of a model on `table` whose primary-key clause is `where_clause`.
pub fn pull_from_collection_consts(table: &str, where_clause: &str, fields: &Vec<FieldDesc>) -> (r: Vec<GeneratedConst>)
    ensures
        consts_of(r@, table@, where_clause@, fields@, MutationKind::Pull),
{
    collection_consts(table, where_clause, fields, MutationKind::Pull)
}

/// The `PullIfExists` constants of a model on `table` whose primary-key clause is `where_clause`.
pub fn pull_from_collection_consts_if_exists(table: &str, where_clause: &str, fields: &Vec<FieldDesc>) -> (r: Vec<GeneratedConst>)
    ensures
        consts_of(r@, table@, where_clause@, fields@, MutationKind::PullIfExists),
{
    collection_consts(table, where_clause, fields, MutationKind::PullIfExists)
}

/// The `Push` builder methods of a model.
pub fn push_to_collection_methods(fields: &Vec<FieldDesc>) -> (r: Vec<GeneratedMethod>)
    ensures
        methods_of(r@, fields@, MutationKind::Push),
{
    collection_methods(fields, MutationKind::Push)
}

/// The `PushIfExists` builder methods of a model.
pub fn push_to_collection_methods_if_exists(fields: &Vec<FieldDesc>) -> (r: Vec<GeneratedMethod>)
    ensures
        methods_of(r@, fields@, MutationKind::PushIfExists),
{
    collection_methods(fields, MutationKind::PushIfExists)
}

/// The `Pull` builder methods of a model.
pub fn pull_from_collection_methods(fields: &Vec<FieldDesc>) -> (r: Vec<GeneratedMethod>)
    ensures
        methods_of(r@, fields@, MutationKind::Pull),
{
    collection_methods(fields, MutationKind::Pull)
}

/// The `PullIfExists` builder methods of a model.
pub fn pull_from_collection_methods_if_exists(fields: &Vec<FieldDesc>) -> (r: Vec<GeneratedMethod>)
    ensures
        methods_of(r@, fields@, MutationKind::PullIfExists),
{
    collection_methods(fields, MutationKind::PullIfExists)
}

} // verus!
