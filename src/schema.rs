//! An in-memory snapshot of one keyspace's tables, user-defined types and
//! materialized views, filled from the rows of the database's own catalog.
use vstd::prelude::*;
use vstd::string::*;

verus! {

/// Lists the tables of a keyspace.
pub const SELECT_TABLES: &'static str = "SELECT table_name FROM system_schema.tables WHERE keyspace_name = ? ALLOW FILTERING";

/// Lists the columns, with their types, of a table or a view.
pub const SELECT_COLUMNS: &'static str = "SELECT column_name, type FROM system_schema.columns WHERE keyspace_name = ? AND table_name = ? ALLOW FILTERING";

/// Lists the partition-key columns of a table or a view, in key order.
pub const SELECT_PARTITION_KEYS: &'static str = "SELECT column_name FROM system_schema.columns WHERE keyspace_name = ? AND table_name = ? AND kind = 'partition_key' ALLOW FILTERING";

/// Lists the clustering-key columns of a table or a view, in key order.
pub const SELECT_CLUSTERING_KEYS: &'static str = "SELECT column_name FROM system_schema.columns WHERE keyspace_name = ? AND table_name = ? AND kind = 'clustering' ALLOW FILTERING";

/// Lists the secondary indexes of a table with their options.
pub const SELECT_INDEXES: &'static str = "SELECT index_name, options FROM system_schema.indexes WHERE keyspace_name = ? AND table_name = ? ALLOW FILTERING";

/// Lists the user-defined types of a keyspace with their field names and types.
pub const SELECT_UDTS: &'static str = "SELECT type_name, field_names, field_types FROM system_schema.types WHERE keyspace_name = ?";

/// Lists the materialized views of a keyspace.
pub const SELECT_VIEWS: &'static str = "SELECT view_name FROM system_schema.views WHERE keyspace_name = ? ALLOW FILTERING";

pub uninterp spec fn lower_of(s: Seq<char>) -> Seq<char>;

/// Relies on str::to_lowercase: the result depends on the characters alone.
#[verifier::external_body]
fn to_lower(s: &str) -> (r: String)
    ensures
        r@ == lower_of(s@),
{
    s.to_lowercase()
}

/// One column (or type field): its name, its CQL type, and whether it is static.
pub struct Field {
    pub name: String,
    pub col_type: String,
    pub is_static: bool,
}

/// A secondary index and the column it targets.
pub struct Index {
    pub name: String,
    pub target: String,
}

/// What an index's options say of it: a global or a local index on a column.
pub enum IndexTarget {
    GlobalSecondaryIndex(String),
    LocalSecondaryIndex(String),
}

/// One table, view or user-defined type.
pub struct SchemaObject {
    pub fields: Vec<Field>,
    pub partition_keys: Vec<String>,
    pub clustering_keys: Vec<String>,
    pub global_secondary_indexes: Vec<Index>,
    pub local_secondary_indexes: Vec<Index>,
}

pub open spec fn names_of(v: Seq<String>) -> Seq<Seq<char>> {
    v.map_values(|s: String| s@)
}

pub open spec fn index_names(v: Seq<Index>) -> Seq<(Seq<char>, Seq<char>)> {
    v.map_values(|x: Index| (x.name@, x.target@))
}

pub open spec fn field_views(v: Seq<Field>) -> Seq<(Seq<char>, Seq<char>, bool)> {
    v.map_values(|f: Field| (f.name@, f.col_type@, f.is_static))
}

/// The columns of a catalog reply, none of them static.
pub open spec fn column_fields(rows: Seq<(String, String)>) -> Seq<(Seq<char>, Seq<char>, bool)> {
    rows.map_values(|r: (String, String)| (r.0@, r.1@, false))
}

/// The indexes of a catalog reply whose options name a global index (`global`)
/// or a local one (`!global`), in reply order.
pub open spec fn indexes_of(rows: Seq<(String, IndexTarget)>, global: bool) -> Seq<(Seq<char>, Seq<char>)>
    decreases rows.len(),
{
    if rows.len() == 0 {
        Seq::empty()
    } else {
        let prev = indexes_of(rows.drop_last(), global);
        let (name, target) = rows.last();
        match target {
            IndexTarget::GlobalSecondaryIndex(t) => if global { prev.push((name@, t@)) } else { prev },
            IndexTarget::LocalSecondaryIndex(t) => if global { prev } else { prev.push((name@, t@)) },
        }
    }
}

impl SchemaObject {
    pub open spec fn is_empty_object(&self) -> bool {
        &&& self.fields@.len() == 0
        &&& self.partition_keys@.len() == 0
        &&& self.clustering_keys@.len() == 0
        &&& self.global_secondary_indexes@.len() == 0
        &&& self.local_secondary_indexes@.len() == 0
    }

    pub fn new() -> (r: SchemaObject)
        ensures
            r.is_empty_object(),
    {
        SchemaObject {
            fields: Vec::new(),
            partition_keys: Vec::new(),
            clustering_keys: Vec::new(),
            global_secondary_indexes: Vec::new(),
            local_secondary_indexes: Vec::new(),
        }
    }

    /// Appends one field, leaving everything else as it was.
    pub fn push_field(&mut self, name: String, col_type: String, is_static: bool)
        ensures
            field_views(final(self).fields@) == field_views(old(self).fields@).push((name@, col_type@, is_static)),
            final(self).partition_keys == old(self).partition_keys,
            final(self).clustering_keys == old(self).clustering_keys,
            final(self).global_secondary_indexes == old(self).global_secondary_indexes,
            final(self).local_secondary_indexes == old(self).local_secondary_indexes,
    {
        self.fields.push(Field { name, col_type, is_static });
        assert(field_views(self.fields@) =~= field_views(old(self).fields@).push((name@, col_type@, is_static)));
    }

    /// Appends the columns of a catalog reply, in reply order, none of them static.
    pub fn populate_columns(&mut self, rows: &Vec<(String, String)>)
        ensures
            field_views(final(self).fields@) == field_views(old(self).fields@) + column_fields(rows@),
            final(self).partition_keys == old(self).partition_keys,
            final(self).clustering_keys == old(self).clustering_keys,
            final(self).global_secondary_indexes == old(self).global_secondary_indexes,
            final(self).local_secondary_indexes == old(self).local_secondary_indexes,
    {
        let mut i: usize = 0;
        while i < rows.len()
            invariant
                i <= rows@.len(),
                field_views(self.fields@) == field_views(old(self).fields@) + column_fields(rows@.take(i as int)),
                self.partition_keys == old(self).partition_keys,
                self.clustering_keys == old(self).clustering_keys,
                self.global_secondary_indexes == old(self).global_secondary_indexes,
                self.local_secondary_indexes == old(self).local_secondary_indexes,
            decreases rows@.len() - i,
        {
            let name = rows[i].0.clone();
            let col_type = rows[i].1.clone();
            self.push_field(name, col_type, false);
            assert(column_fields(rows@.take(i as int + 1)) =~= column_fields(rows@.take(i as int)).push(
                (rows@[i as int].0@, rows@[i as int].1@, false),
            ));
            i = i + 1;
        }
        assert(rows@.take(rows@.len() as int) =~= rows@);
    }

    /// Appends the partition-key columns of a catalog reply, in reply order.
    pub fn populate_partition_keys(&mut self, rows: &Vec<String>)
        ensures
            names_of(final(self).partition_keys@) == names_of(old(self).partition_keys@) + names_of(rows@),
            final(self).fields == old(self).fields,
            final(self).clustering_keys == old(self).clustering_keys,
            final(self).global_secondary_indexes == old(self).global_secondary_indexes,
            final(self).local_secondary_indexes == old(self).local_secondary_indexes,
    {
        let mut i: usize = 0;
        while i < rows.len()
            invariant
                i <= rows@.len(),
                names_of(self.partition_keys@) == names_of(old(self).partition_keys@) + names_of(
                    rows@.take(i as int),
                ),
                self.fields == old(self).fields,
                self.clustering_keys == old(self).clustering_keys,
                self.global_secondary_indexes == old(self).global_secondary_indexes,
                self.local_secondary_indexes == old(self).local_secondary_indexes,
            decreases rows@.len() - i,
        {
            let ghost prev = self.partition_keys@;
            self.partition_keys.push(rows[i].clone());
            assert(names_of(self.partition_keys@) =~= names_of(prev).push(rows@[i as int]@));
            assert(names_of(rows@.take(i as int + 1)) =~= names_of(rows@.take(i as int)).push(rows@[i as int]@));
            i = i + 1;
        }
        assert(rows@.take(rows@.len() as int) =~= rows@);
    }

    /// Appends the clustering-key columns of a catalog reply, in reply order.
    pub fn populate_clustering_keys(&mut self, rows: &Vec<String>)
        ensures
            names_of(final(self).clustering_keys@) == names_of(old(self).clustering_keys@) + names_of(rows@),
            final(self).fields == old(self).fields,
            final(self).partition_keys == old(self).partition_keys,
            final(self).global_secondary_indexes == old(self).global_secondary_indexes,
            final(self).local_secondary_indexes == old(self).local_secondary_indexes,
    {
        let mut i: usize = 0;
        while i < rows.len()
            invariant
                i <= rows@.len(),
                names_of(self.clustering_keys@) == names_of(old(self).clustering_keys@) + names_of(
                    rows@.take(i as int),
                ),
                self.fields == old(self).fields,
                self.partition_keys == old(self).partition_keys,
                self.global_secondary_indexes == old(self).global_secondary_indexes,
                self.local_secondary_indexes == old(self).local_secondary_indexes,
            decreases rows@.len() - i,
        {
            let ghost prev = self.clustering_keys@;
            self.clustering_keys.push(rows[i].clone());
            assert(names_of(self.clustering_keys@) =~= names_of(prev).push(rows@[i as int]@));
            assert(names_of(rows@.take(i as int + 1)) =~= names_of(rows@.take(i as int)).push(rows@[i as int]@));
            i = i + 1;
        }
        assert(rows@.take(rows@.len() as int) =~= rows@);
    }

    /// Sorts the indexes of a catalog reply by scope, each list in reply order.
    pub fn populate_secondary_indexes(&mut self, rows: &Vec<(String, IndexTarget)>)
        ensures
            index_names(final(self).global_secondary_indexes@) == index_names(
                old(self).global_secondary_indexes@,
            ) + indexes_of(rows@, true),
            index_names(final(self).local_secondary_indexes@) == index_names(
                old(self).local_secondary_indexes@,
            ) + indexes_of(rows@, false),
            final(self).fields == old(self).fields,
            final(self).partition_keys == old(self).partition_keys,
            final(self).clustering_keys == old(self).clustering_keys,
    {
        let mut i: usize = 0;
        while i < rows.len()
            invariant
                i <= rows@.len(),
                index_names(self.global_secondary_indexes@) == index_names(old(self).global_secondary_indexes@)
                    + indexes_of(rows@.take(i as int), true),
                index_names(self.local_secondary_indexes@) == index_names(old(self).local_secondary_indexes@)
                    + indexes_of(rows@.take(i as int), false),
                self.fields == old(self).fields,
                self.partition_keys == old(self).partition_keys,
                self.clustering_keys == old(self).clustering_keys,
            decreases rows@.len() - i,
        {
            assert(rows@.take(i as int + 1).drop_last() =~= rows@.take(i as int));
            let ghost g = self.global_secondary_indexes@;
            let ghost l = self.local_secondary_indexes@;
            let name = rows[i].0.clone();
            match &rows[i].1 {
                IndexTarget::GlobalSecondaryIndex(t) => {
                    self.global_secondary_indexes.push(Index { name, target: t.clone() });
                    assert(index_names(self.global_secondary_indexes@) =~= index_names(g).push((name@, t@)));
                },
                IndexTarget::LocalSecondaryIndex(t) => {
                    self.local_secondary_indexes.push(Index { name, target: t.clone() });
                    assert(index_names(self.local_secondary_indexes@) =~= index_names(l).push((name@, t@)));
                },
            }
            i = i + 1;
        }
        assert(rows@.take(rows@.len() as int) =~= rows@);
    }
}

/// What a schema object holds, as plain sequences.
pub struct ObjectView {
    pub fields: Seq<(Seq<char>, Seq<char>, bool)>,
    pub partition_keys: Seq<Seq<char>>,
    pub clustering_keys: Seq<Seq<char>>,
    pub global_secondary_indexes: Seq<(Seq<char>, Seq<char>)>,
    pub local_secondary_indexes: Seq<(Seq<char>, Seq<char>)>,
}

impl View for SchemaObject {
    type V = ObjectView;

    open spec fn view(&self) -> ObjectView {
        ObjectView {
            fields: field_views(self.fields@),
            partition_keys: names_of(self.partition_keys@),
            clustering_keys: names_of(self.clustering_keys@),
            global_secondary_indexes: index_names(self.global_secondary_indexes@),
            local_secondary_indexes: index_names(self.local_secondary_indexes@),
        }
    }
}

/// The object that a table or a view gets from the four catalog replies about it.
pub open spec fn catalog_object(
    columns: Seq<(String, String)>,
    partition_keys: Seq<String>,
    clustering_keys: Seq<String>,
    indexes: Seq<(String, IndexTarget)>,
) -> ObjectView {
    ObjectView {
        fields: column_fields(columns),
        partition_keys: names_of(partition_keys),
        clustering_keys: names_of(clustering_keys),
        global_secondary_indexes: indexes_of(indexes, true),
        local_secondary_indexes: indexes_of(indexes, false),
    }
}

/// The fields of a user-defined type: each name paired with the type at the
/// same position, none of them static.
pub open spec fn udt_fields(names: Seq<String>, types: Seq<String>) -> Seq<(Seq<char>, Seq<char>, bool)> {
    Seq::new(names.len(), |i: int| (names[i]@, types[i]@, false))
}

/// The object of a user-defined type: its fields, and no keys or indexes.
pub open spec fn udt_object(names: Seq<String>, types: Seq<String>) -> ObjectView {
    ObjectView {
        fields: udt_fields(names, types),
        partition_keys: Seq::empty(),
        clustering_keys: Seq::empty(),
        global_secondary_indexes: Seq::empty(),
        local_secondary_indexes: Seq::empty(),
    }
}

/// Builds the object of a table or a view from the catalog's replies about it:
/// its columns, partition-key and clustering-key columns, and indexes.
pub fn object_from_catalog(
    columns: &Vec<(String, String)>,
    partition_keys: &Vec<String>,
    clustering_keys: &Vec<String>,
    indexes: &Vec<(String, IndexTarget)>,
) -> (r: SchemaObject)
    ensures
        r@ == catalog_object(columns@, partition_keys@, clustering_keys@, indexes@),
{
    let mut obj = SchemaObject::new();
    obj.populate_columns(columns);
    obj.populate_partition_keys(partition_keys);
    obj.populate_clustering_keys(clustering_keys);
    obj.populate_secondary_indexes(indexes);
    assert(obj@.fields =~= column_fields(columns@));
    assert(obj@.partition_keys =~= names_of(partition_keys@));
    assert(obj@.clustering_keys =~= names_of(clustering_keys@));
    assert(obj@.global_secondary_indexes =~= indexes_of(indexes@, true));
    assert(obj@.local_secondary_indexes =~= indexes_of(indexes@, false));
    obj
}

/// Builds the object of a user-defined type from its parallel field-name and
/// field-type lists.
pub fn object_from_udt(field_names: &Vec<String>, field_types: &Vec<String>) -> (r: SchemaObject)
    requires
        field_names@.len() <= field_types@.len(),
    ensures
        r@ == udt_object(field_names@, field_types@),
{
    let mut obj = SchemaObject::new();
    let mut i: usize = 0;
    while i < field_names.len()
        invariant
            i <= field_names@.len(),
            field_names@.len() <= field_types@.len(),
            field_views(obj.fields@) == udt_fields(field_names@.take(i as int), field_types@),
            obj.partition_keys@.len() == 0,
            obj.clustering_keys@.len() == 0,
            obj.global_secondary_indexes@.len() == 0,
            obj.local_secondary_indexes@.len() == 0,
        decreases field_names@.len() - i,
    {
        obj.push_field(field_names[i].clone(), field_types[i].clone(), false);
        assert(udt_fields(field_names@.take(i as int + 1), field_types@) =~= udt_fields(
            field_names@.take(i as int),
            field_types@,
        ).push((field_names@[i as int]@, field_types@[i as int]@, false)));
        i = i + 1;
    }
    assert(field_names@.take(field_names@.len() as int) =~= field_names@);
    assert(obj@.partition_keys =~= Seq::<Seq<char>>::empty());
    assert(obj@.clustering_keys =~= Seq::<Seq<char>>::empty());
    assert(obj@.global_secondary_indexes =~= Seq::<(Seq<char>, Seq<char>)>::empty());
    assert(obj@.local_secondary_indexes =~= Seq::<(Seq<char>, Seq<char>)>::empty());
    obj
}

/// A named schema object.
pub struct SchemaEntry {
    pub name: String,
    pub object: SchemaObject,
}

/// The map that a list of entries describes, later entries over earlier ones.
pub open spec fn entries_map(s: Seq<SchemaEntry>) -> Map<Seq<char>, ObjectView>
    decreases s.len(),
{
    if s.len() == 0 {
        Map::empty()
    } else {
        entries_map(s.drop_last()).insert(s.last().name@, s.last().object@)
    }
}

pub open spec fn unique_names(s: Seq<SchemaEntry>) -> bool {
    forall|i: int, j: int| 0 <= i < s.len() && 0 <= j < s.len() && i != j ==> s[i].name@ != s[j].name@
}

proof fn lemma_unique_names_drop_last(s: Seq<SchemaEntry>)
    requires
        unique_names(s),
        s.len() > 0,
    ensures
        unique_names(s.drop_last()),
{
    let p = s.drop_last();
    assert forall|i: int, j: int| 0 <= i < p.len() && 0 <= j < p.len() && i != j implies p[i].name@ != p[j].name@ by {
        assert(p[i] == s[i] && p[j] == s[j]);
    }
}

proof fn lemma_entries_map_lookup(s: Seq<SchemaEntry>, k: Seq<char>)
    requires
        unique_names(s),
    ensures
        entries_map(s).contains_key(k) <==> exists|i: int| 0 <= i < s.len() && s[i].name@ == k,
        forall|i: int|
            0 <= i < s.len() && s[i].name@ == k ==> entries_map(s).contains_key(k) && entries_map(s)[k]
                == s[i].object@,
    decreases s.len(),
{
    if s.len() > 0 {
        let p = s.drop_last();
        let last = s.len() - 1;
        lemma_unique_names_drop_last(s);
        lemma_entries_map_lookup(p, k);
        if s[last].name@ == k {
            assert forall|i: int| 0 <= i < s.len() && s[i].name@ == k implies entries_map(s).contains_key(k)
                && entries_map(s)[k] == s[i].object@ by {
                assert(i == last);
            }
        } else {
            assert forall|i: int| 0 <= i < s.len() && s[i].name@ == k implies entries_map(s).contains_key(k)
                && entries_map(s)[k] == s[i].object@ by {
                assert(i != last);
                assert(s[i] == p[i]);
            }
            if entries_map(s).contains_key(k) {
                let i = choose|i: int| 0 <= i < p.len() && p[i].name@ == k;
                assert(s[i] == p[i]);
            }
            if exists|i: int| 0 <= i < s.len() && s[i].name@ == k {
                let i = choose|i: int| 0 <= i < s.len() && s[i].name@ == k;
                assert(i != last);
                assert(p[i] == s[i]);
            }
        }
    }
}

proof fn lemma_entries_map_update(s: Seq<SchemaEntry>, j: int, e: SchemaEntry)
    requires
        unique_names(s),
        0 <= j < s.len(),
        s[j].name@ == e.name@,
    ensures
        entries_map(s.update(j, e)) == entries_map(s).insert(e.name@, e.object@),
    decreases s.len(),
{
    let u = s.update(j, e);
    if j == s.len() - 1 {
        assert(u.drop_last() =~= s.drop_last());
        assert(entries_map(u) =~= entries_map(s).insert(e.name@, e.object@));
    } else {
        let p = s.drop_last();
        lemma_unique_names_drop_last(s);
        assert(u.drop_last() =~= p.update(j, e));
        lemma_entries_map_update(p, j, e);
        assert(s.last().name@ != e.name@);
        assert(entries_map(u) =~= entries_map(s).insert(e.name@, e.object@));
    }
}

/// Schema objects keyed by name, each name at most once.
pub struct SchemaObjects {
    entries: Vec<SchemaEntry>,
}

impl View for SchemaObjects {
    type V = Map<Seq<char>, ObjectView>;

    closed spec fn view(&self) -> Map<Seq<char>, ObjectView> {
        entries_map(self.entries@)
    }
}

impl SchemaObjects {
    pub closed spec fn wf(&self) -> bool {
        unique_names(self.entries@)
    }

    pub fn new() -> (r: SchemaObjects)
        ensures
            r.wf(),
            r@ == Map::<Seq<char>, ObjectView>::empty(),
    {
        SchemaObjects { entries: Vec::new() }
    }

    pub fn len(&self) -> (r: usize)
        requires
            self.wf(),
        ensures
            r == self@.len(),
    {
        proof {
            self.lemma_len();
        }
        self.entries.len()
    }

    proof fn lemma_len(&self)
        requires
            self.wf(),
        ensures
            self@.dom().finite(),
            self@.len() == self.entries@.len(),
    {
        let s = self.entries@;
        assert(self@.dom() =~= Set::new(|k: Seq<char>| exists|i: int| 0 <= i < s.len() && s[i].name@ == k)) by {
            assert forall|k: Seq<char>| #[trigger] self@.dom().contains(k) <==> (exists|i: int|
                0 <= i < s.len() && s[i].name@ == k) by {
                lemma_entries_map_lookup(s, k);
            }
        }
        let names = s.map_values(|e: SchemaEntry| e.name@);
        assert(names.no_duplicates());
        assert(self@.dom() =~= names.to_set()) by {
            assert forall|k: Seq<char>| #[trigger] self@.dom().contains(k) <==> names.to_set().contains(k) by {
                lemma_entries_map_lookup(s, k);
                if names.to_set().contains(k) {
                    let i = choose|i: int| 0 <= i < names.len() && names[i] == k;
                    assert(s[i].name@ == k);
                }
                if self@.dom().contains(k) {
                    let i = choose|i: int| 0 <= i < s.len() && s[i].name@ == k;
                    assert(names[i] == k);
                }
            }
        }
        names.unique_seq_to_set();
    }

    fn position(&self, name: &String) -> (r: Option<usize>)
        ensures
            match r {
                Some(j) => j < self.entries@.len() && self.entries@[j as int].name@ == name@,
                None => forall|i: int| 0 <= i < self.entries@.len() ==> self.entries@[i].name@ != name@,
            },
    {
        let mut i: usize = 0;
        while i < self.entries.len()
            invariant
                i <= self.entries@.len(),
                forall|k: int| 0 <= k < i ==> self.entries@[k].name@ != name@,
            decreases self.entries@.len() - i,
        {
            if self.entries[i].name == *name {
                return Some(i);
            }
            i = i + 1;
        }
        None
    }

    /// Puts `object` under `name`, replacing what was there.
    pub fn insert(&mut self, name: String, object: SchemaObject)
        requires
            old(self).wf(),
        ensures
            final(self).wf(),
            final(self)@ == old(self)@.insert(name@, object@),
    {
        let ghost nv = name@;
        let ghost ov = object@;
        match self.position(&name) {
            Some(j) => {
                let e = SchemaEntry { name, object };
                proof {
                    lemma_entries_map_update(self.entries@, j as int, e);
                }
                self.entries.set(j, e);
            },
            None => {
                let e = SchemaEntry { name, object };
                self.entries.push(e);
                assert(self.entries@.drop_last() =~= old(self).entries@);
            },
        }
    }

    /// The named objects, each name once.
    pub fn entries(&self) -> (r: &Vec<SchemaEntry>)
        requires
            self.wf(),
        ensures
            entries_map(r@) == self@,
            unique_names(r@),
    {
        &self.entries
    }

    /// The object under `name`, if any.
    pub fn get(&self, name: &str) -> (r: Option<&SchemaObject>)
        requires
            self.wf(),
        ensures
            r is Some <==> self@.contains_key(name@),
            r is Some ==> r.unwrap()@ == self@[name@],
    {
        let key = String::from_str(name);
        let mut i: usize = 0;
        while i < self.entries.len()
            invariant
                self.wf(),
                key@ == name@,
                i <= self.entries@.len(),
                forall|k: int| 0 <= k < i ==> self.entries@[k].name@ != name@,
            decreases self.entries@.len() - i,
        {
            if self.entries[i].name == key {
                proof {
                    lemma_entries_map_lookup(self.entries@, name@);
                }
                return Some(&self.entries[i].object);
            }
            i = i + 1;
        }
        proof {
            lemma_entries_map_lookup(self.entries@, name@);
        }
        None
    }
}

/// The current shape of one keyspace: its tables, user-defined types (keyed by
/// lower-cased name) and materialized views.
pub struct DbSchema {
    pub tables: SchemaObjects,
    pub udts: SchemaObjects,
    pub materialized_views: SchemaObjects,
    pub keyspace_name: String,
}

impl DbSchema {
    pub open spec fn wf(&self) -> bool {
        &&& self.tables.wf()
        &&& self.udts.wf()
        &&& self.materialized_views.wf()
    }

    /// An empty snapshot of `keyspace_name`, to be filled from the catalog.
    pub fn new(keyspace_name: String) -> (r: DbSchema)
        ensures
            r.wf(),
            r.tables@ == Map::<Seq<char>, ObjectView>::empty(),
            r.udts@ == Map::<Seq<char>, ObjectView>::empty(),
            r.materialized_views@ == Map::<Seq<char>, ObjectView>::empty(),
            r.keyspace_name@ == keyspace_name@,
    {
        DbSchema {
            tables: SchemaObjects::new(),
            udts: SchemaObjects::new(),
            materialized_views: SchemaObjects::new(),
            keyspace_name,
        }
    }

    /// Records a table from the catalog's replies about it.
    pub fn add_table(
        &mut self,
        name: String,
        columns: &Vec<(String, String)>,
        partition_keys: &Vec<String>,
        clustering_keys: &Vec<String>,
        indexes: &Vec<(String, IndexTarget)>,
    )
        requires
            old(self).wf(),
        ensures
            final(self).wf(),
            final(self).tables@ == old(self).tables@.insert(
                name@,
                catalog_object(columns@, partition_keys@, clustering_keys@, indexes@),
            ),
            final(self).udts@ == old(self).udts@,
            final(self).materialized_views@ == old(self).materialized_views@,
            final(self).keyspace_name@ == old(self).keyspace_name@,
    {
        let obj = object_from_catalog(columns, partition_keys, clustering_keys, indexes);
        self.tables.insert(name, obj);
    }

    /// Records a user-defined type from its catalog row, under its lower-cased name.
    pub fn add_udt(&mut self, udt_name: &String, field_names: &Vec<String>, field_types: &Vec<String>)
        requires
            old(self).wf(),
            field_names@.len() <= field_types@.len(),
        ensures
            final(self).wf(),
            final(self).udts@ == old(self).udts@.insert(
                lower_of(udt_name@),
                udt_object(field_names@, field_types@),
            ),
            final(self).tables@ == old(self).tables@,
            final(self).materialized_views@ == old(self).materialized_views@,
            final(self).keyspace_name@ == old(self).keyspace_name@,
    {
        let obj = object_from_udt(field_names, field_types);
        let key = to_lower(udt_name.as_str());
        self.udts.insert(key, obj);
    }

    /// Records a materialized view from the catalog's replies about it; views
    /// carry no index.
    pub fn add_view(
        &mut self,
        name: String,
        columns: &Vec<(String, String)>,
        partition_keys: &Vec<String>,
        clustering_keys: &Vec<String>,
    )
        requires
            old(self).wf(),
        ensures
            final(self).wf(),
            final(self).materialized_views@ == old(self).materialized_views@.insert(
                name@,
                catalog_object(columns@, partition_keys@, clustering_keys@, Seq::empty()),
            ),
            final(self).tables@ == old(self).tables@,
            final(self).udts@ == old(self).udts@,
            final(self).keyspace_name@ == old(self).keyspace_name@,
    {
        let no_indexes: Vec<(String, IndexTarget)> = Vec::new();
        let obj = object_from_catalog(columns, partition_keys, clustering_keys, &no_indexes);
        self.materialized_views.insert(name, obj);
    }
}

} // verus!
