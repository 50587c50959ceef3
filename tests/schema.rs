use charybdis::schema::{object_from_catalog, DbSchema, IndexTarget, SchemaObject, SchemaObjects};

fn s(x: &str) -> String {
    x.to_string()
}

fn columns() -> Vec<(String, String)> {
    vec![(s("pk1"), s("int")), (s("pk2"), s("text")), (s("ck1"), s("int")), (s("col1"), s("list<int>"))]
}

#[test]
fn one_table_with_a_global_index() {
    let mut schema = DbSchema::new(s("ks"));
    let indexes = vec![(s("t_col1_idx"), IndexTarget::GlobalSecondaryIndex(s("col1")))];
    schema.add_table(s("t"), &columns(), &vec![s("pk1"), s("pk2")], &vec![s("ck1")], &indexes);
    let t = schema.tables.get("t").unwrap();
    assert_eq!(t.partition_keys, vec![s("pk1"), s("pk2")]);
    assert_eq!(t.clustering_keys, vec![s("ck1")]);
    assert_eq!(t.fields.len(), 4);
    let names: Vec<&str> = t.fields.iter().map(|f| f.name.as_str()).collect();
    assert_eq!(names, vec!["pk1", "pk2", "ck1", "col1"]);
    assert_eq!(t.fields[3].col_type, "list<int>");
    assert!(t.fields.iter().all(|f| !f.is_static));
    assert_eq!(t.global_secondary_indexes.len(), 1);
    assert_eq!(t.global_secondary_indexes[0].name, "t_col1_idx");
    assert_eq!(t.global_secondary_indexes[0].target, "col1");
    assert!(t.local_secondary_indexes.is_empty());
    assert_eq!(schema.keyspace_name, "ks");
    assert_eq!(schema.udts.len(), 0);
    assert_eq!(schema.materialized_views.len(), 0);
}

#[test]
fn indexes_split_by_scope_in_order() {
    let indexes = vec![
        (s("g1"), IndexTarget::GlobalSecondaryIndex(s("a"))),
        (s("l1"), IndexTarget::LocalSecondaryIndex(s("b"))),
        (s("g2"), IndexTarget::GlobalSecondaryIndex(s("c"))),
    ];
    let obj = object_from_catalog(&Vec::new(), &Vec::new(), &Vec::new(), &indexes);
    assert_eq!(obj.global_secondary_indexes.len(), 2);
    assert_eq!(obj.global_secondary_indexes[0].name, "g1");
    assert_eq!(obj.global_secondary_indexes[1].target, "c");
    assert_eq!(obj.local_secondary_indexes.len(), 1);
    assert_eq!(obj.local_secondary_indexes[0].name, "l1");
    assert_eq!(obj.local_secondary_indexes[0].target, "b");
}

#[test]
fn udt_names_are_lower_cased_and_fields_zipped() {
    let mut schema = DbSchema::new(s("ks"));
    schema.add_udt(&s("Address"), &vec![s("street"), s("zip")], &vec![s("text"), s("int")]);
    assert!(schema.udts.get("Address").is_none());
    let udt = schema.udts.get("address").unwrap();
    assert_eq!(udt.fields.len(), 2);
    assert_eq!(udt.fields[0].name, "street");
    assert_eq!(udt.fields[0].col_type, "text");
    assert_eq!(udt.fields[1].name, "zip");
    assert_eq!(udt.fields[1].col_type, "int");
    assert!(udt.partition_keys.is_empty());
    assert_eq!(schema.tables.len(), 0);
}

#[test]
fn views_have_keys_and_no_indexes() {
    let mut schema = DbSchema::new(s("ks"));
    schema.add_view(s("v"), &columns(), &vec![s("col1")], &vec![s("pk1")]);
    let v = schema.materialized_views.get("v").unwrap();
    assert_eq!(v.fields.len(), 4);
    assert_eq!(v.partition_keys, vec![s("col1")]);
    assert_eq!(v.clustering_keys, vec![s("pk1")]);
    assert!(v.global_secondary_indexes.is_empty());
    assert!(schema.tables.get("v").is_none());
}

#[test]
fn inserting_a_name_again_replaces_it() {
    let mut objects = SchemaObjects::new();
    let mut first = SchemaObject::new();
    first.push_field(s("a"), s("int"), true);
    objects.insert(s("x"), first);
    objects.insert(s("y"), SchemaObject::new());
    objects.insert(s("x"), SchemaObject::new());
    assert_eq!(objects.len(), 2);
    assert!(objects.get("x").unwrap().fields.is_empty());
    assert!(objects.get("z").is_none());
}

#[test]
fn fields_can_be_static() {
    let mut obj = SchemaObject::new();
    obj.push_field(s("a"), s("int"), true);
    assert!(obj.fields[0].is_static);
    obj.populate_columns(&vec![(s("b"), s("text"))]);
    assert!(!obj.fields[1].is_static);
    obj.populate_partition_keys(&vec![s("a")]);
    obj.populate_clustering_keys(&vec![s("b")]);
    assert_eq!(obj.partition_keys, vec![s("a")]);
    assert_eq!(obj.clustering_keys, vec![s("b")]);
}
