use charybdis::collection::{
    build_const_name, build_method_name, build_query, pull_from_collection_consts,
    pull_from_collection_consts_if_exists, pull_from_collection_methods, pull_from_collection_methods_if_exists,
    push_to_collection_consts, push_to_collection_consts_if_exists, push_to_collection_methods,
    push_to_collection_methods_if_exists, FieldDesc, MutationKind,
};

fn field(name: &str, is_collection: bool) -> FieldDesc {
    FieldDesc { name: name.to_string(), is_collection }
}

fn article_fields() -> Vec<FieldDesc> {
    vec![field("id", false), field("tags", true), field("title", false)]
}

#[test]
fn tags_on_articles_give_four_constants() {
    let fields = article_fields();
    let w = "id = ?";
    let push = push_to_collection_consts("articles", w, &fields);
    let push_ie = push_to_collection_consts_if_exists("articles", w, &fields);
    let pull = pull_from_collection_consts("articles", w, &fields);
    let pull_ie = pull_from_collection_consts_if_exists("articles", w, &fields);
    assert_eq!(push.len(), 1);
    assert_eq!(push[0].name, "PUSH_TAGS_QUERY");
    assert_eq!(push[0].query, "UPDATE articles SET tags = tags + ? WHERE id = ?");
    assert_eq!(push_ie.len(), 1);
    assert_eq!(push_ie[0].name, "PUSH_TAGS_IF_EXISTS_QUERY");
    assert_eq!(push_ie[0].query, "UPDATE articles SET tags = tags + ? WHERE id = ? IF EXISTS");
    assert_eq!(pull.len(), 1);
    assert_eq!(pull[0].name, "PULL_TAGS_QUERY");
    assert_eq!(pull[0].query, "UPDATE articles SET tags = tags - ? WHERE id = ?");
    assert_eq!(pull_ie.len(), 1);
    assert_eq!(pull_ie[0].name, "PULL_TAGS_IF_EXISTS_QUERY");
    assert_eq!(pull_ie[0].query, "UPDATE articles SET tags = tags - ? WHERE id = ? IF EXISTS");
}

#[test]
fn tags_on_articles_give_four_methods() {
    let fields = article_fields();
    let push = push_to_collection_methods(&fields);
    let push_ie = push_to_collection_methods_if_exists(&fields);
    let pull = pull_from_collection_methods(&fields);
    let pull_ie = pull_from_collection_methods_if_exists(&fields);
    assert_eq!(push.len(), 1);
    assert_eq!(push[0].name, "push_tags");
    assert_eq!(push[0].query_const, "Self::PUSH_TAGS_QUERY");
    assert_eq!(push_ie[0].name, "push_tags_if_exists");
    assert_eq!(push_ie[0].query_const, "Self::PUSH_TAGS_IF_EXISTS_QUERY");
    assert_eq!(pull[0].name, "pull_tags");
    assert_eq!(pull[0].query_const, "Self::PULL_TAGS_QUERY");
    assert_eq!(pull_ie[0].name, "pull_tags_if_exists");
    assert_eq!(pull_ie[0].query_const, "Self::PULL_TAGS_IF_EXISTS_QUERY");
}

#[test]
fn no_collection_columns_give_nothing() {
    let fields = vec![field("id", false), field("title", false)];
    assert!(push_to_collection_consts("t", "id = ?", &fields).is_empty());
    assert!(pull_from_collection_consts_if_exists("t", "id = ?", &fields).is_empty());
    assert!(push_to_collection_methods(&fields).is_empty());
    assert!(pull_from_collection_methods_if_exists(&fields).is_empty());
    assert!(push_to_collection_consts("t", "id = ?", &Vec::new()).is_empty());
}

#[test]
fn several_collections_keep_declared_order() {
    let fields = vec![field("b_list", true), field("id", false), field("a_set", true)];
    let consts = push_to_collection_consts("t", "id = ? AND ck = ?", &fields);
    assert_eq!(consts.len(), 2);
    assert_eq!(consts[0].name, "PUSH_B_LIST_QUERY");
    assert_eq!(consts[1].name, "PUSH_A_SET_QUERY");
    assert_eq!(consts[1].query, "UPDATE t SET a_set = a_set + ? WHERE id = ? AND ck = ?");
    let methods = pull_from_collection_methods(&fields);
    assert_eq!(methods[0].name, "pull_b_list");
    assert_eq!(methods[1].name, "pull_a_set");
}

#[test]
fn names_differing_only_by_case_collide() {
    let fields = vec![field("tags", true), field("TAGS", true)];
    let consts = push_to_collection_consts("t", "id = ?", &fields);
    assert_eq!(consts[0].name, consts[1].name);
    let methods = push_to_collection_methods(&fields);
    assert_ne!(methods[0].name, methods[1].name);
}

#[test]
fn single_pieces() {
    assert_eq!(build_query("x", "c", "k = ?", MutationKind::Pull), "UPDATE x SET c = c - ? WHERE k = ?");
    assert_eq!(build_const_name("MixedCase", MutationKind::PushIfExists), "PUSH_MIXEDCASE_IF_EXISTS_QUERY");
    assert_eq!(build_method_name("MixedCase", MutationKind::PullIfExists), "pull_MixedCase_if_exists");
}
