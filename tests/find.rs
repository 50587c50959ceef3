use charybdis::find::{BaseModel, Find};
use charybdis::query::PagingState;

struct Post {
    category: String,
    id: i64,
}

impl BaseModel for Post {
    type PrimaryKey = (String, i64);
    type PartitionKey = (String,);

    fn find_by_primary_key_query() -> &'static str {
        "SELECT * FROM posts WHERE category = ? AND id = ?"
    }

    fn find_by_partition_key_query() -> &'static str {
        "SELECT * FROM posts WHERE category = ?"
    }

    fn find_first_by_partition_key_query() -> &'static str {
        "SELECT * FROM posts WHERE category = ? LIMIT 1"
    }

    fn primary_key_values(&self) -> (String, i64) {
        (self.category.clone(), self.id)
    }

    fn partition_key_values(&self) -> (String,) {
        (self.category.clone(),)
    }
}

#[test]
fn finders_bind_the_generated_statements() {
    let post = Post { category: "news".to_string(), id: 7 };
    let q = post.find_by_primary_key();
    assert_eq!(q.query_string, "SELECT * FROM posts WHERE category = ? AND id = ?");
    assert_eq!(q.values, ("news".to_string(), 7));
    let q = post.maybe_find_by_primary_key();
    assert_eq!(q.values, ("news".to_string(), 7));
    let q = post.find_by_partition_key();
    assert_eq!(q.query_string, "SELECT * FROM posts WHERE category = ?");
    assert_eq!(q.values, ("news".to_string(),));
    let q = Post::find_first_by_partition_key_value(("a".to_string(),));
    assert_eq!(q.query_string, "SELECT * FROM posts WHERE category = ? LIMIT 1");
    let q = Post::find_by_primary_key_value(("a".to_string(), 1));
    assert_eq!(q.paging_state, PagingState::Start);
    let q = Post::maybe_find_by_primary_key_value(("a".to_string(), 2));
    assert_eq!(q.values.1, 2);
}

#[test]
fn paged_and_streamed_partition_finders_agree() {
    let paged = Post::find_by_partition_key_value_paged(("a".to_string(),));
    let streamed = Post::find_by_partition_key_value(("a".to_string(),));
    assert_eq!(paged.query_string, streamed.query_string);
    assert_eq!(paged.values, streamed.values);
    assert_eq!(paged.paging_state, streamed.paging_state);
}

#[test]
fn arbitrary_statement_finders() {
    let q = Post::find::<(i32,)>("SELECT * FROM posts WHERE x = ?", (1,));
    assert_eq!(q.query_string, "SELECT * FROM posts WHERE x = ?");
    let q = Post::find_paged::<(i32,)>("SELECT * FROM posts", (1,), PagingState::Resume(vec![4]));
    assert_eq!(q.paging_state, PagingState::Resume(vec![4]));
    let q = Post::find_first::<()>("SELECT * FROM posts", ());
    assert!(q.options.page_size.is_none());
    let q = Post::maybe_find_first::<()>("SELECT * FROM posts", ());
    assert_eq!(q.query_string, "SELECT * FROM posts");
}
