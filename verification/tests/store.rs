use blog::post::Post;
use blog::store::PostStore;

fn entry(id: &str, title: &str, published: bool) -> Post {
    Post {
        id: id.to_string(),
        title: title.to_string(),
        body: format!("body of {}", id),
        published,
    }
}

#[test]
fn store_keeps_posts_in_order() {
    let posts = vec![entry("b", "Second", false), entry("a", "First", true)];
    let store = PostStore::from_posts(posts.clone()).unwrap();
    assert_eq!(store.get_all(), &posts);
}

#[test]
fn empty_store_is_accepted() {
    let store = PostStore::from_posts(Vec::new()).unwrap();
    assert!(store.get_all().is_empty());
    assert!(store.get_by_id("a").is_none());
}

#[test]
fn duplicate_ids_are_refused() {
    let posts = vec![entry("a", "One", true), entry("b", "Two", true), entry("a", "Three", false)];
    assert!(PostStore::from_posts(posts).is_none());
    let adjacent = vec![entry("x", "One", true), entry("x", "Two", true)];
    assert!(PostStore::from_posts(adjacent).is_none());
}

#[test]
fn lookup_finds_the_post_with_the_id() {
    let store = PostStore::from_posts(vec![
        entry("a", "First", true),
        entry("b", "Second", false),
        entry("c", "Third", true),
    ])
    .unwrap();
    assert_eq!(store.get_by_id("a"), Some(&entry("a", "First", true)));
    assert_eq!(store.get_by_id("b"), Some(&entry("b", "Second", false)));
    assert_eq!(store.get_by_id("c"), Some(&entry("c", "Third", true)));
}

#[test]
fn lookup_of_unknown_id_finds_nothing() {
    let store = PostStore::from_posts(vec![entry("a", "First", true)]).unwrap();
    assert_eq!(store.get_by_id("nonexistent"), None);
    assert_eq!(store.get_by_id(""), None);
    assert_eq!(store.get_by_id("A"), None);
    assert_eq!(store.get_by_id("a "), None);
}

#[test]
fn lookup_does_not_change_the_store() {
    let posts = vec![entry("a", "First", true), entry("b", "Second", false)];
    let store = PostStore::from_posts(posts.clone()).unwrap();
    let _ = store.get_by_id("a");
    let _ = store.get_by_id("zzz");
    assert_eq!(store.get_all(), &posts);
}
