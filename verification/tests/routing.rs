use blog::route::{route, Route};

#[test]
fn root_selects_the_listing() {
    assert_eq!(route("/"), Route::ListPosts);
}

#[test]
fn single_segment_selects_a_post() {
    assert_eq!(route("/a"), Route::SinglePost("a".to_string()));
    assert_eq!(route("/hello-world"), Route::SinglePost("hello-world".to_string()));
}

#[test]
fn segment_is_captured_as_it_stands() {
    assert_eq!(route("/a%20b"), Route::SinglePost("a%20b".to_string()));
    assert_eq!(route("/ñandú"), Route::SinglePost("ñandú".to_string()));
    assert_eq!(route("/style.css"), Route::SinglePost("style.css".to_string()));
    assert_eq!(route("/ "), Route::SinglePost(" ".to_string()));
}

#[test]
fn deeper_paths_select_a_static_asset() {
    assert_eq!(route("/css/site.css"), Route::StaticAsset("/css/site.css".to_string()));
    assert_eq!(route("/a/b/c"), Route::StaticAsset("/a/b/c".to_string()));
}

#[test]
fn trailing_slash_selects_a_static_asset() {
    assert_eq!(route("/a/"), Route::StaticAsset("/a/".to_string()));
    assert_eq!(route("//"), Route::StaticAsset("//".to_string()));
    assert_eq!(route("//a"), Route::StaticAsset("//a".to_string()));
}

#[test]
fn paths_without_leading_slash_select_a_static_asset() {
    assert_eq!(route(""), Route::StaticAsset(String::new()));
    assert_eq!(route("a"), Route::StaticAsset("a".to_string()));
    assert_eq!(route("a/b"), Route::StaticAsset("a/b".to_string()));
}

#[test]
fn same_path_same_route() {
    for path in ["/", "/a", "/a/b", ""] {
        assert_eq!(route(path), route(path));
    }
}
