//! Matching a request path to a route.
//!
//! There are three routes, tried in a fixed order: the root path lists the
//! posts, a path of exactly one segment names a post, and every other path
//! names a static asset. The choice depends on the path alone.
//!
//! The path is taken as the HTTP layer hands it over, with its percent
//! escapes already undone. Nothing is decoded here: the segment is the
//! identifier, character for character.

use vstd::prelude::*;
use vstd::std_specs::iter::IteratorSpec;
use vstd::string::StrSliceExecFns;

verus! {

/// The route that a request path selects.
#[derive(Debug, PartialEq, Eq)]
pub enum Route {
    /// The path `/`: the listing of all posts.
    ListPosts,
    /// A path `/{id}`: the page of the post with this identifier.
    SinglePost(String),
    /// Any other path: the static asset at this path.
    StaticAsset(String),
}

/// What a [`Route`] holds.
pub enum RouteView {
    ListPosts,
    SinglePost(Seq<char>),
    StaticAsset(Seq<char>),
}

impl View for Route {
    type V = RouteView;

    open spec fn view(&self) -> RouteView {
        match self {
            Route::ListPosts => RouteView::ListPosts,
            Route::SinglePost(id) => RouteView::SinglePost(id@),
            Route::StaticAsset(path) => RouteView::StaticAsset(path@),
        }
    }
}

/// The path is exactly `/`.
pub open spec fn is_root(path: Seq<char>) -> bool {
    path =~= seq!['/']
}

/// The path is a `/` followed by one segment: at least one character, none
/// of them a `/`.
pub open spec fn is_single_segment(path: Seq<char>) -> bool {
    &&& path.len() >= 2
    &&& path[0] == '/'
    &&& forall|i: int| 1 <= i < path.len() ==> path[i] != '/'
}

/// The route of a path. The root comes first, then the single segment, whose
/// characters after the leading `/` are the identifier as they stand; the
/// rest goes to the static assets with the whole path.
pub open spec fn route_of(path: Seq<char>) -> RouteView {
    if is_root(path) {
        RouteView::ListPosts
    } else if is_single_segment(path) {
        RouteView::SinglePost(path.subrange(1, path.len() as int))
    } else {
        RouteView::StaticAsset(path)
    }
}

/// An identifier that can stand as one path segment: it is not empty and
/// holds no `/`.
pub open spec fn is_segment(id: Seq<char>) -> bool {
    &&& id.len() > 0
    &&& forall|i: int| 0 <= i < id.len() ==> id[i] != '/'
}

/// The path of the post `id`: a `/` followed by the identifier.
pub open spec fn post_path(id: Seq<char>) -> Seq<char> {
    seq!['/'] + id
}

/// The root path selects the listing, and so never a static asset.
pub proof fn lemma_root_selects_listing()
    ensures
        route_of(seq!['/']) == RouteView::ListPosts,
{
}

/// A path of one segment selects the post named by that segment, taken as it
/// stands, and so never a static asset: the route is fixed by the path,
/// whatever files there are.
pub proof fn lemma_segment_selects_post(id: Seq<char>)
    requires
        is_segment(id),
    ensures
        route_of(post_path(id)) == RouteView::SinglePost(id),
{
    let path = post_path(id);
    assert(path.len() == id.len() + 1);
    assert(path[0] == '/');
    assert forall|i: int| 1 <= i < path.len() implies path[i] != '/' by {
        assert(path[i] == id[i - 1]);
    }
    assert(!is_root(path));
    assert(path.subrange(1, path.len() as int) =~= id);
}

/// A static asset is selected exactly for the paths that are neither the
/// root nor a single segment, and then with the whole path.
pub proof fn lemma_asset_is_the_fallback(path: Seq<char>)
    ensures
        route_of(path) is StaticAsset <==> !is_root(path) && !is_single_segment(path),
        route_of(path) is StaticAsset ==> route_of(path) == RouteView::StaticAsset(path),
{
}

/// Matches `path` to its route.
pub fn route(path: &str) -> (route: Route)
    ensures
        route@ == route_of(path@),
{
    let n = path.unicode_len();
    let mut rest = path.chars();
    match rest.next() {
        Some('/') => {},
        _ => {
            return Route::StaticAsset(path.to_owned());
        },
    }
    if n == 1 {
        return Route::ListPosts;
    }
    let mut i: usize = 1;
    while i < n
        invariant
            n == path@.len(),
            1 <= i <= n,
            path@[0] == '/',
            rest.remaining() == path@.subrange(i as int, n as int),
            forall|k: int| 1 <= k < i ==> path@[k] != '/',
        decreases n - i,
    {
        match rest.next() {
            Some('/') => {
                return Route::StaticAsset(path.to_owned());
            },
            _ => {},
        }
        assert(path@.subrange(i as int, n as int).drop_first() == path@.subrange(
            i + 1,
            n as int,
        ));
        i += 1;
    }
    Route::SinglePost(path.substring_char(1, n).to_owned())
}

} // verus!
