//! The handlers of the three routes, and the dispatcher that picks one.
//!
//! A handler does not render and does not read files. It decides, and says
//! what is to be done: send a response that is ready, render a page that it
//! has prepared, or resolve a static asset. The caller does the work and
//! hands the result back: what the engine returned goes to
//! [`page_response`], what the resolver found goes to [`static_asset`]. So
//! every contract here is exact, and [`answer`] states the whole exchange.
//!
//! The lemmas at the end state what holds of every store and path, and of
//! everything that the engine and the resolver may return.

use vstd::prelude::*;
use crate::post::PostView;
use crate::response::{
    asset_view, page, page_view, post_not_found, post_not_found_view, render_failed,
    render_failed_view, resolved_view, Asset, AssetView, Body, BodyView, Response, ResponseView,
    Status,
};
use crate::route::{
    is_root, is_segment, is_single_segment, lemma_segment_selects_post, post_path, route,
    route_of, Route, RouteView,
};
use crate::store::{distinct_ids, has_id, lemma_post_with_id_at, post_with_id, PostStore};
use crate::template::{
    list_context, list_context_entries, post_context, post_context_entries, post_value,
    rendered_view, Page, PageView, RenderFailure, TemplateValue, LIST_TEMPLATE, POST_TEMPLATE,
};

verus! {

/// What a handler asks of its caller.
#[derive(Debug, PartialEq)]
pub enum Action {
    /// Send this response.
    Respond(Response),
    /// Render this page, and send what [`page_response`] and
    /// [`into_response`] make of the result.
    Render(Page),
    /// Resolve the static asset at this path, and send what [`static_asset`]
    /// makes of the result.
    ResolveAsset(String),
}

/// What an [`Action`] holds.
pub enum ActionView {
    Respond(ResponseView),
    Render(PageView),
    ResolveAsset(Seq<char>),
}

impl View for Action {
    type V = ActionView;

    open spec fn view(&self) -> ActionView {
        match self {
            Action::Respond(response) => ActionView::Respond(response@),
            Action::Render(page) => ActionView::Render(page@),
            Action::ResolveAsset(path) => ActionView::ResolveAsset(path@),
        }
    }
}

/// The store holds a post with the identifier `id`, and it is published.
pub open spec fn is_visible(posts: Seq<PostView>, id: Seq<char>) -> bool {
    post_with_id(posts, id) matches Some(post) && post.published
}

/// The page of the listing: the listing template, with all the posts.
pub open spec fn list_page_view(posts: Seq<PostView>) -> PageView {
    PageView { template: LIST_TEMPLATE@, entries: list_context_entries(posts) }
}

/// The page of one post: the post template, with that post.
pub open spec fn post_page_view(post: PostView) -> PageView {
    PageView { template: POST_TEMPLATE@, entries: post_context_entries(post) }
}

/// The page that a request for the post `id` renders: that of the post where
/// the store holds it and it is published, and none otherwise.
pub open spec fn page_of_post(posts: Seq<PostView>, id: Seq<char>) -> Option<PageView> {
    if is_visible(posts, id) {
        Some(post_page_view(post_with_id(posts, id)->0))
    } else {
        None
    }
}

/// The action for a request for the post `id`. A post that is absent and a
/// post that is not published get the same 404; only a published post is
/// rendered.
pub open spec fn post_action(posts: Seq<PostView>, id: Seq<char>) -> ActionView {
    match page_of_post(posts, id) {
        Some(page) => ActionView::Render(page),
        None => ActionView::Respond(post_not_found_view()),
    }
}

/// The action for a request path: that of the handler of its route. For a
/// static asset the path goes to the resolver as it stands.
pub open spec fn action_for(posts: Seq<PostView>, path: Seq<char>) -> ActionView {
    match route_of(path) {
        RouteView::ListPosts => ActionView::Render(list_page_view(posts)),
        RouteView::SinglePost(id) => post_action(posts, id),
        RouteView::StaticAsset(asset_path) => ActionView::ResolveAsset(asset_path),
    }
}

/// Prepares the page of the listing. Every post of the store is in its
/// context, published or not, in the order of the store.
pub fn list_page(store: &PostStore) -> (page: Page)
    ensures
        page@ == list_page_view(store@),
{
    Page { template: LIST_TEMPLATE, context: list_context(store.get_all()) }
}

/// Prepares the page of the post `id`, or returns `None` where the store
/// holds no such post or the post is not published.
pub fn post_page(store: &PostStore, id: &str) -> (page: Option<Page>)
    ensures
        match page {
            Some(page) => page_of_post(store@, id@) == Some(page@),
            None => page_of_post(store@, id@) is None,
        },
{
    match store.get_by_id(id) {
        Some(found) if found.published => Some(
            Page { template: POST_TEMPLATE, context: post_context(found) },
        ),
        _ => None,
    }
}

/// Handles a request for the listing: asks for the page that [`list_page`]
/// prepares to be rendered.
pub fn index(store: &PostStore) -> (action: Action)
    ensures
        action@ == ActionView::Render(list_page_view(store@)),
{
    Action::Render(list_page(store))
}

/// Handles a request for the post `id`: asks for the page that [`post_page`]
/// prepares to be rendered, and answers with the fixed 404 where it prepares
/// none.
pub fn post(store: &PostStore, id: &str) -> (action: Action)
    ensures
        action@ == post_action(store@, id@),
{
    match post_page(store, id) {
        Some(page) => Action::Render(page),
        None => Action::Respond(post_not_found()),
    }
}

/// Routes the request for `path` and runs the handler of its route.
pub fn dispatch(store: &PostStore, path: &str) -> (action: Action)
    ensures
        action@ == action_for(store@, path@),
{
    match route(path) {
        Route::ListPosts => index(store),
        Route::SinglePost(id) => post(store, id.as_str()),
        Route::StaticAsset(asset_path) => Action::ResolveAsset(asset_path),
    }
}

/// What a rendering comes to, with the response taken by its view.
pub open spec fn outcome_view(outcome: Result<Response, RenderFailure>) -> Result<
    ResponseView,
    RenderFailure,
> {
    match outcome {
        Ok(response) => Ok(response@),
        Err(failure) => Err(failure),
    }
}

/// What a rendering comes to: 200 with the rendered text, or the failure of
/// the engine.
pub open spec fn page_outcome(rendered: Result<Seq<char>, RenderFailure>) -> Result<
    ResponseView,
    RenderFailure,
> {
    match rendered {
        Ok(html) => Ok(page_view(html)),
        Err(failure) => Err(failure),
    }
}

/// The response that an outcome becomes: a failure of the engine is sent as
/// the 500 response.
pub open spec fn outcome_response(outcome: Result<ResponseView, RenderFailure>) -> ResponseView {
    match outcome {
        Ok(response) => response,
        Err(_) => render_failed_view(),
    }
}

/// Wraps what the engine returned for a page: the text becomes the body of a
/// 200 response, and an error of the engine becomes a [`RenderFailure`].
pub fn page_response(rendered: Result<String, tera::Error>) -> (outcome: Result<
    Response,
    RenderFailure,
>)
    ensures
        outcome_view(outcome) == page_outcome(rendered_view(rendered)),
{
    match rendered {
        Ok(html) => Ok(page(html)),
        Err(_) => Err(RenderFailure),
    }
}

/// Turns the outcome of a rendering into the response to send.
pub fn into_response(outcome: Result<Response, RenderFailure>) -> (response: Response)
    ensures
        response@ == outcome_response(outcome_view(outcome)),
{
    match outcome {
        Ok(response) => response,
        Err(_) => render_failed(),
    }
}

/// Handles a request for a static asset, given what the resolver found at
/// its path: an asset is sent with its bytes and its content type unchanged,
/// and where there is none the answer is 404 with an empty body.
pub fn static_asset(resolved: Option<Asset>) -> (response: Response)
    ensures
        response@ == asset_view(resolved_view(resolved)),
{
    match resolved {
        Some(asset) => Response {
            status: Status::Success,
            content_type: Some(asset.content_type),
            body: Body::Bytes(asset.bytes),
        },
        None => Response {
            status: Status::NotFound,
            content_type: None,
            body: Body::Bytes(Vec::new()),
        },
    }
}

/// The response that is sent in the end for a request path, where the engine
/// returns `rendered` if a page is rendered and the resolver finds `resolved`
/// if an asset is resolved.
pub open spec fn answer(
    posts: Seq<PostView>,
    path: Seq<char>,
    rendered: Result<Seq<char>, RenderFailure>,
    resolved: Option<AssetView>,
) -> ResponseView {
    match action_for(posts, path) {
        ActionView::Respond(response) => response,
        ActionView::Render(_) => outcome_response(page_outcome(rendered)),
        ActionView::ResolveAsset(_) => asset_view(resolved),
    }
}

/// A request for a post that the store does not hold is answered with 404
/// and the text `Post no encontrado`; nothing is rendered.
pub proof fn lemma_absent_post_is_not_found(posts: Seq<PostView>, id: Seq<char>)
    requires
        is_segment(id),
        !has_id(posts, id),
    ensures
        action_for(posts, post_path(id)) == ActionView::Respond(post_not_found_view()),
        post_not_found_view().status.code() == 404,
        post_not_found_view().body == BodyView::Text("Post no encontrado"@),
{
    lemma_segment_selects_post(id);
}

/// A request for a post that is not published is answered exactly as a
/// request for a post that the store does not hold.
pub proof fn lemma_unpublished_post_is_not_found(posts: Seq<PostView>, k: int)
    requires
        distinct_ids(posts),
        0 <= k < posts.len(),
        is_segment(posts[k].id),
        !posts[k].published,
    ensures
        action_for(posts, post_path(posts[k].id)) == ActionView::Respond(post_not_found_view()),
{
    lemma_segment_selects_post(posts[k].id);
    lemma_post_with_id_at(posts, k);
}

/// A request for a published post has the page of that post rendered, and
/// is answered with 200 and the text that the engine produced.
pub proof fn lemma_published_post_is_rendered(
    posts: Seq<PostView>,
    k: int,
    html: Seq<char>,
    resolved: Option<AssetView>,
)
    requires
        distinct_ids(posts),
        0 <= k < posts.len(),
        is_segment(posts[k].id),
        posts[k].published,
    ensures
        action_for(posts, post_path(posts[k].id)) == ActionView::Render(post_page_view(posts[k])),
        post_page_view(posts[k]).entries["post"@] == post_value(posts[k]),
        answer(posts, post_path(posts[k].id), Ok(html), resolved) == page_view(html),
        page_view(html).status.code() == 200,
{
    lemma_segment_selects_post(posts[k].id);
    lemma_post_with_id_at(posts, k);
}

/// A request for the root has the listing rendered, whose context holds
/// every post of the store, published or not, and is answered with 200 and
/// the text that the engine produced.
pub proof fn lemma_listing_holds_every_post(
    posts: Seq<PostView>,
    html: Seq<char>,
    resolved: Option<AssetView>,
)
    ensures
        action_for(posts, seq!['/']) == ActionView::Render(list_page_view(posts)),
        list_page_view(posts).entries["posts"@] matches TemplateValue::List(items) && {
            &&& items.len() == posts.len()
            &&& forall|k: int| 0 <= k < posts.len() ==> items[k] == post_value(posts[k])
        },
        answer(posts, seq!['/'], Ok(html), resolved) == page_view(html),
        page_view(html).status.code() == 200,
{
}

/// A page that the engine fails to render is answered with 500, which is
/// neither of the 404 responses.
pub proof fn lemma_render_failure_is_internal_error(
    posts: Seq<PostView>,
    path: Seq<char>,
    resolved: Option<AssetView>,
)
    requires
        action_for(posts, path) is Render,
    ensures
        answer(posts, path, Err(RenderFailure), resolved) == render_failed_view(),
        render_failed_view().status.code() == 500,
{
}

/// A path that is neither the root nor a single segment goes to the static
/// assets as it stands, whatever the store holds. It is answered with the
/// bytes that were resolved, unchanged, or with 404 where there are none.
pub proof fn lemma_other_paths_resolve_assets(
    posts: Seq<PostView>,
    path: Seq<char>,
    rendered: Result<Seq<char>, RenderFailure>,
    resolved: Option<AssetView>,
)
    requires
        !is_root(path),
        !is_single_segment(path),
    ensures
        action_for(posts, path) == ActionView::ResolveAsset(path),
        answer(posts, path, rendered, resolved) == asset_view(resolved),
        resolved matches Some(asset) ==> {
            &&& asset_view(resolved).status.code() == 200
            &&& asset_view(resolved).body == BodyView::Bytes(asset.bytes)
        },
        resolved is None ==> asset_view(resolved).status.code() == 404,
{
}

/// The same request against the same store gets the same answer, provided
/// that the engine returned the same where a page is rendered and the
/// resolver found the same where an asset is resolved. Where neither is
/// asked, what they would return plays no part.
pub proof fn lemma_repeated_request(
    posts: Seq<PostView>,
    path: Seq<char>,
    first_rendered: Result<Seq<char>, RenderFailure>,
    second_rendered: Result<Seq<char>, RenderFailure>,
    first_resolved: Option<AssetView>,
    second_resolved: Option<AssetView>,
)
    requires
        action_for(posts, path) is Render ==> first_rendered == second_rendered,
        action_for(posts, path) is ResolveAsset ==> first_resolved == second_resolved,
    ensures
        answer(posts, path, first_rendered, first_resolved) == answer(
            posts,
            path,
            second_rendered,
            second_resolved,
        ),
{
}

} // verus!
