//! The pages that are handed to the template engine.
//!
//! Pages are rendered by `tera`. A page is the name of a template and a
//! context for it; a context is a `tera::Context`, a map from names to
//! values, filled here entry by entry. What a context holds is modelled by
//! [`context_entries`], over [`TemplateValue`].
//!
//! The calls into `tera` stand in small functions whose contracts are taken
//! on trust; each says which call it makes and what it claims of it. The
//! engine is not run here: the caller renders a prepared [`Page`] with its
//! own templates, and hands back what came of it.

use vstd::prelude::*;
use crate::post::{post_views, Post, PostView};

verus! {

/// The data passed to a template: a map from names to values.
#[verifier::external_type_specification]
#[verifier::external_body]
pub struct ExContext(tera::Context);

/// The error of the template engine.
#[verifier::external_type_specification]
#[verifier::external_body]
pub struct ExTemplateError(tera::Error);

/// A value as a template sees it. Only the kinds of value that are stored
/// here are told apart.
pub enum TemplateValue {
    /// A string.
    Text(Seq<char>),
    /// A boolean.
    Flag(bool),
    /// An object: a map from field names to values.
    Record(Map<Seq<char>, TemplateValue>),
    /// An array of values.
    List(Seq<TemplateValue>),
}

/// The entries of a context: for each name, the value stored under it.
pub uninterp spec fn context_entries(context: tera::Context) -> Map<Seq<char>, TemplateValue>;

/// `tera::Context::new`: a context without entries.
#[verifier::external_body]
fn new_context() -> (fresh: tera::Context)
    ensures
        context_entries(fresh) == (Map::<Seq<char>, TemplateValue>::empty()),
{
    tera::Context::new()
}

/// `tera::Context::insert` with a string as the value: the entry `name` now
/// holds that string, replacing what it held; the other entries stay. The
/// call panics where the value cannot be serialised, which a string always
/// can.
#[verifier::external_body]
fn insert_text(context: &mut tera::Context, name: &str, text: &str)
    ensures
        context_entries(*final(context)) == context_entries(*old(context)).insert(
            name@,
            TemplateValue::Text(text@),
        ),
{
    context.insert(name, text);
}

/// `tera::Context::insert` with a boolean as the value: the entry `name` now
/// holds that boolean, replacing what it held; the other entries stay. A
/// boolean can always be serialised.
#[verifier::external_body]
fn insert_flag(context: &mut tera::Context, name: &str, flag: bool)
    ensures
        context_entries(*final(context)) == context_entries(*old(context)).insert(
            name@,
            TemplateValue::Flag(flag),
        ),
{
    context.insert(name, &flag);
}

/// `tera::Context::into_json`, which turns `record` into an object with the
/// same entries, and `tera::Context::insert` with that object as the value:
/// the entry `name` now holds the object, replacing what it held; the other
/// entries stay. Such an object can always be serialised.
#[verifier::external_body]
fn insert_record(context: &mut tera::Context, name: &str, record: tera::Context)
    ensures
        context_entries(*final(context)) == context_entries(*old(context)).insert(
            name@,
            TemplateValue::Record(context_entries(record)),
        ),
{
    context.insert(name, &record.into_json());
}

/// The objects that a sequence of records becomes, one for each record and in
/// the same order.
pub open spec fn records_as_values(records: Seq<tera::Context>) -> Seq<TemplateValue> {
    records.map_values(|record: tera::Context| TemplateValue::Record(context_entries(record)))
}

/// `tera::Context::into_json` on each record, and `tera::Context::insert`
/// with the array of the resulting objects as the value: the entry `name` now
/// holds an array with one object for each record, in order, replacing what
/// it held; the other entries stay. Such an array can always be serialised.
#[verifier::external_body]
fn insert_records(context: &mut tera::Context, name: &str, records: Vec<tera::Context>)
    ensures
        context_entries(*final(context)) == context_entries(*old(context)).insert(
            name@,
            TemplateValue::List(records_as_values(records@)),
        ),
{
    let values: Vec<tera::Value> = records.into_iter().map(tera::Context::into_json).collect();
    context.insert(name, &values);
}

/// The fields of a post as a template sees them: `id`, `title` and `body`
/// as strings, `published` as a boolean.
pub open spec fn post_fields(post: PostView) -> Map<Seq<char>, TemplateValue> {
    Map::<Seq<char>, TemplateValue>::empty().insert("id"@, TemplateValue::Text(post.id)).insert(
        "title"@,
        TemplateValue::Text(post.title),
    ).insert("body"@, TemplateValue::Text(post.body)).insert(
        "published"@,
        TemplateValue::Flag(post.published),
    )
}

/// The record of one post: its four fields under their names.
pub fn post_record(post: &Post) -> (record: tera::Context)
    ensures
        context_entries(record) == post_fields(post@),
{
    let mut record = new_context();
    insert_text(&mut record, "id", post.id.as_str());
    insert_text(&mut record, "title", post.title.as_str());
    insert_text(&mut record, "body", post.body.as_str());
    insert_flag(&mut record, "published", post.published);
    record
}

/// The name of the template of the listing.
pub const LIST_TEMPLATE: &'static str = "blog/posts.html";

/// The name of the template of a single post.
pub const POST_TEMPLATE: &'static str = "blog/post.html";

/// A post as the value that a template sees.
pub open spec fn post_value(post: PostView) -> TemplateValue {
    TemplateValue::Record(post_fields(post))
}

/// The context of the page of a single post: the post under the name `post`.
pub open spec fn post_context_entries(post: PostView) -> Map<Seq<char>, TemplateValue> {
    Map::<Seq<char>, TemplateValue>::empty().insert("post"@, post_value(post))
}

/// The context of the listing: all the posts, in order, under the name
/// `posts`.
pub open spec fn list_context_entries(posts: Seq<PostView>) -> Map<Seq<char>, TemplateValue> {
    Map::<Seq<char>, TemplateValue>::empty().insert(
        "posts"@,
        TemplateValue::List(posts.map_values(|post: PostView| post_value(post))),
    )
}

/// Builds the context of the page of `post`.
pub fn post_context(post: &Post) -> (context: tera::Context)
    ensures
        context_entries(context) == post_context_entries(post@),
{
    let mut context = new_context();
    insert_record(&mut context, "post", post_record(post));
    context
}

/// Builds the context of the listing of `posts`. Every post is included,
/// published or not.
pub fn list_context(posts: &Vec<Post>) -> (context: tera::Context)
    ensures
        context_entries(context) == list_context_entries(post_views(posts@)),
{
    let n = posts.len();
    let mut records: Vec<tera::Context> = Vec::new();
    let mut i: usize = 0;
    while i < n
        invariant
            n == posts.len(),
            i <= n,
            records.len() == i,
            forall|k: int| 0 <= k < i ==> context_entries(#[trigger] records@[k]) == post_fields(posts@[k]@),
        decreases n - i,
    {
        records.push(post_record(&posts[i]));
        i += 1;
    }
    assert(records_as_values(records@) =~= post_views(posts@).map_values(
        |post: PostView| post_value(post),
    ));
    let mut context = new_context();
    insert_records(&mut context, "posts", records);
    context
}

/// A page to render: the name of its template and the context for it.
#[derive(Debug, PartialEq)]
pub struct Page {
    pub template: &'static str,
    pub context: tera::Context,
}

/// What a [`Page`] holds.
pub struct PageView {
    pub template: Seq<char>,
    pub entries: Map<Seq<char>, TemplateValue>,
}

impl View for Page {
    type V = PageView;

    open spec fn view(&self) -> PageView {
        PageView { template: self.template@, entries: context_entries(self.context) }
    }
}

/// A template could not be rendered.
#[derive(Clone, Copy, Debug, PartialEq, Eq, Structural)]
pub struct RenderFailure;

/// What rendering produced, as plain values: the text, or the failure.
pub open spec fn rendered_view(rendered: Result<String, tera::Error>) -> Result<
    Seq<char>,
    RenderFailure,
> {
    match rendered {
        Ok(html) => Ok(html@),
        Err(_) => Err(RenderFailure),
    }
}

} // verus!
