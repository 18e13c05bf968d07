//! A blog entry.

use vstd::prelude::*;

verus! {

/// One blog entry. The `id` is the key under which the post is reached.
#[derive(Clone, Debug, PartialEq, Eq)]
pub struct Post {
    pub id: String,
    pub title: String,
    pub body: String,
    pub published: bool,
}

/// What a [`Post`] holds.
pub struct PostView {
    pub id: Seq<char>,
    pub title: Seq<char>,
    pub body: Seq<char>,
    pub published: bool,
}

impl View for Post {
    type V = PostView;

    open spec fn view(&self) -> PostView {
        PostView {
            id: self.id@,
            title: self.title@,
            body: self.body@,
            published: self.published,
        }
    }
}

/// The views of a sequence of posts, in the same order.
pub open spec fn post_views(posts: Seq<Post>) -> Seq<PostView> {
    posts.map_values(|post: Post| post@)
}

} // verus!
