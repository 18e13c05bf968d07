//! The posts of the blog, held in memory.
//!
//! A store is built once and only read afterwards. No two of its posts share
//! an identifier.

use vstd::prelude::*;
use crate::post::{post_views, Post, PostView};

verus! {

/// No two posts of the sequence have the same identifier.
pub open spec fn distinct_ids(posts: Seq<PostView>) -> bool {
    forall|i: int, j: int| 0 <= i < j < posts.len() ==> posts[i].id != posts[j].id
}

/// Some post of the sequence has the identifier `id`.
pub open spec fn has_id(posts: Seq<PostView>, id: Seq<char>) -> bool {
    exists|i: int| 0 <= i < posts.len() && #[trigger] posts[i].id == id
}

/// The post with the identifier `id`, if the sequence holds one.
pub open spec fn post_with_id(posts: Seq<PostView>, id: Seq<char>) -> Option<PostView> {
    if has_id(posts, id) {
        Some(posts[choose|i: int| 0 <= i < posts.len() && #[trigger] posts[i].id == id])
    } else {
        None
    }
}

/// Where ids are distinct, the post at any position is the one found under
/// its own identifier.
pub proof fn lemma_post_with_id_at(posts: Seq<PostView>, k: int)
    requires
        distinct_ids(posts),
        0 <= k < posts.len(),
    ensures
        post_with_id(posts, posts[k].id) == Some(posts[k]),
{
    let id = posts[k].id;
    assert(has_id(posts, id));
    let c = choose|i: int| 0 <= i < posts.len() && #[trigger] posts[i].id == id;
    assert(c == k) by {
        if c < k {
            assert(posts[c].id != posts[k].id);
        } else if k < c {
            assert(posts[k].id != posts[c].id);
        }
    }
}

/// The posts of the blog, in the order in which they are listed.
#[derive(Debug)]
pub struct PostStore {
    posts: Vec<Post>,
}

impl View for PostStore {
    type V = Seq<PostView>;

    closed spec fn view(&self) -> Seq<PostView> {
        post_views(self.posts@)
    }
}

impl PostStore {
    #[verifier::type_invariant]
    spec fn ids_are_distinct(self) -> bool {
        distinct_ids(post_views(self.posts@))
    }

    /// Builds a store from `posts`, keeping their order. Returns `None` when
    /// two of the posts share an identifier.
    pub fn from_posts(posts: Vec<Post>) -> (store: Option<PostStore>)
        ensures
            store is Some <==> distinct_ids(post_views(posts@)),
            store matches Some(s) ==> s@ == post_views(posts@),
    {
        let ghost views = post_views(posts@);
        let n = posts.len();
        let mut j: usize = 0;
        while j < n
            invariant
                n == posts.len(),
                views == post_views(posts@),
                j <= n,
                forall|a: int, b: int| 0 <= a < b < j ==> views[a].id != views[b].id,
            decreases n - j,
        {
            let mut i: usize = 0;
            while i < j
                invariant
                    n == posts.len(),
                    views == post_views(posts@),
                    i <= j < n,
                    forall|a: int| 0 <= a < i ==> views[a].id != views[j as int].id,
                decreases j - i,
            {
                if posts[i].id == posts[j].id {
                    assert(views[i as int].id == views[j as int].id);
                    return None;
                }
                i += 1;
            }
            j += 1;
        }
        Some(PostStore { posts })
    }

    /// All posts of the store, published or not, in order.
    pub fn get_all(&self) -> (posts: &Vec<Post>)
        ensures
            post_views(posts@) == self@,
            distinct_ids(self@),
    {
        proof {
            use_type_invariant(self);
        }
        &self.posts
    }

    /// The post with the identifier `id`, or `None` when the store holds none.
    pub fn get_by_id(&self, id: &str) -> (found: Option<&Post>)
        ensures
            distinct_ids(self@),
            match found {
                Some(post) => post_with_id(self@, id@) == Some(post@),
                None => post_with_id(self@, id@) is None,
            },
    {
        proof {
            use_type_invariant(self);
        }
        let wanted = id.to_owned();
        let n = self.posts.len();
        let mut i: usize = 0;
        while i < n
            invariant
                n == self.posts.len(),
                i <= n,
                wanted@ == id@,
                distinct_ids(self@),
                forall|a: int| 0 <= a < i ==> self@[a].id != id@,
            decreases n - i,
        {
            if self.posts[i].id == wanted {
                proof {
                    lemma_post_with_id_at(self@, i as int);
                }
                return Some(&self.posts[i]);
            }
            i += 1;
        }
        None
    }
}

} // verus!
