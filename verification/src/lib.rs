//! Request routing and page preparation for a small blog.
//!
//! A request path is matched to one of three routes: the listing of all posts,
//! the page of a single post, or a static asset. The two post routes look the
//! posts up in an in-memory [`store::PostStore`] and prepare the page to
//! render: the name of the template and a `tera` context for it. Rendering
//! the page and reading the asset are left to the caller, who hands the
//! result back to be wrapped in a response. Every function takes the store as
//! an argument; nothing is reached through globals, and no function changes
//! the store.

pub mod handlers;
pub mod post;
pub mod response;
pub mod route;
pub mod store;
pub mod template;
