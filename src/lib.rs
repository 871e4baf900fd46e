//! Comments attached to one line of one file at one commit of a hosted
//! repository: resolving a ref to a commit, the comment store, and the
//! request pipeline that ties them together.

pub mod github;
pub mod models;
pub mod pipeline;
pub mod store;
pub mod text;

pub use models::{GithubRepository, LineInRepo};
pub use pipeline::Req;
pub use store::{Comment, CommentStore, NewComment};
