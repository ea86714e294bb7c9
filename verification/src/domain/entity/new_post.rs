//! A request to create a post.

use vstd::prelude::*;

verus! {

/// The fields a caller submits to create a post. It carries no identity: the
/// storage engine assigns one.
#[derive(Debug, Clone, PartialEq, Eq)]
pub struct NewPost {
    pub title: String,
    pub text: String,
}

/// What a [`NewPost`] stands for: the characters of its texts.
pub struct NewPostView {
    pub title: Seq<char>,
    pub text: Seq<char>,
}

impl View for NewPost {
    type V = NewPostView;

    open spec fn view(&self) -> NewPostView {
        NewPostView { title: self.title@, text: self.text@ }
    }
}

} // verus!
