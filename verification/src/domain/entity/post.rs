//! A post that the storage engine holds.

use vstd::prelude::*;

verus! {

/// A post. Its `id` is assigned by the storage engine when the post is
/// created and never changes afterwards.
#[derive(Debug, Clone, PartialEq, Eq)]
pub struct Post {
    pub id: i32,
    pub title: String,
    pub text: String,
}

/// What a [`Post`] stands for: its identity and the characters of its texts.
pub struct PostView {
    pub id: int,
    pub title: Seq<char>,
    pub text: Seq<char>,
}

impl View for Post {
    type V = PostView;

    open spec fn view(&self) -> PostView {
        PostView { id: self.id as int, title: self.title@, text: self.text@ }
    }
}

} // verus!
