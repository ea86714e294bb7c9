//! The `post` table.

use vstd::prelude::*;
use crate::domain::entity::post::PostView;

verus! {

/// A row of the table as the storage engine returns it.
#[derive(Debug, Clone, PartialEq, Eq)]
pub struct Model {
    pub id: i32,
    pub title: String,
    pub text: String,
}

impl View for Model {
    type V = PostView;

    open spec fn view(&self) -> PostView {
        PostView { id: self.id as int, title: self.title@, text: self.text@ }
    }
}

/// A row on its way into the table. A column that is `None` is left for the
/// storage engine to fill.
#[derive(Debug, Clone, PartialEq, Eq)]
pub struct ActiveModel {
    pub id: Option<i32>,
    pub title: Option<String>,
    pub text: Option<String>,
}

} // verus!
