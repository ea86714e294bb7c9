//! What a running server holds for its requests.

use vstd::prelude::*;
use crate::adapter::controller::post_controller::PostController;
use crate::application::transaction_manager::Call;
use crate::infrastructure::di::DIContainer;

verus! {

/// The state that every request works with: the controller.
pub struct RequestContext<C> where C: PostController {
    pub post_controller: C,
}

impl<C> RequestContext<C> where C: PostController {
    /// The context over the controller that `container` assembles: its
    /// transaction manager is new, with nothing in flight and no call
    /// answered.
    pub fn new<D>(container: &D) -> (context: Self) where D: DIContainer<Controller = C>
        ensures
            call_ensures(D::post_container, (container,), context.post_controller),
            !context.post_controller.transaction_active(),
            context.post_controller.transaction_calls() == Seq::<Call>::empty(),
    {
        RequestContext { post_controller: container.post_container() }
    }
}

} // verus!
