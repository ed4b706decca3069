//! The identity of the caller, resolved once per request.

use vstd::prelude::*;

verus! {

/// The resolved identity of one request: the identifier of the user who
/// makes it. A context is immutable once made.
#[derive(Clone, Copy, Debug, PartialEq, Eq, Structural)]
pub struct Ctx {
    user_id: u64,
}

impl Ctx {
    /// The context of the given user, as a specification value.
    pub closed spec fn spec_new(user_id: u64) -> Self {
        Ctx { user_id }
    }

    /// The user a context stands for, as a specification value.
    pub closed spec fn spec_user_id(&self) -> u64 {
        self.user_id
    }

    /// A context is its user identifier and nothing else: making a context
    /// and reading it back are inverse to each other.
    pub proof fn lemma_ctx_is_user_id(user_id: u64, ctx: Ctx)
        ensures
            Ctx::spec_new(user_id).spec_user_id() == user_id,
            Ctx::spec_new(ctx.spec_user_id()) == ctx,
    {
    }

    /// The context of the given user.
    #[verifier::when_used_as_spec(spec_new)]
    pub fn new(user_id: u64) -> (ctx: Self)
        ensures
            ctx == Ctx::spec_new(user_id),
            ctx.spec_user_id() == user_id,
    {
        Self { user_id }
    }

    /// The user that the context stands for.
    #[verifier::when_used_as_spec(spec_user_id)]
    pub fn user_id(&self) -> (user_id: u64)
        ensures
            user_id == self.spec_user_id(),
            *self == Ctx::spec_new(user_id),
    {
        self.user_id
    }
}

} // verus!
