//! Lifecycle contracts: each transition (create, delete, update) is split
//! into a predicate ("may this happen") and an action ("do this"), and a safe
//! composite runs the action only when the predicate holds.
use vstd::prelude::*;

verus! {

/// Types that can be constructed from a creation context.
pub trait Create<Ctx>: Sized {
    /// What an instance built from `ctx` satisfies.
    spec fn created_from(ctx: Ctx, made: Self) -> bool;

    fn create(ctx: Ctx) -> (r: Self)
        ensures
            Self::created_from(ctx, r),
    ;
}

/// Creation policy, evaluated over a conditions context of its own.
pub trait CanBeCreated<Conds> {
    /// Whether the policy admits a creation under `conds`.
    spec fn creation_allowed(conds: Conds) -> bool;

    fn can_be_created(conds: Conds) -> (r: bool)
        ensures
            r == Self::creation_allowed(conds),
    ;
}

/// Construction gated by the creation policy.
pub trait SafeCreate<Ctx, Conds>: Create<Ctx> + CanBeCreated<Conds> {
    /// Builds an instance from `ctx.0` if and only if the policy admits
    /// `ctx.1`; the action is never run otherwise.
    fn safe_create(ctx: (Ctx, Conds)) -> (r: Option<Self>)
        ensures
            r is Some <==> Self::creation_allowed(ctx.1),
            r is Some ==> Self::created_from(ctx.0, r->0),
    {
        let (create, can) = ctx;
        if Self::can_be_created(can) {
            Some(Self::create(create))
        } else {
            None
        }
    }
}

/// Types that can be destroyed given a deletion context. By default deletion
/// only ends the instance's lifetime.
pub trait Delete<Ctx>: Sized {
    fn delete(self, ctx: Ctx) {
    }
}

/// Deletion policy, evaluated against the live instance.
pub trait CanBeDeleted<Conds> {
    /// Whether the policy admits deleting `self` under `conds`.
    spec fn deletion_allowed(&self, conds: Conds) -> bool;

    fn can_be_deleted(&self, conds: Conds) -> (r: bool)
        ensures
            r == self.deletion_allowed(conds),
    ;
}

/// Deletion gated by the deletion policy: all or nothing.
pub trait SafeDelete<Ctx, Conds>: Delete<Ctx> + CanBeDeleted<Conds> + Sized {
    /// The kind of error a deletion may report.
    type Err;

    /// Deletes `self` if the policy admits `ctx.1` and returns nothing;
    /// otherwise hands `self` back untouched.
    fn safe_delete(self, ctx: (Ctx, Conds)) -> (r: Option<Self>)
        ensures
            self.deletion_allowed(ctx.1) ==> r is None,
            !self.deletion_allowed(ctx.1) ==> r == Some(self),
    {
        let (del_ctx, conditions) = ctx;
        if self.can_be_deleted(conditions) {
            self.delete(del_ctx);
            None
        } else {
            Some(self)
        }
    }
}

/// Types that can be mutated in place given an update context.
pub trait Update<Ctx>: Sized {
    /// How an update with `ctx` relates the value before to the value after.
    spec fn updated(before: Self, ctx: Ctx, after: Self) -> bool;

    fn update(&mut self, ctx: Ctx)
        ensures
            Self::updated(*old(self), ctx, *final(self)),
    ;
}

/// Update policy, evaluated against the live instance.
pub trait CanBeUpdated<Conds> {
    /// Whether the policy admits updating `self` under `conds`.
    spec fn update_allowed(&self, conds: Conds) -> bool;

    fn can_be_updated(&self, conds: Conds) -> (r: bool)
        ensures
            r == self.update_allowed(conds),
    ;
}

/// Update gated by the update policy, with a typed reason on rejection.
pub trait SafeUpdate<Ctx, Conds>: Update<Ctx> + CanBeUpdated<Conds> {
    /// Why an update was rejected.
    type Err;

    /// Updates `self` with `ctx.0` and succeeds if the policy admits `ctx.1`;
    /// otherwise fails and leaves `self` as it was.
    fn safe_update(&mut self, ctx: (Ctx, Conds)) -> (r: Result<(), Self::Err>)
        ensures
            old(self).update_allowed(ctx.1) ==> r is Ok && Self::updated(
                *old(self),
                ctx.0,
                *final(self),
            ),
            !old(self).update_allowed(ctx.1) ==> r is Err && *final(self) == *old(self),
    ;
}

} // verus!
