//! The repository port: every persistence operation the domain needs,
//! independent of any concrete store.
//!
//! An implementor exposes its state as a `DbView` through `db`, together
//! with an invariant `inv` that implies the schema invariant `wf`.  Each
//! operation is required to behave exactly as the corresponding model
//! function in [`crate::store`] says: reads do not change the state, writes
//! step it, and every failure is one of the classified error kinds.

use vstd::prelude::*;

use crate::errors::ApiError;
use crate::models::{User, UserProfile};
use crate::store::{
    create_profile_spec, create_user_spec, find_profile_by_id_spec, find_profile_by_user_id_spec,
    find_user_by_google_id_spec, find_user_by_id_spec, profile_result_view, update_profile_spec,
    update_user_spec, user_result_view, wf, DbView,
};

verus! {

/// A capability interface with one method per persistence operation.
pub trait Repository: Sized {
    /// The mathematical image of the stored state.
    spec fn db(&self) -> DbView;

    /// The implementor's invariant; it must imply the schema invariant.
    spec fn inv(&self) -> bool;

    /// The invariant implies the schema invariant.
    proof fn inv_wf(&self)
        requires
            self.inv(),
        ensures
            wf(self.db()),
    ;

    /// Looks a user up by Google ID.
    fn find_by_google_id(&self, google_id: &str) -> (r: Result<User, ApiError>)
        requires
            self.inv(),
        ensures
            user_result_view(r) == find_user_by_google_id_spec(self.db(), google_id@),
    ;

    /// Looks a user up by id.
    fn find_by_id(&self, id: i32) -> (r: Result<User, ApiError>)
        requires
            self.inv(),
        ensures
            user_result_view(r) == find_user_by_id_spec(self.db(), id as int),
    ;

    /// Creates a user; the store assigns the id.
    fn create(&mut self, user: &User) -> (r: Result<User, ApiError>)
        requires
            old(self).inv(),
        ensures
            final(self).inv(),
            final(self).db() == create_user_spec(old(self).db(), user@).0,
            user_result_view(r) == create_user_spec(old(self).db(), user@).1,
    ;

    /// Updates a user: an email-only mutation keyed by id.
    fn update(&mut self, user: &User) -> (r: Result<User, ApiError>)
        requires
            old(self).inv(),
        ensures
            final(self).inv(),
            final(self).db() == update_user_spec(old(self).db(), user@).0,
            user_result_view(r) == update_user_spec(old(self).db(), user@).1,
    ;

    /// Creates a profile; the caller generates the handle.
    fn create_profile(&mut self, profile: &UserProfile) -> (r: Result<UserProfile, ApiError>)
        requires
            old(self).inv(),
        ensures
            final(self).inv(),
            final(self).db() == create_profile_spec(old(self).db(), profile@).0,
            profile_result_view(r) == create_profile_spec(old(self).db(), profile@).1,
    ;

    /// Updates a profile: a full-record replace keyed by the handle.
    fn update_profile(&mut self, profile: &UserProfile) -> (r: Result<UserProfile, ApiError>)
        requires
            old(self).inv(),
        ensures
            final(self).inv(),
            final(self).db() == update_profile_spec(old(self).db(), profile@).0,
            profile_result_view(r) == update_profile_spec(old(self).db(), profile@).1,
    ;

    /// Looks a profile up by its owner.
    fn find_profile_by_user_id(&self, user_id: i32) -> (r: Result<UserProfile, ApiError>)
        requires
            self.inv(),
        ensures
            profile_result_view(r) == find_profile_by_user_id_spec(self.db(), user_id as int),
    ;

    /// Looks a profile up by its handle.
    fn find_profile_by_id(&self, id: &str) -> (r: Result<UserProfile, ApiError>)
        requires
            self.inv(),
        ensures
            profile_result_view(r) == find_profile_by_id_spec(self.db(), id@),
    ;
}

} // verus!
