//! The domain service: one method per port operation, delegating directly,
//! plus the partial-update merge.
//!
//! The merge is the one piece of real orchestration: a partial payload is
//! merged field by field onto the current persisted profile — each present
//! field overwrites, each absent field is left untouched — and the merged
//! record is passed whole to the port's replace operation.

use vstd::prelude::*;

use crate::errors::{ApiError, ErrorView};
use crate::models::{
    clone_opt_string, PatchView, ProfileView, UpdateProfileRequest, User, UserProfile,
};
use crate::ports::Repository;
use crate::store::{
    create_profile_spec, create_user_spec, find_profile_by_id_spec, find_profile_by_user_id_spec,
    find_user_by_google_id_spec, find_user_by_id_spec, profile_result_view, update_profile_spec,
    update_user_spec, user_result_view, wf, DbView,
};

verus! {

/// The merge of a partial payload onto a persisted profile: each present
/// field of the payload overwrites the corresponding field, each absent
/// field leaves it untouched.  The handle and the owner are not part of
/// the payload and always stay.
pub open spec fn merged(base: ProfileView, p: PatchView) -> ProfileView {
    ProfileView {
        id: base.id,
        user_id: base.user_id,
        email: if p.email is Some {
            p.email
        } else {
            base.email
        },
        name: if p.name is Some {
            p.name
        } else {
            base.name
        },
        bio: if p.bio is Some {
            p.bio
        } else {
            base.bio
        },
        phone_number: if p.phone_number is Some {
            p.phone_number
        } else {
            base.phone_number
        },
        location: if p.location is Some {
            p.location
        } else {
            base.location
        },
        profile_picture_url: if p.profile_picture_url is Some {
            p.profile_picture_url
        } else {
            base.profile_picture_url
        },
        theme: if p.theme is Some {
            p.theme
        } else {
            base.theme
        },
        template: if p.template is Some {
            p.template->0
        } else {
            base.template
        },
        custom_url: if p.custom_url is Some {
            p.custom_url
        } else {
            base.custom_url
        },
        job_title: if p.job_title is Some {
            p.job_title
        } else {
            base.job_title
        },
        facebook_url: if p.facebook_url is Some {
            p.facebook_url
        } else {
            base.facebook_url
        },
        twitter_url: if p.twitter_url is Some {
            p.twitter_url
        } else {
            base.twitter_url
        },
        instagram_url: if p.instagram_url is Some {
            p.instagram_url
        } else {
            base.instagram_url
        },
        linkedin_url: if p.linkedin_url is Some {
            p.linkedin_url
        } else {
            base.linkedin_url
        },
        exchange_contacts: if p.exchange_contacts is Some {
            p.exchange_contacts->0
        } else {
            base.exchange_contacts
        },
        save_contact: if p.save_contact is Some {
            p.save_contact->0
        } else {
            base.save_contact
        },
        call_me: if p.call_me is Some {
            p.call_me->0
        } else {
            base.call_me
        },
        email_me: if p.email_me is Some {
            p.email_me->0
        } else {
            base.email_me
        },
        social_media: if p.social_media is Some {
            p.social_media->0
        } else {
            base.social_media
        },
    }
}

/// Merges one optional string field.
fn merge_opt_string(base: &Option<String>, patch: &Option<String>) -> (r: Option<String>)
    ensures
        r.deep_view() == if patch.deep_view() is Some {
            patch.deep_view()
        } else {
            base.deep_view()
        },
{
    match patch {
        Some(v) => Some(v.clone()),
        None => clone_opt_string(base),
    }
}

/// Merges one optional flag field.
fn merge_opt_bool(base: bool, patch: Option<bool>) -> (r: bool)
    ensures
        r == if patch is Some {
            patch->0
        } else {
            base
        },
{
    match patch {
        Some(b) => b,
        None => base,
    }
}

/// Builds the full replacement record for a partial update: the merge of
/// `patch` onto `base`, as [`merged`] describes it.
pub fn apply_profile_update(base: &UserProfile, patch: &UpdateProfileRequest) -> (r: UserProfile)
    ensures
        r@ == merged(base@, patch@),
{
    UserProfile {
        id: base.id.clone(),
        user_id: base.user_id,
        email: merge_opt_string(&base.email, &patch.email),
        name: merge_opt_string(&base.name, &patch.name),
        bio: merge_opt_string(&base.bio, &patch.bio),
        phone_number: merge_opt_string(&base.phone_number, &patch.phone_number),
        location: merge_opt_string(&base.location, &patch.location),
        profile_picture_url: merge_opt_string(
            &base.profile_picture_url,
            &patch.profile_picture_url,
        ),
        theme: merge_opt_string(&base.theme, &patch.theme),
        template: match &patch.template {
            Some(t) => t.clone(),
            None => base.template.clone(),
        },
        custom_url: merge_opt_string(&base.custom_url, &patch.custom_url),
        job_title: merge_opt_string(&base.job_title, &patch.job_title),
        facebook_url: merge_opt_string(&base.facebook_url, &patch.facebook_url),
        twitter_url: merge_opt_string(&base.twitter_url, &patch.twitter_url),
        instagram_url: merge_opt_string(&base.instagram_url, &patch.instagram_url),
        linkedin_url: merge_opt_string(&base.linkedin_url, &patch.linkedin_url),
        exchange_contacts: merge_opt_bool(base.exchange_contacts, patch.exchange_contacts),
        save_contact: merge_opt_bool(base.save_contact, patch.save_contact),
        call_me: merge_opt_bool(base.call_me, patch.call_me),
        email_me: merge_opt_bool(base.email_me, patch.email_me),
        social_media: merge_opt_bool(base.social_media, patch.social_media),
    }
}

/// What the partial-update flow does to the store: look the profile up by
/// its owner, merge the payload onto it, and replace the full record.
pub open spec fn patched_update_spec(db: DbView, user_id: int, p: PatchView) -> (DbView, Result<
    ProfileView,
    ErrorView,
>) {
    match find_profile_by_user_id_spec(db, user_id) {
        Ok(base) => update_profile_spec(db, merged(base, p)),
        Err(e) => (db, Err(e)),
    }
}

/// The orchestration layer.  It owns no state of its own: it holds the one
/// reference to the repository port and delegates every operation.
pub struct Service<R: Repository> {
    repo: R,
}

impl<R: Repository> Service<R> {
    /// The image of the underlying store.
    pub closed spec fn db(&self) -> DbView {
        self.repo.db()
    }

    /// The underlying repository's invariant.
    pub closed spec fn inv(&self) -> bool {
        self.repo.inv()
    }

    /// The service invariant implies the schema invariant.
    pub proof fn inv_wf(&self)
        requires
            self.inv(),
        ensures
            wf(self.db()),
    {
        self.repo.inv_wf();
    }

    /// A service over the injected repository.
    pub fn new(repo: R) -> (s: Self)
        ensures
            s.db() == repo.db(),
            s.inv() == repo.inv(),
    {
        Service { repo }
    }

    /// Looks a user up by Google ID.
    pub fn find_by_google_id(&self, google_id: &str) -> (r: Result<User, ApiError>)
        requires
            self.inv(),
        ensures
            user_result_view(r) == find_user_by_google_id_spec(self.db(), google_id@),
    {
        self.repo.find_by_google_id(google_id)
    }

    /// Looks a user up by id.
    pub fn find_by_id(&self, id: i32) -> (r: Result<User, ApiError>)
        requires
            self.inv(),
        ensures
            user_result_view(r) == find_user_by_id_spec(self.db(), id as int),
    {
        self.repo.find_by_id(id)
    }

    /// Creates a user; the store assigns the id.
    pub fn create(&mut self, user: &User) -> (r: Result<User, ApiError>)
        requires
            old(self).inv(),
        ensures
            final(self).inv(),
            final(self).db() == create_user_spec(old(self).db(), user@).0,
            user_result_view(r) == create_user_spec(old(self).db(), user@).1,
    {
        self.repo.create(user)
    }

    /// Updates a user: an email-only mutation keyed by id.
    pub fn update(&mut self, user: &User) -> (r: Result<User, ApiError>)
        requires
            old(self).inv(),
        ensures
            final(self).inv(),
            final(self).db() == update_user_spec(old(self).db(), user@).0,
            user_result_view(r) == update_user_spec(old(self).db(), user@).1,
    {
        self.repo.update(user)
    }

    /// Creates a profile; the caller generates the handle.
    pub fn create_profile(&mut self, profile: &UserProfile) -> (r: Result<UserProfile, ApiError>)
        requires
            old(self).inv(),
        ensures
            final(self).inv(),
            final(self).db() == create_profile_spec(old(self).db(), profile@).0,
            profile_result_view(r) == create_profile_spec(old(self).db(), profile@).1,
    {
        self.repo.create_profile(profile)
    }

    /// Updates a profile: a full-record replace keyed by the handle.
    pub fn update_profile(&mut self, profile: &UserProfile) -> (r: Result<UserProfile, ApiError>)
        requires
            old(self).inv(),
        ensures
            final(self).inv(),
            final(self).db() == update_profile_spec(old(self).db(), profile@).0,
            profile_result_view(r) == update_profile_spec(old(self).db(), profile@).1,
    {
        self.repo.update_profile(profile)
    }

    /// Looks a profile up by its owner.
    pub fn find_profile_by_user_id(&self, user_id: i32) -> (r: Result<UserProfile, ApiError>)
        requires
            self.inv(),
        ensures
            profile_result_view(r) == find_profile_by_user_id_spec(self.db(), user_id as int),
    {
        self.repo.find_profile_by_user_id(user_id)
    }

    /// Looks a profile up by its handle.
    pub fn find_profile_by_id(&self, id: &str) -> (r: Result<UserProfile, ApiError>)
        requires
            self.inv(),
        ensures
            profile_result_view(r) == find_profile_by_id_spec(self.db(), id@),
    {
        self.repo.find_profile_by_id(id)
    }

    /// The partial-update flow for the authenticated user: fetch the
    /// current profile, merge the payload onto it, and replace the record.
    pub fn update_profile_for_user(&mut self, user_id: i32, patch: &UpdateProfileRequest) -> (r:
        Result<UserProfile, ApiError>)
        requires
            old(self).inv(),
        ensures
            final(self).inv(),
            final(self).db() == patched_update_spec(old(self).db(), user_id as int, patch@).0,
            profile_result_view(r) == patched_update_spec(old(self).db(), user_id as int, patch@).1,
    {
        let base = match self.repo.find_profile_by_user_id(user_id) {
            Ok(p) => p,
            Err(e) => {
                return Err(e);
            },
        };
        let replacement = apply_profile_update(&base, patch);
        self.repo.update_profile(&replacement)
    }
}

} // verus!
