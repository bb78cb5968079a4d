//! An in-memory storage adapter: the reference implementation of the
//! repository port.
//!
//! It keeps the two tables as vectors and assigns user identifiers from a
//! counter, enforcing exactly the uniqueness constraints of the schema and
//! classifying each failure as the port requires.

use vstd::prelude::*;

use crate::errors::ApiError;
use crate::models::{clone_opt_string, opt_str_eq, ProfileView, User, UserProfile};
use crate::ports::Repository;
use crate::store::{
    create_profile_spec, create_user_spec, custom_url_taken_elsewhere, empty_db,
    has_profile_with_custom_url, has_profile_with_id, has_profile_with_user_id,
    has_user_with_google_id, has_user_with_id, lemma_create_profile_preserves_wf,
    lemma_create_user_preserves_wf, lemma_profile_index_of, lemma_update_profile_preserves_wf,
    lemma_update_user_preserves_wf, lemma_user_index_of, profile_conflict_message,
    profile_create_conflict, profile_id_missing_message, profile_user_id_missing_message,
    update_profile_spec, update_user_spec, user_conflict_message, user_google_id_missing_message,
    user_id_exhausted_message, user_id_missing_message, wf, DbView,
};

verus! {

/// The in-memory store: two tables and the identifier counter.
pub struct MemoryRepository {
    users: Vec<User>,
    profiles: Vec<UserProfile>,
    next_user_id: i32,
}

impl MemoryRepository {
    /// An empty store.
    pub fn new() -> (r: Self)
        ensures
            r.inv(),
            r.db() == empty_db(),
    {
        let r = MemoryRepository { users: Vec::new(), profiles: Vec::new(), next_user_id: 1 };
        proof {
            assert(r.db().users =~= empty_db().users);
            assert(r.db().profiles =~= empty_db().profiles);
        }
        r
    }
}

impl Repository for MemoryRepository {
    closed spec fn db(&self) -> DbView {
        DbView {
            users: Seq::new(self.users@.len(), |i: int| self.users@[i]@),
            profiles: Seq::new(self.profiles@.len(), |i: int| self.profiles@[i]@),
            next_user_id: self.next_user_id as int,
        }
    }

    closed spec fn inv(&self) -> bool {
        wf(self.db())
    }

    proof fn inv_wf(&self) {
    }

    #[verifier::loop_isolation(false)]
    fn find_by_google_id(&self, google_id: &str) -> (r: Result<User, ApiError>) {
        let key = google_id.to_owned();
        let mut i: usize = 0;
        while i < self.users.len()
            invariant
                key@ == google_id@,
                i <= self.users.len(),
                forall|j: int|
                    0 <= j < i ==> #[trigger] self.db().users[j].google_id != google_id@,
            decreases self.users.len() - i,
        {
            if self.users[i].google_id == key {
                proof {
                    assert(self.db().users[i as int].google_id == google_id@);
                    assert(has_user_with_google_id(self.db(), google_id@));
                    lemma_user_index_of(self.db(), i as int);
                }
                return Ok(self.users[i].clone());
            }
            i += 1;
        }
        Err(ApiError::NotFound(user_google_id_missing_message(google_id)))
    }

    #[verifier::loop_isolation(false)]
    fn find_by_id(&self, id: i32) -> (r: Result<User, ApiError>) {
        let mut i: usize = 0;
        while i < self.users.len()
            invariant
                i <= self.users.len(),
                forall|j: int| 0 <= j < i ==> #[trigger] self.db().users[j].id != id as int,
            decreases self.users.len() - i,
        {
            if self.users[i].id == id {
                proof {
                    assert(self.db().users[i as int].id == id as int);
                    assert(has_user_with_id(self.db(), id as int));
                    lemma_user_index_of(self.db(), i as int);
                }
                return Ok(self.users[i].clone());
            }
            i += 1;
        }
        Err(ApiError::NotFound(user_id_missing_message(id)))
    }

    #[verifier::loop_isolation(false)]
    fn create(&mut self, user: &User) -> (r: Result<User, ApiError>) {
        let ghost db0 = self.db();
        let mut i: usize = 0;
        while i < self.users.len()
            invariant
                i <= self.users.len(),
                forall|j: int|
                    0 <= j < i ==> #[trigger] self.db().users[j].google_id != user@.google_id,
            decreases self.users.len() - i,
        {
            if self.users[i].google_id == user.google_id {
                proof {
                    assert(self.db().users[i as int].google_id == user@.google_id);
                    assert(has_user_with_google_id(self.db(), user@.google_id));
                }
                return Err(ApiError::Conflict(user_conflict_message()));
            }
            i += 1;
        }
        proof {
            assert(!has_user_with_google_id(db0, user@.google_id));
        }
        if self.next_user_id >= i32::MAX {
            return Err(ApiError::DatabaseError(user_id_exhausted_message()));
        }
        let created = User {
            id: self.next_user_id,
            google_id: user.google_id.clone(),
            email: user.email.clone(),
        };
        let result = created.clone();
        proof {
            lemma_create_user_preserves_wf(db0, user@);
        }
        self.users.push(created);
        self.next_user_id = self.next_user_id + 1;
        proof {
            let db1 = create_user_spec(db0, user@).0;
            assert(self.db().users =~= db1.users);
            assert(self.db().profiles =~= db1.profiles);
            assert(self.db() == db1);
        }
        Ok(result)
    }

    #[verifier::loop_isolation(false)]
    fn update(&mut self, user: &User) -> (r: Result<User, ApiError>) {
        let ghost db0 = self.db();
        let mut i: usize = 0;
        while i < self.users.len()
            invariant
                self.db() == db0,
                i <= self.users.len(),
                forall|j: int| 0 <= j < i ==> #[trigger] self.db().users[j].id != user@.id,
            decreases self.users.len() - i,
        {
            if self.users[i].id == user.id {
                proof {
                    assert(self.db().users[i as int].id == user@.id);
                    assert(has_user_with_id(db0, user@.id));
                    lemma_user_index_of(db0, i as int);
                    lemma_update_user_preserves_wf(db0, user@);
                }
                let updated = User {
                    id: user.id,
                    google_id: self.users[i].google_id.clone(),
                    email: user.email.clone(),
                };
                let result = updated.clone();
                self.users[i] = updated;
                proof {
                    let db1 = update_user_spec(db0, user@).0;
                    assert(self.db().users =~= db1.users);
                    assert(self.db().profiles =~= db1.profiles);
                    assert(self.db() == db1);
                }
                return Ok(result);
            }
            i += 1;
        }
        Err(ApiError::NotFound(user_id_missing_message(user.id)))
    }

    #[verifier::loop_isolation(false)]
    fn create_profile(&mut self, profile: &UserProfile) -> (r: Result<UserProfile, ApiError>) {
        let ghost db0 = self.db();
        let mut i: usize = 0;
        while i < self.profiles.len()
            invariant
                i <= self.profiles.len(),
                forall|j: int| 0 <= j < i ==> #[trigger] self.db().profiles[j].id != profile@.id,
                forall|j: int|
                    0 <= j < i ==> #[trigger] self.db().profiles[j].user_id != profile@.user_id,
                forall|j: int|
                    0 <= j < i ==> #[trigger] self.db().profiles[j].custom_url != profile@.custom_url
                        || profile@.custom_url is None,
            decreases self.profiles.len() - i,
        {
            let id_hit = self.profiles[i].id == profile.id;
            let owner_hit = self.profiles[i].user_id == profile.user_id;
            let url_hit = profile.custom_url.is_some() && opt_str_eq(
                &self.profiles[i].custom_url,
                &profile.custom_url,
            );
            if id_hit || owner_hit || url_hit {
                proof {
                    if id_hit {
                        assert(self.db().profiles[i as int].id == profile@.id);
                        assert(has_profile_with_id(db0, profile@.id));
                    }
                    if owner_hit {
                        assert(self.db().profiles[i as int].user_id == profile@.user_id);
                        assert(has_profile_with_user_id(db0, profile@.user_id));
                    }
                    if url_hit {
                        assert(self.db().profiles[i as int].custom_url == Some(
                            profile@.custom_url->0,
                        ));
                        assert(has_profile_with_custom_url(db0, profile@.custom_url->0));
                    }
                    assert(profile_create_conflict(db0, profile@));
                }
                return Err(ApiError::Conflict(profile_conflict_message()));
            }
            i += 1;
        }
        proof {
            assert(!has_profile_with_id(db0, profile@.id));
            assert(!has_profile_with_user_id(db0, profile@.user_id));
            if profile@.custom_url is Some {
                assert forall|j: int|
                    0 <= j < db0.profiles.len() implies #[trigger] db0.profiles[j].custom_url
                    != Some(profile@.custom_url->0) by {
                    assert(db0.profiles[j].custom_url != profile@.custom_url);
                }
            }
            assert(!profile_create_conflict(db0, profile@));
            lemma_create_profile_preserves_wf(db0, profile@);
        }
        let result = profile.clone();
        self.profiles.push(profile.clone());
        proof {
            let db1 = create_profile_spec(db0, profile@).0;
            assert(self.db().users =~= db1.users);
            assert(self.db().profiles =~= db1.profiles);
            assert(self.db() == db1);
        }
        Ok(result)
    }

    #[verifier::loop_isolation(false)]
    fn update_profile(&mut self, profile: &UserProfile) -> (r: Result<UserProfile, ApiError>) {
        let ghost db0 = self.db();
        let mut i: usize = 0;
        while i < self.profiles.len()
            invariant
                self.db() == db0,
                i <= self.profiles.len(),
                forall|j: int| 0 <= j < i ==> #[trigger] self.db().profiles[j].id != profile@.id,
            decreases self.profiles.len() - i,
        {
            if self.profiles[i].id == profile.id {
                proof {
                    assert(self.db().profiles[i as int].id == profile@.id);
                    assert(has_profile_with_id(db0, profile@.id));
                    lemma_profile_index_of(db0, i as int);
                }
                let updated = UserProfile {
                    id: self.profiles[i].id.clone(),
                    user_id: self.profiles[i].user_id,
                    email: clone_opt_string(&profile.email),
                    name: clone_opt_string(&profile.name),
                    bio: clone_opt_string(&profile.bio),
                    phone_number: clone_opt_string(&profile.phone_number),
                    location: clone_opt_string(&profile.location),
                    profile_picture_url: clone_opt_string(&profile.profile_picture_url),
                    theme: clone_opt_string(&profile.theme),
                    template: profile.template.clone(),
                    custom_url: clone_opt_string(&profile.custom_url),
                    job_title: clone_opt_string(&profile.job_title),
                    facebook_url: clone_opt_string(&profile.facebook_url),
                    twitter_url: clone_opt_string(&profile.twitter_url),
                    instagram_url: clone_opt_string(&profile.instagram_url),
                    linkedin_url: clone_opt_string(&profile.linkedin_url),
                    exchange_contacts: profile.exchange_contacts,
                    save_contact: profile.save_contact,
                    call_me: profile.call_me,
                    email_me: profile.email_me,
                    social_media: profile.social_media,
                };
                proof {
                    assert(updated@ == (ProfileView {
                        id: db0.profiles[i as int].id,
                        user_id: db0.profiles[i as int].user_id,
                        ..profile@
                    }));
                }
                if updated.custom_url.is_some() {
                    let mut j: usize = 0;
                    while j < self.profiles.len()
                        invariant
                            self.db() == db0,
                            j <= self.profiles.len(),
                            i < self.profiles.len(),
                            updated@.custom_url is Some,
                            forall|k: int|
                                0 <= k < j && k != i
                                    ==> #[trigger] self.db().profiles[k].custom_url
                                    != updated@.custom_url,
                        decreases self.profiles.len() - j,
                    {
                        if j != i && opt_str_eq(&self.profiles[j].custom_url, &updated.custom_url) {
                            proof {
                                assert(self.db().profiles[j as int].custom_url
                                    == updated@.custom_url);
                                assert(custom_url_taken_elsewhere(
                                    db0,
                                    updated@.custom_url,
                                    i as int,
                                ));
                            }
                            return Err(ApiError::Conflict(profile_conflict_message()));
                        }
                        j += 1;
                    }
                }
                proof {
                    assert(!custom_url_taken_elsewhere(db0, updated@.custom_url, i as int));
                    lemma_update_profile_preserves_wf(db0, profile@);
                }
                let result = updated.clone();
                self.profiles[i] = updated;
                proof {
                    let db1 = update_profile_spec(db0, profile@).0;
                    assert(self.db().users =~= db1.users);
                    assert(self.db().profiles =~= db1.profiles);
                    assert(self.db() == db1);
                }
                return Ok(result);
            }
            i += 1;
        }
        Err(ApiError::NotFound(profile_id_missing_message(profile.id.as_str())))
    }

    #[verifier::loop_isolation(false)]
    fn find_profile_by_user_id(&self, user_id: i32) -> (r: Result<UserProfile, ApiError>) {
        let mut i: usize = 0;
        while i < self.profiles.len()
            invariant
                i <= self.profiles.len(),
                forall|j: int|
                    0 <= j < i ==> #[trigger] self.db().profiles[j].user_id != user_id as int,
            decreases self.profiles.len() - i,
        {
            if self.profiles[i].user_id == user_id {
                proof {
                    assert(self.db().profiles[i as int].user_id == user_id as int);
                    assert(has_profile_with_user_id(self.db(), user_id as int));
                    lemma_profile_index_of(self.db(), i as int);
                }
                return Ok(self.profiles[i].clone());
            }
            i += 1;
        }
        Err(ApiError::NotFound(profile_user_id_missing_message(user_id)))
    }

    #[verifier::loop_isolation(false)]
    fn find_profile_by_id(&self, id: &str) -> (r: Result<UserProfile, ApiError>) {
        let key = id.to_owned();
        let mut i: usize = 0;
        while i < self.profiles.len()
            invariant
                key@ == id@,
                i <= self.profiles.len(),
                forall|j: int| 0 <= j < i ==> #[trigger] self.db().profiles[j].id != id@,
            decreases self.profiles.len() - i,
        {
            if self.profiles[i].id == key {
                proof {
                    assert(self.db().profiles[i as int].id == id@);
                    assert(has_profile_with_id(self.db(), id@));
                    lemma_profile_index_of(self.db(), i as int);
                }
                return Ok(self.profiles[i].clone());
            }
            i += 1;
        }
        Err(ApiError::NotFound(profile_id_missing_message(id)))
    }
}

} // verus!
