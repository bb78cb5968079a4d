//! The laws of the library: properties that relate several operations,
//! stated over the store model and proved once and for all.

use vstd::prelude::*;

use crate::errors::ErrorView;
use crate::models::{empty_patch, fresh_profile, ProfileView, UserView};
use crate::service::{merged, patched_update_spec};
use crate::store::{
    create_profile_spec, create_user_spec, custom_url_taken_elsewhere, find_profile_by_id_spec,
    find_user_by_id_spec, has_profile_with_custom_url, has_profile_with_id,
    has_profile_with_user_id, has_user_with_google_id, has_user_with_id,
    lemma_create_profile_preserves_wf, lemma_create_user_preserves_wf, lemma_profile_index_of,
    lemma_user_index_of, profile_conflict_msg, profile_index_with_user_id, user_conflict_msg,
    user_id_missing_msg, wf, DbView,
};

verus! {

/// Creating a user with an unused Google ID succeeds and the assigned id
/// is positive; creating again with the same Google ID fails with
/// `Conflict`, whatever the second email is.
pub proof fn lemma_duplicate_google_id_conflicts(db: DbView, u1: UserView, u2: UserView)
    requires
        wf(db),
        !has_user_with_google_id(db, u1.google_id),
        db.next_user_id < i32::MAX as int,
        u2.google_id == u1.google_id,
    ensures
        create_user_spec(db, u1).1 is Ok,
        create_user_spec(db, u1).1->Ok_0.id > 0,
        create_user_spec(create_user_spec(db, u1).0, u2).1 == Err::<UserView, ErrorView>(
            ErrorView::Conflict(user_conflict_msg()),
        ),
{
    let db1 = create_user_spec(db, u1).0;
    assert(db1.users[db.users.len() as int].google_id == u1.google_id);
    assert(has_user_with_google_id(db1, u2.google_id));
}

/// A lookup of a just-created id returns exactly the created record, which
/// equals the input except for the server-assigned id.
pub proof fn lemma_find_by_id_after_create(db: DbView, u: UserView)
    requires
        wf(db),
        !has_user_with_google_id(db, u.google_id),
        db.next_user_id < i32::MAX as int,
    ensures
        ({
            let (db1, r1) = create_user_spec(db, u);
            &&& r1 is Ok
            &&& find_user_by_id_spec(db1, r1->Ok_0.id) == Ok::<UserView, ErrorView>(r1->Ok_0)
            &&& r1->Ok_0.google_id == u.google_id
            &&& r1->Ok_0.email == u.email
        }),
{
    let (db1, r1) = create_user_spec(db, u);
    let created = r1->Ok_0;
    lemma_create_user_preserves_wf(db, u);
    assert(db1.users[db.users.len() as int].id == created.id);
    assert(has_user_with_id(db1, created.id));
    lemma_user_index_of(db1, db.users.len() as int);
}

/// A lookup of a never-created id fails with `NotFound`.
pub proof fn lemma_find_missing_id_not_found(db: DbView, id: int)
    requires
        !has_user_with_id(db, id),
    ensures
        find_user_by_id_spec(db, id) == Err::<UserView, ErrorView>(
            ErrorView::NotFound(user_id_missing_msg(id)),
        ),
{
}

/// Merging a payload with every field absent is the identity on the
/// profile record.
pub proof fn lemma_empty_patch_merge_identity(base: ProfileView)
    ensures
        merged(base, empty_patch()) == base,
{
}

/// The whole partial-update flow with an every-field-absent payload leaves
/// the persisted store identical and returns the stored profile.
pub proof fn lemma_empty_patch_update_identity(db: DbView, user_id: int)
    requires
        wf(db),
        has_profile_with_user_id(db, user_id),
    ensures
        patched_update_spec(db, user_id, empty_patch()).0 == db,
        patched_update_spec(db, user_id, empty_patch()).1 == Ok::<ProfileView, ErrorView>(
            db.profiles[profile_index_with_user_id(db, user_id)],
        ),
{
    let i = profile_index_with_user_id(db, user_id);
    assert(0 <= i < db.profiles.len() && db.profiles[i].user_id == user_id);
    let base = db.profiles[i];
    lemma_empty_patch_merge_identity(base);
    assert(db.profiles[i].id == base.id);
    assert(has_profile_with_id(db, base.id));
    lemma_profile_index_of(db, i);
    let replaced = ProfileView { id: db.profiles[i].id, user_id: db.profiles[i].user_id, ..base };
    assert(replaced == base);
    if custom_url_taken_elsewhere(db, base.custom_url, i) {
        let j = choose|j: int|
            0 <= j < db.profiles.len() && j != i && #[trigger] db.profiles[j].custom_url
                == base.custom_url;
        assert(db.profiles[i].custom_url is Some);
        assert(false);
    }
    assert(db.profiles.update(i, replaced) =~= db.profiles);
}

/// Two profiles with the same set custom URL cannot both be created: the
/// second create fails with `Conflict`.
pub proof fn lemma_duplicate_custom_url_conflicts(db: DbView, p1: ProfileView, p2: ProfileView)
    requires
        wf(db),
        create_profile_spec(db, p1).1 is Ok,
        p1.custom_url is Some,
        p2.custom_url == p1.custom_url,
    ensures
        create_profile_spec(create_profile_spec(db, p1).0, p2).1 == Err::<ProfileView, ErrorView>(
            ErrorView::Conflict(profile_conflict_msg()),
        ),
{
    let db1 = create_profile_spec(db, p1).0;
    assert(db1.profiles[db.profiles.len() as int].custom_url == Some(p2.custom_url->0));
    assert(has_profile_with_custom_url(db1, p2.custom_url->0));
}

/// An absent custom URL imposes no uniqueness constraint: two profiles
/// without one can both be created, provided their handles and owners are
/// fresh.
pub proof fn lemma_absent_custom_url_no_constraint(db: DbView, p1: ProfileView, p2: ProfileView)
    requires
        wf(db),
        !has_profile_with_id(db, p1.id),
        !has_profile_with_user_id(db, p1.user_id),
        p1.custom_url is None,
        p2.custom_url is None,
        p2.id != p1.id,
        !has_profile_with_id(db, p2.id),
        p2.user_id != p1.user_id,
        !has_profile_with_user_id(db, p2.user_id),
    ensures
        create_profile_spec(db, p1).1 is Ok,
        create_profile_spec(create_profile_spec(db, p1).0, p2).1 is Ok,
{
    let db1 = create_profile_spec(db, p1).0;
    assert forall|j: int|
        0 <= j < db1.profiles.len() implies #[trigger] db1.profiles[j].id != p2.id by {
        if j < db.profiles.len() {
            assert(db1.profiles[j] == db.profiles[j]);
        } else {
            assert(db1.profiles[j] == p1);
        }
    }
    assert forall|j: int|
        0 <= j < db1.profiles.len() implies #[trigger] db1.profiles[j].user_id != p2.user_id by {
        if j < db.profiles.len() {
            assert(db1.profiles[j] == db.profiles[j]);
        } else {
            assert(db1.profiles[j] == p1);
        }
    }
}

/// Round trip: a profile built by `UserProfile::new` and successfully
/// persisted is returned by an immediate lookup of its handle, equal in
/// every field.
pub proof fn lemma_profile_round_trip(db: DbView, id: Seq<char>, user_id: int)
    requires
        wf(db),
        !crate::store::profile_create_conflict(db, fresh_profile(id, user_id)),
    ensures
        ({
            let p = fresh_profile(id, user_id);
            let (db1, r1) = create_profile_spec(db, p);
            &&& r1 == Ok::<ProfileView, ErrorView>(p)
            &&& find_profile_by_id_spec(db1, p.id) == Ok::<ProfileView, ErrorView>(p)
        }),
{
    let p = fresh_profile(id, user_id);
    let (db1, r1) = create_profile_spec(db, p);
    lemma_create_profile_preserves_wf(db, p);
    assert(db1.profiles[db.profiles.len() as int].id == p.id);
    assert(has_profile_with_id(db1, p.id));
    lemma_profile_index_of(db1, db.profiles.len() as int);
}

} // verus!
