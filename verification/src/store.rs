//! The mathematical model of the relational store.
//!
//! `DbView` is the image of the three-table schema after folding the
//! settings fields into `user_profiles`: a sequence of users, a sequence of
//! profiles, and the next identifier the store will assign.  Every
//! repository operation is described here as a function on `DbView`, and
//! every adapter contract is stated as equality with one of these
//! functions.  `wf` is the schema invariant: unique user ids and Google
//! ids, unique profile ids and owners, and unique custom URLs where set.

use vstd::prelude::*;
use vstd::string::StringExecFns;

use crate::errors::{ApiError, ErrorView};
use crate::models::{ProfileView, User, UserProfile, UserView};

verus! {

/// The image of the whole store.
pub ghost struct DbView {
    pub users: Seq<UserView>,
    pub profiles: Seq<ProfileView>,
    /// The identifier the store will assign to the next created user.
    pub next_user_id: int,
}

/// The empty store.
pub open spec fn empty_db() -> DbView {
    DbView { users: Seq::empty(), profiles: Seq::empty(), next_user_id: 1 }
}

/// The schema invariant: identifiers are positive and below the assignment
/// counter, and every uniqueness constraint of the schema holds.
pub open spec fn wf(db: DbView) -> bool {
    &&& 1 <= db.next_user_id
    &&& forall|i: int|
        0 <= i < db.users.len() ==> 1 <= #[trigger] db.users[i].id < db.next_user_id
    &&& forall|i: int, j: int|
        0 <= i < db.users.len() && 0 <= j < db.users.len() && i != j ==> #[trigger] db.users[i].id
            != #[trigger] db.users[j].id
    &&& forall|i: int, j: int|
        0 <= i < db.users.len() && 0 <= j < db.users.len() && i != j
            ==> #[trigger] db.users[i].google_id != #[trigger] db.users[j].google_id
    &&& forall|i: int, j: int|
        0 <= i < db.profiles.len() && 0 <= j < db.profiles.len() && i != j
            ==> #[trigger] db.profiles[i].id != #[trigger] db.profiles[j].id
    &&& forall|i: int, j: int|
        0 <= i < db.profiles.len() && 0 <= j < db.profiles.len() && i != j
            ==> #[trigger] db.profiles[i].user_id != #[trigger] db.profiles[j].user_id
    &&& forall|i: int, j: int|
        0 <= i < db.profiles.len() && 0 <= j < db.profiles.len() && i != j
            && #[trigger] db.profiles[i].custom_url is Some ==> db.profiles[i].custom_url
            != #[trigger] db.profiles[j].custom_url
}

// ---------------------------------------------------------------------------
// Row lookups.
// ---------------------------------------------------------------------------
/// Whether some user row carries `id`.
pub open spec fn has_user_with_id(db: DbView, id: int) -> bool {
    exists|i: int| 0 <= i < db.users.len() && #[trigger] db.users[i].id == id
}

/// The index of the user row carrying `id` (meaningful when one exists).
pub open spec fn user_index_with_id(db: DbView, id: int) -> int {
    choose|i: int| 0 <= i < db.users.len() && #[trigger] db.users[i].id == id
}

/// Whether some user row carries `google_id`.
pub open spec fn has_user_with_google_id(db: DbView, google_id: Seq<char>) -> bool {
    exists|i: int| 0 <= i < db.users.len() && #[trigger] db.users[i].google_id == google_id
}

/// The index of the user row carrying `google_id`.
pub open spec fn user_index_with_google_id(db: DbView, google_id: Seq<char>) -> int {
    choose|i: int| 0 <= i < db.users.len() && #[trigger] db.users[i].google_id == google_id
}

/// Whether some profile row carries the handle `id`.
pub open spec fn has_profile_with_id(db: DbView, id: Seq<char>) -> bool {
    exists|i: int| 0 <= i < db.profiles.len() && #[trigger] db.profiles[i].id == id
}

/// The index of the profile row carrying the handle `id`.
pub open spec fn profile_index_with_id(db: DbView, id: Seq<char>) -> int {
    choose|i: int| 0 <= i < db.profiles.len() && #[trigger] db.profiles[i].id == id
}

/// Whether some profile row belongs to `user_id`.
pub open spec fn has_profile_with_user_id(db: DbView, user_id: int) -> bool {
    exists|i: int| 0 <= i < db.profiles.len() && #[trigger] db.profiles[i].user_id == user_id
}

/// The index of the profile row belonging to `user_id`.
pub open spec fn profile_index_with_user_id(db: DbView, user_id: int) -> int {
    choose|i: int| 0 <= i < db.profiles.len() && #[trigger] db.profiles[i].user_id == user_id
}

/// Whether some profile row has `url` as its custom URL.
pub open spec fn has_profile_with_custom_url(db: DbView, url: Seq<char>) -> bool {
    exists|i: int|
        0 <= i < db.profiles.len() && #[trigger] db.profiles[i].custom_url == Some(url)
}

/// Whether a profile row other than the one at `i` has `url` set as its
/// custom URL.
pub open spec fn custom_url_taken_elsewhere(db: DbView, url: Option<Seq<char>>, i: int) -> bool {
    url is Some && exists|j: int|
        0 <= j < db.profiles.len() && j != i && #[trigger] db.profiles[j].custom_url == url
}

// ---------------------------------------------------------------------------
// Failure messages.
// ---------------------------------------------------------------------------
/// One decimal digit as a character.
pub open spec fn decimal_digit(d: int) -> char {
    if d == 0 {
        '0'
    } else if d == 1 {
        '1'
    } else if d == 2 {
        '2'
    } else if d == 3 {
        '3'
    } else if d == 4 {
        '4'
    } else if d == 5 {
        '5'
    } else if d == 6 {
        '6'
    } else if d == 7 {
        '7'
    } else if d == 8 {
        '8'
    } else {
        '9'
    }
}

/// The decimal digits of a non-negative value.
pub open spec fn decimal_nat(n: int) -> Seq<char>
    decreases n,
{
    if n < 10 {
        seq![decimal_digit(n)]
    } else {
        decimal_nat(n / 10).push(decimal_digit(n % 10))
    }
}

/// The decimal rendering of an integer, with a leading '-' when negative.
pub open spec fn decimal(n: int) -> Seq<char> {
    if n < 0 {
        seq!['-'] + decimal_nat(-n)
    } else {
        decimal_nat(n)
    }
}

/// The message of a failed user lookup by id.
pub open spec fn user_id_missing_msg(id: int) -> Seq<char> {
    "User with ID "@ + decimal(id) + " not found"@
}

/// The message of a failed user lookup by Google ID.
pub open spec fn user_google_id_missing_msg(google_id: Seq<char>) -> Seq<char> {
    "User with Google ID "@ + google_id + " not found"@
}

/// The message of a user creation that hit a uniqueness constraint.
pub open spec fn user_conflict_msg() -> Seq<char> {
    "User with this Google ID or email already exists"@
}

/// The message of a user creation that exhausted the identifier space.
pub open spec fn user_id_exhausted_msg() -> Seq<char> {
    "User ID space exhausted"@
}

/// The message of a profile write that hit a uniqueness constraint.
pub open spec fn profile_conflict_msg() -> Seq<char> {
    "User profile with this custom URL already exists"@
}

/// The message of a failed profile lookup by handle.
pub open spec fn profile_id_missing_msg(id: Seq<char>) -> Seq<char> {
    "User profile with ID "@ + id + " not found"@
}

/// The message of a failed profile lookup by owner.
pub open spec fn profile_user_id_missing_msg(user_id: int) -> Seq<char> {
    "User profile for user ID "@ + decimal(user_id) + " not found"@
}

// ---------------------------------------------------------------------------
// The operations, as functions on the model.
// ---------------------------------------------------------------------------
/// What a lookup by Google ID returns.
pub open spec fn find_user_by_google_id_spec(db: DbView, google_id: Seq<char>) -> Result<
    UserView,
    ErrorView,
> {
    if has_user_with_google_id(db, google_id) {
        Ok(db.users[user_index_with_google_id(db, google_id)])
    } else {
        Err(ErrorView::NotFound(user_google_id_missing_msg(google_id)))
    }
}

/// What a lookup by id returns.
pub open spec fn find_user_by_id_spec(db: DbView, id: int) -> Result<UserView, ErrorView> {
    if has_user_with_id(db, id) {
        Ok(db.users[user_index_with_id(db, id)])
    } else {
        Err(ErrorView::NotFound(user_id_missing_msg(id)))
    }
}

/// What creating a user does: a `Conflict` when the Google ID is taken, a
/// `DatabaseError` when no identifier is left to assign, and otherwise a
/// new row carrying the assigned identifier.
pub open spec fn create_user_spec(db: DbView, u: UserView) -> (DbView, Result<
    UserView,
    ErrorView,
>) {
    if has_user_with_google_id(db, u.google_id) {
        (db, Err(ErrorView::Conflict(user_conflict_msg())))
    } else if db.next_user_id >= i32::MAX as int {
        (db, Err(ErrorView::DatabaseError(user_id_exhausted_msg())))
    } else {
        let created = UserView { id: db.next_user_id, google_id: u.google_id, email: u.email };
        (
            DbView {
                users: db.users.push(created),
                profiles: db.profiles,
                next_user_id: db.next_user_id + 1,
            },
            Ok(created),
        )
    }
}

/// What updating a user does: an email-only mutation keyed by id.
pub open spec fn update_user_spec(db: DbView, u: UserView) -> (DbView, Result<
    UserView,
    ErrorView,
>) {
    if !has_user_with_id(db, u.id) {
        (db, Err(ErrorView::NotFound(user_id_missing_msg(u.id))))
    } else {
        let i = user_index_with_id(db, u.id);
        let updated = UserView { email: u.email, ..db.users[i] };
        (DbView { users: db.users.update(i, updated), ..db }, Ok(updated))
    }
}

/// Whether inserting `p` would violate a uniqueness constraint: the handle,
/// the one-profile-per-user key, or a set custom URL already taken.  An
/// absent custom URL imposes no constraint.
pub open spec fn profile_create_conflict(db: DbView, p: ProfileView) -> bool {
    ||| has_profile_with_id(db, p.id)
    ||| has_profile_with_user_id(db, p.user_id)
    ||| (p.custom_url is Some && has_profile_with_custom_url(db, p.custom_url->0))
}

/// What creating a profile does.  The handle is caller-generated, so the
/// row is stored exactly as handed in.
pub open spec fn create_profile_spec(db: DbView, p: ProfileView) -> (DbView, Result<
    ProfileView,
    ErrorView,
>) {
    if profile_create_conflict(db, p) {
        (db, Err(ErrorView::Conflict(profile_conflict_msg())))
    } else {
        (DbView { profiles: db.profiles.push(p), ..db }, Ok(p))
    }
}

/// What updating a profile does: a full-record replace keyed by the handle.
/// The handle and the owner are immutable; a custom URL that another row
/// already holds is a `Conflict`.
pub open spec fn update_profile_spec(db: DbView, p: ProfileView) -> (DbView, Result<
    ProfileView,
    ErrorView,
>) {
    if !has_profile_with_id(db, p.id) {
        (db, Err(ErrorView::NotFound(profile_id_missing_msg(p.id))))
    } else {
        let i = profile_index_with_id(db, p.id);
        let updated = ProfileView { id: db.profiles[i].id, user_id: db.profiles[i].user_id, ..p };
        if custom_url_taken_elsewhere(db, updated.custom_url, i) {
            (db, Err(ErrorView::Conflict(profile_conflict_msg())))
        } else {
            (DbView { profiles: db.profiles.update(i, updated), ..db }, Ok(updated))
        }
    }
}

/// What a profile lookup by owner returns.
pub open spec fn find_profile_by_user_id_spec(db: DbView, user_id: int) -> Result<
    ProfileView,
    ErrorView,
> {
    if has_profile_with_user_id(db, user_id) {
        Ok(db.profiles[profile_index_with_user_id(db, user_id)])
    } else {
        Err(ErrorView::NotFound(profile_user_id_missing_msg(user_id)))
    }
}

/// What a profile lookup by handle returns.
pub open spec fn find_profile_by_id_spec(db: DbView, id: Seq<char>) -> Result<
    ProfileView,
    ErrorView,
> {
    if has_profile_with_id(db, id) {
        Ok(db.profiles[profile_index_with_id(db, id)])
    } else {
        Err(ErrorView::NotFound(profile_id_missing_msg(id)))
    }
}

// ---------------------------------------------------------------------------
// Images of executable results.
// ---------------------------------------------------------------------------
/// The image of an executable user result.
pub open spec fn user_result_view(r: Result<User, ApiError>) -> Result<UserView, ErrorView> {
    match r {
        Ok(u) => Ok(u@),
        Err(e) => Err(e@),
    }
}

/// The image of an executable profile result.
pub open spec fn profile_result_view(r: Result<UserProfile, ApiError>) -> Result<
    ProfileView,
    ErrorView,
> {
    match r {
        Ok(p) => Ok(p@),
        Err(e) => Err(e@),
    }
}

// ---------------------------------------------------------------------------
// The operations preserve the schema invariant.
// ---------------------------------------------------------------------------
/// Creating a user preserves the schema invariant: the assigned identifier
/// is fresh by construction and the Google ID was checked.
pub proof fn lemma_create_user_preserves_wf(db: DbView, u: UserView)
    requires
        wf(db),
    ensures
        wf(create_user_spec(db, u).0),
{
    if !has_user_with_google_id(db, u.google_id) && db.next_user_id < i32::MAX as int {
        let db1 = create_user_spec(db, u).0;
        assert forall|i: int, j: int|
            0 <= i < db1.users.len() && 0 <= j < db1.users.len() && i != j implies #[trigger] db1.users[i].google_id
            != #[trigger] db1.users[j].google_id by {
            if i == db.users.len() {
                assert(db1.users[j].google_id == db.users[j].google_id);
            } else if j == db.users.len() {
                assert(db1.users[i].google_id == db.users[i].google_id);
            }
        }
    }
}

/// Updating a user preserves the schema invariant: the row keeps its
/// identifier and Google ID, only the email changes.
pub proof fn lemma_update_user_preserves_wf(db: DbView, u: UserView)
    requires
        wf(db),
    ensures
        wf(update_user_spec(db, u).0),
{
}

/// Creating a profile preserves the schema invariant: every uniqueness
/// constraint was checked before the insert.
pub proof fn lemma_create_profile_preserves_wf(db: DbView, p: ProfileView)
    requires
        wf(db),
    ensures
        wf(create_profile_spec(db, p).0),
{
    if !profile_create_conflict(db, p) {
        let db1 = create_profile_spec(db, p).0;
        assert forall|i: int, j: int|
            0 <= i < db1.profiles.len() && 0 <= j < db1.profiles.len() && i != j
                && #[trigger] db1.profiles[i].custom_url is Some implies db1.profiles[i].custom_url
            != #[trigger] db1.profiles[j].custom_url by {
            if i == db.profiles.len() {
                assert(db1.profiles[i].custom_url == p.custom_url);
                assert(db1.profiles[j].custom_url == db.profiles[j].custom_url);
                assert(db.profiles[j].custom_url != Some(p.custom_url->0));
            } else if j == db.profiles.len() {
                assert(db1.profiles[i].custom_url == db.profiles[i].custom_url);
                assert(db1.profiles[j].custom_url == p.custom_url);
                if p.custom_url is Some {
                    assert(db.profiles[i].custom_url != Some(p.custom_url->0));
                }
            }
        }
    }
}

/// Updating a profile preserves the schema invariant: the handle and owner
/// are kept, and a custom URL held by another row was refused.
pub proof fn lemma_update_profile_preserves_wf(db: DbView, p: ProfileView)
    requires
        wf(db),
    ensures
        wf(update_profile_spec(db, p).0),
{
    if has_profile_with_id(db, p.id) {
        let i = profile_index_with_id(db, p.id);
        let updated = ProfileView { id: db.profiles[i].id, user_id: db.profiles[i].user_id, ..p };
        if !custom_url_taken_elsewhere(db, updated.custom_url, i) {
            let db1 = update_profile_spec(db, p).0;
            assert forall|k: int, l: int|
                0 <= k < db1.profiles.len() && 0 <= l < db1.profiles.len() && k != l
                    && #[trigger] db1.profiles[k].custom_url is Some implies db1.profiles[k].custom_url
                != #[trigger] db1.profiles[l].custom_url by {
                if k == i {
                    assert(db1.profiles[l] == db.profiles[l]);
                } else if l == i {
                    assert(db1.profiles[k] == db.profiles[k]);
                    if updated.custom_url is Some {
                        assert(db.profiles[k].custom_url != updated.custom_url);
                    }
                }
            }
        }
    }
}

// ---------------------------------------------------------------------------
// Under the invariant, lookups are deterministic.
// ---------------------------------------------------------------------------
/// In a well-formed store, the row at `i` is the one its own keys select.
pub proof fn lemma_user_index_of(db: DbView, i: int)
    requires
        wf(db),
        0 <= i < db.users.len(),
    ensures
        user_index_with_id(db, db.users[i].id) == i,
        user_index_with_google_id(db, db.users[i].google_id) == i,
{
    assert(has_user_with_id(db, db.users[i].id));
    assert(has_user_with_google_id(db, db.users[i].google_id));
    let j = user_index_with_id(db, db.users[i].id);
    let k = user_index_with_google_id(db, db.users[i].google_id);
    assert(0 <= j < db.users.len() && db.users[j].id == db.users[i].id);
    assert(0 <= k < db.users.len() && db.users[k].google_id == db.users[i].google_id);
}

/// In a well-formed store, the profile row at `i` is the one its own keys
/// select.
pub proof fn lemma_profile_index_of(db: DbView, i: int)
    requires
        wf(db),
        0 <= i < db.profiles.len(),
    ensures
        profile_index_with_id(db, db.profiles[i].id) == i,
        profile_index_with_user_id(db, db.profiles[i].user_id) == i,
{
    assert(has_profile_with_id(db, db.profiles[i].id));
    assert(has_profile_with_user_id(db, db.profiles[i].user_id));
    let j = profile_index_with_id(db, db.profiles[i].id);
    let k = profile_index_with_user_id(db, db.profiles[i].user_id);
    assert(0 <= j < db.profiles.len() && db.profiles[j].id == db.profiles[i].id);
    assert(0 <= k < db.profiles.len() && db.profiles[k].user_id == db.profiles[i].user_id);
}

// ---------------------------------------------------------------------------
// Building the failure messages.
// ---------------------------------------------------------------------------
/// Relies on `i32::to_string` (std's `Display` for integers): the decimal
/// rendering of the value, with a leading '-' when negative.
#[verifier::external_body]
fn i32_to_string(n: i32) -> (r: String)
    ensures
        r@ == decimal(n as int),
{
    n.to_string()
}

/// The message of a failed user lookup by id.
pub fn user_id_missing_message(id: i32) -> (m: String)
    ensures
        m@ == user_id_missing_msg(id as int),
{
    let rendered = i32_to_string(id);
    "User with ID ".to_owned().concat(rendered.as_str()).concat(" not found")
}

/// The message of a failed user lookup by Google ID.
pub fn user_google_id_missing_message(google_id: &str) -> (m: String)
    ensures
        m@ == user_google_id_missing_msg(google_id@),
{
    "User with Google ID ".to_owned().concat(google_id).concat(" not found")
}

/// The message of a user creation that hit a uniqueness constraint.
pub fn user_conflict_message() -> (m: String)
    ensures
        m@ == user_conflict_msg(),
{
    "User with this Google ID or email already exists".to_owned()
}

/// The message of a user creation that exhausted the identifier space.
pub fn user_id_exhausted_message() -> (m: String)
    ensures
        m@ == user_id_exhausted_msg(),
{
    "User ID space exhausted".to_owned()
}

/// The message of a profile write that hit a uniqueness constraint.
pub fn profile_conflict_message() -> (m: String)
    ensures
        m@ == profile_conflict_msg(),
{
    "User profile with this custom URL already exists".to_owned()
}

/// The message of a failed profile lookup by handle.
pub fn profile_id_missing_message(id: &str) -> (m: String)
    ensures
        m@ == profile_id_missing_msg(id@),
{
    "User profile with ID ".to_owned().concat(id).concat(" not found")
}

/// The message of a failed profile lookup by owner.
pub fn profile_user_id_missing_message(user_id: i32) -> (m: String)
    ensures
        m@ == profile_user_id_missing_msg(user_id as int),
{
    let rendered = i32_to_string(user_id);
    "User profile for user ID ".to_owned().concat(rendered.as_str()).concat(" not found")
}

} // verus!
