//! Domain records: `User`, `UserProfile`, and the inbound request payloads.
//!
//! Every record has a mathematical image (`UserView`, `ProfileView`, ...)
//! over which all contracts in this crate are stated.

use vstd::prelude::*;

verus! {

/// Mathematical image of an identity record.
pub ghost struct UserView {
    pub id: int,
    pub google_id: Seq<char>,
    pub email: Seq<char>,
}

/// An identity record.  `id` is assigned by the store; `google_id` is an
/// opaque external identity token, set once at creation and unique across
/// all users; `email` is mutable.
pub struct User {
    pub id: i32,
    pub google_id: String,
    pub email: String,
}

impl View for User {
    type V = UserView;

    open spec fn view(&self) -> UserView {
        UserView { id: self.id as int, google_id: self.google_id@, email: self.email@ }
    }
}

impl Clone for User {
    fn clone(&self) -> (r: Self)
        ensures
            r@ == self@,
    {
        User { id: self.id, google_id: self.google_id.clone(), email: self.email.clone() }
    }
}

impl User {
    /// An unsaved record: id 0 is the sentinel for "not yet assigned".
    pub fn new(google_id: &str, email: &str) -> (r: Self)
        ensures
            r@ == (UserView { id: 0, google_id: google_id@, email: email@ }),
    {
        User { id: 0, google_id: google_id.to_owned(), email: email.to_owned() }
    }
}

/// Mathematical image of a profile record.
pub ghost struct ProfileView {
    pub id: Seq<char>,
    pub user_id: int,
    pub email: Option<Seq<char>>,
    pub name: Option<Seq<char>>,
    pub bio: Option<Seq<char>>,
    pub phone_number: Option<Seq<char>>,
    pub location: Option<Seq<char>>,
    pub profile_picture_url: Option<Seq<char>>,
    pub theme: Option<Seq<char>>,
    pub template: Seq<char>,
    pub custom_url: Option<Seq<char>>,
    pub job_title: Option<Seq<char>>,
    pub facebook_url: Option<Seq<char>>,
    pub twitter_url: Option<Seq<char>>,
    pub instagram_url: Option<Seq<char>>,
    pub linkedin_url: Option<Seq<char>>,
    pub exchange_contacts: bool,
    pub save_contact: bool,
    pub call_me: bool,
    pub email_me: bool,
    pub social_media: bool,
}

/// The public-facing profile, a one-to-one dependent of `User`.
///
/// `id` is a randomly generated handle, `user_id` the owning user.  Every
/// display field is independently nullable: absence means "not set", which
/// is distinct from an empty string.  The contact/privacy flags of the
/// merged schema ride directly on the profile.
pub struct UserProfile {
    pub id: String,
    pub user_id: i32,
    pub email: Option<String>,
    pub name: Option<String>,
    pub bio: Option<String>,
    pub phone_number: Option<String>,
    pub location: Option<String>,
    pub profile_picture_url: Option<String>,
    pub theme: Option<String>,
    pub template: String,
    pub custom_url: Option<String>,
    pub job_title: Option<String>,
    pub facebook_url: Option<String>,
    pub twitter_url: Option<String>,
    pub instagram_url: Option<String>,
    pub linkedin_url: Option<String>,
    pub exchange_contacts: bool,
    pub save_contact: bool,
    pub call_me: bool,
    pub email_me: bool,
    pub social_media: bool,
}

impl View for UserProfile {
    type V = ProfileView;

    open spec fn view(&self) -> ProfileView {
        ProfileView {
            id: self.id@,
            user_id: self.user_id as int,
            email: self.email.deep_view(),
            name: self.name.deep_view(),
            bio: self.bio.deep_view(),
            phone_number: self.phone_number.deep_view(),
            location: self.location.deep_view(),
            profile_picture_url: self.profile_picture_url.deep_view(),
            theme: self.theme.deep_view(),
            template: self.template@,
            custom_url: self.custom_url.deep_view(),
            job_title: self.job_title.deep_view(),
            facebook_url: self.facebook_url.deep_view(),
            twitter_url: self.twitter_url.deep_view(),
            instagram_url: self.instagram_url.deep_view(),
            linkedin_url: self.linkedin_url.deep_view(),
            exchange_contacts: self.exchange_contacts,
            save_contact: self.save_contact,
            call_me: self.call_me,
            email_me: self.email_me,
            social_media: self.social_media,
        }
    }
}

/// Whether two optional strings have the same mathematical image.
pub(crate) fn opt_str_eq(a: &Option<String>, b: &Option<String>) -> (r: bool)
    ensures
        r == (a.deep_view() == b.deep_view()),
{
    match (a, b) {
        (Some(x), Some(y)) => *x == *y,
        (None, None) => true,
        _ => false,
    }
}

/// Clones an optional string, keeping its mathematical image.
pub(crate) fn clone_opt_string(s: &Option<String>) -> (r: Option<String>)
    ensures
        r.deep_view() == s.deep_view(),
{
    match s {
        Some(v) => Some(v.clone()),
        None => None,
    }
}

impl Clone for UserProfile {
    fn clone(&self) -> (r: Self)
        ensures
            r@ == self@,
    {
        UserProfile {
            id: self.id.clone(),
            user_id: self.user_id,
            email: clone_opt_string(&self.email),
            name: clone_opt_string(&self.name),
            bio: clone_opt_string(&self.bio),
            phone_number: clone_opt_string(&self.phone_number),
            location: clone_opt_string(&self.location),
            profile_picture_url: clone_opt_string(&self.profile_picture_url),
            theme: clone_opt_string(&self.theme),
            template: self.template.clone(),
            custom_url: clone_opt_string(&self.custom_url),
            job_title: clone_opt_string(&self.job_title),
            facebook_url: clone_opt_string(&self.facebook_url),
            twitter_url: clone_opt_string(&self.twitter_url),
            instagram_url: clone_opt_string(&self.instagram_url),
            linkedin_url: clone_opt_string(&self.linkedin_url),
            exchange_contacts: self.exchange_contacts,
            save_contact: self.save_contact,
            call_me: self.call_me,
            email_me: self.email_me,
            social_media: self.social_media,
        }
    }
}

/// The image of a profile as `UserProfile::new` builds it: every optional
/// field absent, the documented defaults for `template` and the flags.
pub open spec fn fresh_profile(id: Seq<char>, user_id: int) -> ProfileView {
    ProfileView {
        id: id,
        user_id: user_id,
        email: None,
        name: None,
        bio: None,
        phone_number: None,
        location: None,
        profile_picture_url: None,
        theme: None,
        template: "default"@,
        custom_url: None,
        job_title: None,
        facebook_url: None,
        twitter_url: None,
        instagram_url: None,
        linkedin_url: None,
        exchange_contacts: true,
        save_contact: true,
        call_me: true,
        email_me: true,
        social_media: false,
    }
}

/// Relies on `uuid::Uuid::new_v4` and its `Display` implementation: a fresh
/// random version-4 identifier, rendered in the 36-character hyphenated
/// form.  Nothing is promised about which identifier comes back.
#[verifier::external_body]
fn generate_profile_id() -> (r: String)
    ensures
        r@.len() == 36,
{
    uuid::Uuid::new_v4().to_string()
}

impl UserProfile {
    /// A fresh profile for `user_id`: a randomly generated handle, every
    /// optional field absent, and the documented defaults.
    pub fn new(user_id: i32) -> (r: Self)
        ensures
            r@ == fresh_profile(r@.id, user_id as int),
            r@.id.len() == 36,
    {
        UserProfile {
            id: generate_profile_id(),
            user_id: user_id,
            email: None,
            name: None,
            bio: None,
            phone_number: None,
            location: None,
            profile_picture_url: None,
            theme: None,
            template: "default".to_owned(),
            custom_url: None,
            job_title: None,
            facebook_url: None,
            twitter_url: None,
            instagram_url: None,
            linkedin_url: None,
            exchange_contacts: true,
            save_contact: true,
            call_me: true,
            email_me: true,
            social_media: false,
        }
    }
}

/// Image of a partial profile update: each field independently present or
/// absent.  An absent field must leave the persisted field untouched.
pub ghost struct PatchView {
    pub email: Option<Seq<char>>,
    pub name: Option<Seq<char>>,
    pub bio: Option<Seq<char>>,
    pub phone_number: Option<Seq<char>>,
    pub location: Option<Seq<char>>,
    pub profile_picture_url: Option<Seq<char>>,
    pub theme: Option<Seq<char>>,
    pub template: Option<Seq<char>>,
    pub custom_url: Option<Seq<char>>,
    pub job_title: Option<Seq<char>>,
    pub facebook_url: Option<Seq<char>>,
    pub twitter_url: Option<Seq<char>>,
    pub instagram_url: Option<Seq<char>>,
    pub linkedin_url: Option<Seq<char>>,
    pub exchange_contacts: Option<bool>,
    pub save_contact: Option<bool>,
    pub call_me: Option<bool>,
    pub email_me: Option<bool>,
    pub social_media: Option<bool>,
}

/// A partial profile update as the route layer hands it in: every field is
/// independently optional.
pub struct UpdateProfileRequest {
    pub email: Option<String>,
    pub name: Option<String>,
    pub bio: Option<String>,
    pub phone_number: Option<String>,
    pub location: Option<String>,
    pub profile_picture_url: Option<String>,
    pub theme: Option<String>,
    pub template: Option<String>,
    pub custom_url: Option<String>,
    pub job_title: Option<String>,
    pub facebook_url: Option<String>,
    pub twitter_url: Option<String>,
    pub instagram_url: Option<String>,
    pub linkedin_url: Option<String>,
    pub exchange_contacts: Option<bool>,
    pub save_contact: Option<bool>,
    pub call_me: Option<bool>,
    pub email_me: Option<bool>,
    pub social_media: Option<bool>,
}

impl View for UpdateProfileRequest {
    type V = PatchView;

    open spec fn view(&self) -> PatchView {
        PatchView {
            email: self.email.deep_view(),
            name: self.name.deep_view(),
            bio: self.bio.deep_view(),
            phone_number: self.phone_number.deep_view(),
            location: self.location.deep_view(),
            profile_picture_url: self.profile_picture_url.deep_view(),
            theme: self.theme.deep_view(),
            template: self.template.deep_view(),
            custom_url: self.custom_url.deep_view(),
            job_title: self.job_title.deep_view(),
            facebook_url: self.facebook_url.deep_view(),
            twitter_url: self.twitter_url.deep_view(),
            instagram_url: self.instagram_url.deep_view(),
            linkedin_url: self.linkedin_url.deep_view(),
            exchange_contacts: self.exchange_contacts,
            save_contact: self.save_contact,
            call_me: self.call_me,
            email_me: self.email_me,
            social_media: self.social_media,
        }
    }
}

impl UpdateProfileRequest {
    /// A payload with every field absent; merging it changes nothing.
    pub fn empty() -> (r: Self)
        ensures
            r@ == empty_patch(),
    {
        UpdateProfileRequest {
            email: None,
            name: None,
            bio: None,
            phone_number: None,
            location: None,
            profile_picture_url: None,
            theme: None,
            template: None,
            custom_url: None,
            job_title: None,
            facebook_url: None,
            twitter_url: None,
            instagram_url: None,
            linkedin_url: None,
            exchange_contacts: None,
            save_contact: None,
            call_me: None,
            email_me: None,
            social_media: None,
        }
    }
}

/// The image of a payload with every field absent.
pub open spec fn empty_patch() -> PatchView {
    PatchView {
        email: None,
        name: None,
        bio: None,
        phone_number: None,
        location: None,
        profile_picture_url: None,
        theme: None,
        template: None,
        custom_url: None,
        job_title: None,
        facebook_url: None,
        twitter_url: None,
        instagram_url: None,
        linkedin_url: None,
        exchange_contacts: None,
        save_contact: None,
        call_me: None,
        email_me: None,
        social_media: None,
    }
}

/// The payload for creating a user: the external identity token and the
/// initial email address.
pub struct CreateUserRequest {
    pub google_id: String,
    pub email: String,
}

/// The payload for updating a user: only the email is mutable.
pub struct UpdateUserRequest {
    pub email: String,
}

} // verus!
