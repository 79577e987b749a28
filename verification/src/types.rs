use vstd::prelude::*;

verus! {

/// The 1:1 extension row of a user; every field but the keys is optional.
pub struct UserProfile {
    pub id: u128,
    pub user_id: u128,
    pub phone_number: Option<String>,
    pub birth_date: Option<String>,
    pub github_link: Option<String>,
}

/// A stored account row: identity, hashed credential, flags, and its
/// 1:1 profile, created together with it.
pub struct User {
    pub id: u128,
    pub email: String,
    pub password: String,
    pub first_name: String,
    pub last_name: String,
    pub is_active: bool,
    pub is_staff: bool,
    pub is_superuser: bool,
    pub thumbnail: Option<String>,
    pub date_joined: u64,
    pub profile: UserProfile,
}

/// The sanitized view of a user handed back to callers: everything the
/// row holds except the password hash.
pub struct UserVisible {
    pub id: u128,
    pub email: String,
    pub first_name: String,
    pub last_name: String,
    pub is_active: bool,
    pub is_staff: bool,
    pub is_superuser: bool,
    pub thumbnail: Option<String>,
    pub date_joined: u64,
    pub profile: UserProfile,
}

/// A registration request, with the password still in plaintext.
pub struct NewUser {
    pub email: String,
    pub password: String,
    pub first_name: String,
    pub last_name: String,
}

/// A registration record ready for insertion: the password is hashed.
pub struct CreateNewUser {
    pub email: String,
    pub password: String,
    pub first_name: String,
    pub last_name: String,
}

/// A login request.
pub struct LoginUser {
    pub email: String,
    pub password: String,
}

/// A password-reset request.
pub struct UserEmail {
    pub email: String,
}

/// The sanitized view of a row: the same fields without the hash.
pub open spec fn visible_of(u: User) -> UserVisible {
    UserVisible {
        id: u.id,
        email: u.email,
        first_name: u.first_name,
        last_name: u.last_name,
        is_active: u.is_active,
        is_staff: u.is_staff,
        is_superuser: u.is_superuser,
        thumbnail: u.thumbnail,
        date_joined: u.date_joined,
        profile: u.profile,
    }
}

/// Clones an optional string, keeping its value.
pub fn clone_opt_string(o: &Option<String>) -> (r: Option<String>)
    ensures
        r == *o,
{
    match o {
        Option::Some(s) => Option::Some(s.clone()),
        Option::None => Option::None,
    }
}

/// Clones a profile row, keeping its value.
pub fn clone_profile(p: &UserProfile) -> (r: UserProfile)
    ensures
        r == *p,
{
    UserProfile {
        id: p.id,
        user_id: p.user_id,
        phone_number: clone_opt_string(&p.phone_number),
        birth_date: clone_opt_string(&p.birth_date),
        github_link: clone_opt_string(&p.github_link),
    }
}

/// Builds the sanitized view of a row, cloning its fields.
pub fn visible_view_of(u: &User) -> (r: UserVisible)
    ensures
        r == visible_of(*u),
{
    UserVisible {
        id: u.id,
        email: u.email.clone(),
        first_name: u.first_name.clone(),
        last_name: u.last_name.clone(),
        is_active: u.is_active,
        is_staff: u.is_staff,
        is_superuser: u.is_superuser,
        thumbnail: clone_opt_string(&u.thumbnail),
        date_joined: u.date_joined,
        profile: clone_profile(&u.profile),
    }
}

} // verus!
