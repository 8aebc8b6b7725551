use vstd::prelude::*;

verus! {

/// A registered user. `id` is the user's UUID as a 128-bit number, and the two
/// times are microseconds since the Unix epoch.
#[derive(Debug, Clone)]
pub struct User {
    pub id: u128,
    pub openid: String,
    pub unionid: Option<String>,
    pub phone: Option<String>,
    pub nickname: Option<String>,
    pub avatar_url: Option<String>,
    pub gender: i16,
    pub status: i16,
    pub created_at: i64,
    pub updated_at: i64,
}

impl User {
    /// A user whose status is 0 is disabled.
    pub open spec fn spec_is_disabled(self) -> bool {
        self.status == 0
    }

    pub fn is_disabled(&self) -> (r: bool)
        ensures
            r == self.spec_is_disabled(),
    {
        self.status == 0
    }
}

/// What a new user row is made from.
#[derive(Debug, Clone)]
pub struct CreateUser {
    pub openid: String,
    pub unionid: Option<String>,
}

/// A change to a user's profile: each field that is `Some` replaces the stored value.
#[derive(Debug, Clone)]
pub struct UpdateUser {
    pub nickname: Option<String>,
    pub avatar_url: Option<String>,
    pub gender: Option<i16>,
}

impl Default for UpdateUser {
    fn default() -> (r: Self)
        ensures
            r.nickname is None,
            r.avatar_url is None,
            r.gender is None,
    {
        UpdateUser { nickname: None, avatar_url: None, gender: None }
    }
}

/// A user as the profile answer shows it, with the creation time.
#[derive(Debug, Clone)]
pub struct UserResponse {
    pub id: u128,
    pub phone: Option<String>,
    pub nickname: Option<String>,
    pub avatar_url: Option<String>,
    pub gender: i16,
    pub status: i16,
    pub created_at: i64,
}

impl UserResponse {
    pub open spec fn spec_from_user(user: User) -> UserResponse {
        UserResponse {
            id: user.id,
            phone: user.phone,
            nickname: user.nickname,
            avatar_url: user.avatar_url,
            gender: user.gender,
            status: user.status,
            created_at: user.created_at,
        }
    }
}

impl From<User> for UserResponse {
    fn from(user: User) -> (r: Self)
        ensures
            r.id == user.id,
            r.phone == user.phone,
            r.nickname == user.nickname,
            r.avatar_url == user.avatar_url,
            r.gender == user.gender,
            r.status == user.status,
            r.created_at == user.created_at,
    {
        UserResponse {
            id: user.id,
            phone: user.phone,
            nickname: user.nickname,
            avatar_url: user.avatar_url,
            gender: user.gender,
            status: user.status,
            created_at: user.created_at,
        }
    }
}

impl vstd::std_specs::convert::FromSpecImpl<User> for UserResponse {
    open spec fn obeys_from_spec() -> bool {
        true
    }

    open spec fn from_spec(user: User) -> UserResponse {
        UserResponse::spec_from_user(user)
    }
}


/// The profile view of a user carries each public field and the creation time of
/// that user unchanged.
pub proof fn lemma_profile_shows_public_fields(user: User)
    ensures
        UserResponse::spec_from_user(user).id == user.id,
        UserResponse::spec_from_user(user).phone == user.phone,
        UserResponse::spec_from_user(user).nickname == user.nickname,
        UserResponse::spec_from_user(user).avatar_url == user.avatar_url,
        UserResponse::spec_from_user(user).gender == user.gender,
        UserResponse::spec_from_user(user).status == user.status,
        UserResponse::spec_from_user(user).created_at == user.created_at,
{
}

} // verus!
