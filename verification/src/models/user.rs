//! User models.

use vstd::prelude::*;

verus! {

#[derive(Clone, Copy, PartialEq, Eq, Structural, Debug)]
pub enum AuthProvider {
    Google,
    Apple,
}

#[derive(Debug)]
pub struct User {
    pub id: u64,
    pub email: String,
    pub name: Option<String>,
    pub avatar_url: Option<String>,
    pub provider: AuthProvider,
    pub provider_id: String,
    pub cloud_sync_enabled: bool,
    pub created_at: i64,
    pub updated_at: i64,
}

pub struct UserView {
    pub id: int,
    pub email: Seq<char>,
    pub name: Option<Seq<char>>,
    pub avatar_url: Option<Seq<char>>,
    pub provider: AuthProvider,
    pub provider_id: Seq<char>,
    pub cloud_sync_enabled: bool,
    pub created_at: int,
    pub updated_at: int,
}

impl View for User {
    type V = UserView;

    open spec fn view(&self) -> UserView {
        UserView {
            id: self.id as int,
            email: self.email@,
            name: self.name.deep_view(),
            avatar_url: self.avatar_url.deep_view(),
            provider: self.provider,
            provider_id: self.provider_id@,
            cloud_sync_enabled: self.cloud_sync_enabled,
            created_at: self.created_at as int,
            updated_at: self.updated_at as int,
        }
    }
}

impl DeepView for User {
    type V = UserView;

    open spec fn deep_view(&self) -> UserView {
        self.view()
    }
}

#[derive(Debug)]
pub struct UserProfile {
    pub id: u64,
    pub email: String,
    pub name: Option<String>,
    pub avatar_url: Option<String>,
    pub cloud_sync_enabled: bool,
}

impl vstd::std_specs::convert::FromSpecImpl<User> for UserProfile {
    open spec fn obeys_from_spec() -> bool {
        true
    }

    open spec fn from_spec(user: User) -> UserProfile {
        UserProfile {
            id: user.id,
            email: user.email,
            name: user.name,
            avatar_url: user.avatar_url,
            cloud_sync_enabled: user.cloud_sync_enabled,
        }
    }
}

impl From<User> for UserProfile {
    fn from(user: User) -> (r: UserProfile) {
        UserProfile {
            id: user.id,
            email: user.email,
            name: user.name,
            avatar_url: user.avatar_url,
            cloud_sync_enabled: user.cloud_sync_enabled,
        }
    }
}

#[derive(Debug)]
pub struct UpdateUserRequest {
    pub name: Option<String>,
    pub cloud_sync_enabled: Option<bool>,
}

/// JWT claims.
#[derive(Debug)]
pub struct Claims {
    pub sub: u64,
    pub email: String,
    pub exp: i64,
    pub iat: i64,
}

#[derive(Debug)]
pub struct AuthResponse {
    pub access_token: String,
    pub refresh_token: String,
    pub user: UserProfile,
}

#[derive(Debug)]
pub struct RefreshTokenRequest {
    pub refresh_token: String,
}

} // verus!
