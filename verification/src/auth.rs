//! Bearer-token handling.
//!
//! Token issuance and validation are external collaborators; what belongs
//! to the library is the one piece of pure logic: reading the token out
//! of an `Authorization` header.

use crate::error::{ApiError, ApiErrorView};
use vstd::prelude::*;
use vstd::string::{StrSliceExecFns, StringExecFns};

verus! {

/// Client-side configuration for Sign in with Apple. The handshake
/// itself is an external collaborator; these are its wire shapes.
#[derive(Debug)]
pub struct AppleOAuthConfig {
    pub client_id: String,
    pub team_id: String,
    pub key_id: String,
    pub private_key: String,
    pub redirect_uri: String,
}

#[derive(Debug)]
pub struct OAuthCallbackQuery {
    pub code: String,
    pub state: Option<String>,
}

#[derive(Debug)]
pub struct AppleCallbackBody {
    pub code: String,
    pub id_token: Option<String>,
    pub user: Option<String>,
}

#[derive(Debug)]
pub struct AppleAuthConfig {
    pub client_id: String,
    pub redirect_uri: String,
}

/// The token carried by a `Bearer` authorization header, if the header
/// has that shape.
pub open spec fn spec_bearer_token(header: Seq<char>) -> Option<Seq<char>> {
    if header.len() >= 7 && header.subrange(0, 7) == "Bearer "@ {
        Some(header.skip(7))
    } else {
        None
    }
}

/// Read the token out of an `Authorization` header. A header that does
/// not start with `Bearer ` is rejected as `Unauthorized`.
pub fn extract_bearer_token(header: &str) -> (r: Result<String, ApiError>)
    ensures
        match r {
            Ok(t) => spec_bearer_token(header@) == Some(t@),
            Err(e) => spec_bearer_token(header@) is None && e@ == ApiErrorView::Unauthorized,
        },
{
    proof {
        reveal_strlit("Bearer ");
    }
    let n = header.unicode_len();
    if n < 7 {
        return Err(ApiError::Unauthorized);
    }
    let prefix = "Bearer ";
    let mut i: usize = 0;
    while i < 7
        invariant
            i <= 7,
            n == header@.len(),
            n >= 7,
            prefix@ == "Bearer "@,
            prefix@.len() == 7,
            forall|j: int| 0 <= j < i ==> header@[j] == "Bearer "@[j],
        decreases 7 - i,
    {
        if header.get_char(i) != prefix.get_char(i) {
            proof {
                assert(header@.subrange(0, 7)[i as int] != "Bearer "@[i as int]);
            }
            return Err(ApiError::Unauthorized);
        }
        i = i + 1;
    }
    let token = header.substring_char(7, n);
    proof {
        assert(header@.subrange(0, 7) =~= "Bearer "@);
        assert(token@ =~= header@.skip(7));
    }
    Ok(token.to_owned())
}

} // verus!
