use vstd::prelude::*;

use crate::response::{ErrorResponse, Status};

verus! {

/// What a verified bearer token says of its holder.
pub struct Claims {
    pub sub: u32,
    pub role: String,
    pub exp: u64,
}

/// The caller identity handed to every guarded operation.
#[derive(PartialEq, Eq, Structural, Clone, Copy, Debug)]
pub struct AuthenticatedUser {
    pub id: u32,
}

/// Why the request guard turned a request away.
#[derive(PartialEq, Eq, Structural, Clone, Copy, Debug)]
pub enum AuthError {
    /// No `token` header was presented.
    TokenAbsent,
    /// The token is malformed, or its signature does not check out.
    InvalidToken,
    /// The token's `exp` claim lies before the current time.
    Expired,
}

/// The outcome of the request guard, given whether a token was presented,
/// what decoding it yielded (`None` when it did not decode), and the time now
/// in seconds since the epoch.
pub open spec fn guard_outcome(token_present: bool, decoded: Option<Claims>, now: u64) -> Result<
    AuthenticatedUser,
    AuthError,
> {
    if !token_present {
        Err(AuthError::TokenAbsent)
    } else {
        match decoded {
            None => Err(AuthError::InvalidToken),
            Some(c) => if c.exp < now {
                Err(AuthError::Expired)
            } else {
                Ok(AuthenticatedUser { id: c.sub })
            },
        }
    }
}

/// The request guard: admits a caller only on a presented, decodable,
/// unexpired token, and then with the token's subject as identity.
pub fn authenticate(token_present: bool, decoded: Option<&Claims>, now: u64) -> (r: Result<
    AuthenticatedUser,
    AuthError,
>)
    ensures
        r == guard_outcome(
            token_present,
            match decoded {
                Some(c) => Some(*c),
                None => None,
            },
            now,
        ),
{
    if !token_present {
        return Err(AuthError::TokenAbsent);
    }
    match decoded {
        None => Err(AuthError::InvalidToken),
        Some(c) => if c.exp < now {
            Err(AuthError::Expired)
        } else {
            Ok(AuthenticatedUser { id: c.sub })
        },
    }
}

impl AuthError {
    /// The message shown to the caller.
    pub fn message(&self) -> (r: String)
        ensures
            *self == AuthError::TokenAbsent ==> r@ == "Token absent"@,
            *self == AuthError::InvalidToken ==> r@ == "Invalid token"@,
            *self == AuthError::Expired ==> r@ == "Token expired"@,
    {
        match self {
            AuthError::TokenAbsent => "Token absent".to_string(),
            AuthError::InvalidToken => "Invalid token".to_string(),
            AuthError::Expired => "Token expired".to_string(),
        }
    }

    /// Every rejection becomes one unauthorized response.
    pub fn to_response(&self) -> (r: ErrorResponse)
        ensures
            r.status == Status::Unauthorized,
            r.message@ == (match *self {
                AuthError::TokenAbsent => "Token absent"@,
                AuthError::InvalidToken => "Invalid token"@,
                AuthError::Expired => "Token expired"@,
            }),
    {
        ErrorResponse { status: Status::Unauthorized, message: self.message() }
    }
}

} // verus!
