//! The auth gate in front of the command and query handlers.
//!
//! It reads the `Authorization` header, insists on the bearer scheme,
//! validates the token, and hands the claims on.  A request with no
//! header, the wrong scheme, or a bad token never reaches a handler.

use vstd::prelude::*;
use vstd::string::*;
use crate::auth::{
    validate_spec, AuthenticationError, AuthenticationService, Claims, ClaimsV,
};
use crate::clock::now_seconds;

verus! {

/// The scheme prefix an `Authorization` header must carry.
pub open spec fn bearer_prefix() -> Seq<char> {
    "Bearer "@
}

/// Whether the header value names the bearer scheme.
pub open spec fn has_bearer_scheme(h: Seq<char>) -> bool {
    h.len() >= 7 && h.subrange(0, 7) == bearer_prefix()
}

/// The token part of a bearer header value.
pub open spec fn bearer_token_of(h: Seq<char>) -> Seq<char> {
    h.subrange(7, h.len() as int)
}

/// The identity a request carries once it is authorized.
#[derive(Debug)]
pub struct AuthenticatedUser(pub Claims);

/// The middleware state standing in front of the protected routes.
#[derive(Clone)]
pub struct AuthMiddleware {
    auth_service: AuthenticationService,
}

impl AuthMiddleware {
    /// The signing secret the wrapped token service uses.
    pub closed spec fn spec_secret(&self) -> Seq<u8> {
        self.auth_service.spec_secret()
    }

    /// Builds the middleware over the given token service.
    pub fn new(auth_service: AuthenticationService) -> (m: Self)
        ensures
            m.spec_secret() == auth_service.spec_secret(),
    {
        AuthMiddleware { auth_service }
    }

    /// Lets a request through exactly when its bearer token validates
    /// against the current time.
    pub fn authorize(&self, auth_header: Option<&String>) -> (r: Result<
        AuthenticatedUser,
        AuthenticationError,
    >)
        ensures
            auth_header is None ==> (r matches Err(e) && e
                == AuthenticationError::MissingToken),
            r matches Ok(user) ==> (auth_header matches Some(h) && has_bearer_scheme(h@)
                && exists|at: i64|
                validate_spec(bearer_token_of(h@), self.spec_secret(), at) == Ok::<
                    ClaimsV,
                    AuthenticationError,
                >(user.0@)),
    {
        let r = authorize(&self.auth_service, auth_header);
        proof {
            if let Ok(user) = &r {
                if let Some(h) = auth_header {
                    let at = choose|at: i64|
                        validate_spec(bearer_token_of(h@), self.auth_service.spec_secret(), at)
                            == Ok::<ClaimsV, AuthenticationError>(user.0@);
                    assert(validate_spec(bearer_token_of(h@), self.spec_secret(), at) == Ok::<
                        ClaimsV,
                        AuthenticationError,
                    >(user.0@));
                }
            }
        }
        r
    }
}

/// Picks the token out of an `Authorization` header value: the header
/// must exist and name the bearer scheme.
pub fn extract_bearer<'a>(auth_header: Option<&'a String>) -> (r: Result<
    &'a str,
    AuthenticationError,
>)
    ensures
        auth_header is None ==> r == Err::<&'a str, AuthenticationError>(
            AuthenticationError::MissingToken,
        ),
        auth_header matches Some(h) && !has_bearer_scheme(h@) ==> r == Err::<
            &'a str,
            AuthenticationError,
        >(AuthenticationError::InvalidToken),
        auth_header matches Some(h) ==> (has_bearer_scheme(h@) ==> (r matches Ok(t) && t@
            == bearer_token_of(h@))),
{
    let h = match auth_header {
        None => {
            return Err(AuthenticationError::MissingToken);
        },
        Some(h) => h,
    };
    let s = h.as_str();
    let n = s.unicode_len();
    proof {
        reveal_strlit("Bearer ");
    }
    if n < 7 {
        return Err(AuthenticationError::InvalidToken);
    }
    if s.get_char(0) == 'B' && s.get_char(1) == 'e' && s.get_char(2) == 'a' && s.get_char(3)
        == 'r' && s.get_char(4) == 'e' && s.get_char(5) == 'r' && s.get_char(6) == ' ' {
        proof {
            assert(s@.subrange(0, 7) =~= bearer_prefix());
        }
        Ok(s.substring_char(7, n))
    } else {
        proof {
            if has_bearer_scheme(h@) {
                assert(s@.subrange(0, 7)[0] == 'B');
                assert(s@.subrange(0, 7)[1] == 'e');
                assert(s@.subrange(0, 7)[2] == 'a');
                assert(s@.subrange(0, 7)[3] == 'r');
                assert(s@.subrange(0, 7)[4] == 'e');
                assert(s@.subrange(0, 7)[5] == 'r');
                assert(s@.subrange(0, 7)[6] == ' ');
            }
        }
        Err(AuthenticationError::InvalidToken)
    }
}

/// Lets a request through exactly when its header carries a bearer
/// token that validates at the moment `now`.
pub fn authorize_at(
    service: &AuthenticationService,
    auth_header: Option<&String>,
    now: i64,
) -> (r: Result<Claims, AuthenticationError>)
    ensures
        auth_header is None ==> r == Err::<Claims, AuthenticationError>(
            AuthenticationError::MissingToken,
        ),
        auth_header matches Some(h) && !has_bearer_scheme(h@) ==> r == Err::<
            Claims,
            AuthenticationError,
        >(AuthenticationError::InvalidToken),
        auth_header matches Some(h) ==> (has_bearer_scheme(h@) ==> ((r matches Ok(c)
            ==> validate_spec(bearer_token_of(h@), service.spec_secret(), now) == Ok::<
            ClaimsV,
            AuthenticationError,
        >(c@)) && (r matches Err(e) ==> validate_spec(
            bearer_token_of(h@),
            service.spec_secret(),
            now,
        ) == Err::<ClaimsV, AuthenticationError>(e)))),
{
    let token = match extract_bearer(auth_header) {
        Ok(t) => t,
        Err(e) => {
            return Err(e);
        },
    };
    service.validate_token_at(token, now)
}

/// Lets a request through exactly when its bearer token validates
/// against the current time.
pub fn authorize(service: &AuthenticationService, auth_header: Option<&String>) -> (r: Result<
    AuthenticatedUser,
    AuthenticationError,
>)
    ensures
        auth_header is None ==> (r matches Err(e) && e == AuthenticationError::MissingToken),
        r matches Ok(user) ==> (auth_header matches Some(h) && has_bearer_scheme(h@) && exists|
            at: i64,
        |
            validate_spec(bearer_token_of(h@), service.spec_secret(), at) == Ok::<
                ClaimsV,
                AuthenticationError,
            >(user.0@)),
{
    let now = now_seconds();
    match authorize_at(service, auth_header, now) {
        Ok(claims) => {
            proof {
                if let Some(h) = auth_header {
                    assert(validate_spec(bearer_token_of(h@), service.spec_secret(), now)
                        == Ok::<ClaimsV, AuthenticationError>(claims@));
                }
            }
            Ok(AuthenticatedUser(claims))
        },
        Err(e) => Err(e),
    }
}

} // verus!
