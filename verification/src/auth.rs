//! The token service: issuing and validating signed session tokens.
//!
//! A token is `payload.signature`.  The payload carries the expiry and
//! the two claim strings in a fixed, separator-free layout: sixteen
//! hexadecimal characters for the expiry, sixteen for the length of the
//! subject, sixteen for the length of the role, then the subject and the
//! role themselves.  The signature is the HMAC-SHA256 of the payload
//! under the service's secret, computed and checked by `jsonwebtoken`.
//! The layout makes the payload self-delimiting, so validation recovers
//! exactly the claims that issuance wrote down.

use vstd::prelude::*;
use vstd::string::*;
use crate::clock::now_seconds;
use crate::hexcode::{
    hex16_encode, hex16_parse, hex_seq_of, hex_seq_val, is_hex_seq, lemma_hex16_roundtrip,
    lemma_hex_seq_of_props, lemma_hex_seq_val_bound, lemma_pow16_16,
};

verus! {

/// Seconds a freshly issued token stays valid: twenty-four hours.
pub const TOKEN_LIFETIME_SECONDS: i64 = 86400;

/// Identity attached to a request after its token was validated.
#[derive(Debug, Clone)]
pub struct Claims {
    pub sub: String,
    pub exp: i64,
    pub role: String,
}

/// Mathematical image of a `Claims`.
pub ghost struct ClaimsV {
    pub sub: Seq<char>,
    pub exp: i64,
    pub role: Seq<char>,
}

impl View for Claims {
    type V = ClaimsV;

    open spec fn view(&self) -> ClaimsV {
        ClaimsV { sub: self.sub@, exp: self.exp, role: self.role@ }
    }
}

/// Body of a login request.
#[derive(Debug, Clone)]
pub struct LoginRequest {
    pub username: String,
    pub password: String,
}

/// Body of a successful login response.
#[derive(Debug, Clone)]
pub struct LoginResponse {
    pub token: String,
}

/// Everything that can go wrong around authentication.  All token
/// defects surface as `InvalidToken`, so a caller cannot tell which
/// check failed.
#[derive(Debug, Clone, Copy, PartialEq, Eq, Structural)]
pub enum AuthenticationError {
    InvalidToken,
    TokenExpired,
    MissingToken,
    InvalidCredentials,
}

/// What `jsonwebtoken::crypto::sign` returns for a message and a
/// secret under HS256: the base64url rendering of the HMAC-SHA256 mac.
/// A function of its arguments alone.
pub uninterp spec fn hs256_sig_of(message: Seq<char>, secret: Seq<u8>) -> Seq<char>;

/// What `jsonwebtoken::crypto::verify` returns for a signature, a
/// message and a secret under HS256.  A function of its arguments
/// alone: the signature is base64url-decoded and compared against a
/// freshly computed mac of the message.
pub uninterp spec fn hs256_verifies(signature: Seq<char>, message: Seq<char>, secret: Seq<u8>) -> bool;

/// Relies on `jsonwebtoken::crypto::sign` with `Algorithm::HS256` and a
/// key from `EncodingKey::from_secret`: the result is a function of
/// message and secret alone, a signature that `crypto::verify` accepts
/// for the same message and secret, and the call cannot fail for an
/// HMAC key.
#[verifier::external_body]
fn sign_hs256(message: &str, secret: &Vec<u8>) -> (sig: String)
    ensures
        sig@ == hs256_sig_of(message@, secret@),
        hs256_verifies(sig@, message@, secret@),
{
    let key = jsonwebtoken::EncodingKey::from_secret(secret);
    jsonwebtoken::crypto::sign(message.as_bytes(), &key, jsonwebtoken::Algorithm::HS256).unwrap()
}

/// Relies on `jsonwebtoken::crypto::verify` with `Algorithm::HS256` and
/// a key from `DecodingKey::from_secret`: the outcome is a function of
/// signature, message and secret alone; a signature that fails to
/// base64url-decode counts as a mismatch.
#[verifier::external_body]
fn verify_hs256(signature: &str, message: &str, secret: &Vec<u8>) -> (r: bool)
    ensures
        r == hs256_verifies(signature@, message@, secret@),
{
    let key = jsonwebtoken::DecodingKey::from_secret(secret);
    jsonwebtoken::crypto::verify(signature, message.as_bytes(), &key, jsonwebtoken::Algorithm::HS256)
        .unwrap_or(false)
}

/// The self-delimiting claims payload of a token.
pub open spec fn payload_of(sub: Seq<char>, exp: i64, role: Seq<char>) -> Seq<char> {
    hex_seq_of(exp as u64, 16) + hex_seq_of(sub.len() as u64, 16) + hex_seq_of(
        role.len() as u64,
        16,
    ) + sub + role
}

/// The token issued for the given claims under the given secret.
pub open spec fn spec_token_of(sub: Seq<char>, exp: i64, role: Seq<char>, secret: Seq<u8>) -> Seq<
    char,
> {
    payload_of(sub, exp, role) + seq!['.'] + hs256_sig_of(payload_of(sub, exp, role), secret)
}

/// Takes a token string apart: the claims, and the signature that
/// follows the dot closing the payload.  The payload describes its own
/// length, so the split needs no assumption about the signature's
/// alphabet.
pub open spec fn parse_token(t: Seq<char>) -> Option<(ClaimsV, Seq<char>)> {
    if t.len() < 48 {
        None
    } else {
        let ehex = t.subrange(0, 16);
        let shex = t.subrange(16, 32);
        let rhex = t.subrange(32, 48);
        if is_hex_seq(ehex) && is_hex_seq(shex) && is_hex_seq(rhex) {
            let exp = hex_seq_val(ehex) as u64 as i64;
            let sl = hex_seq_val(shex);
            let rl = hex_seq_val(rhex);
            if 48 + sl + rl < t.len() && t[48 + sl + rl] == '.' {
                Some(
                    (
                        ClaimsV {
                            sub: t.subrange(48, 48 + sl),
                            exp,
                            role: t.subrange(48 + sl, 48 + sl + rl),
                        },
                        t.subrange(49 + sl + rl, t.len() as int),
                    ),
                )
            } else {
                None
            }
        } else {
            None
        }
    }
}

/// What validation returns for a token, a secret and a moment in time:
/// the claims if the token parses, its signature checks out, and it has
/// not expired; `InvalidToken` otherwise.
pub open spec fn validate_spec(t: Seq<char>, secret: Seq<u8>, now: i64) -> Result<
    ClaimsV,
    AuthenticationError,
> {
    match parse_token(t) {
        Some((claims, sig)) => {
            if !hs256_verifies(sig, t.subrange(0, 48 + claims.sub.len() + claims.role.len() as int), secret) {
                Err(AuthenticationError::InvalidToken)
            } else if claims.exp < now {
                Err(AuthenticationError::InvalidToken)
            } else {
                Ok(claims)
            }
        },
        None => Err(AuthenticationError::InvalidToken),
    }
}

/// Parsing recovers exactly what the payload layout wrote down,
/// whatever string stands after the closing dot.
pub proof fn lemma_parse_token_of(sub: Seq<char>, exp: i64, role: Seq<char>, sig: Seq<char>)
    requires
        sub.len() < 0x1_0000_0000_0000_0000,
        role.len() < 0x1_0000_0000_0000_0000,
    ensures
        parse_token(payload_of(sub, exp, role) + seq!['.'] + sig) == Some(
            (ClaimsV { sub, exp, role }, sig),
        ),
        (payload_of(sub, exp, role) + seq!['.'] + sig).subrange(
            0,
            48 + sub.len() + role.len() as int,
        ) == payload_of(sub, exp, role),
{
    let p = payload_of(sub, exp, role);
    let t = p + seq!['.'] + sig;
    let ev = exp as u64;
    let sv = sub.len() as u64;
    let rv = role.len() as u64;
    lemma_hex_seq_of_props(ev, 16);
    lemma_hex_seq_of_props(sv, 16);
    lemma_hex_seq_of_props(rv, 16);
    assert(p.len() == 48 + sub.len() + role.len());
    assert(t.subrange(0, 16) =~= hex_seq_of(ev, 16));
    assert(t.subrange(16, 32) =~= hex_seq_of(sv, 16));
    assert(t.subrange(32, 48) =~= hex_seq_of(rv, 16));
    lemma_hex16_roundtrip(ev);
    lemma_hex16_roundtrip(sv);
    lemma_hex16_roundtrip(rv);
    assert((exp as u64) as i64 == exp) by (bit_vector);
    assert(sv == sub.len());
    assert(rv == role.len());
    assert(t[48 + sub.len() + role.len() as int] == '.');
    assert(t.subrange(48, 48 + sub.len() as int) =~= sub);
    assert(t.subrange(48 + sub.len() as int, 48 + sub.len() + role.len() as int) =~= role);
    assert(t.subrange(49 + sub.len() + role.len() as int, t.len() as int) =~= sig);
    assert(t.subrange(0, 48 + sub.len() + role.len() as int) =~= p);
}

/// Issues and validates signed session tokens under one shared secret.
#[derive(Clone)]
pub struct AuthenticationService {
    secret: Vec<u8>,
}

impl AuthenticationService {
    /// The signing secret this service was built over.
    pub closed spec fn spec_secret(&self) -> Seq<u8> {
        self.secret@
    }

    /// Builds the service over the given signing secret.
    pub fn new(secret: Vec<u8>) -> (s: Self)
        ensures
            s.spec_secret() == secret@,
    {
        AuthenticationService { secret }
    }

    /// Issues the token for `(user_id, role)` as of the moment `now`,
    /// expiring one lifetime later.  The token validates back to
    /// exactly these claims until its expiry, and to nothing after.
    pub fn create_token_at(&self, user_id: String, role: String, now: i64) -> (r: Result<
        String,
        AuthenticationError,
    >)
        requires
            now + TOKEN_LIFETIME_SECONDS <= i64::MAX,
        ensures
            r matches Ok(t) && t@ == spec_token_of(
                user_id@,
                (now + TOKEN_LIFETIME_SECONDS) as i64,
                role@,
                self.spec_secret(),
            ),
            r matches Ok(t) ==> forall|at: i64|
                validate_spec(t@, self.spec_secret(), at) == (if at <= now
                    + TOKEN_LIFETIME_SECONDS {
                    Ok::<ClaimsV, AuthenticationError>(
                        ClaimsV { sub: user_id@, exp: (now + TOKEN_LIFETIME_SECONDS) as i64, role: role@ },
                    )
                } else {
                    Err::<ClaimsV, AuthenticationError>(AuthenticationError::InvalidToken)
                }),
    {
        let exp: i64 = now + TOKEN_LIFETIME_SECONDS;
        let sub_len = user_id.as_str().unicode_len();
        let role_len = role.as_str().unicode_len();
        let mut payload = hex16_encode(#[verifier::truncate] (exp as u64));
        let shex = hex16_encode(sub_len as u64);
        let rhex = hex16_encode(role_len as u64);
        payload.append(shex.as_str());
        payload.append(rhex.as_str());
        payload.append(user_id.as_str());
        payload.append(role.as_str());
        proof {
            assert(payload@ =~= payload_of(user_id@, exp, role@));
        }
        let sig = sign_hs256(payload.as_str(), &self.secret);
        let mut token = payload;
        token.append(".");
        token.append(sig.as_str());
        proof {
            reveal_strlit(".");
            assert("."@ =~= seq!['.']);
            assert(token@ =~= spec_token_of(user_id@, exp, role@, self.spec_secret()));
            lemma_parse_token_of(user_id@, exp, role@, sig@);
            assert forall|at: i64|
                validate_spec(token@, self.spec_secret(), at) == (if at <= now
                    + TOKEN_LIFETIME_SECONDS {
                    Ok::<ClaimsV, AuthenticationError>(
                        ClaimsV { sub: user_id@, exp, role: role@ },
                    )
                } else {
                    Err::<ClaimsV, AuthenticationError>(AuthenticationError::InvalidToken)
                }) by {
                assert(parse_token(token@) == Some((ClaimsV { sub: user_id@, exp, role: role@ }, sig@)));
                assert(token@.subrange(0, 48 + user_id@.len() + role@.len() as int) == payload@);
            }
        }
        Ok(token)
    }

    /// Issues a token for `(user_id, role)` as of the current time.  If
    /// the clock stands so close to the end of the representable range
    /// that no expiry exists, the issue fails like a bad token would.
    pub fn create_token(&self, user_id: String, role: String) -> (r: Result<
        String,
        AuthenticationError,
    >)
        ensures
            r matches Ok(t) ==> exists|exp: i64|
                t@ == spec_token_of(user_id@, exp, role@, self.spec_secret()),
            r matches Err(e) ==> e == AuthenticationError::InvalidToken,
    {
        let now = now_seconds();
        if now > i64::MAX - TOKEN_LIFETIME_SECONDS {
            return Err(AuthenticationError::InvalidToken);
        }
        let ghost exp: i64 = (now + TOKEN_LIFETIME_SECONDS) as i64;
        let r = self.create_token_at(user_id, role, now);
        proof {
            if r is Ok {
                assert(r->Ok_0@ == spec_token_of(user_id@, exp, role@, self.spec_secret()));
            }
        }
        r
    }

    /// Validates `token` as of the moment `now`: returns exactly what
    /// `validate_spec` says.
    pub fn validate_token_at(&self, token: &str, now: i64) -> (r: Result<
        Claims,
        AuthenticationError,
    >)
        ensures
            r matches Ok(c) ==> validate_spec(token@, self.spec_secret(), now) == Ok::<
                ClaimsV,
                AuthenticationError,
            >(c@),
            r matches Err(e) ==> validate_spec(token@, self.spec_secret(), now) == Err::<
                ClaimsV,
                AuthenticationError,
            >(e),
    {
        let n = token.unicode_len();
        if n < 48 {
            return Err(AuthenticationError::InvalidToken);
        }
        let exp_hex = hex16_parse(token, 0);
        let sub_hex = hex16_parse(token, 16);
        let role_hex = hex16_parse(token, 32);
        let (exp_u, sl, rl) = match (exp_hex, sub_hex, role_hex) {
            (Some(e), Some(s), Some(r)) => (e, s, r),
            _ => {
                return Err(AuthenticationError::InvalidToken);
            },
        };
        proof {
            lemma_hex_seq_val_bound(token@.subrange(16, 32));
            lemma_hex_seq_val_bound(token@.subrange(32, 48));
            lemma_pow16_16();
        }
        let p64 = match 48u64.checked_add(sl) {
            Some(v) => match v.checked_add(rl) {
                Some(w) => w,
                None => {
                    return Err(AuthenticationError::InvalidToken);
                },
            },
            None => {
                return Err(AuthenticationError::InvalidToken);
            },
        };
        if p64 >= n as u64 {
            return Err(AuthenticationError::InvalidToken);
        }
        let p = p64 as usize;
        if token.get_char(p) != '.' {
            return Err(AuthenticationError::InvalidToken);
        }
        let message = token.substring_char(0, p);
        let signature = token.substring_char(p + 1, n);
        if !verify_hs256(signature, message, &self.secret) {
            proof {
                assert(token@.subrange(0, p as int) == message@);
            }
            return Err(AuthenticationError::InvalidToken);
        }
        let exp = #[verifier::truncate] (exp_u as i64);
        if exp < now {
            return Err(AuthenticationError::InvalidToken);
        }
        let sub_str = token.substring_char(48, 48 + sl as usize);
        let role_str = token.substring_char(48 + sl as usize, p);
        let claims = Claims {
            sub: String::from_str(sub_str),
            exp,
            role: String::from_str(role_str),
        };
        proof {
            assert(token@.subrange(0, p as int) == message@);
        }
        Ok(claims)
    }

    /// Validates `token` against the current time.
    pub fn validate_token(&self, token: &str) -> (r: Result<Claims, AuthenticationError>)
        ensures
            r matches Ok(c) ==> exists|at: i64|
                validate_spec(token@, self.spec_secret(), at) == Ok::<
                    ClaimsV,
                    AuthenticationError,
                >(c@),
            parse_token(token@) is None ==> r is Err,
    {
        let now = now_seconds();
        let r = self.validate_token_at(token, now);
        proof {
            if r is Ok {
                assert(validate_spec(token@, self.spec_secret(), now) == Ok::<
                    ClaimsV,
                    AuthenticationError,
                >(r->Ok_0@));
            }
        }
        r
    }
}

/// The fixed identity the demonstration login accepts.
pub open spec fn login_accepts(username: Seq<char>, password: Seq<char>) -> bool {
    username == "admin"@ && password == "password"@
}

/// Checks the login credentials and issues a token for the fixed demo
/// identity.  Wrong credentials are rejected before any token work.
pub fn login(service: &AuthenticationService, request: &LoginRequest) -> (r: Result<
    LoginResponse,
    AuthenticationError,
>)
    ensures
        !login_accepts(request.username@, request.password@) ==> r == Err::<
            LoginResponse,
            AuthenticationError,
        >(AuthenticationError::InvalidCredentials),
        r matches Ok(resp) ==> login_accepts(request.username@, request.password@) && exists|
            exp: i64,
        | resp.token@ == spec_token_of("user123"@, exp, "admin"@, service.spec_secret()),
        login_accepts(request.username@, request.password@) ==> (r matches Err(e) ==> e
            == AuthenticationError::InvalidToken),
{
    let user_ok = request.username == String::from_str("admin");
    let pass_ok = request.password == String::from_str("password");
    if user_ok && pass_ok {
        match service.create_token(String::from_str("user123"), String::from_str("admin")) {
            Ok(token) => Ok(LoginResponse { token }),
            Err(e) => Err(e),
        }
    } else {
        Err(AuthenticationError::InvalidCredentials)
    }
}

} // verus!
