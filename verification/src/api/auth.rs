//! Who may pass: reading the bearer token of a request and refusing requests.

use vstd::prelude::*;
use crate::api::reply::UNAUTHORIZED;
use crate::domain::legacy::{Claims, Role};

verus! {

/// A token that the token service could not read.
#[derive(Debug, Clone, Copy, PartialEq, Eq, Structural)]
pub struct ExtractClaimsException;

/// Why a request was refused.
#[derive(Debug, Clone, Copy, PartialEq, Eq, Structural)]
pub enum AuthException {
    NoRights,
    MissingHeader,
    UnsupportedScheme,
    FailedToExtractJwtClaims(ExtractClaimsException),
}

/// The scheme that the authorization header must start with, with its space.
pub open spec fn bearer_prefix() -> Seq<char> {
    "Bearer "@
}

/// The token that an authorization header carries: what follows `Bearer `.
/// A missing header and one of another scheme are refused.
pub fn bearer_token(header: Option<&str>) -> (token: Result<String, AuthException>)
    ensures
        header is None ==> token == Err::<String, AuthException>(AuthException::MissingHeader),
        header matches Some(h) ==> {
            if h@.len() >= 7 && h@.take(7) == bearer_prefix() {
                (token matches Ok(t) && t@ == h@.skip(7))
            } else {
                token == Err::<String, AuthException>(AuthException::UnsupportedScheme)
            }
        },
{
    proof { reveal_strlit("Bearer "); }
    match header {
        None => Err(AuthException::MissingHeader),
        Some(h) => {
            let len = h.unicode_len();
            if len < 7 {
                return Err(AuthException::UnsupportedScheme);
            }
            let prefix = h.substring_char(0, 7);
            let expected = String::from_str("Bearer ");
            let prefix = String::from_str(prefix);
            if prefix == expected {
                let rest = h.substring_char(7, len);
                assert(h@.skip(7) =~= h@.subrange(7, len as int));
                Ok(String::from_str(rest))
            } else {
                assert(h@.take(7) =~= h@.subrange(0, 7));
                Err(AuthException::UnsupportedScheme)
            }
        },
    }
}

/// Which roles may use a route; each route's guard implements it.
pub trait RoleChecker {
    /// Whether `role` may use the route.
    spec fn allows(role: Role) -> bool;

    fn can_access(role: Role) -> (ok: bool)
        ensures
            ok == Self::allows(role),
    ;
}

/// The end of reading a request's claims, once the token service has read the
/// bearer token: its refusal is the request's refusal; claims whose role the
/// route `C` does not allow are refused for lack of rights; other claims pass.
/// Before this step, `bearer_token` decides what the token service is handed.
pub fn finish_claims_extraction<C: RoleChecker>(
    extracted: Result<Claims, ExtractClaimsException>,
) -> (res: Result<Claims, AuthException>)
    ensures
        match extracted {
            Err(ex) => res == Err::<Claims, AuthException>(AuthException::FailedToExtractJwtClaims(ex)),
            Ok(claims) => if C::allows(claims.role) {
                res == Ok::<Claims, AuthException>(claims)
            } else {
                res == Err::<Claims, AuthException>(AuthException::NoRights)
            },
        },
{
    match extracted {
        Err(ex) => Err(AuthException::FailedToExtractJwtClaims(ex)),
        Ok(claims) => {
            let can_access = C::can_access(claims.role);
            authorize(claims, can_access)
        },
    }
}

/// Lets the bearer of `claims` through when its role may access the route.
pub fn authorize(claims: Claims, can_access: bool) -> (res: Result<Claims, AuthException>)
    ensures
        can_access ==> res == Ok::<Claims, AuthException>(claims),
        !can_access ==> res == Err::<Claims, AuthException>(AuthException::NoRights),
{
    if can_access {
        Ok(claims)
    } else {
        Err(AuthException::NoRights)
    }
}

pub open spec fn auth_exception_message(e: AuthException) -> Option<Seq<char>> {
    match e {
        AuthException::NoRights => Some("no rights"@),
        AuthException::MissingHeader => Some("missing authorization header"@),
        AuthException::UnsupportedScheme => Some("unsupported scheme"@),
        AuthException::FailedToExtractJwtClaims(_) => None,
    }
}

impl AuthException {
    /// The text of the refusal; a token the service could not read is
    /// described by the token service, so it has none here.
    pub fn message(&self) -> (text: Option<&'static str>)
        ensures
            text matches Some(t) ==> auth_exception_message(*self) == Some(t@),
            text is None <==> auth_exception_message(*self) is None,
    {
        match self {
            AuthException::NoRights => {
                proof { reveal_strlit("no rights"); }
                Some("no rights")
            },
            AuthException::MissingHeader => {
                proof { reveal_strlit("missing authorization header"); }
                Some("missing authorization header")
            },
            AuthException::UnsupportedScheme => {
                proof { reveal_strlit("unsupported scheme"); }
                Some("unsupported scheme")
            },
            AuthException::FailedToExtractJwtClaims(_) => None,
        }
    }

    /// The status of the answer to a refused request: always 401.
    pub fn status(&self) -> (code: u16)
        ensures
            code == UNAUTHORIZED,
    {
        UNAUTHORIZED
    }

    /// The `WWW-Authenticate` challenge of the answer: `Bearer` where the
    /// header was missing, none otherwise.
    pub fn challenge(&self) -> (scheme: Option<&'static str>)
        ensures
            *self == AuthException::MissingHeader ==> (scheme matches Some(s) && s@ == "Bearer"@),
            *self != AuthException::MissingHeader ==> scheme is None,
    {
        match self {
            AuthException::MissingHeader => {
                proof { reveal_strlit("Bearer"); }
                Some("Bearer")
            },
            _ => None,
        }
    }
}

} // verus!
