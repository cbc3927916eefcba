//! The claims as they are written into an access token.

use vstd::prelude::*;
use crate::domain::legacy::{Claims, Role, Seconds, SecondsFromUnixEpoch, SerialId};

verus! {

/// The role name of an administrator inside a token.
pub const ADMIN_ROLE_IDENT: &'static str = "ADMIN";

/// The claims of an access token, with the role as text.
#[derive(Debug, Clone, PartialEq, Eq)]
pub struct JwtClaims {
    pub user_id: SerialId,
    pub email: String,
    pub expires_at: u64,
    pub role: String,
}

/// A token names a role that the service does not know.
#[derive(Debug, Clone, Copy, PartialEq, Eq, Structural)]
pub struct ConvertJwtClaimsError;

impl ConvertJwtClaimsError {
    pub fn message(&self) -> (text: &'static str)
        ensures
            text@ == "failed to convert raw jwt claims into claims"@,
    {
        proof { reveal_strlit("failed to convert raw jwt claims into claims"); }
        "failed to convert raw jwt claims into claims"
    }
}

/// The text that names `role` inside a token.
pub open spec fn role_ident(role: Role) -> Seq<char> {
    match role {
        Role::Admin => "ADMIN"@,
    }
}

impl TryFrom<JwtClaims> for Claims {
    type Error = ConvertJwtClaimsError;

    fn try_from(value: JwtClaims) -> (res: Result<Claims, ConvertJwtClaimsError>) {
        let admin = String::from_str(ADMIN_ROLE_IDENT);
        proof { reveal_strlit("ADMIN"); }
        if value.role == admin {
            Ok(Claims {
                user_id: value.user_id,
                email: value.email,
                expires_at: SecondsFromUnixEpoch { seconds: Seconds { val: value.expires_at } },
                role: Role::Admin,
            })
        } else {
            Err(ConvertJwtClaimsError)
        }
    }
}

impl vstd::std_specs::convert::TryFromSpecImpl<JwtClaims> for Claims {
    open spec fn obeys_try_from_spec() -> bool {
        true
    }

    open spec fn try_from_spec(value: JwtClaims) -> Result<Claims, ConvertJwtClaimsError> {
        claims_of(value)
    }
}

/// The claims that `value` holds: those of an administrator where its role is
/// the administrator's name, and none otherwise.
pub open spec fn claims_of(value: JwtClaims) -> Result<Claims, ConvertJwtClaimsError> {
    if value.role@ == role_ident(Role::Admin) {
        Ok(Claims {
            user_id: value.user_id,
            email: value.email,
            expires_at: SecondsFromUnixEpoch { seconds: Seconds { val: value.expires_at } },
            role: Role::Admin,
        })
    } else {
        Err(ConvertJwtClaimsError)
    }
}

/// Whether `token` is the token form of `claims`: the same fields, with the
/// role written as its name.
pub open spec fn encodes(token: JwtClaims, claims: Claims) -> bool {
    &&& token.user_id == claims.user_id
    &&& token.email == claims.email
    &&& token.expires_at == claims.expires_at.seconds.val
    &&& token.role@ == role_ident(claims.role)
}

impl JwtClaims {
    /// The token form of `value`.
    pub fn from_claims(value: Claims) -> (token: JwtClaims)
        ensures
            encodes(token, value),
    {
        let role = match value.role {
            Role::Admin => {
                proof { reveal_strlit("ADMIN"); }
                String::from_str(ADMIN_ROLE_IDENT)
            },
        };
        JwtClaims {
            user_id: value.user_id,
            email: value.email,
            expires_at: value.expires_at.seconds.val,
            role,
        }
    }
}

/// Reading the token form of any claims gives back those claims.
pub proof fn law_token_round_trip(claims: Claims, token: JwtClaims)
    requires
        encodes(token, claims),
    ensures
        claims_of(token) == Ok::<Claims, ConvertJwtClaimsError>(claims),
{
}

/// Claims read from a token have that token as their token form, so writing
/// them again gives the same token.
pub proof fn law_read_then_write(token: JwtClaims)
    requires
        claims_of(token) is Ok,
    ensures
        encodes(token, claims_of(token)->Ok_0),
{
}

/// Token claims whose role is `ADMIN` read as an administrator's claims with
/// the token's user, email and expiry; any other role is refused. Claims are
/// written into a token with the same user, email and expiry, and an
/// administrator's role as `ADMIN`.
pub proof fn law_claims_fields(token: JwtClaims, written: JwtClaims, claims: Claims)
    requires
        encodes(written, claims),
    ensures
        <Claims as vstd::std_specs::convert::TryFromSpec<JwtClaims>>::obeys_try_from_spec(),
        token.role@ == "ADMIN"@ ==> (
            <Claims as vstd::std_specs::convert::TryFromSpec<JwtClaims>>::try_from_spec(token) matches Ok(c) && {
                &&& c.user_id == token.user_id
                &&& c.email == token.email
                &&& c.expires_at.seconds.val == token.expires_at
                &&& c.role == Role::Admin
            }
        ),
        token.role@ != "ADMIN"@ ==> <Claims as vstd::std_specs::convert::TryFromSpec<JwtClaims>>::try_from_spec(token)
            == Err::<Claims, ConvertJwtClaimsError>(ConvertJwtClaimsError),
        written.user_id == claims.user_id,
        written.email == claims.email,
        written.expires_at == claims.expires_at.seconds.val,
        claims.role == Role::Admin ==> written.role@ == "ADMIN"@,
{
}

} // verus!
