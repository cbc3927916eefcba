use adapters::adapters::tokens::jwt_claims::{ConvertJwtClaimsError, JwtClaims, ADMIN_ROLE_IDENT};
use adapters::domain::legacy::{Claims, Role, SecondsFromUnixEpoch};
use adapters::domain::NonZeroId;

fn claims() -> Claims {
    Claims {
        user_id: NonZeroId::new(12).unwrap(),
        email: "admin@uni.edu".to_string(),
        expires_at: SecondsFromUnixEpoch::from_seconds(1_800_000_000),
        role: Role::Admin,
    }
}

#[test]
fn claims_written_as_token() {
    let token = JwtClaims::from_claims(claims());
    assert_eq!(token.user_id.get(), 12);
    assert_eq!(token.email, "admin@uni.edu");
    assert_eq!(token.expires_at, 1_800_000_000);
    assert_eq!(token.role, "ADMIN");
    assert_eq!(ADMIN_ROLE_IDENT, "ADMIN");
}

#[test]
fn token_round_trip() {
    let token = JwtClaims::from_claims(claims());
    assert_eq!(Claims::try_from(token.clone()), Ok(claims()));
    assert_eq!(JwtClaims::from_claims(Claims::try_from(token.clone()).unwrap()), token);
}

#[test]
fn unknown_role_is_refused() {
    let token = JwtClaims { role: "admin".to_string(), ..JwtClaims::from_claims(claims()) };
    let err = Claims::try_from(token).unwrap_err();
    assert_eq!(err, ConvertJwtClaimsError);
    assert_eq!(err.message(), "failed to convert raw jwt claims into claims");
    let empty = JwtClaims { role: String::new(), ..JwtClaims::from_claims(claims()) };
    assert!(Claims::try_from(empty).is_err());
}
