pub mod jwt_claims;
