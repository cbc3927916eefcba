//! Reading the service's configuration values.

use vstd::prelude::*;
use std::sync::Arc;
use crate::adapters::password::{Argon2Algorithm, Argon2Params, Argon2Version};
use crate::domain::legacy::Seconds;

verus! {

/// The Argon2 version whose identifier is `version_id`, by
/// `argon2::Version::try_from`: `0x10` and `0x13` are known, no other.
#[verifier::external_body]
fn version_from_id(version_id: u32) -> (version: Option<Argon2Version>)
    ensures
        version_id == 0x10 ==> version == Some(Argon2Version::V0x10),
        version_id == 0x13 ==> version == Some(Argon2Version::V0x13),
        version_id != 0x10 && version_id != 0x13 ==> version is None,
{
    match argon2::Version::try_from(version_id) {
        Ok(argon2::Version::V0x10) => Some(Argon2Version::V0x10),
        Ok(argon2::Version::V0x13) => Some(Argon2Version::V0x13),
        Err(_) => None,
    }
}

/// The Argon2 variant named `name`, by `argon2::Algorithm::from_str`:
/// `argon2d`, `argon2i` and `argon2id` are known; for any other name the
/// text of the crate's error, `algorithm identifier invalid`.
#[verifier::external_body]
fn algorithm_from_str(name: &str) -> (algorithm: Result<Argon2Algorithm, String>)
    ensures
        name@ == "argon2d"@ ==> (algorithm is Ok && algorithm->Ok_0 == Argon2Algorithm::Argon2d),
        name@ == "argon2i"@ ==> (algorithm is Ok && algorithm->Ok_0 == Argon2Algorithm::Argon2i),
        name@ == "argon2id"@ ==> (algorithm is Ok && algorithm->Ok_0 == Argon2Algorithm::Argon2id),
        name@ != "argon2d"@ && name@ != "argon2i"@ && name@ != "argon2id"@
            ==> algorithm is Err && algorithm->Err_0@ == "algorithm identifier invalid"@,
{
    match <argon2::Algorithm as std::str::FromStr>::from_str(name) {
        Ok(argon2::Algorithm::Argon2d) => Ok(Argon2Algorithm::Argon2d),
        Ok(argon2::Algorithm::Argon2i) => Ok(Argon2Algorithm::Argon2i),
        Ok(argon2::Algorithm::Argon2id) => Ok(Argon2Algorithm::Argon2id),
        Err(err) => Err(err.to_string()),
    }
}

/// A configuration value that was refused, with what was expected instead.
#[derive(Debug, Clone, PartialEq, Eq)]
pub struct InvalidConfigValue {
    pub expected: String,
}

/// The Argon2 version that the configuration names by its identifier.
pub fn parse_argon2_version(value: u32) -> (version: Result<Argon2Version, InvalidConfigValue>)
    ensures
        value == 0x10 ==> version == Ok::<Argon2Version, InvalidConfigValue>(Argon2Version::V0x10),
        value == 0x13 ==> version == Ok::<Argon2Version, InvalidConfigValue>(Argon2Version::V0x13),
        value != 0x10 && value != 0x13 ==> (version matches Err(e) && e.expected@ == "0x10 or 0x13"@),
{
    match version_from_id(value) {
        Some(v) => Ok(v),
        None => {
            proof { reveal_strlit("0x10 or 0x13"); }
            Err(InvalidConfigValue { expected: String::from_str("0x10 or 0x13") })
        },
    }
}

/// The Argon2 variant that the configuration names.
pub fn parse_argon2_algorithm(value: &str) -> (algorithm: Result<Argon2Algorithm, InvalidConfigValue>)
    ensures
        value@ == "argon2d"@ ==> algorithm == Ok::<Argon2Algorithm, InvalidConfigValue>(Argon2Algorithm::Argon2d),
        value@ == "argon2i"@ ==> algorithm == Ok::<Argon2Algorithm, InvalidConfigValue>(Argon2Algorithm::Argon2i),
        value@ == "argon2id"@ ==> algorithm == Ok::<Argon2Algorithm, InvalidConfigValue>(Argon2Algorithm::Argon2id),
        value@ != "argon2d"@ && value@ != "argon2i"@ && value@ != "argon2id"@
            ==> (algorithm matches Err(e) && e.expected@ == "algorithm identifier invalid"@),
{
    match algorithm_from_str(value) {
        Ok(a) => Ok(a),
        Err(text) => Err(InvalidConfigValue { expected: text }),
    }
}

#[verifier::external_type_specification]
#[verifier::external_body]
pub struct ExEncodingKey(jsonwebtoken::EncodingKey);

#[verifier::external_type_specification]
#[verifier::external_body]
pub struct ExDecodingKey(jsonwebtoken::DecodingKey);

/// What `jsonwebtoken::EncodingKey::from_secret` makes of the bytes of `secret`.
pub uninterp spec fn encoding_key_for(secret: Seq<char>) -> jsonwebtoken::EncodingKey;

/// What `jsonwebtoken::DecodingKey::from_secret` makes of the bytes of `secret`.
pub uninterp spec fn decoding_key_for(secret: Seq<char>) -> jsonwebtoken::DecodingKey;

/// The HMAC signing key of `jsonwebtoken::EncodingKey::from_secret`, made of
/// the UTF-8 bytes of `secret`; it keeps a copy of those bytes and nothing
/// else, so the same secret gives the same key.
#[verifier::external_body]
fn encoding_key(secret: &str) -> (key: jsonwebtoken::EncodingKey)
    ensures
        key == encoding_key_for(secret@),
{
    jsonwebtoken::EncodingKey::from_secret(secret.as_bytes())
}

/// The HMAC checking key of `jsonwebtoken::DecodingKey::from_secret`, made of
/// the UTF-8 bytes of `secret`; it keeps a copy of those bytes and nothing
/// else, so the same secret gives the same key.
#[verifier::external_body]
fn decoding_key(secret: &str) -> (key: jsonwebtoken::DecodingKey)
    ensures
        key == decoding_key_for(secret@),
{
    jsonwebtoken::DecodingKey::from_secret(secret.as_bytes())
}

/// The characters of a shared text.
pub open spec fn shared_text_view(text: &Arc<str>) -> Seq<char> {
    (**text)@
}

/// `Arc::<str>::from`: the same characters, behind a shared pointer.
#[verifier::external_body]
fn shared_text(text: String) -> (shared: Arc<str>)
    ensures
        shared_text_view(&shared) == text@,
{
    Arc::from(text)
}

/// The keys that access tokens are signed and checked with.
pub struct JwtKeys(pub jsonwebtoken::EncodingKey, pub jsonwebtoken::DecodingKey);

/// The service's settings, as the environment gives them.
pub struct EnvConfig {
    pub pg_max_connections: u32,
    pub pg_dbname: String,
    pub pg_username: String,
    pub pg_password: String,
    pub pg_host: String,
    pub pg_port: u16,
    pub sqlx_log: Option<log::LevelFilter>,
    pub refresh_token_length: usize,
    pub jwt_secret: String,
    pub jwt_token_ttl_in_seconds: u64,
    pub sessions_max_number_per_user: usize,
    pub session_ttl_in_seconds: u64,
    pub argon2_parallelism_degree: u32,
    pub argon2_algorithm: Argon2Algorithm,
    pub argon2_version: Argon2Version,
    pub workers_count: u32,
    pub application_name: String,
}

/// Everything the service is configured with.
#[derive(Clone)]
pub struct ConfigModule {
    pub sessions_max_number: usize,
    pub session_ttl: Seconds,
    pub access_token_ttl: Seconds,
    pub refresh_token_length: usize,
    pub argon2_params: Argon2Params,
    pub jwt_keys: Arc<JwtKeys>,
    pub pg_host: Arc<str>,
    pub pg_port: u16,
    pub pg_user_name: Arc<str>,
    pub pg_password: Arc<str>,
    pub pg_database_name: Arc<str>,
    pub application_name: Arc<str>,
    pub sqlx_log_level_filter: Option<log::LevelFilter>,
    pub sqlx_max_connections: u32,
}

impl ConfigModule {
    /// The settings of `config`, each where the service looks for it; the
    /// token keys are both made from the JWT secret.
    pub fn from_env_config(config: EnvConfig) -> (module: ConfigModule)
        ensures
            module.sessions_max_number == config.sessions_max_number_per_user,
            module.session_ttl == (Seconds { val: config.session_ttl_in_seconds }),
            module.access_token_ttl == (Seconds { val: config.jwt_token_ttl_in_seconds }),
            module.refresh_token_length == config.refresh_token_length,
            module.argon2_params == (Argon2Params {
                paralelism_degree: config.argon2_parallelism_degree,
                algorithm: config.argon2_algorithm,
                version: config.argon2_version,
            }),
            module.jwt_keys.0 == encoding_key_for(config.jwt_secret@),
            module.jwt_keys.1 == decoding_key_for(config.jwt_secret@),
            shared_text_view(&module.pg_host) == config.pg_host@,
            module.pg_port == config.pg_port,
            shared_text_view(&module.pg_user_name) == config.pg_username@,
            shared_text_view(&module.pg_password) == config.pg_password@,
            shared_text_view(&module.pg_database_name) == config.pg_dbname@,
            shared_text_view(&module.application_name) == config.application_name@,
            module.sqlx_log_level_filter == config.sqlx_log,
            module.sqlx_max_connections == config.pg_max_connections,
    {
        let keys = JwtKeys(encoding_key(config.jwt_secret.as_str()), decoding_key(config.jwt_secret.as_str()));
        ConfigModule {
            sessions_max_number: config.sessions_max_number_per_user,
            session_ttl: Seconds { val: config.session_ttl_in_seconds },
            access_token_ttl: Seconds { val: config.jwt_token_ttl_in_seconds },
            refresh_token_length: config.refresh_token_length,
            argon2_params: Argon2Params {
                paralelism_degree: config.argon2_parallelism_degree,
                algorithm: config.argon2_algorithm,
                version: config.argon2_version,
            },
            jwt_keys: Arc::new(keys),
            pg_host: shared_text(config.pg_host),
            pg_port: config.pg_port,
            pg_user_name: shared_text(config.pg_username),
            pg_password: shared_text(config.pg_password),
            pg_database_name: shared_text(config.pg_dbname),
            application_name: shared_text(config.application_name),
            sqlx_log_level_filter: config.sqlx_log,
            sqlx_max_connections: config.pg_max_connections,
        }
    }
}

} // verus!
