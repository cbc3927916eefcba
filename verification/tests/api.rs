use adapters::adapters::password::{Argon2Algorithm, Argon2Params, Argon2Version};
use adapters::api::auth::{
    authorize, bearer_token, finish_claims_extraction, AuthException, ExtractClaimsException, RoleChecker,
};
use adapters::api::config::{parse_argon2_algorithm, parse_argon2_version, ConfigModule, EnvConfig};
use adapters::api::handlers::{
    create_user_error_status, login_error_status, login_reply, logout_error_status, logout_reply,
    refresh_token_error_status, refresh_token_reply, user_created_reply, CreateUserException, CreatedUser,
    LoginException, LogoutException, RefreshTokenException, TokenPair,
};
use adapters::api::limited_slice::LimitedSlice;
use adapters::api::reply::unexpected_error_reply;
use adapters::api::req_scope::ExtractTxnScopeError;
use adapters::domain::legacy::{Claims, Role, Seconds, SecondsFromUnixEpoch};
use adapters::domain::NonZeroId;

#[test]
fn limited_slice_within_limit_round_trips() {
    let slice = LimitedSlice::<i32, 3>::try_from_vec(vec![1, 2, 3]).ok().unwrap();
    assert_eq!(slice.len(), 3);
    assert_eq!(slice.as_slice(), &[1, 2, 3]);
    let copy = slice.clone();
    assert_eq!(copy.into_vec(), vec![1, 2, 3]);
    assert_eq!(&*slice.into_boxed_slice(), &[1, 2, 3]);
}

#[test]
fn limited_slice_over_limit_is_refused() {
    let err = LimitedSlice::<i32, 2>::try_from_vec(vec![1, 2, 3]).err().unwrap();
    assert_eq!(err.actual_len, 3);
    let boxed: Box<[i32]> = vec![5; 4].into_boxed_slice();
    assert_eq!(LimitedSlice::<i32, 3>::try_from_boxed_slice(boxed).err().unwrap().actual_len, 4);
    let empty = LimitedSlice::<i32, 0>::try_from_vec(Vec::new()).ok().unwrap();
    assert_eq!(empty.into_vec(), Vec::<i32>::new());
}

#[test]
fn bearer_token_is_what_follows_the_scheme() {
    assert_eq!(bearer_token(Some("Bearer abc.def")), Ok("abc.def".to_string()));
    assert_eq!(bearer_token(Some("Bearer ")), Ok(String::new()));
    assert_eq!(bearer_token(Some("Basic abc")), Err(AuthException::UnsupportedScheme));
    assert_eq!(bearer_token(Some("bearer abc")), Err(AuthException::UnsupportedScheme));
    assert_eq!(bearer_token(Some("Bearer")), Err(AuthException::UnsupportedScheme));
    assert_eq!(bearer_token(None), Err(AuthException::MissingHeader));
}

#[test]
fn refusals_answer_401_with_a_challenge_only_for_a_missing_header() {
    assert_eq!(AuthException::MissingHeader.status(), 401);
    assert_eq!(AuthException::MissingHeader.challenge(), Some("Bearer"));
    assert_eq!(AuthException::NoRights.challenge(), None);
    assert_eq!(AuthException::NoRights.message(), Some("no rights"));
    assert_eq!(AuthException::MissingHeader.message(), Some("missing authorization header"));
    assert_eq!(AuthException::UnsupportedScheme.message(), Some("unsupported scheme"));
}

#[test]
fn authorize_lets_through_only_allowed_roles() {
    let claims = Claims {
        user_id: NonZeroId::new(1).unwrap(),
        email: "a@b.c".to_string(),
        expires_at: SecondsFromUnixEpoch::from_seconds(10),
        role: Role::Admin,
    };
    assert_eq!(authorize(claims.clone(), true), Ok(claims.clone()));
    assert_eq!(authorize(claims, false), Err(AuthException::NoRights));
}

#[test]
fn handler_error_statuses() {
    assert_eq!(login_error_status(LoginException::FailedToAuthenticate), 401);
    assert_eq!(login_error_status(LoginException::FailedToSaveSession), 401);
    assert_eq!(refresh_token_error_status(RefreshTokenException::UserDoesNotExist), 400);
    assert_eq!(refresh_token_error_status(RefreshTokenException::FailedToUpdateSession), 401);
    assert_eq!(logout_error_status(LogoutException::UserDoesNotExist), 400);
    assert_eq!(logout_error_status(LogoutException::FailedToDeleteSession), 401);
    assert_eq!(create_user_error_status(CreateUserException::EmailAlreadyInUse), 400);
    assert_eq!(create_user_error_status(CreateUserException::FailedToCreatePerson), 400);
}

#[test]
fn unexpected_errors_and_missing_scope() {
    let (status, reply) = unexpected_error_reply();
    assert_eq!(status, 401);
    assert_eq!(reply.message, "internal server error");
    assert_eq!(ExtractTxnScopeError.status(), 500);
    assert_eq!(ExtractTxnScopeError.message(), "TxnScope is missing in request extensions");
}

#[test]
fn argon2_configuration_values() {
    assert_eq!(parse_argon2_version(0x10), Ok(Argon2Version::V0x10));
    assert_eq!(parse_argon2_version(0x13), Ok(Argon2Version::V0x13));
    assert_eq!(parse_argon2_version(0x11).unwrap_err().expected, "0x10 or 0x13");
    assert_eq!(parse_argon2_algorithm("argon2d"), Ok(Argon2Algorithm::Argon2d));
    assert_eq!(parse_argon2_algorithm("argon2i"), Ok(Argon2Algorithm::Argon2i));
    assert_eq!(parse_argon2_algorithm("argon2id"), Ok(Argon2Algorithm::Argon2id));
    assert_eq!(parse_argon2_algorithm("scrypt").unwrap_err().expected, "algorithm identifier invalid");
}

#[test]
fn configuration_module_takes_each_setting_from_the_environment() {
    let config = EnvConfig {
        pg_max_connections: 8,
        pg_dbname: String::from("school"),
        pg_username: String::from("admin"),
        pg_password: String::from("pg-pass"),
        pg_host: String::from("localhost"),
        pg_port: 5432,
        sqlx_log: Some(log::LevelFilter::Debug),
        refresh_token_length: 32,
        jwt_secret: String::from("jwt"),
        jwt_token_ttl_in_seconds: 900,
        sessions_max_number_per_user: 5,
        session_ttl_in_seconds: 86400,
        argon2_parallelism_degree: 2,
        argon2_algorithm: Argon2Algorithm::Argon2id,
        argon2_version: Argon2Version::V0x13,
        workers_count: 4,
        application_name: String::from("university"),
    };
    let module = ConfigModule::from_env_config(config);
    assert_eq!(module.sessions_max_number, 5);
    assert_eq!(module.session_ttl, Seconds { val: 86400 });
    assert_eq!(module.access_token_ttl, Seconds { val: 900 });
    assert_eq!(module.refresh_token_length, 32);
    assert_eq!(
        module.argon2_params,
        Argon2Params { paralelism_degree: 2, algorithm: Argon2Algorithm::Argon2id, version: Argon2Version::V0x13 }
    );
    assert_eq!(&*module.pg_host, "localhost");
    assert_eq!(module.pg_port, 5432);
    assert_eq!(&*module.pg_user_name, "admin");
    assert_eq!(&*module.pg_password, "pg-pass");
    assert_eq!(&*module.pg_database_name, "school");
    assert_eq!(&*module.application_name, "university");
    assert_eq!(module.sqlx_log_level_filter, Some(log::LevelFilter::Debug));
    assert_eq!(module.sqlx_max_connections, 8);
}

#[test]
fn handlers_answer_success_with_their_messages() {
    let tokens = TokenPair { access_token: String::from("a.b.c"), refresh_token: String::from("r1") };
    let (code, reply) = login_reply(tokens.clone());
    assert_eq!(code, 200);
    assert_eq!(reply.message, "login complited successfully");
    assert_eq!(reply.data, tokens);
    let (code, reply) = refresh_token_reply(tokens.clone());
    assert_eq!(code, 200);
    assert_eq!(reply.message, "token refreshed successfully");
    assert_eq!(reply.data, tokens);
    let (code, reply) = logout_reply();
    assert_eq!(code, 200);
    assert_eq!(reply.message, "logout is successful");
    let (code, reply) = user_created_reply(42);
    assert_eq!(code, 200);
    assert_eq!(reply.message, "user created successfully");
    assert_eq!(reply.data, CreatedUser { id: 42 });
}

struct AdminsOnly;

impl RoleChecker for AdminsOnly {
    fn allows(role: Role) -> bool {
        role == Role::Admin
    }

    fn can_access(role: Role) -> bool {
        role == Role::Admin
    }
}

struct Nobody;

impl RoleChecker for Nobody {
    fn allows(_: Role) -> bool {
        false
    }

    fn can_access(_: Role) -> bool {
        false
    }
}

#[test]
fn claims_extraction_refuses_failures_and_forbidden_roles() {
    let claims = Claims {
        user_id: NonZeroId::new(1).unwrap(),
        email: "a@b.c".to_string(),
        expires_at: SecondsFromUnixEpoch::from_seconds(10),
        role: Role::Admin,
    };
    assert_eq!(finish_claims_extraction::<AdminsOnly>(Ok(claims.clone())), Ok(claims.clone()));
    assert_eq!(finish_claims_extraction::<Nobody>(Ok(claims)), Err(AuthException::NoRights));
    assert_eq!(
        finish_claims_extraction::<AdminsOnly>(Err(ExtractClaimsException)),
        Err(AuthException::FailedToExtractJwtClaims(ExtractClaimsException))
    );
}
