//! The answers of the handlers: the status of a refused request, and the
//! status and body of a request that went through.

use vstd::prelude::*;
use crate::api::reply::{EmptyData, Reply, BAD_REQUEST, OK, UNAUTHORIZED};

verus! {

/// Why a login was refused.
#[derive(Debug, Clone, Copy, PartialEq, Eq, Structural)]
pub enum LoginException {
    FailedToSaveSession,
    FailedToAuthenticate,
}

/// Why a token refresh was refused.
#[derive(Debug, Clone, Copy, PartialEq, Eq, Structural)]
pub enum RefreshTokenException {
    UserDoesNotExist,
    FailedToUpdateSession,
}

/// Why a logout was refused.
#[derive(Debug, Clone, Copy, PartialEq, Eq, Structural)]
pub enum LogoutException {
    UserDoesNotExist,
    FailedToDeleteSession,
}

/// Why a user was not created.
#[derive(Debug, Clone, Copy, PartialEq, Eq, Structural)]
pub enum CreateUserException {
    FailedToCreatePerson,
    EmailAlreadyInUse,
}

/// A refused login is answered with 401.
pub fn login_error_status(ex: LoginException) -> (code: u16)
    ensures
        code == UNAUTHORIZED,
{
    match ex {
        LoginException::FailedToSaveSession | LoginException::FailedToAuthenticate => UNAUTHORIZED,
    }
}

/// A refresh for an unknown user is answered with 400, a failed session update with 401.
pub fn refresh_token_error_status(ex: RefreshTokenException) -> (code: u16)
    ensures
        ex == RefreshTokenException::UserDoesNotExist ==> code == BAD_REQUEST,
        ex == RefreshTokenException::FailedToUpdateSession ==> code == UNAUTHORIZED,
{
    match ex {
        RefreshTokenException::UserDoesNotExist => BAD_REQUEST,
        RefreshTokenException::FailedToUpdateSession => UNAUTHORIZED,
    }
}

/// A logout for an unknown user is answered with 400, a failed session deletion with 401.
pub fn logout_error_status(ex: LogoutException) -> (code: u16)
    ensures
        ex == LogoutException::UserDoesNotExist ==> code == BAD_REQUEST,
        ex == LogoutException::FailedToDeleteSession ==> code == UNAUTHORIZED,
{
    match ex {
        LogoutException::UserDoesNotExist => BAD_REQUEST,
        LogoutException::FailedToDeleteSession => UNAUTHORIZED,
    }
}

/// A refused user creation is answered with 400.
pub fn create_user_error_status(ex: CreateUserException) -> (code: u16)
    ensures
        code == BAD_REQUEST,
{
    match ex {
        CreateUserException::FailedToCreatePerson | CreateUserException::EmailAlreadyInUse => BAD_REQUEST,
    }
}

/// The tokens that a login or a refresh hands out.
#[derive(Debug, Clone, PartialEq, Eq)]
pub struct TokenPair {
    pub access_token: String,
    pub refresh_token: String,
}

/// The data of the answer to a created user: the user's identifier.
#[derive(Debug, Clone, Copy, PartialEq, Eq, Structural)]
pub struct CreatedUser {
    pub id: i32,
}

/// A login that went through: 200, with the new tokens.
pub fn login_reply(tokens: TokenPair) -> (answer: (u16, Reply<&'static str, TokenPair>))
    ensures
        answer.0 == OK,
        answer.1.message@ == "login complited successfully"@,
        answer.1.data == tokens,
{
    proof { reveal_strlit("login complited successfully"); }
    (OK, Reply { message: "login complited successfully", data: tokens })
}

/// A refresh that went through: 200, with the new tokens.
pub fn refresh_token_reply(tokens: TokenPair) -> (answer: (u16, Reply<&'static str, TokenPair>))
    ensures
        answer.0 == OK,
        answer.1.message@ == "token refreshed successfully"@,
        answer.1.data == tokens,
{
    proof { reveal_strlit("token refreshed successfully"); }
    (OK, Reply { message: "token refreshed successfully", data: tokens })
}

/// A logout that went through: 200, with no data.
pub fn logout_reply() -> (answer: (u16, Reply<&'static str, EmptyData>))
    ensures
        answer.0 == OK,
        answer.1.message@ == "logout is successful"@,
{
    proof { reveal_strlit("logout is successful"); }
    (OK, Reply { message: "logout is successful", data: EmptyData })
}

/// A user that was created: 200, with the user's identifier.
pub fn user_created_reply(id: i32) -> (answer: (u16, Reply<&'static str, CreatedUser>))
    ensures
        answer.0 == OK,
        answer.1.message@ == "user created successfully"@,
        answer.1.data == (CreatedUser { id }),
{
    proof { reveal_strlit("user created successfully"); }
    (OK, Reply { message: "user created successfully", data: CreatedUser { id } })
}

} // verus!
