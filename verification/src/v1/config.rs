//! Settings that the database connection is opened with.

use vstd::prelude::*;
use std::sync::Arc;

verus! {

#[verifier::external_type_specification]
#[verifier::external_body]
pub struct ExLevelFilter(log::LevelFilter);

pub struct PgHost(pub Arc<str>);

pub struct PgPort(pub u16);

pub struct PgUserName(pub Arc<str>);

pub struct PgPassword(pub Arc<str>);

pub struct PgDatabaseName(pub Arc<str>);

pub struct ApplicationName(pub Arc<str>);

/// The level at which the database driver logs its statements, if at all.
pub struct SqlxLogLevelFilter(pub Option<log::LevelFilter>);

pub struct SqlxMaxConnections(pub u32);

} // verus!
