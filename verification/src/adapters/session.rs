//! Records of the session repository.

use vstd::prelude::*;
use crate::adapters::IntoEntity;
use crate::domain::id::NonZeroId;
use crate::domain::legacy::{Seconds, SecondsFromUnixEpoch, Session};
use crate::error::ModelError;

verus! {

broadcast use crate::domain::id::NonZeroId::lemma_from_value_view;

/// The largest value of a signed 64-bit column.
pub const I64_MAX: u64 = 0x7fff_ffff_ffff_ffff;

/// The number of rows that a counting query found.
#[derive(Debug, Clone, Copy, PartialEq, Eq, Structural)]
pub struct CountResult {
    pub count: i64,
}

impl IntoEntity<usize> for CountResult {
    open spec fn convertible(self) -> bool {
        true
    }

    fn is_convertible(&self) -> (convertible: bool) {
        true
    }

    open spec fn entity(self) -> Result<usize, ModelError> {
        if 0 <= self.count <= usize::MAX {
            Ok(self.count as usize)
        } else {
            Err(ModelError::CountOutOfRange)
        }
    }

    fn into_entity(self) -> (res: Result<usize, ModelError>) {
        match usize::try_from(self.count) {
            Ok(count) => Ok(count),
            Err(_) => Err(ModelError::CountOutOfRange),
        }
    }
}

/// A row of the `user_sessions` table.
#[derive(Debug, Clone, PartialEq, Eq)]
pub struct PgSession {
    pub user_id: i32,
    pub metadata: String,
    pub refresh_token: String,
    pub expires_at_in_seconds: i64,
}

impl TryFrom<Session> for PgSession {
    type Error = ModelError;

    /// The row that stores `session`; there is none where its expiry does not fit
    /// in a signed 64-bit column.
    fn try_from(session: Session) -> (res: Result<PgSession, ModelError>) {
        let user_id = session.user_id.get();
        let seconds = session.expires_at.seconds.val;
        if seconds <= I64_MAX {
            Ok(PgSession {
                user_id,
                metadata: session.metadata,
                refresh_token: session.refresh_token,
                expires_at_in_seconds: seconds as i64,
            })
        } else {
            Err(ModelError::SecondsOutOfRange)
        }
    }
}

impl vstd::std_specs::convert::TryFromSpecImpl<Session> for PgSession {
    open spec fn obeys_try_from_spec() -> bool {
        true
    }

    open spec fn try_from_spec(session: Session) -> Result<PgSession, ModelError> {
        session_row(session)
    }
}

/// The row that stores `session`; none where its expiry does not fit in a
/// signed 64-bit column.
pub open spec fn session_row(session: Session) -> Result<PgSession, ModelError> {
    if session.expires_at.seconds.val <= I64_MAX {
        Ok(PgSession {
            user_id: session.user_id@,
            metadata: session.metadata,
            refresh_token: session.refresh_token,
            expires_at_in_seconds: session.expires_at.seconds.val as i64,
        })
    } else {
        Err(ModelError::SecondsOutOfRange)
    }
}

impl IntoEntity<Session> for PgSession {
    /// A row whose user is zero stops the program.
    open spec fn convertible(self) -> bool {
        self.user_id != 0
    }

    fn is_convertible(&self) -> (convertible: bool) {
        self.user_id != 0
    }

    open spec fn entity(self) -> Result<Session, ModelError> {
        if self.expires_at_in_seconds < 0 {
            Err(ModelError::NegativeSeconds)
        } else {
            Ok(Session {
                user_id: NonZeroId::from_value(self.user_id),
                metadata: self.metadata,
                refresh_token: self.refresh_token,
                expires_at: SecondsFromUnixEpoch {
                    seconds: Seconds { val: self.expires_at_in_seconds as u64 },
                },
            })
        }
    }

    fn into_entity(self) -> (res: Result<Session, ModelError>) {
        let user_id = match NonZeroId::new(self.user_id) {
            Some(id) => id,
            None => {
                assert(false);
                return Err(ModelError::NegativeSeconds);
            },
        };
        match u64::try_from(self.expires_at_in_seconds) {
            Ok(seconds) => Ok(Session {
                user_id,
                metadata: self.metadata,
                refresh_token: self.refresh_token,
                expires_at: SecondsFromUnixEpoch::from_seconds(seconds),
            }),
            Err(_) => Err(ModelError::NegativeSeconds),
        }
    }
}

/// Storing a session and reading its row back gives the same session.
pub proof fn law_session_round_trip(session: Session)
    requires
        session.user_id@ != 0,
        session.expires_at.seconds.val <= I64_MAX,
    ensures
        session_row(session) is Ok,
        session_row(session)->Ok_0.convertible(),
        session_row(session)->Ok_0.entity() == Ok::<Session, ModelError>(session),
{
    broadcast use crate::domain::id::NonZeroId::lemma_from_view;
}

/// Reading a row and storing the session again gives the same row.
pub proof fn law_session_row_round_trip(row: PgSession)
    requires
        row.convertible(),
        row.entity() is Ok,
    ensures
        session_row(row.entity()->Ok_0) == Ok::<PgSession, ModelError>(row),
{
}

/// The expiry parameter that the session repository binds when it writes
/// `session`: the expiry in seconds, converted to a signed 64-bit integer and
/// then truncated to its low 32 bits. There is none where the expiry does not
/// fit in a signed 64-bit integer.
pub fn expiry_parameter(session: &Session) -> (param: Result<i32, ModelError>)
    ensures
        session.expires_at.seconds.val <= I64_MAX <==> param is Ok,
        param matches Ok(v) ==> v == (session.expires_at.seconds.val as i64) as i32,
        param matches Err(e) ==> e == ModelError::ExpiryOutOfRange,
{
    let seconds = session.expires_at.seconds.val;
    if seconds <= I64_MAX {
        let wide = seconds as i64;
        Ok(wide as i32)
    } else {
        Err(ModelError::ExpiryOutOfRange)
    }
}

/// A count within `usize` reads as that count; any other is refused.
pub proof fn law_count_row(row: CountResult)
    ensures
        0 <= row.count <= usize::MAX ==> (row.entity() matches Ok(n) && n == row.count),
        !(0 <= row.count <= usize::MAX) ==> row.entity() == Err::<usize, ModelError>(ModelError::CountOutOfRange),
{
}

/// A session row of a non-zero user reads as the session of that user, with
/// the row's metadata, refresh token and expiry; a negative expiry is refused.
/// A session is stored with its user, metadata, refresh token and expiry; one
/// whose expiry does not fit a signed 64-bit column is refused.
pub proof fn law_session_fields(row: PgSession, session: Session)
    ensures
        row.user_id != 0 && row.expires_at_in_seconds < 0
            ==> row.entity() == Err::<Session, ModelError>(ModelError::NegativeSeconds),
        row.user_id != 0 && row.expires_at_in_seconds >= 0 ==> (row.entity() matches Ok(s) && {
            &&& s.user_id@ == row.user_id
            &&& s.metadata == row.metadata
            &&& s.refresh_token == row.refresh_token
            &&& s.expires_at.seconds.val == row.expires_at_in_seconds
        }),
        <PgSession as vstd::std_specs::convert::TryFromSpec<Session>>::obeys_try_from_spec(),
        session.expires_at.seconds.val <= I64_MAX ==> (
            <PgSession as vstd::std_specs::convert::TryFromSpec<Session>>::try_from_spec(session) matches Ok(r) && {
                &&& r.user_id == session.user_id@
                &&& r.metadata == session.metadata
                &&& r.refresh_token == session.refresh_token
                &&& r.expires_at_in_seconds == session.expires_at.seconds.val
            }
        ),
        session.expires_at.seconds.val > I64_MAX
            ==> <PgSession as vstd::std_specs::convert::TryFromSpec<Session>>::try_from_spec(session)
                == Err::<PgSession, ModelError>(ModelError::SecondsOutOfRange),
{
}

} // verus!
