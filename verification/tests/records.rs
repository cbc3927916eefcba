use adapters::adapters::person::PgPerson;
use adapters::adapters::session::{expiry_parameter, CountResult, PgSession};
use adapters::adapters::subdivision::{PgSubdivision, PgSubdivisionMember, PgSubdivisionTag};
use adapters::adapters::tag::PgTag;
use adapters::adapters::university::PgUniversity;
use adapters::adapters::IntoEntity;
use adapters::domain::legacy::{Person, SecondsFromUnixEpoch, Session};
use adapters::domain::NonZeroId;
use adapters::error::{IdColumn, ModelError};
use adapters::v1::person::PgPerson as FirstPgPerson;
use adapters::v1::user::{PgRole, PgUser};
use adapters::domain::legacy::Role;

fn id(v: i32) -> NonZeroId {
    NonZeroId::new(v).unwrap()
}

#[test]
fn non_zero_id_rejects_zero() {
    assert!(NonZeroId::new(0).is_none());
    assert_eq!(NonZeroId::new(-4).unwrap().get(), -4);
    assert_eq!(NonZeroId::new(17).unwrap().get(), 17);
}

#[test]
fn person_record_converts_nonzero_id() {
    let person = PgPerson { id: 5 }.into_entity().unwrap();
    assert_eq!(person.id.get(), 5);
}

#[test]
fn person_record_with_zero_id_is_refused() {
    let err = PgPerson { id: 0 }.into_entity().unwrap_err();
    assert_eq!(err, ModelError::ZeroId(IdColumn::PersonRecord));
    assert_eq!(err.message(), "PgPerson 'id' must be non zero i32");
}

#[test]
fn person_round_trip() {
    let person = Person { id: id(42) };
    let record = PgPerson::from(person.clone());
    assert_eq!(record, PgPerson { id: 42 });
    assert_eq!(record.into_entity().unwrap(), person);
}

#[test]
fn first_generation_person_round_trip() {
    let person = Person { id: id(9) };
    let record = FirstPgPerson::from(person.clone());
    assert_eq!(record.into_entity().unwrap(), person);
}

#[test]
fn count_converts_when_it_fits() {
    assert_eq!(CountResult { count: 3 }.into_entity(), Ok(3usize));
    assert_eq!(CountResult { count: 0 }.into_entity(), Ok(0usize));
}

#[test]
fn negative_count_is_refused() {
    assert_eq!(CountResult { count: -1 }.into_entity(), Err(ModelError::CountOutOfRange));
    assert_eq!(ModelError::CountOutOfRange.message(), "failed to convert i64 into usize");
}

fn session(seconds: u64) -> Session {
    Session {
        user_id: id(7),
        metadata: "firefox".to_string(),
        refresh_token: "token".to_string(),
        expires_at: SecondsFromUnixEpoch::from_seconds(seconds),
    }
}

#[test]
fn session_round_trip() {
    let s = session(1_700_000_000);
    let row = PgSession::try_from(s.clone()).unwrap();
    assert_eq!(row.user_id, 7);
    assert_eq!(row.expires_at_in_seconds, 1_700_000_000);
    assert_eq!(row.into_entity().unwrap(), s);
}

#[test]
fn session_beyond_signed_range_is_refused() {
    let err = PgSession::try_from(session(u64::MAX)).unwrap_err();
    assert_eq!(err, ModelError::SecondsOutOfRange);
    assert_eq!(err.message(), "failed to convert seconds to i64");
}

#[test]
fn session_row_with_negative_expiry_is_refused() {
    let row = PgSession {
        user_id: 3,
        metadata: String::new(),
        refresh_token: String::new(),
        expires_at_in_seconds: -5,
    };
    assert_eq!(row.into_entity(), Err(ModelError::NegativeSeconds));
}

#[test]
fn expiry_parameter_truncates_to_low_bits() {
    assert_eq!(expiry_parameter(&session(100)), Ok(100));
    assert_eq!(expiry_parameter(&session(1u64 << 32 | 5)), Ok(5));
    assert_eq!(expiry_parameter(&session(u64::MAX)), Err(ModelError::ExpiryOutOfRange));
    assert_eq!(ModelError::ExpiryOutOfRange.message(), "failed to convert u64 to i64");
}

fn subdivision_row(subdivision_id: i32, university_id: i32) -> PgSubdivision {
    PgSubdivision {
        subdivision_id,
        subdivision_name: "Physics".to_string(),
        university_id,
        university_name: "MSU".to_string(),
    }
}

#[test]
fn subdivision_converts() {
    let s = subdivision_row(2, 1).into_entity().unwrap();
    assert_eq!(s.id.get(), 2);
    assert_eq!(s.name, "Physics");
    assert_eq!(s.university.id.get(), 1);
    assert_eq!(s.university.name, "MSU");
}

#[test]
fn subdivision_zero_ids_are_refused_in_order() {
    assert_eq!(subdivision_row(0, 0).into_entity(), Err(ModelError::ZeroId(IdColumn::Subdivision)));
    assert_eq!(subdivision_row(3, 0).into_entity(), Err(ModelError::ZeroId(IdColumn::University)));
    assert_eq!(
        ModelError::ZeroId(IdColumn::University).message(),
        "university 'id' must be non zero i32"
    );
}

#[test]
fn subdivision_tag_converts_and_checks_tag() {
    let row = PgSubdivisionTag {
        subdivision_id: 2,
        subdivision_name: "Physics".to_string(),
        university_id: 1,
        university_name: "MSU".to_string(),
        tag_id: 8,
        tag_name: "science".to_string(),
    };
    let tag = row.clone().into_entity().unwrap();
    assert_eq!(tag.1.id.get(), 8);
    assert_eq!(tag.1.name, "science");
    assert_eq!(tag.0.id.get(), 2);
    let zero = PgSubdivisionTag { tag_id: 0, ..row };
    assert_eq!(zero.into_entity(), Err(ModelError::ZeroId(IdColumn::Tag)));
}

#[test]
fn subdivision_member_converts_and_checks_person() {
    let row = PgSubdivisionMember {
        subdivision_id: 2,
        subdivision_name: "Physics".to_string(),
        university_id: 1,
        university_name: "MSU".to_string(),
        person_id: 11,
        role: "head".to_string(),
    };
    let member = row.clone().into_entity().unwrap();
    assert_eq!(member.id.1.id.get(), 11);
    assert_eq!(member.role, "head");
    let zero = PgSubdivisionMember { person_id: 0, ..row };
    assert_eq!(zero.into_entity(), Err(ModelError::ZeroId(IdColumn::Person)));
    assert_eq!(ModelError::ZeroId(IdColumn::Person).message(), "person 'id' must be non zero i32");
}

#[test]
fn tag_and_university_records_convert() {
    let tag = PgTag { id: id(4), name: "lab".to_string() }.into_entity().unwrap();
    assert_eq!(tag.id.get(), 4);
    assert_eq!(tag.name, "lab");
    let u = PgUniversity { id: id(6), name: "SPbU".to_string() }.into_entity().unwrap();
    assert_eq!(u.id.get(), 6);
    assert_eq!(u.name, "SPbU");
}

#[test]
fn user_record_converts_and_roles_round_trip() {
    let user = PgUser {
        id: id(1),
        email: "a@b.c".to_string(),
        hashed_password: "hash".to_string(),
        role: PgRole::Admin,
    }
    .into_entity()
    .unwrap();
    assert_eq!(user.role, Role::Admin);
    assert_eq!(user.hashed_password.0, "hash");
    assert_eq!(Role::from(PgRole::from(Role::Admin)), Role::Admin);
}
