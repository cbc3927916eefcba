use adapters::adapters::person::PgPerson;
use adapters::adapters::{all_outcome, one_outcome, optional_outcome, Outcome, QueryFailure, UnexpectedError};
use adapters::domain::legacy::Person;
use adapters::error::{IdColumn, ModelError};

#[derive(Debug, PartialEq)]
struct NotFound;

fn failure() -> QueryFailure {
    QueryFailure { sql: "SELECT 1".to_string(), cause: "connection reset".to_string() }
}

#[test]
fn optional_outcome_of_a_row() {
    let o: Outcome<Person, NotFound> = optional_outcome(Ok(Some(PgPerson { id: 3 })), NotFound);
    match o {
        Outcome::Success(p) => assert_eq!(p.id.get(), 3),
        _ => panic!("expected success"),
    }
}

#[test]
fn optional_outcome_of_no_row_is_the_exception() {
    let o: Outcome<Person, NotFound> = optional_outcome(Ok(None::<PgPerson>), NotFound);
    assert_eq!(o, Outcome::Exception(NotFound));
}

#[test]
fn optional_outcome_of_a_bad_row_is_unexpected() {
    let o: Outcome<Person, NotFound> = optional_outcome(Ok(Some(PgPerson { id: 0 })), NotFound);
    assert_eq!(o, Outcome::Unexpected(UnexpectedError::Conversion(ModelError::ZeroId(IdColumn::PersonRecord))));
}

#[test]
fn optional_outcome_of_a_failed_query_is_unexpected() {
    let o: Outcome<Person, NotFound> = optional_outcome(Err::<Option<PgPerson>, _>(failure()), NotFound);
    assert_eq!(o, Outcome::Unexpected(UnexpectedError::Query(failure())));
}

#[test]
fn one_outcome_of_no_row_is_unexpected() {
    let o: Outcome<Person, NotFound> = one_outcome(Ok(None::<PgPerson>), "SELECT id FROM persons".to_string());
    let expected = UnexpectedError::NothingFetched { sql: "SELECT id FROM persons".to_string() };
    assert_eq!(o, Outcome::Unexpected(expected.clone()));
    assert_eq!(
        expected.message(),
        "failed to fetch query SELECT id FROM persons, expected one value but got nothing"
    );
}

#[test]
fn one_outcome_of_a_row() {
    let o: Outcome<Person, NotFound> = one_outcome(Ok(Some(PgPerson { id: 8 })), "q".to_string());
    match o {
        Outcome::Success(p) => assert_eq!(p.id.get(), 8),
        _ => panic!("expected success"),
    }
}

#[test]
fn all_outcome_converts_every_row_in_order() {
    let rows = vec![PgPerson { id: 1 }, PgPerson { id: 2 }, PgPerson { id: 3 }];
    let o: Outcome<Vec<Person>, NotFound> = all_outcome(Ok(rows));
    match o {
        Outcome::Success(people) => {
            let ids: Vec<i32> = people.iter().map(|p| p.id.get()).collect();
            assert_eq!(ids, vec![1, 2, 3]);
        }
        _ => panic!("expected success"),
    }
}

#[test]
fn all_outcome_of_no_rows_is_empty() {
    let o: Outcome<Vec<Person>, NotFound> = all_outcome(Ok(Vec::<PgPerson>::new()));
    assert_eq!(o, Outcome::Success(Vec::new()));
}

#[test]
fn all_outcome_stops_at_the_first_bad_row() {
    let rows = vec![PgPerson { id: 1 }, PgPerson { id: 0 }, PgPerson { id: 0 }];
    let o: Outcome<Vec<Person>, NotFound> = all_outcome(Ok(rows));
    assert_eq!(o, Outcome::Unexpected(UnexpectedError::Conversion(ModelError::ZeroId(IdColumn::PersonRecord))));
}

#[test]
fn query_failure_message_names_the_query() {
    assert_eq!(UnexpectedError::Query(failure()).message(), "failed to fetch query SELECT 1");
    assert_eq!(
        UnexpectedError::Conversion(ModelError::NegativeSeconds).message(),
        "failed to convert i64 to seconds"
    );
}
