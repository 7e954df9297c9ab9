use user_service::db::statement::Failure;
use user_service::db::table::UserTable;
use user_service::db::users::{
    create_outcome, create_user, delete_outcome, delete_user, get_outcome, get_user, list_outcome,
    list_users, Error,
};
use user_service::models::user::User;

fn user(username: &str, first_name: &str, last_name: &str, role: &str) -> User {
    User {
        username: username.to_string(),
        first_name: first_name.to_string(),
        last_name: last_name.to_string(),
        role: role.to_string(),
    }
}

fn failure(sqlstate: Option<&str>, message: &str) -> Failure {
    Failure { sqlstate: sqlstate.map(|code| code.to_string()), message: message.to_string() }
}

#[test]
fn test_create_user() {
    let mut tx = UserTable::new();

    let user = User {
        username: "test_user".to_string(),
        first_name: "Test".to_string(),
        last_name: "User".to_string(),
        role: "TestRole".to_string(),
    };

    let result = create_user(&mut tx, &user);
    assert!(result.is_ok());
}

#[test]
fn test_create_duplicate_user() {
    let mut tx = UserTable::new();

    let user = User {
        username: "duplicate_user".to_string(),
        first_name: "Jane".to_string(),
        last_name: "Smith".to_string(),
        role: "nurse".to_string(),
    };

    create_user(&mut tx, &user).expect("Failed to create first user");

    let result = create_user(&mut tx, &user);
    assert!(result.is_err());
}

#[test]
fn test_delete_user() {
    let mut tx = UserTable::new();

    let user = User {
        username: "user_to_delete".to_string(),
        first_name: "Delete".to_string(),
        last_name: "Me".to_string(),
        role: "admin".to_string(),
    };

    create_user(&mut tx, &user).expect("Failed to create user");

    let opt_user = get_user(&tx, &user.username);
    assert!(opt_user.unwrap().is_some());

    let result = delete_user(&mut tx, &user.username);
    assert!(
        result.is_ok(),
        "The result was not ok it was: {}",
        result.err().unwrap().message()
    );

    let opt_user = get_user(&tx, &user.username);
    assert!(opt_user.unwrap().is_none());
}

#[test]
fn test_delete_nonexistent_user() {
    let mut tx = UserTable::new();

    let result = delete_user(&mut tx, "nonexistent_user");
    assert!(result.is_err());

    match result {
        Err(Error::NotFound) => {}
        _ => panic!("Expected RowNotFound error"),
    }
}

#[test]
fn test_create_user_with_empty_optional_fields() {
    let mut tx = UserTable::new();

    let user = User {
        username: "minimal_user".to_string(),
        first_name: String::new(),
        last_name: String::new(),
        role: "user".to_string(),
    };

    let result = create_user(&mut tx, &user);
    assert!(result.is_ok());
}

#[test]
fn created_user_is_fetched_with_identical_fields() {
    let mut table = UserTable::new();
    create_user(&mut table, &user("carol", "Carol", "Jones", "doctor")).unwrap();
    create_user(&mut table, &user("dave", "Dave", "", "")).unwrap();

    let found = get_user(&table, "carol").unwrap();
    assert_eq!(found, Some(user("carol", "Carol", "Jones", "doctor")));
    let found = get_user(&table, "dave").unwrap();
    assert_eq!(found, Some(user("dave", "Dave", "", "")));
}

#[test]
fn duplicate_create_is_a_conflict_and_keeps_the_stored_user() {
    let mut table = UserTable::new();
    create_user(&mut table, &user("erin", "Erin", "Gray", "nurse")).unwrap();

    let second = create_user(&mut table, &user("erin", "Other", "Name", "admin"));
    match second {
        Err(Error::Conflict(message)) => assert_eq!(
            message,
            "duplicate key value violates unique constraint \"users_username_key\""
        ),
        other => panic!("expected a conflict, got {:?}", other),
    }

    assert_eq!(get_user(&table, "erin").unwrap(), Some(user("erin", "Erin", "Gray", "nurse")));
    assert_eq!(list_users(&table).unwrap(), vec![user("erin", "Erin", "Gray", "nurse")]);
}

#[test]
fn delete_succeeds_once_then_is_not_found() {
    let mut table = UserTable::new();
    create_user(&mut table, &user("frank", "", "", "user")).unwrap();

    assert!(matches!(delete_user(&mut table, "frank"), Ok(())));
    assert!(matches!(delete_user(&mut table, "frank"), Err(Error::NotFound)));
    assert!(matches!(delete_user(&mut table, "frank"), Err(Error::NotFound)));
}

#[test]
fn delete_of_a_username_never_created_is_not_found_and_changes_nothing() {
    let mut table = UserTable::new();
    create_user(&mut table, &user("gina", "G", "H", "user")).unwrap();

    assert!(matches!(delete_user(&mut table, "nobody"), Err(Error::NotFound)));
    assert_eq!(list_users(&table).unwrap(), vec![user("gina", "G", "H", "user")]);
}

#[test]
fn fetch_of_a_missing_username_is_absent_not_an_error() {
    let table = UserTable::new();
    assert!(matches!(get_user(&table, "nobody"), Ok(None)));

    let mut table = UserTable::new();
    create_user(&mut table, &user("henry", "", "", "user")).unwrap();
    assert!(matches!(get_user(&table, "henr"), Ok(None)));
    assert!(matches!(get_user(&table, "henry "), Ok(None)));
    assert!(matches!(get_user(&table, "Henry"), Ok(None)));
}

#[test]
fn fetch_does_not_change_the_table() {
    let mut table = UserTable::new();
    create_user(&mut table, &user("ivy", "I", "V", "user")).unwrap();
    let before = list_users(&table).unwrap();
    let _ = get_user(&table, "ivy").unwrap();
    let _ = get_user(&table, "nobody").unwrap();
    assert_eq!(list_users(&table).unwrap(), before);
}

#[test]
fn list_keeps_storage_order_across_deletes() {
    let mut table = UserTable::new();
    assert_eq!(list_users(&table).unwrap(), Vec::<User>::new());

    create_user(&mut table, &user("zed", "", "", "user")).unwrap();
    create_user(&mut table, &user("amy", "", "", "user")).unwrap();
    create_user(&mut table, &user("mia", "", "", "user")).unwrap();
    assert_eq!(
        list_users(&table).unwrap(),
        vec![user("zed", "", "", "user"), user("amy", "", "", "user"), user("mia", "", "", "user")]
    );

    delete_user(&mut table, "amy").unwrap();
    assert_eq!(
        list_users(&table).unwrap(),
        vec![user("zed", "", "", "user"), user("mia", "", "", "user")]
    );

    create_user(&mut table, &user("amy", "again", "", "user")).unwrap();
    assert_eq!(
        list_users(&table).unwrap(),
        vec![
            user("zed", "", "", "user"),
            user("mia", "", "", "user"),
            user("amy", "again", "", "user")
        ]
    );
}

#[test]
fn any_role_is_stored_as_given() {
    let mut table = UserTable::new();
    create_user(&mut table, &user("jo", "", "", "")).unwrap();
    create_user(&mut table, &user("kim", "", "", "Chief  Of Staff!")).unwrap();
    assert_eq!(get_user(&table, "jo").unwrap().unwrap().role, "");
    assert_eq!(get_user(&table, "kim").unwrap().unwrap().role, "Chief  Of Staff!");
}

#[test]
fn create_outcome_reads_every_success_as_ok() {
    assert!(matches!(create_outcome(Ok(1)), Ok(())));
    assert!(matches!(create_outcome(Ok(0)), Ok(())));
    assert!(matches!(create_outcome(Ok(u64::MAX)), Ok(())));
}

#[test]
fn create_outcome_reads_a_unique_violation_as_conflict() {
    match create_outcome(Err(failure(Some("23505"), "duplicate key"))) {
        Err(Error::Conflict(message)) => assert_eq!(message, "duplicate key"),
        other => panic!("expected a conflict, got {:?}", other),
    }
}

#[test]
fn create_outcome_reads_other_failures_as_storage_failure() {
    match create_outcome(Err(failure(Some("23502"), "null value in column"))) {
        Err(Error::StorageFailure(message)) => assert_eq!(message, "null value in column"),
        other => panic!("expected a storage failure, got {:?}", other),
    }
    match create_outcome(Err(failure(None, "pool timed out"))) {
        Err(Error::StorageFailure(message)) => assert_eq!(message, "pool timed out"),
        other => panic!("expected a storage failure, got {:?}", other),
    }
    match create_outcome(Err(failure(Some("2350"), "short code"))) {
        Err(Error::StorageFailure(message)) => assert_eq!(message, "short code"),
        other => panic!("expected a storage failure, got {:?}", other),
    }
    match create_outcome(Err(failure(Some("235050"), "long code"))) {
        Err(Error::StorageFailure(message)) => assert_eq!(message, "long code"),
        other => panic!("expected a storage failure, got {:?}", other),
    }
}

#[test]
fn delete_outcome_promotes_zero_rows_to_not_found() {
    assert!(matches!(delete_outcome(Ok(0)), Err(Error::NotFound)));
    assert!(matches!(delete_outcome(Ok(1)), Ok(())));
    assert!(matches!(delete_outcome(Ok(2)), Ok(())));
}

#[test]
fn delete_outcome_reads_every_failure_as_storage_failure() {
    match delete_outcome(Err(failure(Some("08006"), "connection failure"))) {
        Err(Error::StorageFailure(message)) => assert_eq!(message, "connection failure"),
        other => panic!("expected a storage failure, got {:?}", other),
    }
    match delete_outcome(Err(failure(Some("23505"), "unique"))) {
        Err(Error::StorageFailure(message)) => assert_eq!(message, "unique"),
        other => panic!("expected a storage failure, got {:?}", other),
    }
}

#[test]
fn get_outcome_passes_rows_through() {
    assert!(matches!(get_outcome(Ok(None)), Ok(None)));
    assert_eq!(
        get_outcome(Ok(Some(user("lena", "L", "M", "user")))).unwrap(),
        Some(user("lena", "L", "M", "user"))
    );
    match get_outcome(Err(failure(Some("42P01"), "relation does not exist"))) {
        Err(Error::StorageFailure(message)) => assert_eq!(message, "relation does not exist"),
        other => panic!("expected a storage failure, got {:?}", other),
    }
}

#[test]
fn list_outcome_passes_rows_through_in_order() {
    assert_eq!(list_outcome(Ok(Vec::new())).unwrap(), Vec::<User>::new());
    assert_eq!(
        list_outcome(Ok(vec![user("b", "", "", "user"), user("a", "", "", "user")])).unwrap(),
        vec![user("b", "", "", "user"), user("a", "", "", "user")]
    );
    match list_outcome(Err(failure(None, "connection refused"))) {
        Err(Error::StorageFailure(message)) => assert_eq!(message, "connection refused"),
        other => panic!("expected a storage failure, got {:?}", other),
    }
}

#[test]
fn error_message_is_the_diagnostic() {
    assert_eq!(Error::Conflict("taken".to_string()).message(), "taken");
    assert_eq!(Error::StorageFailure("down".to_string()).message(), "down");
    assert_eq!(Error::NotFound.message(), "no row matched the given username");
}

#[test]
fn user_equality_compares_every_field() {
    let base = user("n", "f", "l", "r");
    assert_eq!(base, base.clone());
    assert_ne!(base, user("x", "f", "l", "r"));
    assert_ne!(base, user("n", "x", "l", "r"));
    assert_ne!(base, user("n", "f", "x", "r"));
    assert_ne!(base, user("n", "f", "l", "x"));
}
