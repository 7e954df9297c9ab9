use user_service::db::statement::{Command, Failure, Query, UNIQUE_VIOLATION};
use user_service::db::users::{
    create_statement, delete_statement, get_statement, list_statement,
};
use user_service::models::user::User;

fn sample() -> User {
    User {
        username: "amy".to_string(),
        first_name: "Amy".to_string(),
        last_name: "Pond".to_string(),
        role: "nurse".to_string(),
    }
}

#[test]
fn insert_statement_text_and_parameters() {
    let command = create_statement(&sample());
    assert_eq!(
        command.sql(),
        "INSERT INTO users (username, first_name, last_name, role) VALUES ($1, $2, $3, $4)"
    );
    assert_eq!(command.parameters(), vec!["amy", "Amy", "Pond", "nurse"]);
    assert!(matches!(command, Command::InsertUser(ref row) if *row == sample()));
}

#[test]
fn delete_statement_text_and_parameters() {
    let command = delete_statement("amy");
    assert_eq!(command.sql(), "DELETE FROM users WHERE username = $1");
    assert_eq!(command.parameters(), vec!["amy"]);
    assert!(matches!(command, Command::DeleteUser(ref name) if name == "amy"));
}

#[test]
fn select_one_statement_text_and_parameters() {
    let query = get_statement("amy");
    assert_eq!(
        query.sql(),
        "SELECT username, first_name, last_name, role FROM users WHERE username = $1"
    );
    assert_eq!(query.parameters(), vec!["amy"]);
    assert!(matches!(query, Query::UserByName(ref name) if name == "amy"));
}

#[test]
fn select_all_statement_text_and_parameters() {
    let query = list_statement();
    assert_eq!(query.sql(), "SELECT username, first_name, last_name, role FROM users");
    assert_eq!(query.parameters(), Vec::<String>::new());
    assert!(matches!(query, Query::AllUsers));
}

#[test]
fn unique_violation_is_sqlstate_23505_only() {
    let with = |code: Option<&str>| Failure {
        sqlstate: code.map(|c| c.to_string()),
        message: String::new(),
    };
    assert_eq!(UNIQUE_VIOLATION, "23505");
    assert!(with(Some("23505")).is_unique_violation());
    assert!(!with(Some("23503")).is_unique_violation());
    assert!(!with(Some("23505 ")).is_unique_violation());
    assert!(!with(Some("")).is_unique_violation());
    assert!(!with(None).is_unique_violation());
}
