use user_store::config::ConnectionConfig;
use user_store::error::StoreError;
use user_store::run;
use user_store::sql::{
    delete_statement, init_statement, insert_statement, reset_statement, select_statement,
    update_statement, Projection,
};

const INIT: &str = "CREATE TABLE IF NOT EXISTS Users (id SERIAL PRIMARY KEY, name TEXT NOT NULL, email TEXT NOT NULL UNIQUE);";

#[test]
fn fixed_statements() {
    assert_eq!(init_statement(), INIT);
    assert_eq!(insert_statement(), "INSERT INTO Users (name, email) VALUES ($1, $2)");
    assert_eq!(update_statement(), "UPDATE Users SET name=$1, email=$2 WHERE email=$3");
    assert_eq!(delete_statement(), "DELETE FROM Users WHERE email=$1");
}

#[test]
fn reset_drops_recreates_and_restarts() {
    let expected = format!(
        "DROP TABLE Users; {} ALTER SEQUENCE Users_id_seq RESTART WITH 1;",
        INIT
    );
    assert_eq!(reset_statement(), expected);
}

#[test]
fn select_statements_per_projection() {
    assert_eq!(select_statement(Projection::AllColumns), "SELECT * FROM Users");
    assert_eq!(select_statement(Projection::IdNameEmail), "SELECT id, name, email FROM Users");
    assert_eq!(select_statement(Projection::Id), "SELECT id FROM Users");
    assert_eq!(select_statement(Projection::Name), "SELECT name FROM Users");
    assert_eq!(select_statement(Projection::Email), "SELECT email FROM Users");
}

#[test]
fn local_connection_string() {
    let c = ConnectionConfig::local();
    assert_eq!(
        c.connection_string(),
        "host=localhost user=devales dbname=tests sslmode=disable"
    );
}

#[test]
fn tls_connection_string() {
    let c = ConnectionConfig::new("db.example.com", "app", "prod", true);
    assert_eq!(c.host, "db.example.com");
    assert_eq!(
        c.connection_string(),
        "host=db.example.com user=app dbname=prod sslmode=require"
    );
}

#[test]
fn run_succeeds() {
    assert!(run().is_ok());
}

#[test]
fn error_kind_and_message() {
    let c = StoreError::Connection("refused".to_string());
    let q = StoreError::Query("duplicate".to_string());
    assert!(c.is_connection());
    assert!(!q.is_connection());
    assert_eq!(c.message(), "refused");
    assert_eq!(q.message(), "duplicate");
}
