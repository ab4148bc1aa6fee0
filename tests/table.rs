use user_store::error::StoreError;
use user_store::sql::Projection;
use user_store::table::UserTable;

fn only_row(t: &UserTable) -> (i32, String, String) {
    let rows = t.select(Projection::IdNameEmail).unwrap();
    assert_eq!(rows.len(), 1);
    let r = &rows[0];
    (
        r.id.unwrap(),
        r.name.clone().unwrap(),
        r.email.clone().unwrap(),
    )
}

#[test]
fn select() {
    let mut db = UserTable::new();
    let rows = db.select(Projection::AllColumns).unwrap();

    assert_eq!(rows.len(), 0);
    db.reset().unwrap();
}

#[test]
fn insert() {
    let mut db = UserTable::new();
    let name = "Ferris";
    let email = "ferris@gmail.com";

    db.insert(name, email).unwrap();

    let rows = db.select(Projection::IdNameEmail).unwrap();
    assert_eq!(rows.len(), 1);
    for row in rows {
        let id: i32 = row.id.unwrap();
        let name: String = row.name.unwrap();
        let email: String = row.email.unwrap();

        assert_eq!(id, 1);
        assert_eq!(name, "Ferris");
        assert_eq!(email, "ferris@gmail.com");
    }

    db.reset().unwrap();
}

#[test]
fn update() {
    let mut db = UserTable::new();
    let name = "Frris";
    let email = "frris@gmail.com";

    db.insert(name, email).unwrap();
    db.update(email, "Ferris", "ferris@gmail.com").unwrap();

    let rows = db.select(Projection::IdNameEmail).unwrap();
    assert_eq!(rows.len(), 1);
    for row in rows {
        let id: i32 = row.id.unwrap();
        let name: String = row.name.unwrap();
        let email: String = row.email.unwrap();

        assert_eq!(id, 1);
        assert_eq!(name, "Ferris");
        assert_eq!(email, "ferris@gmail.com");
    }

    db.reset().unwrap();
}

#[test]
fn delete() {
    let mut db = UserTable::new();
    db.delete("*").unwrap();
    let rows = db.select(Projection::AllColumns).unwrap();

    assert_eq!(rows.len(), 0);
    db.reset().unwrap();
}

#[test]
fn reset_after_rows_reads_nothing() {
    let mut db = UserTable::new();
    db.insert("Ann", "ann@example.com").unwrap();
    db.insert("Bob", "bob@example.com").unwrap();
    db.reset().unwrap();
    assert_eq!(db.select(Projection::AllColumns).unwrap().len(), 0);
    assert_eq!(db.len(), 0);
}

#[test]
fn reset_restarts_ids_at_one() {
    let mut db = UserTable::new();
    db.insert("Ann", "ann@example.com").unwrap();
    db.insert("Bob", "bob@example.com").unwrap();
    db.reset().unwrap();
    db.insert("Cid", "cid@example.com").unwrap();
    assert_eq!(only_row(&db), (1, "Cid".to_string(), "cid@example.com".to_string()));
}

#[test]
fn ids_follow_the_sequence() {
    let mut db = UserTable::new();
    db.insert("Ann", "ann@example.com").unwrap();
    db.insert("Bob", "bob@example.com").unwrap();
    db.delete("ann@example.com").unwrap();
    db.insert("Cid", "cid@example.com").unwrap();
    let rows = db.select(Projection::Id).unwrap();
    let ids: Vec<i32> = rows.iter().map(|r| r.id.unwrap()).collect();
    assert_eq!(ids, vec![2, 3]);
}

#[test]
fn insert_update_select_gives_one_row() {
    let mut db = UserTable::new();
    db.insert("Ann", "ann@example.com").unwrap();
    db.update("ann@example.com", "Anne", "anne@example.com").unwrap();
    assert_eq!(db.len(), 1);
    assert_eq!(only_row(&db), (1, "Anne".to_string(), "anne@example.com".to_string()));
}

#[test]
fn update_keeping_the_email() {
    let mut db = UserTable::new();
    db.insert("Ann", "ann@example.com").unwrap();
    db.update("ann@example.com", "Anne", "ann@example.com").unwrap();
    assert_eq!(only_row(&db), (1, "Anne".to_string(), "ann@example.com".to_string()));
}

#[test]
fn duplicate_email_is_a_query_error() {
    let mut db = UserTable::new();
    db.insert("Ann", "same@example.com").unwrap();
    let r = db.insert("Other", "same@example.com");
    assert!(matches!(r, Err(StoreError::Query(_))));
    assert_eq!(db.len(), 1);
    assert_eq!(only_row(&db), (1, "Ann".to_string(), "same@example.com".to_string()));
}

#[test]
fn update_onto_taken_email_is_a_query_error() {
    let mut db = UserTable::new();
    db.insert("Ann", "ann@example.com").unwrap();
    db.insert("Bob", "bob@example.com").unwrap();
    let r = db.update("ann@example.com", "Ann", "bob@example.com");
    assert!(matches!(r, Err(StoreError::Query(_))));
    let rows = db.select(Projection::Email).unwrap();
    let emails: Vec<String> = rows.into_iter().map(|r| r.email.unwrap()).collect();
    assert_eq!(emails, vec!["ann@example.com".to_string(), "bob@example.com".to_string()]);
}

#[test]
fn update_without_match_changes_nothing() {
    let mut db = UserTable::new();
    db.insert("Ann", "ann@example.com").unwrap();
    db.update("nobody@example.com", "X", "x@example.com").unwrap();
    assert_eq!(only_row(&db), (1, "Ann".to_string(), "ann@example.com".to_string()));
}

#[test]
fn delete_missing_email_keeps_row_count() {
    let mut db = UserTable::new();
    db.insert("Ann", "ann@example.com").unwrap();
    db.insert("Bob", "bob@example.com").unwrap();
    db.delete("nobody@example.com").unwrap();
    assert_eq!(db.len(), 2);
}

#[test]
fn delete_removes_only_the_match() {
    let mut db = UserTable::new();
    db.insert("Ann", "ann@example.com").unwrap();
    db.insert("Bob", "bob@example.com").unwrap();
    db.insert("Cid", "cid@example.com").unwrap();
    db.delete("bob@example.com").unwrap();
    let rows = db.select(Projection::Name).unwrap();
    let names: Vec<String> = rows.into_iter().map(|r| r.name.unwrap()).collect();
    assert_eq!(names, vec!["Ann".to_string(), "Cid".to_string()]);
}

#[test]
fn ferris_end_to_end() {
    let mut db = UserTable::new();
    db.insert("Ferris", "ferris@gmail.com").unwrap();
    db.update("ferris@gmail.com", "Ferris2", "ferris2@gmail.com").unwrap();
    assert_eq!(only_row(&db), (1, "Ferris2".to_string(), "ferris2@gmail.com".to_string()));
}

#[test]
fn projections_leave_out_columns() {
    let mut db = UserTable::new();
    db.insert("Ann", "ann@example.com").unwrap();
    let all = db.select(Projection::AllColumns).unwrap();
    assert_eq!(all[0].id, Some(1));
    assert_eq!(all[0].name, Some("Ann".to_string()));
    assert_eq!(all[0].email, Some("ann@example.com".to_string()));
    let names = db.select(Projection::Name).unwrap();
    assert_eq!(names[0].id, None);
    assert_eq!(names[0].name, Some("Ann".to_string()));
    assert_eq!(names[0].email, None);
    let ids = db.select(Projection::Id).unwrap();
    assert_eq!(ids[0].id, Some(1));
    assert_eq!(ids[0].name, None);
}
