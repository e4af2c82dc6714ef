use relay_bot::db::{
    ban, ban_outcome, ban_statement, banned_outcome, classify_code, get_from_message_id,
    insert_into, insert_outcome, insert_statement, is_banned, lookup_outcome, InsertValues,
    Selected, Stepped, StorageError, CREATE_BAN_TABLE_STATEMENT, CREATE_MESSAGE_TABLE_STATEMENT,
    SELECT_BAN_STATEMENT, SELECT_MESSAGE_STATEMENT, SQLITE_CONSTRAINT,
};

fn open_store() -> sqlite::ConnectionThreadSafe {
    let db = sqlite::Connection::open_thread_safe(":memory:").unwrap();
    db.execute(CREATE_MESSAGE_TABLE_STATEMENT).unwrap();
    db.execute(CREATE_BAN_TABLE_STATEMENT).unwrap();
    db
}

fn open_empty() -> sqlite::ConnectionThreadSafe {
    sqlite::Connection::open_thread_safe(":memory:").unwrap()
}

#[test]
fn recorded_message_is_found_again() {
    let db = open_store();
    let values = InsertValues { message_id: 501, user_id: 42, dm_message_id: 7 };
    assert_eq!(insert_into(&db, values), Ok(()));
    assert_eq!(get_from_message_id(&db, 501), Ok(Some((42, 7))));
}

#[test]
fn every_recorded_message_is_found_under_its_own_key() {
    let db = open_store();
    for g in 1..=50i64 {
        let values = InsertValues { message_id: g, user_id: 1000 + g, dm_message_id: -g };
        assert_eq!(insert_into(&db, values), Ok(()));
    }
    for g in 1..=50i64 {
        assert_eq!(get_from_message_id(&db, g), Ok(Some((1000 + g, -g))));
    }
}

#[test]
fn unrecorded_message_is_not_found() {
    let db = open_store();
    assert_eq!(get_from_message_id(&db, 501), Ok(None));
    insert_into(&db, InsertValues { message_id: 501, user_id: 42, dm_message_id: 7 }).unwrap();
    assert_eq!(get_from_message_id(&db, 502), Ok(None));
    assert_eq!(get_from_message_id(&db, 42), Ok(None));
    assert_eq!(get_from_message_id(&db, 7), Ok(None));
}

#[test]
fn extreme_identifiers_round_trip() {
    let db = open_store();
    let values = InsertValues { message_id: i64::MIN, user_id: i64::MAX, dm_message_id: i64::MIN };
    assert_eq!(insert_into(&db, values), Ok(()));
    assert_eq!(get_from_message_id(&db, i64::MIN), Ok(Some((i64::MAX, i64::MIN))));
    let values = InsertValues { message_id: i64::MAX, user_id: 0, dm_message_id: -1 };
    assert_eq!(insert_into(&db, values), Ok(()));
    assert_eq!(get_from_message_id(&db, i64::MAX), Ok(Some((0, -1))));
}

#[test]
fn second_record_under_a_used_key_is_a_conflict() {
    let db = open_store();
    let first = InsertValues { message_id: 501, user_id: 42, dm_message_id: 7 };
    let second = InsertValues { message_id: 501, user_id: 43, dm_message_id: 8 };
    assert_eq!(insert_into(&db, first), Ok(()));
    assert_eq!(insert_into(&db, second), Err(StorageError::Conflict));
    assert_eq!(get_from_message_id(&db, 501), Ok(Some((42, 7))));
}

#[test]
fn same_record_twice_is_a_conflict_too() {
    let db = open_store();
    let values = InsertValues { message_id: 501, user_id: 42, dm_message_id: 7 };
    assert_eq!(insert_into(&db, values), Ok(()));
    assert_eq!(insert_into(&db, values), Err(StorageError::Conflict));
    assert_eq!(get_from_message_id(&db, 501), Ok(Some((42, 7))));
}

#[test]
fn banned_user_stays_banned() {
    let db = open_store();
    assert_eq!(is_banned(&db, 42), Ok(false));
    assert_eq!(ban(&db, 42), Ok(()));
    assert_eq!(is_banned(&db, 42), Ok(true));
    assert_eq!(is_banned(&db, 42), Ok(true));
    assert_eq!(ban(&db, 42), Ok(()));
    assert_eq!(is_banned(&db, 42), Ok(true));
}

#[test]
fn ban_is_for_one_user_only() {
    let db = open_store();
    assert_eq!(ban(&db, 42), Ok(()));
    assert_eq!(is_banned(&db, 43), Ok(false));
    assert_eq!(is_banned(&db, -42), Ok(false));
    assert_eq!(ban(&db, -42), Ok(()));
    assert_eq!(is_banned(&db, -42), Ok(true));
}

#[test]
fn missing_tables_are_an_io_failure() {
    let db = open_empty();
    let values = InsertValues { message_id: 501, user_id: 42, dm_message_id: 7 };
    assert_eq!(get_from_message_id(&db, 501), Err(StorageError::IO));
    assert_eq!(insert_into(&db, values), Err(StorageError::IO));
    assert_eq!(is_banned(&db, 42), Err(StorageError::IO));
    assert_eq!(ban(&db, 42), Err(StorageError::IO));
}

#[test]
fn result_codes_are_classified_by_their_low_byte() {
    assert_eq!(SQLITE_CONSTRAINT, 19);
    assert_eq!(classify_code(Some(19)), StorageError::Conflict);
    assert_eq!(classify_code(Some(1555)), StorageError::Conflict);
    assert_eq!(classify_code(Some(2067)), StorageError::Conflict);
    assert_eq!(classify_code(Some(275)), StorageError::Conflict);
    assert_eq!(classify_code(Some(1)), StorageError::IO);
    assert_eq!(classify_code(Some(0)), StorageError::IO);
    assert_eq!(classify_code(Some(18)), StorageError::IO);
    assert_eq!(classify_code(Some(20)), StorageError::IO);
    assert_eq!(classify_code(Some(10)), StorageError::IO);
    assert_eq!(classify_code(Some(-19)), StorageError::IO);
    assert_eq!(classify_code(Some(-237)), StorageError::IO);
    assert_eq!(classify_code(None), StorageError::IO);
}

#[test]
fn insert_outcome_keeps_the_conflict() {
    assert_eq!(insert_outcome(Ok(())), Ok(()));
    assert_eq!(insert_outcome(Err(Some(19))), Err(StorageError::Conflict));
    assert_eq!(insert_outcome(Err(Some(1555))), Err(StorageError::Conflict));
    assert_eq!(insert_outcome(Err(Some(14))), Err(StorageError::IO));
    assert_eq!(insert_outcome(Err(None)), Err(StorageError::IO));
}

#[test]
fn ban_outcome_swallows_the_conflict() {
    assert_eq!(ban_outcome(Ok(())), Ok(()));
    assert_eq!(ban_outcome(Err(Some(19))), Ok(()));
    assert_eq!(ban_outcome(Err(Some(1555))), Ok(()));
    assert_eq!(ban_outcome(Err(Some(14))), Err(StorageError::IO));
    assert_eq!(ban_outcome(Err(None)), Err(StorageError::IO));
}

#[test]
fn insert_statement_is_a_plain_insert() {
    let values = InsertValues { message_id: 501, user_id: 42, dm_message_id: 7 };
    assert_eq!(insert_statement(&values), "INSERT INTO forwards VALUES (501, 42, 7)");
    let values = InsertValues { message_id: -1, user_id: 0, dm_message_id: i64::MIN };
    assert_eq!(
        insert_statement(&values),
        "INSERT INTO forwards VALUES (-1, 0, -9223372036854775808)"
    );
}

#[test]
fn ban_statement_names_the_user() {
    assert_eq!(ban_statement(42), "INSERT INTO bans VALUES (42)");
    assert_eq!(ban_statement(-1001234567890), "INSERT INTO bans VALUES (-1001234567890)");
    assert_eq!(ban_statement(i64::MAX), "INSERT INTO bans VALUES (9223372036854775807)");
}

#[test]
fn statements_agree_with_std_formatting() {
    for n in [0i64, 1, -1, 9, 10, 11, 99, 100, 101, -100, 4096, i64::MAX, i64::MIN] {
        let values = InsertValues { message_id: n, user_id: -n.saturating_abs(), dm_message_id: n / 3 };
        assert_eq!(
            insert_statement(&values),
            format!(
                "INSERT INTO forwards VALUES ({}, {}, {})",
                values.message_id, values.user_id, values.dm_message_id
            )
        );
        assert_eq!(ban_statement(n), format!("INSERT INTO bans VALUES ({})", n));
    }
}

#[test]
fn lookup_outcome_wants_the_whole_row() {
    assert_eq!(lookup_outcome(Selected::Nothing), Ok(None));
    assert_eq!(lookup_outcome(Selected::Failed), Err(StorageError::IO));
    assert_eq!(
        lookup_outcome(Selected::Row { user_id: Some(42), dm_message_id: Some(7) }),
        Ok(Some((42, 7)))
    );
    assert_eq!(
        lookup_outcome(Selected::Row { user_id: Some(7), dm_message_id: Some(42) }),
        Ok(Some((7, 42)))
    );
    assert_eq!(
        lookup_outcome(Selected::Row { user_id: Some(0), dm_message_id: Some(i64::MIN) }),
        Ok(Some((0, i64::MIN)))
    );
    assert_eq!(
        lookup_outcome(Selected::Row { user_id: None, dm_message_id: Some(7) }),
        Err(StorageError::IO)
    );
    assert_eq!(
        lookup_outcome(Selected::Row { user_id: Some(42), dm_message_id: None }),
        Err(StorageError::IO)
    );
    assert_eq!(
        lookup_outcome(Selected::Row { user_id: None, dm_message_id: None }),
        Err(StorageError::IO)
    );
}

#[test]
fn banned_outcome_follows_the_row() {
    assert_eq!(banned_outcome(Some(Stepped::Row)), Ok(true));
    assert_eq!(banned_outcome(Some(Stepped::Done)), Ok(false));
    assert_eq!(banned_outcome(None), Err(StorageError::IO));
}

#[test]
fn selects_are_keyed_by_one_parameter() {
    assert_eq!(
        SELECT_MESSAGE_STATEMENT,
        "select user_id, dm_message_id from forwards where message_id = ?"
    );
    assert_eq!(SELECT_BAN_STATEMENT, "SELECT 1 FROM bans WHERE user_id = ?");
}

#[test]
fn lookup_reads_the_columns_by_name() {
    let db = sqlite::Connection::open_thread_safe(":memory:").unwrap();
    db.execute("CREATE TABLE forwards (dm_message_id INTEGER, user_id INTEGER, message_id INTEGER PRIMARY KEY)")
        .unwrap();
    db.execute("INSERT INTO forwards (message_id, user_id, dm_message_id) VALUES (501, 42, 7)")
        .unwrap();
    assert_eq!(get_from_message_id(&db, 501), Ok(Some((42, 7))));
}
