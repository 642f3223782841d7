use chrono::{DateTime, Local};
use password_manager::cloud::{credentials_from_settings, disable, enable, is_enabled};
use password_manager::convert::{row_to_content, row_to_record, RowError};
use password_manager::database::{
    add_data_breach_cache, content_saved, delete_data_breach_cache_older_24h, delete_setting,
    get_all_content_for_record, get_all_passwords_for_record, get_all_records, get_content,
    get_data_breach_status, get_setting, record_saved, save_content, save_record, save_setting,
    Statement,
};
use password_manager::error::{StoreError, SyncError, ValidationError};
use password_manager::kind::ValueKind;
use password_manager::model::{Category, Content, Record, Timestamp, Value};
use password_manager::sql::{change_key, open, verdict, Param, Step};
use password_manager::transaction::{Transaction, TxAction};
use rusqlite::{params_from_iter, Connection, OptionalExtension, Row, ToSql};

fn moment(dt: DateTime<Local>) -> Timestamp {
    Timestamp { seconds: dt.timestamp(), nanos: dt.timestamp_subsec_nanos() }
}

fn bind(param: &Param) -> Box<dyn ToSql> {
    match param {
        Param::Id(id) => Box::new(*id as i64),
        Param::Position(position) => Box::new(*position),
        Param::Flag(flag) => Box::new(*flag),
        Param::Seconds(seconds) => Box::new(*seconds),
        Param::Moment(t) => Box::new(
            DateTime::from_timestamp(t.seconds, t.nanos).unwrap().with_timezone(&Local),
        ),
        Param::Text(text) => Box::new(text.expose_secret().to_string()),
    }
}

fn run(connection: &Connection, statement: &Statement) -> rusqlite::Result<usize> {
    let params: Vec<Box<dyn ToSql>> = statement.params().iter().map(bind).collect();
    connection.execute(statement.sql(), params_from_iter(params.iter()))
}

fn run_steps(connection: &Connection, steps: &[Step]) -> Result<(), StoreError> {
    for step in steps {
        let succeeded = connection.execute_batch(step.sql.expose_secret()).is_ok();
        if let Some(error) = verdict(step, succeeded) {
            return Err(error);
        }
    }
    Ok(())
}

fn unlock(connection: &Connection, passphrase: &str) -> Result<(), StoreError> {
    run_steps(connection, &open(passphrase)?)
}

fn vault() -> Connection {
    let connection = Connection::open_in_memory().unwrap();
    unlock(&connection, "pw1").unwrap();
    connection
}

fn run_transaction(connection: &Connection, transaction: &Transaction) -> Result<(), StoreError> {
    let (mut stage, mut action) = transaction.start();
    loop {
        let succeeded = match action {
            TxAction::Begin => connection.execute_batch("BEGIN;").is_ok(),
            TxAction::Run(index) => run(connection, &transaction.statements()[index]).is_ok(),
            TxAction::Commit => connection.execute_batch("COMMIT;").is_ok(),
            TxAction::Rollback => connection.execute_batch("ROLLBACK;").is_ok(),
            TxAction::Finish(result) => return result,
        };
        (stage, action) = transaction.step(stage, succeeded);
    }
}

fn content_row(row: &Row) -> rusqlite::Result<Result<Content, RowError>> {
    Ok(row_to_content(
        row.get::<_, i64>(0)? as u64,
        row.get(1)?,
        row.get(2)?,
        row.get(3)?,
        row.get(4)?,
        row.get(5)?,
    ))
}

fn record_row(row: &Row) -> rusqlite::Result<Record> {
    Ok(row_to_record(
        row.get::<_, i64>(0)? as u64,
        row.get(1)?,
        row.get(2)?,
        moment(row.get(3)?),
        moment(row.get(4)?),
        row.get(5)?,
    ))
}

fn query_content(connection: &Connection, statement: &Statement) -> Vec<Result<Content, RowError>> {
    let params: Vec<Box<dyn ToSql>> = statement.params().iter().map(bind).collect();
    let mut prepared = connection.prepare(statement.sql()).unwrap();
    let rows = prepared.query_map(params_from_iter(params.iter()), content_row).unwrap();
    rows.map(|row| row.unwrap()).collect()
}

fn query_records(connection: &Connection) -> Vec<Record> {
    let statement = get_all_records();
    let mut prepared = connection.prepare(statement.sql()).unwrap();
    let rows = prepared.query_map([], record_row).unwrap();
    rows.map(|row| row.unwrap()).collect()
}

fn query_text(connection: &Connection, statement: &Statement) -> Vec<String> {
    let params: Vec<Box<dyn ToSql>> = statement.params().iter().map(bind).collect();
    let mut prepared = connection.prepare(statement.sql()).unwrap();
    let rows = prepared.query_map(params_from_iter(params.iter()), |row| row.get(0)).unwrap();
    rows.map(|row| row.unwrap()).collect()
}

fn breach_status(connection: &Connection, hash: &str) -> Option<bool> {
    let statement = get_data_breach_status(hash);
    let params: Vec<Box<dyn ToSql>> = statement.params().iter().map(bind).collect();
    connection
        .query_row(statement.sql(), params_from_iter(params.iter()), |row| row.get(0))
        .optional()
        .unwrap()
}

fn store_record(connection: &Connection, record: &mut Record, now: Timestamp) {
    let statement = save_record(record, now);
    run(connection, &statement).unwrap();
    record_saved(record, connection.last_insert_rowid());
}

fn store_content(connection: &Connection, record: u64, content: &mut Content) {
    let statement = save_content(record, content);
    run(connection, &statement).unwrap();
    content_saved(content, connection.last_insert_rowid());
}

fn field(label: &str, position: u32, kind: ValueKind, text: &str) -> Content {
    Content::new(
        label.to_string(),
        position,
        true,
        Value::construct(kind, text.to_string()).unwrap(),
    )
}

const T1: Timestamp = Timestamp { seconds: 1_700_000_000, nanos: 123_000_000 };
const T2: Timestamp = Timestamp { seconds: 1_700_000_600, nanos: 0 };

#[test]
fn saving_a_new_record_gives_it_an_id_and_stamps_it() {
    let connection = vault();
    let mut record = Record::new("Bank".to_string(), "Account".to_string(), Category::BankCard);
    record.set_created(T1);
    assert_eq!(record.id(), 0);
    store_record(&connection, &mut record, T2);
    assert_ne!(record.id(), 0);
    assert_eq!(record.last_modified(), T2);
    let stored = query_records(&connection);
    assert_eq!(stored.len(), 1);
    assert_eq!(stored[0], record);
    assert_eq!(stored[0].created(), T1);
}

#[test]
fn saving_a_stored_record_updates_its_row_and_keeps_its_creation_time() {
    let connection = vault();
    let mut record = Record::new("Bank".to_string(), "Account".to_string(), Category::BankCard);
    record.set_created(T1);
    store_record(&connection, &mut record, T1);
    let id = record.id();
    let mut edited = Record::new("Bank 2".to_string(), "Savings".to_string(), Category::Note);
    edited.set_id(id);
    edited.set_created(T2);
    store_record(&connection, &mut edited, T2);
    assert_eq!(edited.id(), id);
    let stored = query_records(&connection);
    assert_eq!(stored.len(), 1);
    assert_eq!(stored[0].title(), "Bank 2");
    assert_eq!(stored[0].subtitle(), "Savings");
    assert_eq!(stored[0].category(), &Category::Note);
    assert_eq!(stored[0].created(), T1);
    assert_eq!(stored[0].last_modified(), T2);
}

#[test]
fn content_of_every_kind_is_read_back_as_it_was_saved() {
    let connection = vault();
    let mut record =
        Record::new("All".to_string(), "".to_string(), Category::Other("All".to_string()));
    store_record(&connection, &mut record, T1);
    let mut fields = vec![
        field("n", 1, ValueKind::Number, "-42"),
        field("t", 2, ValueKind::Text, "text"),
        field("l", 3, ValueKind::LongText, "long\ntext"),
        field("s", 4, ValueKind::SensitiveText, "hidden"),
        field("d", 5, ValueKind::Date, "2021-01-01"),
        field("p", 6, ValueKind::Password, "it's a secret"),
        field("o", 7, ValueKind::TOTPSecret, "rfffmaz4jsjq3qurwhzna2wljastmywv"),
        field("u", 8, ValueKind::Url, "https://example.com"),
        field("e", 9, ValueKind::Email, "a@example.com"),
        field("h", 10, ValueKind::PhoneNumber, "+14152370800"),
        field("c", 11, ValueKind::BankCardNumber, "4111111111111111"),
    ];
    for content in fields.iter_mut() {
        store_content(&connection, record.id(), content);
        assert_ne!(content.id(), 0);
    }
    let read = query_content(&connection, &get_all_content_for_record(record.id()));
    assert_eq!(read.len(), fields.len());
    for (read, saved) in read.into_iter().zip(fields.iter()) {
        assert_eq!(&read.unwrap(), saved);
    }
    let one = query_content(&connection, &get_content(fields[5].id()));
    assert_eq!(one.len(), 1);
    assert_eq!(one[0].as_ref().unwrap(), &fields[5]);
    let passwords = query_text(&connection, &get_all_passwords_for_record(record.id()));
    assert_eq!(passwords, vec!["it's a secret".to_string()]);
}

#[test]
fn saving_stored_content_updates_its_row() {
    let connection = vault();
    let mut record = Record::new("r".to_string(), "".to_string(), Category::Login);
    store_record(&connection, &mut record, T1);
    let mut content = field("User", 2, ValueKind::Text, "me");
    store_content(&connection, record.id(), &mut content);
    let id = content.id();
    let mut edited = Content::new(
        "Login".to_string(),
        5,
        false,
        Value::construct(ValueKind::Email, "me@example.com".to_string()).unwrap(),
    );
    edited.set_id(id);
    store_content(&connection, 999, &mut edited);
    assert_eq!(edited.id(), id);
    let read = query_content(&connection, &get_all_content_for_record(record.id()));
    assert_eq!(read.len(), 1);
    assert_eq!(read[0].as_ref().unwrap(), &edited);
}

#[test]
fn bad_card_number_never_reaches_the_store() {
    let connection = vault();
    let mut record = Record::new("Bank".to_string(), "".to_string(), Category::BankCard);
    store_record(&connection, &mut record, T1);
    assert_ne!(record.id(), 0);
    let mut good = field("Card number", 1, ValueKind::BankCardNumber, "4111111111111111");
    store_content(&connection, record.id(), &mut good);
    assert_ne!(good.id(), 0);
    assert_eq!(
        Value::construct(ValueKind::BankCardNumber, "4111111111111112".to_string()),
        Err(ValidationError::CardInvalidLuhn)
    );
}

#[test]
fn a_row_of_unknown_kind_is_an_error_and_not_dropped() {
    let connection = vault();
    let record = record_with_content(&connection, 0);
    connection
        .execute(
            "INSERT INTO Content (label, position, required, kind, value, id_record) \
             VALUES ('l', 1, 0, 'Datetime', 'x', ?1), ('m', 2, 0, 'Number', '1.5', ?1), \
             ('n', 3, 0, 'Number', '15', ?1);",
            [record.id() as i64],
        )
        .unwrap();
    let read = query_content(&connection, &get_all_content_for_record(record.id()));
    assert_eq!(read.len(), 3);
    assert_eq!(read[0], Err(RowError::UnknownKind));
    assert_eq!(read[1], Err(RowError::InvalidValue(ValidationError::InvalidNumber)));
    assert_eq!(read[2].as_ref().unwrap().value().as_str(), "15");
}

fn record_with_content(connection: &Connection, count: u32) -> Record {
    let mut record = Record::new("r".to_string(), "".to_string(), Category::Login);
    store_record(connection, &mut record, T1);
    for position in 1..=count {
        let mut content = field("f", position, ValueKind::Text, "x");
        store_content(connection, record.id(), &mut content);
    }
    record
}

#[test]
fn deleting_a_record_deletes_its_content_and_nothing_else() {
    let connection = vault();
    let doomed = record_with_content(&connection, 3);
    let other = record_with_content(&connection, 2);
    let id = doomed.id();
    assert_eq!(run_transaction(&connection, &Transaction::delete_record(doomed)), Ok(()));
    assert_eq!(query_content(&connection, &get_all_content_for_record(id)).len(), 0);
    assert_eq!(query_content(&connection, &get_all_content_for_record(other.id())).len(), 2);
    let left = query_records(&connection);
    assert_eq!(left.len(), 1);
    assert_eq!(left[0].id(), other.id());
}

#[test]
fn a_failed_delete_of_a_record_leaves_all_of_its_content() {
    let connection = vault();
    let doomed = record_with_content(&connection, 3);
    let id = doomed.id();
    connection
        .execute_batch(
            "CREATE TRIGGER keep BEFORE DELETE ON Record BEGIN SELECT RAISE(ABORT, 'kept'); END;",
        )
        .unwrap();
    assert_eq!(
        run_transaction(&connection, &Transaction::delete_record(doomed)),
        Err(StoreError::DeleteRecord)
    );
    assert_eq!(query_content(&connection, &get_all_content_for_record(id)).len(), 3);
    assert_eq!(query_records(&connection).len(), 1);
    assert!(connection.is_autocommit());
}

#[test]
fn a_failed_delete_of_content_leaves_the_record_as_it_was() {
    let connection = vault();
    let doomed = record_with_content(&connection, 3);
    let id = doomed.id();
    connection
        .execute_batch(
            "CREATE TRIGGER keep BEFORE DELETE ON Content BEGIN SELECT RAISE(ABORT, 'kept'); END;",
        )
        .unwrap();
    assert_eq!(
        run_transaction(&connection, &Transaction::delete_record(doomed)),
        Err(StoreError::DeleteRecordContent)
    );
    assert_eq!(query_content(&connection, &get_all_content_for_record(id)).len(), 3);
    assert_eq!(query_records(&connection).len(), 1);
    assert!(connection.is_autocommit());
}

#[test]
fn deleting_one_field_leaves_the_others() {
    let connection = vault();
    let record = record_with_content(&connection, 3);
    let mut fields = query_content(&connection, &get_all_content_for_record(record.id()));
    let doomed = fields.remove(1).unwrap();
    let gone = doomed.id();
    assert_eq!(run_transaction(&connection, &Transaction::delete_content(doomed)), Ok(()));
    let left = query_content(&connection, &get_all_content_for_record(record.id()));
    assert_eq!(left.len(), 2);
    assert!(left.iter().all(|content| content.as_ref().unwrap().id() != gone));
}

#[test]
fn settings_are_saved_replaced_and_deleted() {
    let connection = vault();
    let read = |name: &str| query_text(&connection, &get_setting(name)).pop();
    assert_eq!(read("cloud_address"), None);
    run(&connection, &save_setting("cloud_address", "host:22")).unwrap();
    run(&connection, &save_setting("cloud_username", "me")).unwrap();
    assert_eq!(read("cloud_address"), Some("host:22".to_string()));
    run(&connection, &save_setting("cloud_address", "other:22")).unwrap();
    assert_eq!(read("cloud_address"), Some("other:22".to_string()));
    assert_eq!(read("cloud_username"), Some("me".to_string()));
    run(&connection, &delete_setting("cloud_address")).unwrap();
    assert_eq!(read("cloud_address"), None);
    assert_eq!(read("cloud_username"), Some("me".to_string()));
}

#[test]
fn breach_verdicts_older_than_a_day_are_purged() {
    let connection = vault();
    let now = 1_700_000_000;
    run(&connection, &add_data_breach_cache("OLD", true, now - 86_401)).unwrap();
    run(&connection, &add_data_breach_cache("EDGE", true, now - 86_400)).unwrap();
    run(&connection, &add_data_breach_cache("NEW", false, now - 60)).unwrap();
    assert_eq!(breach_status(&connection, "OLD"), Some(true));
    assert_eq!(breach_status(&connection, "EDGE"), Some(true));
    assert_eq!(breach_status(&connection, "NEW"), Some(false));
    assert_eq!(breach_status(&connection, "NONE"), None);
    run(&connection, &delete_data_breach_cache_older_24h(now)).unwrap();
    assert_eq!(breach_status(&connection, "OLD"), None);
    assert_eq!(breach_status(&connection, "EDGE"), Some(true));
    assert_eq!(breach_status(&connection, "NEW"), Some(false));
    run(&connection, &add_data_breach_cache("NEW", true, now)).unwrap();
    assert_eq!(breach_status(&connection, "NEW"), Some(true));
}

#[test]
fn the_purge_statement_saturates() {
    assert_eq!(
        delete_data_breach_cache_older_24h(i64::MIN + 5),
        Statement::PurgeBreachCache { cutoff: i64::MIN }
    );
    assert_eq!(
        delete_data_breach_cache_older_24h(86_400),
        Statement::PurgeBreachCache { cutoff: 0 }
    );
}

#[test]
fn a_blank_passphrase_is_refused() {
    assert_eq!(open(""), Err(StoreError::EmptyPassword));
    assert_eq!(open(" \t"), Err(StoreError::EmptyPassword));
    assert_eq!(change_key("\n"), Err(StoreError::EmptyPassword));
    assert_eq!(StoreError::EmptyPassword.message(), "Password can not be empty");
}

#[test]
fn the_key_is_quoted() {
    let steps = open("pw1").unwrap();
    assert_eq!(steps.len(), 5);
    assert_eq!(steps[0].sql.expose_secret(), "PRAGMA key = 'pw1';");
    assert_eq!(steps[0].failure, Some(StoreError::UnlockFailed));
    assert_eq!(steps[1].failure, None);
    assert_eq!(steps[2].failure, Some(StoreError::InvalidPassword));
    assert_eq!(steps[3].failure, Some(StoreError::MemorySecurity));
    assert_eq!(steps[4].failure, Some(StoreError::CreateFailed));
    let steps = open("it's; DROP TABLE Record").unwrap();
    assert_eq!(steps[0].sql.expose_secret(), "PRAGMA key = 'it''s; DROP TABLE Record';");
    assert_eq!(change_key("a'b").unwrap().sql.expose_secret(), "PRAGMA rekey = 'a''b';");
}

#[test]
fn a_vault_opens_only_with_its_passphrase() {
    let nanos = std::time::SystemTime::now()
        .duration_since(std::time::UNIX_EPOCH)
        .unwrap()
        .as_nanos();
    let path = format!("/tmp/vault-{}.password_manager", nanos);
    {
        let connection = Connection::open(&path).unwrap();
        assert_eq!(unlock(&connection, "pw1"), Ok(()));
        let mut record = Record::new("Bank".to_string(), "".to_string(), Category::BankCard);
        store_record(&connection, &mut record, T1);
        assert_ne!(record.id(), 0);
    }
    {
        let connection = Connection::open(&path).unwrap();
        assert_eq!(unlock(&connection, "pw2"), Err(StoreError::InvalidPassword));
        assert_eq!(StoreError::InvalidPassword.message(), "Invalid password");
    }
    {
        let connection = Connection::open(&path).unwrap();
        assert_eq!(unlock(&connection, "pw1"), Ok(()));
        assert_eq!(query_records(&connection).len(), 1);
        let step = change_key("it's new").unwrap();
        assert_eq!(run_steps(&connection, &[step]), Ok(()));
    }
    {
        let connection = Connection::open(&path).unwrap();
        assert_eq!(unlock(&connection, "pw1"), Err(StoreError::InvalidPassword));
    }
    {
        let connection = Connection::open(&path).unwrap();
        assert_eq!(unlock(&connection, "it's new"), Ok(()));
        assert_eq!(query_records(&connection).len(), 1);
        connection.execute_batch("DROP TABLE Record; DROP TABLE Content;").unwrap();
    }
}

#[test]
fn content_goes_with_its_record() {
    let connection = vault();
    let doomed = record_with_content(&connection, 2);
    let other = record_with_content(&connection, 1);
    run(&connection, &Statement::DeleteRecord { id: doomed.id() }).unwrap();
    assert_eq!(query_content(&connection, &get_all_content_for_record(doomed.id())).len(), 0);
    assert_eq!(query_content(&connection, &get_all_content_for_record(other.id())).len(), 1);
}

#[test]
fn content_needs_its_record() {
    let connection = vault();
    let content = field("f", 1, ValueKind::Text, "x");
    assert!(run(&connection, &save_content(999, &content)).is_err());
    assert_eq!(query_content(&connection, &get_all_content_for_record(999)).len(), 0);
}

#[test]
fn synchronisation_is_switched_on_and_off_in_the_settings() {
    let connection = vault();
    let read = |name: &str| query_text(&connection, &get_setting(name)).pop();
    assert!(!is_enabled(read("cloud_enabled").as_deref()));
    for statement in enable(Ok(()), "host:22", "me", "secret").unwrap() {
        run(&connection, &statement).unwrap();
    }
    assert!(is_enabled(read("cloud_enabled").as_deref()));
    let credentials = credentials_from_settings(
        read("cloud_address"),
        read("cloud_username"),
        read("cloud_password"),
    )
    .unwrap();
    assert_eq!(credentials.address.expose_secret(), "host:22");
    assert_eq!(credentials.username.expose_secret(), "me");
    assert_eq!(credentials.password.expose_secret(), "secret");
    for statement in disable() {
        run(&connection, &statement).unwrap();
    }
    assert!(!is_enabled(read("cloud_enabled").as_deref()));
    assert_eq!(read("cloud_enabled"), Some("false".to_string()));
    assert_eq!(
        credentials_from_settings(
            read("cloud_address"),
            read("cloud_username"),
            read("cloud_password")
        ),
        Err(SyncError::MissingAddress)
    );
}

#[test]
fn a_custom_category_keeps_its_label_in_the_store() {
    let connection = vault();
    let mut record =
        Record::new("Trip".to_string(), "".to_string(), Category::Other("Travel".to_string()));
    store_record(&connection, &mut record, T1);
    let stored = query_records(&connection);
    assert_eq!(stored[0].category(), &Category::Other("Travel".to_string()));
    assert_eq!(stored[0].category().as_str(), "Travel");
    store_record(&connection, &mut record, T2);
    let stored = query_records(&connection);
    assert_eq!(stored.len(), 1);
    assert_eq!(stored[0].category(), &Category::Other("Travel".to_string()));
}

#[test]
fn saved_items_get_ids_that_no_other_item_has() {
    let connection = vault();
    let mut ids = Vec::new();
    for _ in 0..3 {
        let mut record = Record::new("r".to_string(), "".to_string(), Category::Note);
        store_record(&connection, &mut record, T1);
        assert_ne!(record.id(), 0);
        assert!(!ids.contains(&record.id()));
        ids.push(record.id());
    }
    let mut fields = Vec::new();
    for position in 1..=3 {
        let mut content = field("Card", position, ValueKind::BankCardNumber, "4111111111111111");
        store_content(&connection, ids[0], &mut content);
        assert_ne!(content.id(), 0);
        assert!(!fields.contains(&content.id()));
        fields.push(content.id());
    }
    let read = query_content(&connection, &get_all_content_for_record(ids[0]));
    assert_eq!(read.len(), 3);
    assert_eq!(query_records(&connection).len(), 3);
}
