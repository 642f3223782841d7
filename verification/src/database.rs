//! The statements of the encrypted store.
//!
//! The store is a SQLite file under a cipher. Running a statement against it
//! is the caller's part; which statement to run, with which parameters, and
//! what to make of its outcome is decided here. [`crate::tables`] says what
//! each statement means.

use crate::kind::ValueKind;
use crate::model::{
    Category, CategoryView, Content, ContentView, Record, RecordView, Timestamp,
};
use crate::secret::SecretValue;
use vstd::prelude::*;
use vstd::string::StringExecFns;

verus! {

/// Seconds for which a breach verdict is kept: 24 hours.
pub const BREACH_CACHE_SECONDS: i64 = 86_400;

/// One statement, with what it is run on.
#[derive(Debug, PartialEq)]
pub enum Statement {
    GetSetting { name: String },
    SaveSetting { name: String, value: SecretValue },
    DeleteSetting { name: String },
    AllRecords,
    InsertRecord {
        title: SecretValue,
        subtitle: SecretValue,
        created: Timestamp,
        last_modified: Timestamp,
        category: Category,
    },
    UpdateRecord {
        id: u64,
        title: SecretValue,
        subtitle: SecretValue,
        last_modified: Timestamp,
        category: Category,
    },
    DeleteRecord { id: u64 },
    GetContent { id: u64 },
    ContentOfRecord { record: u64 },
    PasswordsOfRecord { record: u64 },
    InsertContent {
        record: u64,
        label: SecretValue,
        position: u32,
        required: bool,
        kind: ValueKind,
        value: SecretValue,
    },
    UpdateContent {
        id: u64,
        label: SecretValue,
        position: u32,
        required: bool,
        kind: ValueKind,
        value: SecretValue,
    },
    DeleteContentOfRecord { record: u64 },
    DeleteContent { id: u64 },
    BreachStatus { hash: String },
    CacheBreach { hash: String, exposed: bool, checked: i64 },
    PurgeBreachCache { cutoff: i64 },
}

/// What a [`Statement`] is.
pub enum StatementView {
    GetSetting { name: Seq<char> },
    SaveSetting { name: Seq<char>, value: Seq<char> },
    DeleteSetting { name: Seq<char> },
    AllRecords,
    InsertRecord {
        title: Seq<char>,
        subtitle: Seq<char>,
        created: Timestamp,
        last_modified: Timestamp,
        category: CategoryView,
    },
    UpdateRecord {
        id: u64,
        title: Seq<char>,
        subtitle: Seq<char>,
        last_modified: Timestamp,
        category: CategoryView,
    },
    DeleteRecord { id: u64 },
    GetContent { id: u64 },
    ContentOfRecord { record: u64 },
    PasswordsOfRecord { record: u64 },
    InsertContent {
        record: u64,
        label: Seq<char>,
        position: u32,
        required: bool,
        kind: ValueKind,
        value: Seq<char>,
    },
    UpdateContent {
        id: u64,
        label: Seq<char>,
        position: u32,
        required: bool,
        kind: ValueKind,
        value: Seq<char>,
    },
    DeleteContentOfRecord { record: u64 },
    DeleteContent { id: u64 },
    BreachStatus { hash: Seq<char> },
    CacheBreach { hash: Seq<char>, exposed: bool, checked: i64 },
    PurgeBreachCache { cutoff: i64 },
}

impl View for Statement {
    type V = StatementView;

    open spec fn view(&self) -> StatementView {
        match self {
            Statement::GetSetting { name } => StatementView::GetSetting { name: name@ },
            Statement::SaveSetting { name, value } => StatementView::SaveSetting {
                name: name@,
                value: value@,
            },
            Statement::DeleteSetting { name } => StatementView::DeleteSetting { name: name@ },
            Statement::AllRecords => StatementView::AllRecords,
            Statement::InsertRecord {
                title,
                subtitle,
                created,
                last_modified,
                category,
            } => StatementView::InsertRecord {
                title: title@,
                subtitle: subtitle@,
                created: *created,
                last_modified: *last_modified,
                category: category@,
            },
            Statement::UpdateRecord {
                id,
                title,
                subtitle,
                last_modified,
                category,
            } => StatementView::UpdateRecord {
                id: *id,
                title: title@,
                subtitle: subtitle@,
                last_modified: *last_modified,
                category: category@,
            },
            Statement::DeleteRecord { id } => StatementView::DeleteRecord { id: *id },
            Statement::GetContent { id } => StatementView::GetContent { id: *id },
            Statement::ContentOfRecord { record } => StatementView::ContentOfRecord {
                record: *record,
            },
            Statement::PasswordsOfRecord { record } => StatementView::PasswordsOfRecord {
                record: *record,
            },
            Statement::InsertContent {
                record,
                label,
                position,
                required,
                kind,
                value,
            } => StatementView::InsertContent {
                record: *record,
                label: label@,
                position: *position,
                required: *required,
                kind: *kind,
                value: value@,
            },
            Statement::UpdateContent {
                id,
                label,
                position,
                required,
                kind,
                value,
            } => StatementView::UpdateContent {
                id: *id,
                label: label@,
                position: *position,
                required: *required,
                kind: *kind,
                value: value@,
            },
            Statement::DeleteContentOfRecord { record } => StatementView::DeleteContentOfRecord {
                record: *record,
            },
            Statement::DeleteContent { id } => StatementView::DeleteContent { id: *id },
            Statement::BreachStatus { hash } => StatementView::BreachStatus { hash: hash@ },
            Statement::CacheBreach { hash, exposed, checked } => StatementView::CacheBreach {
                hash: hash@,
                exposed: *exposed,
                checked: *checked,
            },
            Statement::PurgeBreachCache { cutoff } => StatementView::PurgeBreachCache {
                cutoff: *cutoff,
            },
        }
    }
}

/// The statement that saves `record` at the time `now`: an insert where the
/// record has no id yet, an update of its row where it has one. The record
/// is stamped with `now` as its time of last modification, and the statement
/// carries that stamp. An update does not carry the time of creation, which
/// stays as it was stored.
pub open spec fn saving_record(record: RecordView, now: Timestamp) -> StatementView {
    if record.id == 0 {
        StatementView::InsertRecord {
            title: record.title,
            subtitle: record.subtitle,
            created: record.created,
            last_modified: now,
            category: record.category,
        }
    } else {
        StatementView::UpdateRecord {
            id: record.id,
            title: record.title,
            subtitle: record.subtitle,
            last_modified: now,
            category: record.category,
        }
    }
}

/// Stamps `record` with `now` and gives the statement that saves it.
pub fn save_record(record: &mut Record, now: Timestamp) -> (statement: Statement)
    ensures
        final(record)@ == (RecordView { last_modified: now, ..old(record)@ }),
        statement@ == saving_record(old(record)@, now),
{
    record.set_last_modified(now);
    let title = SecretValue::new(String::from_str(record.title()));
    let subtitle = SecretValue::new(String::from_str(record.subtitle()));
    if record.id() == 0 {
        Statement::InsertRecord {
            title,
            subtitle,
            created: record.created(),
            last_modified: now,
            category: record.category().clone(),
        }
    } else {
        Statement::UpdateRecord {
            id: record.id(),
            title,
            subtitle,
            last_modified: now,
            category: record.category().clone(),
        }
    }
}

/// The id of an item after it has been saved: the id that it had, or, where
/// it had none, the row id that the store gave to the new row.
pub open spec fn id_after_saving(id: u64, rowid: i64) -> u64 {
    if id == 0 && rowid > 0 {
        rowid as u64
    } else {
        id
    }
}

/// Gives `record` its id once the statement of [`save_record`] has run;
/// `rowid` is the id of the last row that was inserted.
pub fn record_saved(record: &mut Record, rowid: i64)
    ensures
        final(record)@ == (RecordView {
            id: id_after_saving(old(record)@.id, rowid),
            ..old(record)@
        }),
{
    if record.id() == 0 && rowid > 0 {
        record.set_id(rowid as u64);
    }
}

/// The statement that saves `content` as a field of the record `record`: an
/// insert where the field has no id yet, an update of its row where it has
/// one. An update leaves the field with the record that it belongs to.
pub open spec fn saving_content(record: u64, content: ContentView) -> StatementView {
    if content.id == 0 {
        StatementView::InsertContent {
            record,
            label: content.label,
            position: content.position,
            required: content.required,
            kind: content.value.kind,
            value: content.value.text,
        }
    } else {
        StatementView::UpdateContent {
            id: content.id,
            label: content.label,
            position: content.position,
            required: content.required,
            kind: content.value.kind,
            value: content.value.text,
        }
    }
}

/// Gives the statement that saves `content` as a field of the record
/// `record`. The position is stored as it is: numbering is the caller's.
pub fn save_content(record: u64, content: &Content) -> (statement: Statement)
    ensures
        statement@ == saving_content(record, content@),
{
    let label = SecretValue::new(String::from_str(content.label()));
    let value = content.value().to_secret_string();
    if content.id() == 0 {
        Statement::InsertContent {
            record,
            label,
            position: content.position(),
            required: content.required(),
            kind: content.value().kind(),
            value,
        }
    } else {
        Statement::UpdateContent {
            id: content.id(),
            label,
            position: content.position(),
            required: content.required(),
            kind: content.value().kind(),
            value,
        }
    }
}

/// Gives `content` its id once the statement of [`save_content`] has run;
/// `rowid` is the id of the last row that was inserted.
pub fn content_saved(content: &mut Content, rowid: i64)
    ensures
        final(content)@ == (ContentView {
            id: id_after_saving(old(content)@.id, rowid),
            ..old(content)@
        }),
{
    if content.id() == 0 && rowid > 0 {
        content.set_id(rowid as u64);
    }
}

/// The statement that reads a setting.
pub fn get_setting(name: &str) -> (statement: Statement)
    ensures
        statement@ == (StatementView::GetSetting { name: name@ }),
{
    Statement::GetSetting { name: String::from_str(name) }
}

/// The statement that sets a setting, replacing what was there.
pub fn save_setting(name: &str, value: &str) -> (statement: Statement)
    ensures
        statement@ == (StatementView::SaveSetting { name: name@, value: value@ }),
{
    Statement::SaveSetting {
        name: String::from_str(name),
        value: SecretValue::new(String::from_str(value)),
    }
}

/// The statement that deletes a setting.
pub fn delete_setting(name: &str) -> (statement: Statement)
    ensures
        statement@ == (StatementView::DeleteSetting { name: name@ }),
{
    Statement::DeleteSetting { name: String::from_str(name) }
}

/// The statement that reads one field.
pub fn get_content(id: u64) -> (statement: Statement)
    ensures
        statement@ == (StatementView::GetContent { id }),
{
    Statement::GetContent { id }
}

/// The statement that reads every record.
pub fn get_all_records() -> (statement: Statement)
    ensures
        statement@ == StatementView::AllRecords,
{
    Statement::AllRecords
}

/// The statement that reads the fields of one record.
pub fn get_all_content_for_record(record: u64) -> (statement: Statement)
    ensures
        statement@ == (StatementView::ContentOfRecord { record }),
{
    Statement::ContentOfRecord { record }
}

/// The statement that reads the passwords among the fields of one record.
pub fn get_all_passwords_for_record(record: u64) -> (statement: Statement)
    ensures
        statement@ == (StatementView::PasswordsOfRecord { record }),
{
    Statement::PasswordsOfRecord { record }
}

/// The statement that looks a password hash up in the breach cache.
pub fn get_data_breach_status(hash: &str) -> (statement: Statement)
    ensures
        statement@ == (StatementView::BreachStatus { hash: hash@ }),
{
    Statement::BreachStatus { hash: String::from_str(hash) }
}

/// The statement that notes, at the time `now` (seconds since the Unix
/// epoch), whether the password of this hash is known to be exposed.
pub fn add_data_breach_cache(hash: &str, exposed: bool, now: i64) -> (statement: Statement)
    ensures
        statement@ == (StatementView::CacheBreach { hash: hash@, exposed, checked: now }),
{
    Statement::CacheBreach { hash: String::from_str(hash), exposed, checked: now }
}

/// The time before which a breach verdict is too old at the time `now`.
pub open spec fn breach_cutoff(now: i64) -> i64 {
    if now - BREACH_CACHE_SECONDS < i64::MIN {
        i64::MIN
    } else {
        (now - BREACH_CACHE_SECONDS) as i64
    }
}

/// The statement that deletes every breach verdict that is older than 24
/// hours at the time `now` (seconds since the Unix epoch).
pub fn delete_data_breach_cache_older_24h(now: i64) -> (statement: Statement)
    ensures
        statement@ == (StatementView::PurgeBreachCache { cutoff: breach_cutoff(now) }),
{
    let cutoff = if now < i64::MIN + BREACH_CACHE_SECONDS {
        i64::MIN
    } else {
        now - BREACH_CACHE_SECONDS
    };
    Statement::PurgeBreachCache { cutoff }
}

/// The statements that delete a record with all of its content, to be run
/// in one transaction: the content first.
pub open spec fn deleting_record(id: u64) -> Seq<StatementView> {
    seq![StatementView::DeleteContentOfRecord { record: id }, StatementView::DeleteRecord { id }]
}

/// The statements that delete one field, to be run in one transaction.
pub open spec fn deleting_content(id: u64) -> Seq<StatementView> {
    seq![StatementView::DeleteContent { id }]
}

} // verus!
