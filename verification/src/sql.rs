//! The text of each statement, the parameters that it is run with, and
//! the steps that open a vault.

use crate::database::{Statement, StatementView};
use crate::error::StoreError;
use crate::model::Timestamp;
use crate::secret::SecretValue;
use crate::text::{blank, is_blank, push_char};
use vstd::prelude::*;
use vstd::string::StringExecFns;

verus! {

/// Reads one setting.
pub const GET_SETTING: &'static str = "SELECT value FROM Settings WHERE name = ?1;";

/// Sets one setting, replacing what was there.
pub const SAVE_SETTING: &'static str = "REPLACE INTO Settings (name, value) VALUES (?1, ?2);";

/// Deletes one setting.
pub const DELETE_SETTING: &'static str = "DELETE FROM Settings WHERE name = ?1;";

/// Reads every record.
pub const ALL_RECORDS: &'static str = "\
    SELECT id_record, title, subtitle, created, last_modified, category FROM \
    Record;";

/// Makes the row of a new record.
pub const INSERT_RECORD: &'static str = "\
    INSERT INTO Record (title, subtitle, created, last_modified, category) VALUES \
    (?1, ?2, ?3, ?4, ?5);";

/// Rewrites the row of a record, but for its time of creation.
pub const UPDATE_RECORD: &'static str = "\
    UPDATE Record SET title = ?1, subtitle = ?2, last_modified = ?3, category = ?4 \
    WHERE id_record = ?5;";

/// Deletes the row of a record.
pub const DELETE_RECORD: &'static str = "DELETE FROM Record WHERE id_record = ?1;";

/// Reads one field.
pub const GET_CONTENT: &'static str = "\
    SELECT id_content, label, position, required, kind, value FROM Content WHERE \
    id_content = ?1;";

/// Reads the fields of one record.
pub const CONTENT_OF_RECORD: &'static str = "\
    SELECT id_content, label, position, required, kind, value FROM Content WHERE \
    id_record = ?1;";

/// Reads the passwords among the fields of one record.
pub const PASSWORDS_OF_RECORD: &'static str = "\
    SELECT value FROM Content WHERE id_record = ?1 AND kind = 'Password';";

/// Makes the row of a new field.
pub const INSERT_CONTENT: &'static str = "\
    INSERT INTO Content (label, position, required, kind, value, id_record) VALUES \
    (?1, ?2, ?3, ?4, ?5, ?6);";

/// Rewrites the row of a field, but for the record that it belongs to.
pub const UPDATE_CONTENT: &'static str = "\
    UPDATE Content SET label = ?1, position = ?2, required = ?3, kind = ?4, value \
    = ?5 WHERE id_content = ?6;";

/// Deletes the fields of one record.
pub const DELETE_CONTENT_OF_RECORD: &'static str = "DELETE FROM Content WHERE id_record = ?1;";

/// Deletes one field.
pub const DELETE_CONTENT: &'static str = "DELETE FROM Content WHERE id_content = ?1;";

/// Looks a hash up in the breach cache.
pub const BREACH_STATUS: &'static str = "SELECT exposed FROM DataBreachCache WHERE hash = ?1;";

/// Notes a verdict in the breach cache, with the time at which it was reached.
pub const CACHE_BREACH: &'static str = "\
    REPLACE INTO DataBreachCache (hash, exposed, checked) VALUES (?1, ?2, \
    datetime(?3, 'unixepoch'));";

/// Deletes the verdicts that were reached before a given time.
pub const PURGE_BREACH_CACHE: &'static str = "\
    DELETE FROM DataBreachCache WHERE checked < datetime(?1, 'unixepoch');";

/// One parameter of a statement.
#[derive(Debug, PartialEq)]
pub enum Param {
    Id(u64),
    Position(u32),
    Flag(bool),
    Seconds(i64),
    Moment(Timestamp),
    Text(SecretValue),
}

/// What a [`Param`] is.
pub enum ParamView {
    Id(u64),
    Position(u32),
    Flag(bool),
    Seconds(i64),
    Moment(Timestamp),
    Text(Seq<char>),
}

impl View for Param {
    type V = ParamView;

    open spec fn view(&self) -> ParamView {
        match self {
            Param::Id(id) => ParamView::Id(*id),
            Param::Position(position) => ParamView::Position(*position),
            Param::Flag(flag) => ParamView::Flag(*flag),
            Param::Seconds(seconds) => ParamView::Seconds(*seconds),
            Param::Moment(moment) => ParamView::Moment(*moment),
            Param::Text(text) => ParamView::Text(text@),
        }
    }
}

impl StatementView {
    /// The text of the statement. Its parameters are numbered from 1.
    pub open spec fn sql(self) -> Seq<char> {
        match self {
            StatementView::GetSetting { .. } => GET_SETTING@,
            StatementView::SaveSetting { .. } => SAVE_SETTING@,
            StatementView::DeleteSetting { .. } => DELETE_SETTING@,
            StatementView::AllRecords => ALL_RECORDS@,
            StatementView::InsertRecord { .. } => INSERT_RECORD@,
            StatementView::UpdateRecord { .. } => UPDATE_RECORD@,
            StatementView::DeleteRecord { .. } => DELETE_RECORD@,
            StatementView::GetContent { .. } => GET_CONTENT@,
            StatementView::ContentOfRecord { .. } => CONTENT_OF_RECORD@,
            StatementView::PasswordsOfRecord { .. } => PASSWORDS_OF_RECORD@,
            StatementView::InsertContent { .. } => INSERT_CONTENT@,
            StatementView::UpdateContent { .. } => UPDATE_CONTENT@,
            StatementView::DeleteContentOfRecord { .. } => DELETE_CONTENT_OF_RECORD@,
            StatementView::DeleteContent { .. } => DELETE_CONTENT@,
            StatementView::BreachStatus { .. } => BREACH_STATUS@,
            StatementView::CacheBreach { .. } => CACHE_BREACH@,
            StatementView::PurgeBreachCache { .. } => PURGE_BREACH_CACHE@,
        }
    }

    /// The parameters of the statement, in the order of their numbers.
    pub open spec fn params(self) -> Seq<ParamView> {
        match self {
            StatementView::GetSetting { name } => seq![ParamView::Text(name)],
            StatementView::SaveSetting { name, value } => seq![
                ParamView::Text(name),
                ParamView::Text(value),
            ],
            StatementView::DeleteSetting { name } => seq![ParamView::Text(name)],
            StatementView::AllRecords => seq![],
            StatementView::InsertRecord {
                title,
                subtitle,
                created,
                last_modified,
                category,
            } => seq![
                ParamView::Text(title),
                ParamView::Text(subtitle),
                ParamView::Moment(created),
                ParamView::Moment(last_modified),
                ParamView::Text(category.name()),
            ],
            StatementView::UpdateRecord { id, title, subtitle, last_modified, category } => seq![
                ParamView::Text(title),
                ParamView::Text(subtitle),
                ParamView::Moment(last_modified),
                ParamView::Text(category.name()),
                ParamView::Id(id),
            ],
            StatementView::DeleteRecord { id } => seq![ParamView::Id(id)],
            StatementView::GetContent { id } => seq![ParamView::Id(id)],
            StatementView::ContentOfRecord { record } => seq![ParamView::Id(record)],
            StatementView::PasswordsOfRecord { record } => seq![ParamView::Id(record)],
            StatementView::InsertContent {
                record,
                label,
                position,
                required,
                kind,
                value,
            } => seq![
                ParamView::Text(label),
                ParamView::Position(position),
                ParamView::Flag(required),
                ParamView::Text(kind.tag()),
                ParamView::Text(value),
                ParamView::Id(record),
            ],
            StatementView::UpdateContent { id, label, position, required, kind, value } => seq![
                ParamView::Text(label),
                ParamView::Position(position),
                ParamView::Flag(required),
                ParamView::Text(kind.tag()),
                ParamView::Text(value),
                ParamView::Id(id),
            ],
            StatementView::DeleteContentOfRecord { record } => seq![ParamView::Id(record)],
            StatementView::DeleteContent { id } => seq![ParamView::Id(id)],
            StatementView::BreachStatus { hash } => seq![ParamView::Text(hash)],
            StatementView::CacheBreach { hash, exposed, checked } => seq![
                ParamView::Text(hash),
                ParamView::Flag(exposed),
                ParamView::Seconds(checked),
            ],
            StatementView::PurgeBreachCache { cutoff } => seq![ParamView::Seconds(cutoff)],
        }
    }
}

fn text_param(text: &str) -> (param: Param)
    ensures
        param@ == ParamView::Text(text@),
{
    Param::Text(SecretValue::new(String::from_str(text)))
}

impl Statement {
    /// The text of the statement.
    pub fn sql(&self) -> (sql: &'static str)
        ensures
            sql@ == self@.sql(),
    {
        match self {
            Statement::GetSetting { .. } => GET_SETTING,
            Statement::SaveSetting { .. } => SAVE_SETTING,
            Statement::DeleteSetting { .. } => DELETE_SETTING,
            Statement::AllRecords => ALL_RECORDS,
            Statement::InsertRecord { .. } => INSERT_RECORD,
            Statement::UpdateRecord { .. } => UPDATE_RECORD,
            Statement::DeleteRecord { .. } => DELETE_RECORD,
            Statement::GetContent { .. } => GET_CONTENT,
            Statement::ContentOfRecord { .. } => CONTENT_OF_RECORD,
            Statement::PasswordsOfRecord { .. } => PASSWORDS_OF_RECORD,
            Statement::InsertContent { .. } => INSERT_CONTENT,
            Statement::UpdateContent { .. } => UPDATE_CONTENT,
            Statement::DeleteContentOfRecord { .. } => DELETE_CONTENT_OF_RECORD,
            Statement::DeleteContent { .. } => DELETE_CONTENT,
            Statement::BreachStatus { .. } => BREACH_STATUS,
            Statement::CacheBreach { .. } => CACHE_BREACH,
            Statement::PurgeBreachCache { .. } => PURGE_BREACH_CACHE,
        }
    }

    /// The parameters of the statement, in the order of their numbers.
    pub fn params(&self) -> (params: Vec<Param>)
        ensures
            params@.map_values(|p: Param| p@) == self@.params(),
    {
        let mut params = Vec::new();
        match self {
            Statement::GetSetting { name } => {
                params.push(text_param(name.as_str()));
            },
            Statement::SaveSetting { name, value } => {
                params.push(text_param(name.as_str()));
                params.push(text_param(value.expose_secret()));
            },
            Statement::DeleteSetting { name } => {
                params.push(text_param(name.as_str()));
            },
            Statement::AllRecords => {},
            Statement::InsertRecord { title, subtitle, created, last_modified, category } => {
                params.push(text_param(title.expose_secret()));
                params.push(text_param(subtitle.expose_secret()));
                params.push(Param::Moment(*created));
                params.push(Param::Moment(*last_modified));
                params.push(text_param(category.as_str()));
            },
            Statement::UpdateRecord { id, title, subtitle, last_modified, category } => {
                params.push(text_param(title.expose_secret()));
                params.push(text_param(subtitle.expose_secret()));
                params.push(Param::Moment(*last_modified));
                params.push(text_param(category.as_str()));
                params.push(Param::Id(*id));
            },
            Statement::DeleteRecord { id } => {
                params.push(Param::Id(*id));
            },
            Statement::GetContent { id } => {
                params.push(Param::Id(*id));
            },
            Statement::ContentOfRecord { record } => {
                params.push(Param::Id(*record));
            },
            Statement::PasswordsOfRecord { record } => {
                params.push(Param::Id(*record));
            },
            Statement::InsertContent { record, label, position, required, kind, value } => {
                params.push(text_param(label.expose_secret()));
                params.push(Param::Position(*position));
                params.push(Param::Flag(*required));
                params.push(text_param(kind.as_str()));
                params.push(text_param(value.expose_secret()));
                params.push(Param::Id(*record));
            },
            Statement::UpdateContent { id, label, position, required, kind, value } => {
                params.push(text_param(label.expose_secret()));
                params.push(Param::Position(*position));
                params.push(Param::Flag(*required));
                params.push(text_param(kind.as_str()));
                params.push(text_param(value.expose_secret()));
                params.push(Param::Id(*id));
            },
            Statement::DeleteContentOfRecord { record } => {
                params.push(Param::Id(*record));
            },
            Statement::DeleteContent { id } => {
                params.push(Param::Id(*id));
            },
            Statement::BreachStatus { hash } => {
                params.push(text_param(hash.as_str()));
            },
            Statement::CacheBreach { hash, exposed, checked } => {
                params.push(text_param(hash.as_str()));
                params.push(Param::Flag(*exposed));
                params.push(Param::Seconds(*checked));
            },
            Statement::PurgeBreachCache { cutoff } => {
                params.push(Param::Seconds(*cutoff));
            },
        }
        assert(params@.map_values(|p: Param| p@) =~= self@.params());
        params
    }
}

/// The statements that make the four tables of a vault, where they are not
/// there yet.
pub const SCHEMA: &'static str = "\
    create table if not exists Settings (\
        name text primary key, \
        value text not null\
    ); \
    create table if not exists Record (\
        id_record integer primary key, \
        title text not null, \
        subtitle text not null, \
        created datetime not null, \
        last_modified datetime not null, \
        category text not null\
    ); \
    create table if not exists Content (\
        id_content integer primary key, \
        id_record integer not null, \
        label text not null, \
        position integer not null, \
        required integer not null, \
        kind text not null, \
        value text not null, \
        foreign key (id_record) references Record(id_record) \
        on update cascade on delete cascade\
    ); \
    create table if not exists DataBreachCache (\
        hash text primary key, \
        exposed integer not null, \
        checked datetime not null\
    );";

/// Switches the page cache of the cipher off.
pub const NO_CACHE: &'static str = "PRAGMA cache_size = 0;";

/// A read that succeeds only with the right key.
pub const PROBE: &'static str = "SELECT count(*) FROM sqlite_master;";

/// Asks the cipher to guard its memory.
pub const MEMORY_SECURITY: &'static str = "PRAGMA cipher_memory_security = ON;";

/// `text` with every single quote doubled.
pub open spec fn escaped(text: Seq<char>) -> Seq<char>
    decreases text.len(),
{
    if text.len() == 0 {
        Seq::empty()
    } else if text.last() == '\'' {
        escaped(text.drop_last()).push('\'').push('\'')
    } else {
        escaped(text.drop_last()).push(text.last())
    }
}

/// `text` as a string literal of SQL.
pub open spec fn quoted(text: Seq<char>) -> Seq<char> {
    seq!['\''] + escaped(text) + seq!['\'']
}

/// The statement that hands the key to the cipher.
pub open spec fn key_pragma(passphrase: Seq<char>) -> Seq<char> {
    "PRAGMA key = "@ + quoted(passphrase) + ";"@
}

/// The statement that encrypts the vault anew.
pub open spec fn rekey_pragma(passphrase: Seq<char>) -> Seq<char> {
    "PRAGMA rekey = "@ + quoted(passphrase) + ";"@
}

/// A text without a single quote is quoted by putting it between two.
pub proof fn lemma_plain_text_is_quoted_as_it_is(text: Seq<char>)
    requires
        forall|i: int| 0 <= i < text.len() ==> text[i] != '\'',
    ensures
        quoted(text) == seq!['\''] + text + seq!['\''],
    decreases text.len(),
{
    lemma_escaped_plain(text);
}

proof fn lemma_escaped_plain(text: Seq<char>)
    requires
        forall|i: int| 0 <= i < text.len() ==> text[i] != '\'',
    ensures
        escaped(text) == text,
    decreases text.len(),
{
    if text.len() > 0 {
        lemma_escaped_plain(text.drop_last());
        assert(text.drop_last().push(text.last()) =~= text);
    } else {
        assert(text =~= Seq::<char>::empty());
    }
}

fn quote(text: &str, into: &mut String)
    ensures
        final(into)@ == old(into)@ + quoted(text@),
{
    let n = text.unicode_len();
    push_char(into, '\'');
    let mut i: usize = 0;
    while i < n
        invariant
            n == text@.len(),
            i <= n,
            into@ == old(into)@ + seq!['\''] + escaped(text@.subrange(0, i as int)),
        decreases n - i,
    {
        let c = text.get_char(i);
        proof {
            let upto = text@.subrange(0, i + 1);
            assert(upto.drop_last() =~= text@.subrange(0, i as int));
            assert(upto.last() == c);
        }
        if c == '\'' {
            push_char(into, '\'');
        }
        push_char(into, c);
        proof {
            assert(into@ =~= old(into)@ + seq!['\''] + escaped(text@.subrange(0, i + 1)));
        }
        i += 1;
    }
    assert(text@.subrange(0, n as int) =~= text@);
    push_char(into, '\'');
    assert(into@ =~= old(into)@ + quoted(text@));
}

/// One step of opening a vault: a batch of statements, and the error that
/// ends the opening where the batch fails. Where that is `None`, a failure
/// is passed over.
#[derive(Debug, PartialEq)]
pub struct Step {
    pub sql: SecretValue,
    pub failure: Option<StoreError>,
}

/// What a [`Step`] is.
pub struct StepView {
    pub sql: Seq<char>,
    pub failure: Option<StoreError>,
}

impl View for Step {
    type V = StepView;

    open spec fn view(&self) -> StepView {
        StepView { sql: self.sql@, failure: self.failure }
    }
}

/// The steps that open a vault with `passphrase`, once its file has been
/// opened or made: hand over the key, drop the cache, prove the key by a
/// read, guard the memory, make the tables. The read fails alike for a wrong
/// passphrase and for a file that is damaged or not a vault; no caller can
/// tell the two apart.
pub open spec fn opening(passphrase: Seq<char>) -> Seq<StepView> {
    seq![
        StepView { sql: key_pragma(passphrase), failure: Some(StoreError::UnlockFailed) },
        StepView { sql: NO_CACHE@, failure: None },
        StepView { sql: PROBE@, failure: Some(StoreError::InvalidPassword) },
        StepView { sql: MEMORY_SECURITY@, failure: Some(StoreError::MemorySecurity) },
        StepView { sql: SCHEMA@, failure: Some(StoreError::CreateFailed) },
    ]
}

fn step(sql: String, failure: Option<StoreError>) -> (step: Step)
    ensures
        step@ == (StepView { sql: sql@, failure }),
{
    Step { sql: SecretValue::new(sql), failure }
}

/// The steps that open a vault with `passphrase`. A blank passphrase is
/// refused before anything is run.
pub fn open(passphrase: &str) -> (steps: Result<Vec<Step>, StoreError>)
    ensures
        match steps {
            Ok(steps) => !blank(passphrase@) && steps@.map_values(|s: Step| s@) == opening(
                passphrase@,
            ),
            Err(e) => blank(passphrase@) && e == StoreError::EmptyPassword,
        },
{
    if is_blank(passphrase) {
        return Err(StoreError::EmptyPassword);
    }
    let mut key = String::from_str("PRAGMA key = ");
    quote(passphrase, &mut key);
    key.append(";");
    let mut steps = Vec::new();
    steps.push(step(key, Some(StoreError::UnlockFailed)));
    steps.push(step(String::from_str(NO_CACHE), None));
    steps.push(step(String::from_str(PROBE), Some(StoreError::InvalidPassword)));
    steps.push(step(String::from_str(MEMORY_SECURITY), Some(StoreError::MemorySecurity)));
    steps.push(step(String::from_str(SCHEMA), Some(StoreError::CreateFailed)));
    assert(steps@.map_values(|s: Step| s@) =~= opening(passphrase@));
    Ok(steps)
}

/// The step that encrypts the vault anew under `new_passphrase`. A blank
/// passphrase is refused before anything is run. The step is all of the
/// change: where it fails, the vault stays under the old key.
pub fn change_key(new_passphrase: &str) -> (change: Result<Step, StoreError>)
    ensures
        match change {
            Ok(step) => !blank(new_passphrase@) && step@ == (StepView {
                sql: rekey_pragma(new_passphrase@),
                failure: Some(StoreError::RekeyFailed),
            }),
            Err(e) => blank(new_passphrase@) && e == StoreError::EmptyPassword,
        },
{
    if is_blank(new_passphrase) {
        return Err(StoreError::EmptyPassword);
    }
    let mut rekey = String::from_str("PRAGMA rekey = ");
    quote(new_passphrase, &mut rekey);
    rekey.append(";");
    Ok(step(rekey, Some(StoreError::RekeyFailed)))
}

/// What a failed step means for the opening: the error that ends it, or
/// nothing where the failure is passed over. A step that succeeded ends
/// nothing.
pub fn verdict(step: &Step, succeeded: bool) -> (end: Option<StoreError>)
    ensures
        end == (if succeeded {
            None
        } else {
            step@.failure
        }),
{
    if succeeded {
        None
    } else {
        step.failure
    }
}

} // verus!
