//! What the statements of the store mean.
//!
//! [`Tables`] is the content of a vault as mathematics: four tables, each a
//! map from its key to a row. [`Tables::after`] gives the tables after a
//! statement has run without an error; a statement that ends in an error
//! changes nothing. The laws below are proved of that meaning; that the
//! database engine gives each statement this meaning is taken on trust.

use crate::database::{
    breach_cutoff, deleting_record, id_after_saving, saving_content, saving_record, StatementView,
    BREACH_CACHE_SECONDS,
};
use crate::kind::{lemma_stored_value_reads_back, read_back, ValueKind};
use crate::model::{CategoryView, ContentView, RecordView, Timestamp};
use vstd::prelude::*;

verus! {

/// A row of the table of records.
pub struct RecordRow {
    pub title: Seq<char>,
    pub subtitle: Seq<char>,
    pub created: Timestamp,
    pub last_modified: Timestamp,
    pub category: CategoryView,
}

/// A row of the table of content.
pub struct ContentRow {
    pub record: u64,
    pub label: Seq<char>,
    pub position: u32,
    pub required: bool,
    pub kind: ValueKind,
    pub value: Seq<char>,
}

/// A row of the breach cache: the verdict, and when it was reached (seconds
/// since the Unix epoch).
pub struct BreachRow {
    pub exposed: bool,
    pub checked: i64,
}

/// The content of a vault.
pub struct Tables {
    pub settings: Map<Seq<char>, Seq<char>>,
    pub records: Map<u64, RecordRow>,
    pub content: Map<u64, ContentRow>,
    pub breach: Map<Seq<char>, BreachRow>,
}

impl Tables {
    /// The tables after `statement` has run. `rowid` is the id that the
    /// engine gives to a row that the statement inserts. A statement that
    /// reads changes nothing, and neither does an update of a row that is
    /// not there. Content belongs to its record: it goes when the record is
    /// deleted, and content of a record that is not there cannot be
    /// inserted (the statement ends in an error).
    pub open spec fn after(self, statement: StatementView, rowid: u64) -> Tables {
        match statement {
            StatementView::SaveSetting { name, value } => Tables {
                settings: self.settings.insert(name, value),
                ..self
            },
            StatementView::DeleteSetting { name } => Tables {
                settings: self.settings.remove(name),
                ..self
            },
            StatementView::InsertRecord {
                title,
                subtitle,
                created,
                last_modified,
                category,
            } => Tables {
                records: self.records.insert(
                    rowid,
                    RecordRow { title, subtitle, created, last_modified, category },
                ),
                ..self
            },
            StatementView::UpdateRecord { id, title, subtitle, last_modified, category } => {
                if self.records.contains_key(id) {
                    Tables {
                        records: self.records.insert(
                            id,
                            RecordRow {
                                title,
                                subtitle,
                                created: self.records[id].created,
                                last_modified,
                                category,
                            },
                        ),
                        ..self
                    }
                } else {
                    self
                }
            },
            StatementView::DeleteRecord { id } => Tables {
                records: self.records.remove(id),
                content: Map::new(
                    |row: u64| self.content.contains_key(row) && self.content[row].record != id,
                    |row: u64| self.content[row],
                ),
                ..self
            },
            StatementView::InsertContent { record, label, position, required, kind, value } => {
                Tables {
                    content: self.content.insert(
                        rowid,
                        ContentRow { record, label, position, required, kind, value },
                    ),
                    ..self
                }
            },
            StatementView::UpdateContent { id, label, position, required, kind, value } => {
                if self.content.contains_key(id) {
                    Tables {
                        content: self.content.insert(
                            id,
                            ContentRow {
                                record: self.content[id].record,
                                label,
                                position,
                                required,
                                kind,
                                value,
                            },
                        ),
                        ..self
                    }
                } else {
                    self
                }
            },
            StatementView::DeleteContentOfRecord { record } => Tables {
                content: Map::new(
                    |id: u64| self.content.contains_key(id) && self.content[id].record != record,
                    |id: u64| self.content[id],
                ),
                ..self
            },
            StatementView::DeleteContent { id } => Tables {
                content: self.content.remove(id),
                ..self
            },
            StatementView::CacheBreach { hash, exposed, checked } => Tables {
                breach: self.breach.insert(hash, BreachRow { exposed, checked }),
                ..self
            },
            StatementView::PurgeBreachCache { cutoff } => Tables {
                breach: Map::new(
                    |hash: Seq<char>|
                        self.breach.contains_key(hash) && self.breach[hash].checked >= cutoff,
                    |hash: Seq<char>| self.breach[hash],
                ),
                ..self
            },
            StatementView::GetSetting { .. }
            | StatementView::AllRecords
            | StatementView::GetContent { .. }
            | StatementView::ContentOfRecord { .. }
            | StatementView::PasswordsOfRecord { .. }
            | StatementView::BreachStatus { .. } => self,
        }
    }

    /// The tables after the first `count` of `statements` have run, in
    /// order. No statement among them may insert, so no row id is needed.
    pub open spec fn after_all(self, statements: Seq<StatementView>, count: nat) -> Tables
        recommends
            count <= statements.len(),
        decreases count,
    {
        if count == 0 {
            self
        } else {
            self.after_all(statements, (count - 1) as nat).after(statements[count - 1], 0)
        }
    }

    /// What `GetSetting` finds.
    pub open spec fn setting(self, name: Seq<char>) -> Option<Seq<char>> {
        if self.settings.contains_key(name) {
            Some(self.settings[name])
        } else {
            None
        }
    }

    /// The ids of the rows that `ContentOfRecord` finds.
    pub open spec fn content_of(self, record: u64) -> Set<u64> {
        Set::new(|id: u64| self.content.contains_key(id) && self.content[id].record == record)
    }

    /// What `BreachStatus` finds.
    pub open spec fn breach_status(self, hash: Seq<char>) -> Option<bool> {
        if self.breach.contains_key(hash) {
            Some(self.breach[hash].exposed)
        } else {
            None
        }
    }
}

/// A setting that was saved is found again, and no other setting changes.
pub proof fn lemma_setting_saved(tables: Tables, name: Seq<char>, value: Seq<char>, rowid: u64)
    ensures
        ({
            let after = tables.after(StatementView::SaveSetting { name, value }, rowid);
            &&& after.setting(name) == Some(value)
            &&& forall|other: Seq<char>|
                other != name ==> #[trigger] after.setting(other) == tables.setting(other)
        }),
{
}

/// A setting that was deleted is not found, and no other setting changes.
pub proof fn lemma_setting_deleted(tables: Tables, name: Seq<char>, rowid: u64)
    ensures
        ({
            let after = tables.after(StatementView::DeleteSetting { name }, rowid);
            &&& after.setting(name) is None
            &&& forall|other: Seq<char>|
                other != name ==> #[trigger] after.setting(other) == tables.setting(other)
        }),
{
}

/// Saving a record that has no id yet makes one new row, under the row id,
/// stamped with the time of saving; the record then takes the row id as its
/// id. No other row changes.
pub proof fn lemma_new_record_saved(tables: Tables, record: RecordView, now: Timestamp, rowid: u64)
    requires
        record.id == 0,
    ensures
        ({
            let after = tables.after(saving_record(record, now), rowid);
            &&& after.records.contains_key(rowid)
            &&& after.records[rowid] == RecordRow {
                title: record.title,
                subtitle: record.subtitle,
                created: record.created,
                last_modified: now,
                category: record.category,
            }
            &&& forall|other: u64|
                other != rowid ==> (#[trigger] after.records.contains_key(other)
                    == tables.records.contains_key(other) && after.records[other]
                    == tables.records[other])
            &&& after.content == tables.content
        }),
{
}

/// Saving a record that has an id rewrites its row, stamps it with the time
/// of saving, and leaves the time of creation as it was stored. No other row
/// changes, and no row is made.
pub proof fn lemma_known_record_saved(
    tables: Tables,
    record: RecordView,
    now: Timestamp,
    rowid: u64,
)
    requires
        record.id != 0,
        tables.records.contains_key(record.id),
    ensures
        ({
            let after = tables.after(saving_record(record, now), rowid);
            &&& after.records.dom() == tables.records.dom()
            &&& after.records[record.id] == RecordRow {
                title: record.title,
                subtitle: record.subtitle,
                created: tables.records[record.id].created,
                last_modified: now,
                category: record.category,
            }
            &&& forall|other: u64|
                other != record.id ==> #[trigger] after.records[other] == tables.records[other]
            &&& after.content == tables.content
        }),
{
    let after = tables.after(saving_record(record, now), rowid);
    assert(after.records.dom() =~= tables.records.dom());
}

/// Saved content reads back as itself: the row that saving a new field
/// makes holds a kind and a text from which reading gives the same value.
pub proof fn lemma_new_content_reads_back(
    tables: Tables,
    record: u64,
    content: ContentView,
    rowid: u64,
)
    requires
        content.id == 0,
        content.value.valid(),
        tables.records.contains_key(record),
    ensures
        ({
            let after = tables.after(saving_content(record, content), rowid);
            let row = after.content[rowid];
            &&& after.content.contains_key(rowid)
            &&& row.record == record
            &&& row.label == content.label
            &&& row.position == content.position
            &&& row.required == content.required
            &&& read_back(row.kind.tag(), row.value) == Some(
                (content.value.kind, content.value.text),
            )
        }),
{
    lemma_stored_value_reads_back(content.value.kind, content.value.text);
}

/// Deleting a record with its content leaves neither the record nor any of
/// its content, and touches nothing else.
pub proof fn lemma_record_deleted(tables: Tables, id: u64)
    ensures
        ({
            let after = tables.after_all(deleting_record(id), 2);
            &&& !after.records.contains_key(id)
            &&& after.content_of(id) == Set::<u64>::empty()
            &&& forall|other: u64|
                other != id ==> (#[trigger] after.records.contains_key(other)
                    == tables.records.contains_key(other) && after.records[other]
                    == tables.records[other])
            &&& forall|other: u64|
                other != id ==> #[trigger] after.content_of(other) == tables.content_of(other)
            &&& after.settings == tables.settings
            &&& after.breach == tables.breach
        }),
{
    reveal_with_fuel(Tables::after_all, 3);
    let after = tables.after_all(deleting_record(id), 2);
    assert(after.content_of(id) =~= Set::<u64>::empty());
    assert forall|other: u64| other != id implies #[trigger] after.content_of(other)
        == tables.content_of(other) by {
        assert(after.content_of(other) =~= tables.content_of(other));
    }
}

/// After the purge at the time `now`, a verdict that was older than 24 hours
/// is not found, and every other verdict is found as before.
pub proof fn lemma_breach_cache_purged(tables: Tables, now: i64, hash: Seq<char>, rowid: u64)
    requires
        now - BREACH_CACHE_SECONDS >= i64::MIN,
    ensures
        ({
            let after = tables.after(
                StatementView::PurgeBreachCache { cutoff: breach_cutoff(now) },
                rowid,
            );
            let old = tables.breach.contains_key(hash) && now - tables.breach[hash].checked
                > BREACH_CACHE_SECONDS;
            &&& old ==> after.breach_status(hash) is None
            &&& !old ==> after.breach_status(hash) == tables.breach_status(hash)
        }),
{
}

/// A verdict that was noted is found, with the time of noting, until a
/// purge finds it too old.
pub proof fn lemma_breach_verdict_cached(
    tables: Tables,
    hash: Seq<char>,
    exposed: bool,
    now: i64,
    rowid: u64,
)
    ensures
        ({
            let after = tables.after(
                StatementView::CacheBreach { hash, exposed, checked: now },
                rowid,
            );
            &&& after.breach_status(hash) == Some(exposed)
            &&& after.breach[hash].checked == now
            &&& forall|other: Seq<char>|
                other != hash ==> #[trigger] after.breach_status(other) == tables.breach_status(
                    other,
                )
        }),
{
}

/// What the engine hands back as the id of the row that it has just
/// inserted into a table with these keys: a positive number that is the key
/// of no row before. That the engine does so is taken on trust.
pub open spec fn new_row_id(keys: Set<u64>, rowid: i64) -> bool {
    rowid > 0 && !keys.contains(rowid as u64)
}

/// Saving a new record gives it an id: one that is not 0 and that no record
/// had before. The table then holds one row more, the record's, under that
/// id, and every other row as it was.
pub proof fn lemma_new_record_gets_its_id(
    tables: Tables,
    record: RecordView,
    now: Timestamp,
    rowid: i64,
)
    requires
        record.id == 0,
        new_row_id(tables.records.dom(), rowid),
    ensures
        ({
            let id = id_after_saving(record.id, rowid);
            let after = tables.after(saving_record(record, now), id);
            &&& id != 0
            &&& !tables.records.contains_key(id)
            &&& after.records.dom() == tables.records.dom().insert(id)
            &&& after.records[id] == RecordRow {
                title: record.title,
                subtitle: record.subtitle,
                created: record.created,
                last_modified: now,
                category: record.category,
            }
            &&& forall|other: u64|
                tables.records.contains_key(other) ==> #[trigger] after.records[other]
                    == tables.records[other]
            &&& after.content == tables.content
        }),
{
    let id = id_after_saving(record.id, rowid);
    let after = tables.after(saving_record(record, now), id);
    assert(after.records.dom() =~= tables.records.dom().insert(id));
}

/// Saving a new field of a stored record gives it an id: one that is not 0
/// and that no field had before. The table then holds one row more, the
/// field's, under that id, with the record, the position, the kind and the
/// text as given; no other row is renumbered or changed.
pub proof fn lemma_new_content_gets_its_id(
    tables: Tables,
    record: u64,
    content: ContentView,
    rowid: i64,
)
    requires
        content.id == 0,
        tables.records.contains_key(record),
        new_row_id(tables.content.dom(), rowid),
    ensures
        ({
            let id = id_after_saving(content.id, rowid);
            let after = tables.after(saving_content(record, content), id);
            &&& id != 0
            &&& !tables.content.contains_key(id)
            &&& after.content.dom() == tables.content.dom().insert(id)
            &&& after.content[id] == ContentRow {
                record,
                label: content.label,
                position: content.position,
                required: content.required,
                kind: content.value.kind,
                value: content.value.text,
            }
            &&& after.content_of(record) == tables.content_of(record).insert(id)
            &&& forall|other: u64|
                tables.content.contains_key(other) ==> #[trigger] after.content[other]
                    == tables.content[other]
            &&& after.records == tables.records
        }),
{
    let id = id_after_saving(content.id, rowid);
    let after = tables.after(saving_content(record, content), id);
    assert(after.content.dom() =~= tables.content.dom().insert(id));
    assert(after.content_of(record) =~= tables.content_of(record).insert(id));
}

} // verus!
