//! Deleting inside a transaction: all of it, or none.
//!
//! A [`Transaction`] is a list of statements that must take effect together.
//! [`Transaction::step`] decides what to do next from the outcome of the last
//! action; the caller performs the actions against the store. Whatever fails,
//! a transaction that does not commit is rolled back.

use crate::database::{deleting_content, deleting_record, Statement, StatementView};
use crate::error::StoreError;
use crate::model::{Content, Record};
use crate::tables::Tables;
use vstd::prelude::*;

verus! {

/// One piece of work on the store during a transaction.
#[derive(Debug, PartialEq, Eq, Clone, Copy)]
pub enum TxAction {
    /// Start a transaction.
    Begin,
    /// Run the statement with this index.
    Run(usize),
    /// Commit the transaction.
    Commit,
    /// Roll the transaction back.
    Rollback,
    /// Nothing is left to do; this is the result.
    Finish(Result<(), StoreError>),
}

/// Where a transaction stands.
#[derive(Debug, PartialEq, Eq, Clone, Copy, Structural)]
pub enum TxStage {
    Beginning,
    Running(usize),
    Committing,
    RollingBack(StoreError),
    Done,
}

/// Statements that take effect together, each with the error that is
/// reported where it fails.
#[derive(Debug, PartialEq)]
pub struct Transaction {
    statements: Vec<Statement>,
    failures: Vec<StoreError>,
}

/// What a [`Transaction`] is.
pub struct TransactionView {
    pub statements: Seq<StatementView>,
    pub failures: Seq<StoreError>,
}

impl TransactionView {
    /// The action that is due in `stage`.
    pub open spec fn due(self, stage: TxStage) -> TxAction {
        match stage {
            TxStage::Beginning => TxAction::Begin,
            TxStage::Running(index) => TxAction::Run(index),
            TxStage::Committing => TxAction::Commit,
            TxStage::RollingBack(_) => TxAction::Rollback,
            TxStage::Done => TxAction::Finish(Ok(())),
        }
    }

    /// The stage after the first `done` statements have run.
    pub open spec fn onward(self, done: int) -> TxStage {
        if done < self.statements.len() {
            TxStage::Running(done as usize)
        } else {
            TxStage::Committing
        }
    }

    /// The stage that follows `stage` when its action has succeeded
    /// (`succeeded`) or failed, and the result of the transaction where that
    /// stage is `Done`.
    pub open spec fn next(self, stage: TxStage, succeeded: bool) -> (
        TxStage,
        Result<(), StoreError>,
    ) {
        match stage {
            TxStage::Beginning => if succeeded {
                (self.onward(0), Ok(()))
            } else {
                (TxStage::Done, Err(StoreError::BeginTransaction))
            },
            TxStage::Running(index) => if index >= self.statements.len() {
                (TxStage::RollingBack(StoreError::CommitTransaction), Ok(()))
            } else if succeeded {
                (self.onward(index + 1), Ok(()))
            } else {
                (TxStage::RollingBack(self.failures[index as int]), Ok(()))
            },
            TxStage::Committing => if succeeded {
                (TxStage::Done, Ok(()))
            } else {
                (TxStage::RollingBack(StoreError::CommitTransaction), Ok(()))
            },
            TxStage::RollingBack(error) => (TxStage::Done, Err(error)),
            TxStage::Done => (TxStage::Done, Ok(())),
        }
    }

    /// What to do after `stage`: the action of the next stage, or `Finish`
    /// with the result where the transaction is over.
    pub open spec fn following(self, stage: TxStage, succeeded: bool) -> TxAction {
        let (next, result) = self.next(stage, succeeded);
        if next == TxStage::Done {
            TxAction::Finish(result)
        } else {
            self.due(next)
        }
    }
}

impl View for Transaction {
    type V = TransactionView;

    closed spec fn view(&self) -> TransactionView {
        TransactionView {
            statements: self.statements@.map_values(|s: Statement| s@),
            failures: self.failures@,
        }
    }
}

impl Transaction {
    #[verifier::type_invariant]
    closed spec fn paired(&self) -> bool {
        self.statements@.len() == self.failures@.len()
    }

    /// Deletes `record` and all of its content. The record is consumed.
    pub fn delete_record(record: Record) -> (transaction: Transaction)
        ensures
            transaction@.statements == deleting_record(record@.id),
            transaction@.failures == seq![
                StoreError::DeleteRecordContent,
                StoreError::DeleteRecord,
            ],
    {
        let id = record.id();
        let mut statements = Vec::new();
        statements.push(Statement::DeleteContentOfRecord { record: id });
        statements.push(Statement::DeleteRecord { id });
        let mut failures = Vec::new();
        failures.push(StoreError::DeleteRecordContent);
        failures.push(StoreError::DeleteRecord);
        let transaction = Transaction { statements, failures };
        assert(transaction@.statements =~= deleting_record(id));
        transaction
    }

    /// Deletes one field. The field is consumed. Whether a field may be
    /// deleted at all (it may be required) is for the caller to decide.
    pub fn delete_content(content: Content) -> (transaction: Transaction)
        ensures
            transaction@.statements == deleting_content(content@.id),
            transaction@.failures == seq![StoreError::DeleteContent],
    {
        let id = content.id();
        let mut statements = Vec::new();
        statements.push(Statement::DeleteContent { id });
        let mut failures = Vec::new();
        failures.push(StoreError::DeleteContent);
        let transaction = Transaction { statements, failures };
        assert(transaction@.statements =~= deleting_content(id));
        transaction
    }

    /// The statements, in the order in which they run.
    pub fn statements(&self) -> (statements: &Vec<Statement>)
        ensures
            statements@.map_values(|s: Statement| s@) == self@.statements,
            statements@.len() == self@.failures.len(),
    {
        proof {
            use_type_invariant(self);
        }
        &self.statements
    }

    /// The first stage of the transaction, and its action.
    pub fn start(&self) -> (first: (TxStage, TxAction))
        ensures
            first.0 == TxStage::Beginning,
            first.1 == TxAction::Begin,
    {
        (TxStage::Beginning, TxAction::Begin)
    }

    fn onward(&self, done: usize) -> (stage: TxStage)
        ensures
            stage == self@.onward(done as int),
    {
        if done < self.statements.len() {
            TxStage::Running(done)
        } else {
            TxStage::Committing
        }
    }

    /// Takes the outcome of the action that was due in `stage`, and says
    /// which stage comes next and what to do in it.
    pub fn step(&self, stage: TxStage, succeeded: bool) -> (next: (TxStage, TxAction))
        ensures
            next.0 == self@.next(stage, succeeded).0,
            next.1 == self@.following(stage, succeeded),
    {
        proof {
            use_type_invariant(self);
        }
        let (next, result) = match stage {
            TxStage::Beginning => if succeeded {
                (self.onward(0), Ok(()))
            } else {
                (TxStage::Done, Err(StoreError::BeginTransaction))
            },
            TxStage::Running(index) => if index >= self.statements.len() {
                (TxStage::RollingBack(StoreError::CommitTransaction), Ok(()))
            } else if succeeded {
                (self.onward(index + 1), Ok(()))
            } else {
                (TxStage::RollingBack(self.failures[index]), Ok(()))
            },
            TxStage::Committing => if succeeded {
                (TxStage::Done, Ok(()))
            } else {
                (TxStage::RollingBack(StoreError::CommitTransaction), Ok(()))
            },
            TxStage::RollingBack(error) => (TxStage::Done, Err(error)),
            TxStage::Done => (TxStage::Done, Ok(())),
        };
        let action = match next {
            TxStage::Beginning => TxAction::Begin,
            TxStage::Running(index) => TxAction::Run(index),
            TxStage::Committing => TxAction::Commit,
            TxStage::RollingBack(_) => TxAction::Rollback,
            TxStage::Done => TxAction::Finish(result),
        };
        (next, action)
    }
}

/// A vault during a transaction: what is on disk, and, while a transaction
/// is open, what it has made of it so far.
pub struct Vault {
    pub durable: Tables,
    pub pending: Option<Tables>,
}

impl Vault {
    /// The meaning of an action: the vault after it, and whether it
    /// succeeded. An action fails where `failing` holds it, or where it makes
    /// no sense; what fails changes nothing.
    pub open spec fn perform(
        self,
        action: TxAction,
        statements: Seq<StatementView>,
        failing: Set<TxAction>,
    ) -> (Vault, bool) {
        let sound = !failing.contains(action);
        match action {
            TxAction::Begin => if sound && self.pending is None {
                (Vault { pending: Some(self.durable), ..self }, true)
            } else {
                (self, false)
            },
            TxAction::Run(index) => if sound && self.pending is Some && index < statements.len() {
                (
                    Vault {
                        pending: Some(self.pending->0.after(statements[index as int], 0)),
                        ..self
                    },
                    true,
                )
            } else {
                (self, false)
            },
            TxAction::Commit => if sound && self.pending is Some {
                (Vault { durable: self.pending->0, pending: None }, true)
            } else {
                (self, false)
            },
            TxAction::Rollback => (Vault { pending: None, ..self }, true),
            TxAction::Finish(_) => (self, true),
        }
    }

    /// The transaction from `stage` on, for at most `fuel` more actions
    /// after the one that is due: the vault afterwards, and the result if
    /// the transaction got that far.
    pub open spec fn run_from(
        self,
        transaction: TransactionView,
        stage: TxStage,
        failing: Set<TxAction>,
        fuel: nat,
    ) -> (Vault, Option<Result<(), StoreError>>)
        decreases fuel,
    {
        let (vault, succeeded) = self.perform(
            transaction.due(stage),
            transaction.statements,
            failing,
        );
        let (next, result) = transaction.next(stage, succeeded);
        if next == TxStage::Done {
            (vault, Some(result))
        } else if fuel == 0 {
            (vault, None)
        } else {
            vault.run_from(transaction, next, failing, (fuel - 1) as nat)
        }
    }

    /// The whole transaction.
    pub open spec fn run(self, transaction: TransactionView, failing: Set<TxAction>) -> (
        Vault,
        Option<Result<(), StoreError>>,
    ) {
        self.run_from(transaction, TxStage::Beginning, failing, transaction.statements.len() + 2)
    }
}

proof fn lemma_ending(
    vault: Vault,
    before: Tables,
    transaction: TransactionView,
    stage: TxStage,
    failing: Set<TxAction>,
    fuel: nat,
)
    requires
        vault.durable == before,
        vault.pending is Some,
        fuel >= 1,
        stage is Committing || stage is RollingBack,
        stage is Committing ==> vault.pending == Some(
            before.after_all(transaction.statements, transaction.statements.len()),
        ),
    ensures
        ({
            let (after, result) = vault.run_from(transaction, stage, failing, fuel);
            &&& result is Some
            &&& after.pending is None
            &&& result->0 is Ok ==> after.durable == before.after_all(
                transaction.statements,
                transaction.statements.len(),
            )
            &&& result->0 is Err ==> after.durable == before
        }),
{
    reveal_with_fuel(Vault::run_from, 3);
}

proof fn lemma_running(
    vault: Vault,
    before: Tables,
    transaction: TransactionView,
    done: nat,
    failing: Set<TxAction>,
    fuel: nat,
)
    requires
        vault.durable == before,
        vault.pending == Some(before.after_all(transaction.statements, done)),
        done <= transaction.statements.len(),
        transaction.statements.len() <= usize::MAX,
        fuel >= transaction.statements.len() - done + 1,
    ensures
        ({
            let (after, result) = vault.run_from(
                transaction,
                transaction.onward(done as int),
                failing,
                fuel,
            );
            &&& result is Some
            &&& after.pending is None
            &&& result->0 is Ok ==> after.durable == before.after_all(
                transaction.statements,
                transaction.statements.len(),
            )
            &&& result->0 is Err ==> after.durable == before
        }),
    decreases transaction.statements.len() - done,
{
    let stage = transaction.onward(done as int);
    if done == transaction.statements.len() {
        lemma_ending(vault, before, transaction, stage, failing, fuel);
    } else {
        let (stepped, succeeded) = vault.perform(
            transaction.due(stage),
            transaction.statements,
            failing,
        );
        let (next, result) = transaction.next(stage, succeeded);
        if succeeded {
            assert(next == transaction.onward(done + 1 as int));
            lemma_running(stepped, before, transaction, done + 1, failing, (fuel - 1) as nat);
        } else {
            lemma_ending(stepped, before, transaction, next, failing, (fuel - 1) as nat);
        }
    }
}

/// A transaction is atomic. Whichever of its actions fail, it comes to an
/// end and leaves no transaction open; where its result is `Ok`, every one
/// of its statements has taken effect, and where it is an error, none has.
pub proof fn lemma_transaction_is_atomic(
    before: Tables,
    transaction: TransactionView,
    failing: Set<TxAction>,
)
    requires
        transaction.statements.len() <= usize::MAX,
    ensures
        ({
            let vault = Vault { durable: before, pending: None };
            let (after, result) = vault.run(transaction, failing);
            &&& result is Some
            &&& after.pending is None
            &&& result->0 is Ok ==> after.durable == before.after_all(
                transaction.statements,
                transaction.statements.len(),
            )
            &&& result->0 is Err ==> after.durable == before
        }),
{
    let vault = Vault { durable: before, pending: None };
    let (stepped, succeeded) = vault.perform(TxAction::Begin, transaction.statements, failing);
    if succeeded {
        lemma_running(
            stepped,
            before,
            transaction,
            0,
            failing,
            (transaction.statements.len() + 1) as nat,
        );
    }
}

/// Deleting a record is atomic: afterwards the record and all of its content
/// are gone, or the tables are as they were; never a part of the content.
pub proof fn lemma_record_delete_is_atomic(before: Tables, id: u64, failing: Set<TxAction>)
    ensures
        ({
            let transaction = TransactionView {
                statements: deleting_record(id),
                failures: seq![StoreError::DeleteRecordContent, StoreError::DeleteRecord],
            };
            let vault = Vault { durable: before, pending: None };
            let (after, result) = vault.run(transaction, failing);
            &&& result is Some
            &&& result->0 is Ok ==> !after.durable.records.contains_key(id)
                && after.durable.content_of(id) == Set::<u64>::empty()
            &&& result->0 is Err ==> after.durable == before
        }),
{
    let transaction = TransactionView {
        statements: deleting_record(id),
        failures: seq![StoreError::DeleteRecordContent, StoreError::DeleteRecord],
    };
    lemma_transaction_is_atomic(before, transaction, failing);
    crate::tables::lemma_record_deleted(before, id);
}

} // verus!
