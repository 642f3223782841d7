//! The two transfers of the synchronisation engine, as state machines.
//!
//! A transfer alternates work on the network and on disk with decisions. The
//! decisions are here: given the stage that a transfer is in and how the
//! last action ended, [`Upload::step`] and [`Download::step`] say which
//! stage comes next and what to do in it. The caller performs the action and
//! reports back, until the action is [`Action::Finish`].
//!
//! What the decisions achieve is stated against a model of the files on both
//! sides, [`Files`], in which every action has its plain meaning. The laws at
//! the end of the module hold of every run, whichever actions fail.

use crate::error::SyncError;
use vstd::prelude::*;

verus! {

/// One piece of outside work.
#[derive(Debug, PartialEq, Eq, Clone, Copy)]
pub enum Action {
    /// Open the file-transfer channel of the session.
    OpenChannel,
    /// Take the single transfer permit of the process, waiting for it.
    AcquirePermit,
    /// Open the remote folder, to see whether it is there.
    OpenRemoteFolder,
    /// Make the remote folder.
    MakeRemoteFolder,
    /// Open the remote vault for reading, to see whether it is there.
    ProbeRemoteVault,
    /// Delete the remote backup. Failure is of no consequence.
    RemoveRemoteBackup,
    /// Rename the remote vault to the remote backup, overwriting.
    BackUpRemoteVault,
    /// Create the remote vault, empty, and open it for writing.
    CreateRemoteVault,
    /// Open the local vault for reading.
    OpenLocalVault,
    /// Copy the local vault into the remote vault.
    CopyLocalToRemote,
    /// Open the remote vault for reading.
    OpenRemoteVault,
    /// Rename the local vault to the local backup, overwriting.
    BackUpLocalVault,
    /// Create the local vault, empty, and open it for writing.
    CreateLocalVault,
    /// Copy the remote vault into the local vault.
    CopyRemoteToLocal,
    /// Give the permit back.
    ReleasePermit,
    /// Nothing is left to do; this is the result of the transfer.
    Finish(Result<(), SyncError>),
}

/// How an action ended.
#[derive(Debug, PartialEq, Eq, Clone, Copy, Structural)]
pub enum Outcome {
    /// It was done.
    Done,
    /// It was not done, and for a known reason: what it looks for is not
    /// there. Only a look for a remote file or folder ends so, and only on
    /// the word of the remote side.
    Missing,
    /// It was not done, or whether it was done cannot be told.
    Failed,
}

/// The stages of an upload.
#[derive(Debug, PartialEq, Eq, Clone, Copy)]
pub enum Upload {
    OpeningChannel,
    Acquiring,
    OpeningFolder,
    MakingFolder,
    Probing,
    RemovingBackup,
    BackingUp,
    Creating,
    OpeningLocal,
    Copying,
    Releasing(Result<(), SyncError>),
    Done,
}

/// The stages of a download.
#[derive(Debug, PartialEq, Eq, Clone, Copy)]
pub enum Download {
    OpeningChannel,
    Acquiring,
    OpeningRemote,
    BackingUp,
    Creating,
    Copying,
    Releasing(Result<(), SyncError>),
    Done,
}

impl Upload {
    /// The action that is due in this stage.
    pub open spec fn due(self) -> Action {
        match self {
            Upload::OpeningChannel => Action::OpenChannel,
            Upload::Acquiring => Action::AcquirePermit,
            Upload::OpeningFolder => Action::OpenRemoteFolder,
            Upload::MakingFolder => Action::MakeRemoteFolder,
            Upload::Probing => Action::ProbeRemoteVault,
            Upload::RemovingBackup => Action::RemoveRemoteBackup,
            Upload::BackingUp => Action::BackUpRemoteVault,
            Upload::Creating => Action::CreateRemoteVault,
            Upload::OpeningLocal => Action::OpenLocalVault,
            Upload::Copying => Action::CopyLocalToRemote,
            Upload::Releasing(_) => Action::ReleasePermit,
            Upload::Done => Action::Finish(Ok(())),
        }
    }

    /// The stage that follows this one, given how its action ended, and the
    /// result of the transfer where that stage is `Done`. The remote vault is
    /// set aside unless the remote side says that there is none; where the
    /// look for it fails, the upload ends with an error and overwrites
    /// nothing.
    pub open spec fn next(self, outcome: Outcome) -> (Upload, Result<(), SyncError>) {
        let succeeded = outcome == Outcome::Done;
        match self {
            Upload::OpeningChannel => if succeeded {
                (Upload::Acquiring, Ok(()))
            } else {
                (Upload::Done, Err(SyncError::TransferInit))
            },
            Upload::Acquiring => if succeeded {
                (Upload::OpeningFolder, Ok(()))
            } else {
                (Upload::Done, Err(SyncError::PermitUnavailable))
            },
            Upload::OpeningFolder => if succeeded {
                (Upload::Probing, Ok(()))
            } else {
                (Upload::MakingFolder, Ok(()))
            },
            Upload::MakingFolder => if succeeded {
                (Upload::Probing, Ok(()))
            } else {
                (Upload::Releasing(Err(SyncError::CreateFolder)), Ok(()))
            },
            Upload::Probing => match outcome {
                Outcome::Done => (Upload::RemovingBackup, Ok(())),
                Outcome::Missing => (Upload::Creating, Ok(())),
                Outcome::Failed => (Upload::Releasing(Err(SyncError::ProbeFailed)), Ok(())),
            },
            Upload::RemovingBackup => (Upload::BackingUp, Ok(())),
            Upload::BackingUp => if succeeded {
                (Upload::Creating, Ok(()))
            } else {
                (Upload::Releasing(Err(SyncError::CreateBackup)), Ok(()))
            },
            Upload::Creating => if succeeded {
                (Upload::OpeningLocal, Ok(()))
            } else {
                (Upload::Releasing(Err(SyncError::CreateRemoteFile)), Ok(()))
            },
            Upload::OpeningLocal => if succeeded {
                (Upload::Copying, Ok(()))
            } else {
                (Upload::Releasing(Err(SyncError::OpenLocalFile)), Ok(()))
            },
            Upload::Copying => if succeeded {
                (Upload::Releasing(Ok(())), Ok(()))
            } else {
                (Upload::Releasing(Err(SyncError::CopyFailed)), Ok(()))
            },
            Upload::Releasing(result) => (Upload::Done, result),
            Upload::Done => (Upload::Done, Ok(())),
        }
    }

    /// What to do after this stage: the action of the next stage, or
    /// `Finish` with the result where the transfer is over.
    pub open spec fn following(self, outcome: Outcome) -> Action {
        let (stage, result) = self.next(outcome);
        if stage == Upload::Done {
            Action::Finish(result)
        } else {
            stage.due()
        }
    }

    /// The first stage of an upload, and its action.
    pub fn start() -> (first: (Upload, Action))
        ensures
            first.0 == Upload::OpeningChannel,
            first.1 == first.0.due(),
    {
        (Upload::OpeningChannel, Action::OpenChannel)
    }

    fn action(&self) -> (action: Action)
        ensures
            action == self.due(),
    {
        match self {
            Upload::OpeningChannel => Action::OpenChannel,
            Upload::Acquiring => Action::AcquirePermit,
            Upload::OpeningFolder => Action::OpenRemoteFolder,
            Upload::MakingFolder => Action::MakeRemoteFolder,
            Upload::Probing => Action::ProbeRemoteVault,
            Upload::RemovingBackup => Action::RemoveRemoteBackup,
            Upload::BackingUp => Action::BackUpRemoteVault,
            Upload::Creating => Action::CreateRemoteVault,
            Upload::OpeningLocal => Action::OpenLocalVault,
            Upload::Copying => Action::CopyLocalToRemote,
            Upload::Releasing(_) => Action::ReleasePermit,
            Upload::Done => Action::Finish(Ok(())),
        }
    }

    /// Takes the outcome of the action that was due, and says which stage
    /// comes next and what to do in it.
    pub fn step(self, outcome: Outcome) -> (next: (Upload, Action))
        ensures
            next.0 == self.next(outcome).0,
            next.1 == self.following(outcome),
    {
        let succeeded = matches!(outcome, Outcome::Done);
        let (stage, result) = match self {
            Upload::OpeningChannel => if succeeded {
                (Upload::Acquiring, Ok(()))
            } else {
                (Upload::Done, Err(SyncError::TransferInit))
            },
            Upload::Acquiring => if succeeded {
                (Upload::OpeningFolder, Ok(()))
            } else {
                (Upload::Done, Err(SyncError::PermitUnavailable))
            },
            Upload::OpeningFolder => if succeeded {
                (Upload::Probing, Ok(()))
            } else {
                (Upload::MakingFolder, Ok(()))
            },
            Upload::MakingFolder => if succeeded {
                (Upload::Probing, Ok(()))
            } else {
                (Upload::Releasing(Err(SyncError::CreateFolder)), Ok(()))
            },
            Upload::Probing => match outcome {
                Outcome::Done => (Upload::RemovingBackup, Ok(())),
                Outcome::Missing => (Upload::Creating, Ok(())),
                Outcome::Failed => (Upload::Releasing(Err(SyncError::ProbeFailed)), Ok(())),
            },
            Upload::RemovingBackup => (Upload::BackingUp, Ok(())),
            Upload::BackingUp => if succeeded {
                (Upload::Creating, Ok(()))
            } else {
                (Upload::Releasing(Err(SyncError::CreateBackup)), Ok(()))
            },
            Upload::Creating => if succeeded {
                (Upload::OpeningLocal, Ok(()))
            } else {
                (Upload::Releasing(Err(SyncError::CreateRemoteFile)), Ok(()))
            },
            Upload::OpeningLocal => if succeeded {
                (Upload::Copying, Ok(()))
            } else {
                (Upload::Releasing(Err(SyncError::OpenLocalFile)), Ok(()))
            },
            Upload::Copying => if succeeded {
                (Upload::Releasing(Ok(())), Ok(()))
            } else {
                (Upload::Releasing(Err(SyncError::CopyFailed)), Ok(()))
            },
            Upload::Releasing(result) => (Upload::Done, result),
            Upload::Done => (Upload::Done, Ok(())),
        };
        if matches!(stage, Upload::Done) {
            (stage, Action::Finish(result))
        } else {
            (stage, stage.action())
        }
    }
}

impl Download {
    /// The action that is due in this stage.
    pub open spec fn due(self) -> Action {
        match self {
            Download::OpeningChannel => Action::OpenChannel,
            Download::Acquiring => Action::AcquirePermit,
            Download::OpeningRemote => Action::OpenRemoteVault,
            Download::BackingUp => Action::BackUpLocalVault,
            Download::Creating => Action::CreateLocalVault,
            Download::Copying => Action::CopyRemoteToLocal,
            Download::Releasing(_) => Action::ReleasePermit,
            Download::Done => Action::Finish(Ok(())),
        }
    }

    /// The stage that follows this one, given how its action ended, and the
    /// result of the transfer where that stage is `Done`.
    pub open spec fn next(self, outcome: Outcome) -> (Download, Result<(), SyncError>) {
        let succeeded = outcome == Outcome::Done;
        match self {
            Download::OpeningChannel => if succeeded {
                (Download::Acquiring, Ok(()))
            } else {
                (Download::Done, Err(SyncError::TransferInit))
            },
            Download::Acquiring => if succeeded {
                (Download::OpeningRemote, Ok(()))
            } else {
                (Download::Done, Err(SyncError::PermitUnavailable))
            },
            Download::OpeningRemote => if succeeded {
                (Download::BackingUp, Ok(()))
            } else {
                (Download::Releasing(Err(SyncError::OpenRemoteFile)), Ok(()))
            },
            Download::BackingUp => if succeeded {
                (Download::Creating, Ok(()))
            } else {
                (Download::Releasing(Err(SyncError::CreateBackup)), Ok(()))
            },
            Download::Creating => if succeeded {
                (Download::Copying, Ok(()))
            } else {
                (Download::Releasing(Err(SyncError::CreateLocalFile)), Ok(()))
            },
            Download::Copying => if succeeded {
                (Download::Releasing(Ok(())), Ok(()))
            } else {
                (Download::Releasing(Err(SyncError::CopyFailed)), Ok(()))
            },
            Download::Releasing(result) => (Download::Done, result),
            Download::Done => (Download::Done, Ok(())),
        }
    }

    /// What to do after this stage: the action of the next stage, or
    /// `Finish` with the result where the transfer is over.
    pub open spec fn following(self, outcome: Outcome) -> Action {
        let (stage, result) = self.next(outcome);
        if stage == Download::Done {
            Action::Finish(result)
        } else {
            stage.due()
        }
    }

    /// The first stage of a download, and its action.
    pub fn start() -> (first: (Download, Action))
        ensures
            first.0 == Download::OpeningChannel,
            first.1 == first.0.due(),
    {
        (Download::OpeningChannel, Action::OpenChannel)
    }

    fn action(&self) -> (action: Action)
        ensures
            action == self.due(),
    {
        match self {
            Download::OpeningChannel => Action::OpenChannel,
            Download::Acquiring => Action::AcquirePermit,
            Download::OpeningRemote => Action::OpenRemoteVault,
            Download::BackingUp => Action::BackUpLocalVault,
            Download::Creating => Action::CreateLocalVault,
            Download::Copying => Action::CopyRemoteToLocal,
            Download::Releasing(_) => Action::ReleasePermit,
            Download::Done => Action::Finish(Ok(())),
        }
    }

    /// Takes the outcome of the action that was due, and says which stage
    /// comes next and what to do in it.
    pub fn step(self, outcome: Outcome) -> (next: (Download, Action))
        ensures
            next.0 == self.next(outcome).0,
            next.1 == self.following(outcome),
    {
        let succeeded = matches!(outcome, Outcome::Done);
        let (stage, result) = match self {
            Download::OpeningChannel => if succeeded {
                (Download::Acquiring, Ok(()))
            } else {
                (Download::Done, Err(SyncError::TransferInit))
            },
            Download::Acquiring => if succeeded {
                (Download::OpeningRemote, Ok(()))
            } else {
                (Download::Done, Err(SyncError::PermitUnavailable))
            },
            Download::OpeningRemote => if succeeded {
                (Download::BackingUp, Ok(()))
            } else {
                (Download::Releasing(Err(SyncError::OpenRemoteFile)), Ok(()))
            },
            Download::BackingUp => if succeeded {
                (Download::Creating, Ok(()))
            } else {
                (Download::Releasing(Err(SyncError::CreateBackup)), Ok(()))
            },
            Download::Creating => if succeeded {
                (Download::Copying, Ok(()))
            } else {
                (Download::Releasing(Err(SyncError::CreateLocalFile)), Ok(()))
            },
            Download::Copying => if succeeded {
                (Download::Releasing(Ok(())), Ok(()))
            } else {
                (Download::Releasing(Err(SyncError::CopyFailed)), Ok(()))
            },
            Download::Releasing(result) => (Download::Done, result),
            Download::Done => (Download::Done, Ok(())),
        };
        if matches!(stage, Download::Done) {
            (stage, Action::Finish(result))
        } else {
            (stage, stage.action())
        }
    }
}

/// `Done` where `done`, and `Failed` where not.
pub open spec fn done_if(done: bool) -> Outcome {
    if done {
        Outcome::Done
    } else {
        Outcome::Failed
    }
}

/// How a look for something on the remote side ends: it fails where it is
/// disturbed, and otherwise tells whether the thing is there.
pub open spec fn found_if(sound: bool, there: bool) -> Outcome {
    if !sound {
        Outcome::Failed
    } else if there {
        Outcome::Done
    } else {
        Outcome::Missing
    }
}

/// The files on both sides as a transfer sees them, and whether this
/// process holds the transfer permit. A file that is absent is `None`.
pub struct Files {
    pub local: Option<Seq<u8>>,
    pub local_backup: Option<Seq<u8>>,
    pub remote_folder: bool,
    pub remote: Option<Seq<u8>>,
    pub remote_backup: Option<Seq<u8>>,
    pub permit_held: bool,
}

/// What goes wrong during one transfer: the actions that fail although
/// nothing in [`Files`] stands in their way, and what a copy that fails
/// leaves in its target.
pub struct Faults {
    pub failing: Set<Action>,
    pub torn: Seq<u8>,
}

impl Files {
    /// The meaning of an action: the files after it, and how it ended. An
    /// action fails where `faults` says so or where the file that it needs
    /// is absent; a look for a remote file or folder that is not disturbed
    /// tells whether it is there. A failed action changes nothing, except
    /// for a failed copy, which leaves its target torn.
    pub open spec fn perform(self, action: Action, faults: Faults) -> (Files, Outcome) {
        let sound = !faults.failing.contains(action);
        match action {
            Action::OpenChannel => (self, done_if(sound)),
            Action::AcquirePermit => if sound && !self.permit_held {
                (Files { permit_held: true, ..self }, Outcome::Done)
            } else {
                (self, Outcome::Failed)
            },
            Action::OpenRemoteFolder => (self, found_if(sound, self.remote_folder)),
            Action::MakeRemoteFolder => if sound && !self.remote_folder {
                (Files { remote_folder: true, ..self }, Outcome::Done)
            } else {
                (self, Outcome::Failed)
            },
            Action::ProbeRemoteVault => (self, found_if(sound, self.remote is Some)),
            Action::RemoveRemoteBackup => if sound && self.remote_backup is Some {
                (Files { remote_backup: None, ..self }, Outcome::Done)
            } else {
                (self, Outcome::Failed)
            },
            Action::BackUpRemoteVault => if sound && self.remote is Some {
                (Files { remote_backup: self.remote, remote: None, ..self }, Outcome::Done)
            } else {
                (self, Outcome::Failed)
            },
            Action::CreateRemoteVault => if sound {
                (Files { remote: Some(Seq::empty()), ..self }, Outcome::Done)
            } else {
                (self, Outcome::Failed)
            },
            Action::OpenLocalVault => (self, done_if(sound && self.local is Some)),
            Action::CopyLocalToRemote => if sound && self.local is Some {
                (Files { remote: self.local, ..self }, Outcome::Done)
            } else {
                (Files { remote: Some(faults.torn), ..self }, Outcome::Failed)
            },
            Action::OpenRemoteVault => (self, done_if(sound && self.remote is Some)),
            Action::BackUpLocalVault => if sound && self.local is Some {
                (Files { local_backup: self.local, local: None, ..self }, Outcome::Done)
            } else {
                (self, Outcome::Failed)
            },
            Action::CreateLocalVault => if sound {
                (Files { local: Some(Seq::empty()), ..self }, Outcome::Done)
            } else {
                (self, Outcome::Failed)
            },
            Action::CopyRemoteToLocal => if sound && self.remote is Some {
                (Files { local: self.remote, ..self }, Outcome::Done)
            } else {
                (Files { local: Some(faults.torn), ..self }, Outcome::Failed)
            },
            Action::ReleasePermit => (Files { permit_held: false, ..self }, Outcome::Done),
            Action::Finish(_) => (self, Outcome::Done),
        }
    }

    /// An upload from `stage` on, for at most `fuel` more actions after the
    /// one that is due: the files afterwards, and the result if the upload
    /// got that far.
    pub open spec fn upload_from(self, stage: Upload, faults: Faults, fuel: nat) -> (
        Files,
        Option<Result<(), SyncError>>,
    )
        decreases fuel,
    {
        let (files, outcome) = self.perform(stage.due(), faults);
        let (next, result) = stage.next(outcome);
        if next == Upload::Done {
            (files, Some(result))
        } else if fuel == 0 {
            (files, None)
        } else {
            files.upload_from(next, faults, (fuel - 1) as nat)
        }
    }

    /// A download from `stage` on, for at most `fuel` more actions after the
    /// one that is due.
    pub open spec fn download_from(self, stage: Download, faults: Faults, fuel: nat) -> (
        Files,
        Option<Result<(), SyncError>>,
    )
        decreases fuel,
    {
        let (files, outcome) = self.perform(stage.due(), faults);
        let (next, result) = stage.next(outcome);
        if next == Download::Done {
            (files, Some(result))
        } else if fuel == 0 {
            (files, None)
        } else {
            files.download_from(next, faults, (fuel - 1) as nat)
        }
    }

    /// A whole upload.
    pub open spec fn upload(self, faults: Faults) -> (Files, Option<Result<(), SyncError>>) {
        self.upload_from(Upload::OpeningChannel, faults, most_actions())
    }

    /// A whole download.
    pub open spec fn download(self, faults: Faults) -> (Files, Option<Result<(), SyncError>>) {
        self.download_from(Download::OpeningChannel, faults, most_actions())
    }
}

/// No transfer takes more actions than this after its first.
pub open spec fn most_actions() -> nat {
    11
}

/// The errors with which an upload ends after it has begun to write.
pub open spec fn late_error(error: SyncError) -> bool {
    error == SyncError::CreateRemoteFile || error == SyncError::OpenLocalFile || error
        == SyncError::CopyFailed
}

/// What holds of an upload from the look for the remote vault on, and so of
/// a whole upload: it ends, gives the permit back and leaves the local files
/// alone; where it succeeds, the remote vault equals the local one and the
/// backup holds what the remote vault had, if it had anything; whatever
/// happens, what the remote vault had is still in the vault or in the
/// backup; and unless it ends with a late error, the remote vault is
/// untouched.
pub open spec fn upload_kept(
    before: Files,
    after: Files,
    result: Option<Result<(), SyncError>>,
) -> bool {
    &&& result is Some
    &&& !after.permit_held
    &&& after.local == before.local
    &&& after.local_backup == before.local_backup
    &&& result == Some(Ok::<(), SyncError>(())) ==> {
        &&& before.local is Some
        &&& after.remote == before.local
        &&& before.remote is Some ==> after.remote_backup == before.remote
        &&& before.remote is None ==> after.remote_backup == before.remote_backup
    }
    &&& before.remote is Some ==> after.remote == before.remote || after.remote_backup
        == before.remote
    &&& (result matches Some(Err(e)) && !late_error(e)) ==> after.remote == before.remote
}

proof fn lemma_upload_from_creating(files: Files, faults: Faults, fuel: nat)
    requires
        fuel >= 3,
    ensures
        ({
            let (after, result) = files.upload_from(Upload::Creating, faults, fuel);
            &&& result is Some
            &&& !after.permit_held
            &&& after.local == files.local
            &&& after.local_backup == files.local_backup
            &&& after.remote_backup == files.remote_backup
            &&& result == Some(Ok::<(), SyncError>(())) ==> files.local is Some && after.remote
                == files.local
            &&& result matches Some(Err(e)) ==> late_error(e)
        }),
{
    reveal_with_fuel(Files::upload_from, 5);
}

proof fn lemma_upload_from_probing(files: Files, faults: Faults, fuel: nat)
    requires
        fuel >= 6,
        files.permit_held,
    ensures
        ({
            let (after, result) = files.upload_from(Upload::Probing, faults, fuel);
            upload_kept(Files { permit_held: false, ..files }, after, result)
        }),
{
    reveal_with_fuel(Files::upload_from, 4);
    let (probed, found) = files.perform(Action::ProbeRemoteVault, faults);
    if found == Outcome::Missing {
        lemma_upload_from_creating(probed, faults, (fuel - 1) as nat);
    } else if found == Outcome::Done {
        let (removed, _) = probed.perform(Action::RemoveRemoteBackup, faults);
        let (moved, set_aside) = removed.perform(Action::BackUpRemoteVault, faults);
        if set_aside == Outcome::Done {
            lemma_upload_from_creating(moved, faults, (fuel - 3) as nat);
        }
    }
}

/// Every upload, whichever of its actions fail, keeps what [`upload_kept`]
/// says.
pub proof fn lemma_upload_keeps(files: Files, faults: Faults)
    requires
        !files.permit_held,
    ensures
        upload_kept(files, files.upload(faults).0, files.upload(faults).1),
{
    reveal_with_fuel(Files::upload_from, 5);
    let (opened, _) = files.perform(Action::OpenChannel, faults);
    let (held, acquired) = opened.perform(Action::AcquirePermit, faults);
    if !faults.failing.contains(Action::OpenChannel) && acquired == Outcome::Done {
        let (looked, folder) = held.perform(Action::OpenRemoteFolder, faults);
        if folder == Outcome::Done {
            lemma_upload_from_probing(looked, faults, 8);
        } else {
            let (made, making) = looked.perform(Action::MakeRemoteFolder, faults);
            if making == Outcome::Done {
                lemma_upload_from_probing(made, faults, 7);
            }
        }
    }
}

/// Every upload comes to an end, and leaves the local files alone.
pub proof fn lemma_upload_ends(files: Files, faults: Faults)
    requires
        !files.permit_held,
    ensures
        files.upload(faults).1 is Some,
        files.upload(faults).0.local == files.local,
        files.upload(faults).0.local_backup == files.local_backup,
{
    lemma_upload_keeps(files, faults);
}

/// An upload that succeeds leaves the remote vault equal to the local vault.
/// Where a remote vault was there before, the remote backup holds the
/// content that the remote vault had, and nothing else; where none was
/// there, the remote backup is as it was.
pub proof fn lemma_upload_success(files: Files, faults: Faults)
    requires
        !files.permit_held,
        files.upload(faults).1 == Some(Ok::<(), SyncError>(())),
    ensures
        files.local is Some,
        files.upload(faults).0.remote == files.local,
        files.remote is Some ==> files.upload(faults).0.remote_backup == files.remote,
        files.remote is None ==> files.upload(faults).0.remote_backup == files.remote_backup,
{
    lemma_upload_keeps(files, faults);
}

/// However an upload ends, and whichever of its actions fail, the content
/// that the remote vault had is not lost: the remote vault still holds it,
/// or the remote backup does.
pub proof fn lemma_upload_keeps_previous(files: Files, faults: Faults)
    requires
        !files.permit_held,
        files.remote is Some,
    ensures
        files.upload(faults).0.remote == files.remote || files.upload(faults).0.remote_backup
            == files.remote,
{
    lemma_upload_keeps(files, faults);
}

/// An upload that cannot tell whether a remote vault is there, or fails to
/// set it aside, or fails before it gets that far, has overwritten nothing.
pub proof fn lemma_upload_aborts_before_overwriting(files: Files, faults: Faults)
    requires
        !files.permit_held,
        files.upload(faults).1 matches Some(Err(e)) && (e == SyncError::TransferInit || e
            == SyncError::PermitUnavailable || e == SyncError::CreateFolder || e
            == SyncError::ProbeFailed || e == SyncError::CreateBackup),
    ensures
        files.upload(faults).0.remote == files.remote,
{
    lemma_upload_keeps(files, faults);
}

/// The permit is given back however an upload ends.
pub proof fn lemma_upload_releases_permit(files: Files, faults: Faults)
    requires
        !files.permit_held,
    ensures
        !files.upload(faults).0.permit_held,
{
    lemma_upload_keeps(files, faults);
}

/// Every download comes to an end, and leaves the remote files alone.
pub proof fn lemma_download_ends(files: Files, faults: Faults)
    ensures
        files.download(faults).1 is Some,
        files.download(faults).0.remote == files.remote,
        files.download(faults).0.remote_backup == files.remote_backup,
        files.download(faults).0.remote_folder == files.remote_folder,
{
    reveal_with_fuel(Files::download_from, 12);
}

/// A download that succeeds leaves the local vault equal to the remote
/// vault, and the local backup equal to what the local vault was.
pub proof fn lemma_download_success(files: Files, faults: Faults)
    requires
        !files.permit_held,
        files.download(faults).1 == Some(Ok::<(), SyncError>(())),
    ensures
        files.remote is Some,
        files.local is Some,
        files.download(faults).0.local == files.remote,
        files.download(faults).0.local_backup == files.local,
{
    reveal_with_fuel(Files::download_from, 12);
}

/// However a download ends, the content that the local vault had is not
/// lost: the local vault still holds it, or the local backup does.
pub proof fn lemma_download_keeps_previous(files: Files, faults: Faults)
    requires
        !files.permit_held,
        files.local is Some,
    ensures
        files.download(faults).0.local == files.local || files.download(faults).0.local_backup
            == files.local,
{
    reveal_with_fuel(Files::download_from, 12);
}

/// The permit is given back however a download ends.
pub proof fn lemma_download_releases_permit(files: Files, faults: Faults)
    requires
        !files.permit_held,
    ensures
        !files.download(faults).0.permit_held,
{
    reveal_with_fuel(Files::download_from, 12);
}

} // verus!
