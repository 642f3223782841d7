use password_manager::error::SyncError;
use password_manager::transfer::{Action, Download, Outcome, Upload};

/// A remote side and a local side in memory, with one action that can be
/// made to fail.
struct World {
    local: Option<Vec<u8>>,
    local_backup: Option<Vec<u8>>,
    remote_folder: bool,
    remote: Option<Vec<u8>>,
    remote_backup: Option<Vec<u8>>,
    permit_held: bool,
    failing: Option<Action>,
    log: Vec<Action>,
}

impl World {
    fn new(local: Option<&[u8]>, remote: Option<&[u8]>) -> World {
        World {
            local: local.map(|b| b.to_vec()),
            local_backup: None,
            remote_folder: remote.is_some(),
            remote: remote.map(|b| b.to_vec()),
            remote_backup: None,
            permit_held: false,
            failing: None,
            log: Vec::new(),
        }
    }

    fn perform(&mut self, action: Action) -> Outcome {
        self.log.push(action);
        let sound = self.failing != Some(action);
        let done = |done: bool| if done { Outcome::Done } else { Outcome::Failed };
        let found = |there: bool| {
            if !sound {
                Outcome::Failed
            } else if there {
                Outcome::Done
            } else {
                Outcome::Missing
            }
        };
        match action {
            Action::OpenChannel => done(sound),
            Action::AcquirePermit => {
                let free = sound && !self.permit_held;
                self.permit_held |= free;
                done(free)
            }
            Action::OpenRemoteFolder => found(self.remote_folder),
            Action::MakeRemoteFolder => {
                let made = sound && !self.remote_folder;
                self.remote_folder |= made;
                done(made)
            }
            Action::ProbeRemoteVault => found(self.remote.is_some()),
            Action::OpenRemoteVault => done(sound && self.remote.is_some()),
            Action::RemoveRemoteBackup => done(sound && self.remote_backup.take().is_some()),
            Action::BackUpRemoteVault => {
                let moved = sound && self.remote.is_some();
                if moved {
                    self.remote_backup = self.remote.take();
                }
                done(moved)
            }
            Action::CreateRemoteVault => {
                if sound {
                    self.remote = Some(Vec::new());
                }
                done(sound)
            }
            Action::OpenLocalVault => done(sound && self.local.is_some()),
            Action::CopyLocalToRemote => {
                let copied = sound && self.local.is_some();
                self.remote = if copied { self.local.clone() } else { Some(b"torn".to_vec()) };
                done(copied)
            }
            Action::BackUpLocalVault => {
                let moved = sound && self.local.is_some();
                if moved {
                    self.local_backup = self.local.take();
                }
                done(moved)
            }
            Action::CreateLocalVault => {
                if sound {
                    self.local = Some(Vec::new());
                }
                done(sound)
            }
            Action::CopyRemoteToLocal => {
                let copied = sound && self.remote.is_some();
                self.local = if copied { self.remote.clone() } else { Some(b"torn".to_vec()) };
                done(copied)
            }
            Action::ReleasePermit => {
                self.permit_held = false;
                Outcome::Done
            }
            Action::Finish(_) => Outcome::Done,
        }
    }

    fn upload(&mut self) -> Result<(), SyncError> {
        let (mut stage, mut action) = Upload::start();
        for _ in 0..20 {
            if let Action::Finish(result) = action {
                return result;
            }
            let outcome = self.perform(action);
            (stage, action) = stage.step(outcome);
        }
        panic!("the upload did not end");
    }

    fn download(&mut self) -> Result<(), SyncError> {
        let (mut stage, mut action) = Download::start();
        for _ in 0..20 {
            if let Action::Finish(result) = action {
                return result;
            }
            let outcome = self.perform(action);
            (stage, action) = stage.step(outcome);
        }
        panic!("the download did not end");
    }
}

#[test]
fn first_upload_makes_the_folder_and_the_vault() {
    let mut world = World::new(Some(b"one"), None);
    assert_eq!(world.upload(), Ok(()));
    assert!(world.remote_folder);
    assert_eq!(world.remote.as_deref(), Some(&b"one"[..]));
    assert_eq!(world.remote_backup, None);
    assert!(!world.permit_held);
    assert_eq!(
        world.log,
        vec![
            Action::OpenChannel,
            Action::AcquirePermit,
            Action::OpenRemoteFolder,
            Action::MakeRemoteFolder,
            Action::ProbeRemoteVault,
            Action::CreateRemoteVault,
            Action::OpenLocalVault,
            Action::CopyLocalToRemote,
            Action::ReleasePermit,
        ]
    );
}

#[test]
fn second_upload_keeps_the_previous_vault_as_backup() {
    let mut world = World::new(Some(b"one"), None);
    assert_eq!(world.upload(), Ok(()));
    world.local = Some(b"two".to_vec());
    world.log.clear();
    assert_eq!(world.upload(), Ok(()));
    assert_eq!(world.remote.as_deref(), Some(&b"two"[..]));
    assert_eq!(world.remote_backup.as_deref(), Some(&b"one"[..]));
    world.local = Some(b"three".to_vec());
    assert_eq!(world.upload(), Ok(()));
    assert_eq!(world.remote.as_deref(), Some(&b"three"[..]));
    assert_eq!(world.remote_backup.as_deref(), Some(&b"two"[..]));
    assert!(!world.permit_held);
}

#[test]
fn upload_that_cannot_back_up_overwrites_nothing() {
    let mut world = World::new(Some(b"new"), Some(b"old"));
    world.failing = Some(Action::BackUpRemoteVault);
    assert_eq!(world.upload(), Err(SyncError::CreateBackup));
    assert_eq!(world.remote.as_deref(), Some(&b"old"[..]));
    assert!(!world.permit_held);
    assert!(!world.log.contains(&Action::CreateRemoteVault));
    assert_eq!(world.log.last(), Some(&Action::ReleasePermit));
}

#[test]
fn every_failure_of_an_upload_has_its_error_and_releases_the_permit() {
    let cases = [
        (Action::OpenChannel, SyncError::TransferInit, false),
        (Action::AcquirePermit, SyncError::PermitUnavailable, false),
        (Action::ProbeRemoteVault, SyncError::ProbeFailed, true),
        (Action::BackUpRemoteVault, SyncError::CreateBackup, true),
        (Action::CreateRemoteVault, SyncError::CreateRemoteFile, true),
        (Action::OpenLocalVault, SyncError::OpenLocalFile, true),
        (Action::CopyLocalToRemote, SyncError::CopyFailed, true),
    ];
    for (failing, error, released) in cases {
        let mut world = World::new(Some(b"new"), Some(b"old"));
        world.failing = Some(failing);
        assert_eq!(world.upload(), Err(error), "{:?}", failing);
        assert!(!world.permit_held);
        assert_eq!(world.log.contains(&Action::ReleasePermit), released);
        assert_eq!(world.local.as_deref(), Some(&b"new"[..]));
        let kept = world.remote.as_deref() == Some(&b"old"[..])
            || world.remote_backup.as_deref() == Some(&b"old"[..]);
        assert!(kept, "{:?}", failing);
    }
    let mut world = World::new(Some(b"new"), None);
    world.failing = Some(Action::MakeRemoteFolder);
    assert_eq!(world.upload(), Err(SyncError::CreateFolder));
    assert!(!world.permit_held);
    let mut world = World::new(Some(b"new"), Some(b"old"));
    world.failing = Some(Action::RemoveRemoteBackup);
    assert_eq!(world.upload(), Ok(()));
    assert_eq!(world.remote_backup.as_deref(), Some(&b"old"[..]));
}

#[test]
fn download_keeps_the_previous_local_vault_as_backup() {
    let mut world = World::new(Some(b"mine"), Some(b"theirs"));
    assert_eq!(world.download(), Ok(()));
    assert_eq!(world.local.as_deref(), Some(&b"theirs"[..]));
    assert_eq!(world.local_backup.as_deref(), Some(&b"mine"[..]));
    assert_eq!(world.remote.as_deref(), Some(&b"theirs"[..]));
    assert!(!world.permit_held);
    assert_eq!(
        world.log,
        vec![
            Action::OpenChannel,
            Action::AcquirePermit,
            Action::OpenRemoteVault,
            Action::BackUpLocalVault,
            Action::CreateLocalVault,
            Action::CopyRemoteToLocal,
            Action::ReleasePermit,
        ]
    );
}

#[test]
fn every_failure_of_a_download_has_its_error_and_releases_the_permit() {
    let cases = [
        (Action::OpenChannel, SyncError::TransferInit),
        (Action::AcquirePermit, SyncError::PermitUnavailable),
        (Action::OpenRemoteVault, SyncError::OpenRemoteFile),
        (Action::BackUpLocalVault, SyncError::CreateBackup),
        (Action::CreateLocalVault, SyncError::CreateLocalFile),
        (Action::CopyRemoteToLocal, SyncError::CopyFailed),
    ];
    for (failing, error) in cases {
        let mut world = World::new(Some(b"mine"), Some(b"theirs"));
        world.failing = Some(failing);
        assert_eq!(world.download(), Err(error), "{:?}", failing);
        assert!(!world.permit_held);
        assert_eq!(world.remote.as_deref(), Some(&b"theirs"[..]));
        let kept = world.local.as_deref() == Some(&b"mine"[..])
            || world.local_backup.as_deref() == Some(&b"mine"[..]);
        assert!(kept, "{:?}", failing);
    }
    let mut world = World::new(Some(b"mine"), None);
    assert_eq!(world.download(), Err(SyncError::OpenRemoteFile));
    assert_eq!(world.local.as_deref(), Some(&b"mine"[..]));
}

#[test]
fn a_finished_transfer_stays_finished() {
    assert_eq!(Upload::Done.step(Outcome::Done), (Upload::Done, Action::Finish(Ok(()))));
    assert_eq!(Download::Done.step(Outcome::Failed), (Download::Done, Action::Finish(Ok(()))));
    assert_eq!(
        Upload::Releasing(Err(SyncError::CopyFailed)).step(Outcome::Done),
        (Upload::Done, Action::Finish(Err(SyncError::CopyFailed)))
    );
}

#[test]
fn an_upload_that_cannot_tell_whether_a_vault_is_there_overwrites_nothing() {
    let mut world = World::new(Some(b"new"), Some(b"old"));
    world.remote_backup = Some(b"older".to_vec());
    world.failing = Some(Action::ProbeRemoteVault);
    assert_eq!(world.upload(), Err(SyncError::ProbeFailed));
    assert_eq!(world.remote.as_deref(), Some(&b"old"[..]));
    assert_eq!(world.remote_backup.as_deref(), Some(&b"older"[..]));
    assert!(!world.log.contains(&Action::CreateRemoteVault));
    assert!(!world.permit_held);
    assert_eq!(
        Upload::Probing.step(Outcome::Failed),
        (Upload::Releasing(Err(SyncError::ProbeFailed)), Action::ReleasePermit)
    );
    assert_eq!(Upload::Probing.step(Outcome::Missing), (Upload::Creating, Action::CreateRemoteVault));
    assert_eq!(
        Upload::Probing.step(Outcome::Done),
        (Upload::RemovingBackup, Action::RemoveRemoteBackup)
    );
}

#[test]
fn an_upload_onto_a_vault_leaves_one_backup_with_what_the_vault_had() {
    let mut world = World::new(Some(b"local"), Some(b"previous"));
    world.remote_backup = Some(b"older".to_vec());
    assert_eq!(world.upload(), Ok(()));
    assert_eq!(world.remote.as_deref(), Some(&b"local"[..]));
    assert_eq!(world.remote_backup.as_deref(), Some(&b"previous"[..]));
}
