//! The error taxonomy of the vault.

use vstd::prelude::*;

verus! {

/// Why a raw text was rejected for a value kind. Recoverable; the message is
/// what the caller shows.
#[derive(Debug, PartialEq, Eq, Clone, Copy, Structural)]
pub enum ValidationError {
    /// Not a signed 64-bit integer in plain decimal notation.
    InvalidNumber,
    /// Not a calendar date.
    InvalidDate,
    /// Not a base32 secret of at least 128 bits.
    InvalidOtpSecret,
    /// Neither a URL nor an IPv4 or IPv6 literal.
    InvalidUrl,
    /// Not an e-mail address.
    InvalidEmail,
    /// Not an international phone number.
    InvalidPhoneNumber,
    /// A card number with something other than digits in it.
    CardInvalidFormat,
    /// A card number whose length does not fit its brand.
    CardInvalidLength,
    /// A card number whose check digit is wrong.
    CardInvalidLuhn,
    /// A card number of no known brand.
    CardUnknownType,
    /// A card number rejected for a reason this crate has no name for.
    CardUnknownError,
    /// A blank text where some content is needed.
    EmptyValue,
}

impl ValidationError {
    /// The message of each error.
    pub open spec fn text(self) -> Seq<char> {
        match self {
            ValidationError::InvalidNumber => "Invalid number"@,
            ValidationError::InvalidDate => "Invalid date"@,
            ValidationError::InvalidOtpSecret => "Invalid OTP Secret"@,
            ValidationError::InvalidUrl => "Invalid URL"@,
            ValidationError::InvalidEmail => "Invalid email"@,
            ValidationError::InvalidPhoneNumber => "Invalid phone number"@,
            ValidationError::CardInvalidFormat => "Invalid Format"@,
            ValidationError::CardInvalidLength => "Invalid Length"@,
            ValidationError::CardInvalidLuhn => "Invalid Luhn"@,
            ValidationError::CardUnknownType => "Unknown Type"@,
            ValidationError::CardUnknownError => "Unknown Error"@,
            ValidationError::EmptyValue => "Value cannot be empty"@,
        }
    }

    pub fn message(&self) -> (message: &'static str)
        ensures
            message@ == self.text(),
    {
        match self {
            ValidationError::InvalidNumber => "Invalid number",
            ValidationError::InvalidDate => "Invalid date",
            ValidationError::InvalidOtpSecret => "Invalid OTP Secret",
            ValidationError::InvalidUrl => "Invalid URL",
            ValidationError::InvalidEmail => "Invalid email",
            ValidationError::InvalidPhoneNumber => "Invalid phone number",
            ValidationError::CardInvalidFormat => "Invalid Format",
            ValidationError::CardInvalidLength => "Invalid Length",
            ValidationError::CardInvalidLuhn => "Invalid Luhn",
            ValidationError::CardUnknownType => "Unknown Type",
            ValidationError::CardUnknownError => "Unknown Error",
            ValidationError::EmptyValue => "Value cannot be empty",
        }
    }
}

/// Why the passcode registry refused a secret. Recoverable: the caller may
/// remove an entry and try again.
#[derive(Debug, PartialEq, Eq, Clone, Copy, Structural)]
pub enum RegistryError {
    /// The registry holds as many generators as it was made for.
    Full,
    /// The text is not a shared secret.
    InvalidSecret,
}

impl RegistryError {
    pub open spec fn text(self) -> Seq<char> {
        match self {
            RegistryError::Full => "TOTP Manager is full"@,
            RegistryError::InvalidSecret => "Invalid OTP Secret"@,
        }
    }

    pub fn message(&self) -> (message: &'static str)
        ensures
            message@ == self.text(),
    {
        match self {
            RegistryError::Full => "TOTP Manager is full",
            RegistryError::InvalidSecret => "Invalid OTP Secret",
        }
    }
}

/// Why a synchronisation attempt failed. Recoverable: each attempt stands
/// alone, and a retry is a new call.
#[derive(Debug, PartialEq, Eq, Clone, Copy, Structural)]
pub enum SyncError {
    /// The transfer library could not set up a session.
    SessionInit,
    /// The address is neither `host:port` nor a bare IP address.
    InvalidAddress,
    /// No connection within the time allowed.
    ConnectFailed,
    /// The encrypted transport could not be negotiated.
    HandshakeFailed,
    /// The remote side refused the user name or the password.
    WrongCredentials,
    /// No address is stored.
    MissingAddress,
    /// No user name is stored.
    MissingUsername,
    /// No password is stored.
    MissingPassword,
    /// Synchronisation is switched off.
    NotEnabled,
    /// The file-transfer channel could not be opened.
    TransferInit,
    /// The remote vault could not be examined.
    RemoteMetadata,
    /// The remote side did not say when its vault was modified.
    RemoteMtime,
    /// The local vault could not be examined.
    LocalMetadata,
    /// The single transfer permit could not be had.
    PermitUnavailable,
    /// The remote folder is missing and could not be made.
    CreateFolder,
    /// Whether the remote side holds a vault could not be told; nothing was
    /// overwritten.
    ProbeFailed,
    /// The current vault could not be set aside; nothing was overwritten.
    CreateBackup,
    /// The remote vault could not be opened for writing.
    CreateRemoteFile,
    /// The local vault could not be opened for reading.
    OpenLocalFile,
    /// The remote vault could not be opened for reading.
    OpenRemoteFile,
    /// The local vault could not be opened for writing.
    CreateLocalFile,
    /// The content was not transferred in full.
    CopyFailed,
    /// The user declined to overwrite newer data.
    Canceled,
}

impl SyncError {
    pub open spec fn text(self) -> Seq<char> {
        match self {
            SyncError::SessionInit => "Failed to initialize session"@,
            SyncError::InvalidAddress => "Invalid address"@,
            SyncError::ConnectFailed => "Failed to connect"@,
            SyncError::HandshakeFailed => "Handshake failed"@,
            SyncError::WrongCredentials => "Wrong credentials"@,
            SyncError::MissingAddress => "Failed to load address"@,
            SyncError::MissingUsername => "Failed to load username"@,
            SyncError::MissingPassword => "Failed to load password"@,
            SyncError::NotEnabled => "Cloud is not enabled"@,
            SyncError::TransferInit => "Failed to initialize sftp"@,
            SyncError::RemoteMetadata => "Failed to get cloud metadata"@,
            SyncError::RemoteMtime => "Failed to get cloud mtime"@,
            SyncError::LocalMetadata => "Failed to get local metadata"@,
            SyncError::PermitUnavailable => "Failed to acquire permit"@,
            SyncError::CreateFolder => "Failed to create folder"@,
            SyncError::ProbeFailed => "Failed to look for cloud file"@,
            SyncError::CreateBackup => "Failed to create backup"@,
            SyncError::CreateRemoteFile => "Failed to create cloud file"@,
            SyncError::OpenLocalFile => "Failed to open local file"@,
            SyncError::OpenRemoteFile => "Failed to open cloud file"@,
            SyncError::CreateLocalFile => "Failed to create local file"@,
            SyncError::CopyFailed => "Failed to copy file"@,
            SyncError::Canceled => "Canceled by user"@,
        }
    }

    pub fn message(&self) -> (message: &'static str)
        ensures
            message@ == self.text(),
    {
        match self {
            SyncError::SessionInit => "Failed to initialize session",
            SyncError::InvalidAddress => "Invalid address",
            SyncError::ConnectFailed => "Failed to connect",
            SyncError::HandshakeFailed => "Handshake failed",
            SyncError::WrongCredentials => "Wrong credentials",
            SyncError::MissingAddress => "Failed to load address",
            SyncError::MissingUsername => "Failed to load username",
            SyncError::MissingPassword => "Failed to load password",
            SyncError::NotEnabled => "Cloud is not enabled",
            SyncError::TransferInit => "Failed to initialize sftp",
            SyncError::RemoteMetadata => "Failed to get cloud metadata",
            SyncError::RemoteMtime => "Failed to get cloud mtime",
            SyncError::LocalMetadata => "Failed to get local metadata",
            SyncError::PermitUnavailable => "Failed to acquire permit",
            SyncError::CreateFolder => "Failed to create folder",
            SyncError::ProbeFailed => "Failed to look for cloud file",
            SyncError::CreateBackup => "Failed to create backup",
            SyncError::CreateRemoteFile => "Failed to create cloud file",
            SyncError::OpenLocalFile => "Failed to open local file",
            SyncError::OpenRemoteFile => "Failed to open cloud file",
            SyncError::CreateLocalFile => "Failed to create local file",
            SyncError::CopyFailed => "Failed to copy file",
            SyncError::Canceled => "Canceled by user",
        }
    }
}

/// Why an operation of the store failed. The operation is over; nothing
/// is retried.
#[derive(Debug, PartialEq, Eq, Clone, Copy, Structural)]
pub enum StoreError {
    /// The passphrase is blank.
    EmptyPassword,
    /// The folder of the vault could not be made.
    DataDirectory,
    /// The vault file could not be opened or created.
    OpenFailed,
    /// The key could not be handed to the cipher.
    UnlockFailed,
    /// The vault cannot be read with this passphrase. A damaged or foreign
    /// file gives the same error, on purpose.
    InvalidPassword,
    /// The cipher refused to guard its memory.
    MemorySecurity,
    /// The tables could not be made.
    CreateFailed,
    /// The vault could not be encrypted anew; it stays under the old key.
    RekeyFailed,
    /// The lock around the connection is poisoned.
    LockUnavailable,
    /// A statement was refused before it ran.
    PrepareFailed,
    /// The setting is not set, or could not be read.
    GetSetting,
    /// The content could not be read, or a row of it is not valid.
    GetContent,
    /// The records could not be read.
    GetRecords,
    /// The passwords could not be read.
    GetPasswords,
    /// The breach cache could not be read.
    GetBreachStatus,
    /// The setting was not written.
    SaveSetting,
    /// The record was not written.
    SaveRecord,
    /// The content, or the breach verdict, was not written.
    SaveContent,
    /// The setting was not deleted.
    DeleteSetting,
    /// No transaction could be started; nothing was changed.
    BeginTransaction,
    /// The content of the record was not deleted; nothing was changed.
    DeleteRecordContent,
    /// The record was not deleted; nothing was changed.
    DeleteRecord,
    /// The content was not deleted; nothing was changed.
    DeleteContent,
    /// The transaction was not committed; nothing was changed.
    CommitTransaction,
    /// The breach cache was not purged.
    PurgeBreachCache,
}

impl StoreError {
    pub open spec fn text(self) -> Seq<char> {
        match self {
            StoreError::EmptyPassword => "Password can not be empty"@,
            StoreError::DataDirectory => "Failed to create data directory"@,
            StoreError::OpenFailed => "Failed to open database"@,
            StoreError::UnlockFailed => "Failed to unlock database"@,
            StoreError::InvalidPassword => "Invalid password"@,
            StoreError::MemorySecurity => "Failed to enable memory security"@,
            StoreError::CreateFailed => "Failed to create database"@,
            StoreError::RekeyFailed => "Failed to set a new key"@,
            StoreError::LockUnavailable => "Failed to access database lock"@,
            StoreError::PrepareFailed => "Failed to prepare statement"@,
            StoreError::GetSetting => "Failed to get setting"@,
            StoreError::GetContent => "Failed to get content"@,
            StoreError::GetRecords => "Failed to get records"@,
            StoreError::GetPasswords => "Failed to get passwords"@,
            StoreError::GetBreachStatus => "Failed to get breach status"@,
            StoreError::SaveSetting => "Failed to save setting"@,
            StoreError::SaveRecord => "Failed to save record"@,
            StoreError::SaveContent => "Failed to save content"@,
            StoreError::DeleteSetting => "Failed to delete setting"@,
            StoreError::BeginTransaction => "Failed to start transaction"@,
            StoreError::DeleteRecordContent => "Failed to delete records content"@,
            StoreError::DeleteRecord => "Failed to delete record"@,
            StoreError::DeleteContent => "Failed to delete content"@,
            StoreError::CommitTransaction => "Failed to commit transaction"@,
            StoreError::PurgeBreachCache => "Failed to delete old breach status"@,
        }
    }

    pub fn message(&self) -> (message: &'static str)
        ensures
            message@ == self.text(),
    {
        match self {
            StoreError::EmptyPassword => "Password can not be empty",
            StoreError::DataDirectory => "Failed to create data directory",
            StoreError::OpenFailed => "Failed to open database",
            StoreError::UnlockFailed => "Failed to unlock database",
            StoreError::InvalidPassword => "Invalid password",
            StoreError::MemorySecurity => "Failed to enable memory security",
            StoreError::CreateFailed => "Failed to create database",
            StoreError::RekeyFailed => "Failed to set a new key",
            StoreError::LockUnavailable => "Failed to access database lock",
            StoreError::PrepareFailed => "Failed to prepare statement",
            StoreError::GetSetting => "Failed to get setting",
            StoreError::GetContent => "Failed to get content",
            StoreError::GetRecords => "Failed to get records",
            StoreError::GetPasswords => "Failed to get passwords",
            StoreError::GetBreachStatus => "Failed to get breach status",
            StoreError::SaveSetting => "Failed to save setting",
            StoreError::SaveRecord => "Failed to save record",
            StoreError::SaveContent => "Failed to save content",
            StoreError::DeleteSetting => "Failed to delete setting",
            StoreError::BeginTransaction => "Failed to start transaction",
            StoreError::DeleteRecordContent => "Failed to delete records content",
            StoreError::DeleteRecord => "Failed to delete record",
            StoreError::DeleteContent => "Failed to delete content",
            StoreError::CommitTransaction => "Failed to commit transaction",
            StoreError::PurgeBreachCache => "Failed to delete old breach status",
        }
    }
}

} // verus!
