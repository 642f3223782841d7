//! What the presentation layer asks of a session: which window to show,
//! whether a vault may be made, opened or re-keyed, what to put on the
//! clipboard, and what to tell about synchronisation.

use crate::cloud::is_enabled;
use crate::database::{breach_cutoff, deleting_content, Statement, StatementView};
use crate::error::{StoreError, SyncError};
use crate::kind::ValueKind;
use crate::model::Content;
use crate::password::PasswordProblem;
use crate::secret::SecretValue;
use crate::sql::{change_key, open, opening, rekey_pragma, Step, StepView};
use crate::text::{blank, same_text};
use crate::totp::TOTPManager;
use crate::transaction::Transaction;
use vstd::prelude::*;
use vstd::string::StringExecFns;

verus! {

/// The windows of the application.
#[derive(Debug, PartialEq, Eq, Clone, Copy, Structural)]
pub enum WindowType {
    Login,
    Register,
    Main,
}

/// Which window to show: the main one while a vault is unlocked, else the
/// login where a vault exists, else the registration.
pub fn initialize_window(unlocked: bool, vault_exists: bool) -> (window: WindowType)
    ensures
        window == (if unlocked {
            WindowType::Main
        } else if vault_exists {
            WindowType::Login
        } else {
            WindowType::Register
        }),
{
    if unlocked {
        WindowType::Main
    } else if vault_exists {
        WindowType::Login
    } else {
        WindowType::Register
    }
}

/// Why a vault is not made, opened or re-keyed.
#[derive(Debug, PartialEq, Eq, Clone, Copy, Structural)]
pub enum AuthError {
    /// A vault is there already. The session cannot go on.
    AlreadyExists,
    /// No vault is there. The session cannot go on.
    DoesNotExist,
    /// The passphrase and its confirmation differ.
    Mismatch,
    /// The store refused.
    Store(StoreError),
}

impl AuthError {
    pub open spec fn text(self) -> Seq<char> {
        match self {
            AuthError::AlreadyExists => "Database already exists"@,
            AuthError::DoesNotExist => "Database does not exist"@,
            AuthError::Mismatch => "Passwords do not match."@,
            AuthError::Store(e) => e.text(),
        }
    }

    /// After a critical error the application starts over.
    pub open spec fn critical(self) -> bool {
        self == AuthError::AlreadyExists || self == AuthError::DoesNotExist
    }

    pub fn message(&self) -> (message: &'static str)
        ensures
            message@ == self.text(),
    {
        match self {
            AuthError::AlreadyExists => "Database already exists",
            AuthError::DoesNotExist => "Database does not exist",
            AuthError::Mismatch => "Passwords do not match.",
            AuthError::Store(e) => e.message(),
        }
    }

    pub fn is_critical(&self) -> (critical: bool)
        ensures
            critical == self.critical(),
    {
        matches!(self, AuthError::AlreadyExists | AuthError::DoesNotExist)
    }
}

/// What registration comes to: the steps that make the vault, or the reason
/// why none is made. The reasons are looked for in this order: a vault is
/// there already, the confirmation differs, the passphrase is blank.
pub open spec fn registering(
    password: Seq<char>,
    confirm_password: Seq<char>,
    vault_exists: bool,
) -> Result<Seq<StepView>, AuthError> {
    if vault_exists {
        Err(AuthError::AlreadyExists)
    } else if password != confirm_password {
        Err(AuthError::Mismatch)
    } else if blank(password) {
        Err(AuthError::Store(StoreError::EmptyPassword))
    } else {
        Ok(opening(password))
    }
}

/// Registration: makes a vault under `password` where none exists.
pub fn register(password: &str, confirm_password: &str, vault_exists: bool) -> (steps: Result<
    Vec<Step>,
    AuthError,
>)
    ensures
        match steps {
            Ok(steps) => registering(password@, confirm_password@, vault_exists) == Ok::<
                Seq<StepView>,
                AuthError,
            >(steps@.map_values(|s: Step| s@)),
            Err(e) => registering(password@, confirm_password@, vault_exists) == Err::<
                Seq<StepView>,
                AuthError,
            >(e),
        },
{
    if vault_exists {
        return Err(AuthError::AlreadyExists);
    }
    if !same_text(password, confirm_password) {
        return Err(AuthError::Mismatch);
    }
    match open(password) {
        Ok(steps) => Ok(steps),
        Err(e) => Err(AuthError::Store(e)),
    }
}

/// What a login comes to: the steps that open the vault, or the reason why
/// it is not opened.
pub open spec fn logging_in(password: Seq<char>, vault_exists: bool) -> Result<
    Seq<StepView>,
    AuthError,
> {
    if !vault_exists {
        Err(AuthError::DoesNotExist)
    } else if blank(password) {
        Err(AuthError::Store(StoreError::EmptyPassword))
    } else {
        Ok(opening(password))
    }
}

/// Login: opens the vault with `password` where one exists.
pub fn login(password: &str, vault_exists: bool) -> (steps: Result<Vec<Step>, AuthError>)
    ensures
        match steps {
            Ok(steps) => logging_in(password@, vault_exists) == Ok::<Seq<StepView>, AuthError>(
                steps@.map_values(|s: Step| s@),
            ),
            Err(e) => logging_in(password@, vault_exists) == Err::<Seq<StepView>, AuthError>(e),
        },
{
    if !vault_exists {
        return Err(AuthError::DoesNotExist);
    }
    match open(password) {
        Ok(steps) => Ok(steps),
        Err(e) => Err(AuthError::Store(e)),
    }
}

/// What is run on the vault each time it has been unlocked, at the time
/// `now` (seconds since the Unix epoch): the purge of the breach cache.
/// The cache is purged then and at no other time.
pub fn unlocked(now: i64) -> (statement: Statement)
    ensures
        statement@ == (StatementView::PurgeBreachCache { cutoff: breach_cutoff(now) }),
{
    crate::database::delete_data_breach_cache_older_24h(now)
}

/// Changes the passphrase: the step that encrypts the vault anew, or the
/// reason why it is left alone.
pub fn change_password(password: &str, confirm_password: &str) -> (change: Result<Step, AuthError>)
    ensures
        match change {
            Ok(step) => password@ == confirm_password@ && !blank(password@) && step@ == (StepView {
                sql: rekey_pragma(password@),
                failure: Some(StoreError::RekeyFailed),
            }),
            Err(AuthError::Mismatch) => password@ != confirm_password@,
            Err(AuthError::Store(e)) => password@ == confirm_password@ && blank(password@) && e
                == StoreError::EmptyPassword,
            Err(_) => false,
        },
{
    if !same_text(password, confirm_password) {
        return Err(AuthError::Mismatch);
    }
    match change_key(password) {
        Ok(step) => Ok(step),
        Err(e) => Err(AuthError::Store(e)),
    }
}

/// What the presentation layer is told of the remote side: where it is,
/// and who logs in. The password is not among it.
#[derive(Debug, PartialEq)]
pub struct CloudData {
    pub address: SecretValue,
    pub username: SecretValue,
}

impl Clone for CloudData {
    fn clone(&self) -> (copy: Self)
        ensures
            copy.address@ == self.address@,
            copy.username@ == self.username@,
    {
        CloudData { address: self.address.clone(), username: self.username.clone() }
    }
}

/// Tells where the vault is synchronised to, given the settings that say
/// so. The first of these is the error: synchronisation is off, no address
/// is set, no user name is set.
pub fn cloud_data(
    enabled: Option<&str>,
    address: Option<String>,
    username: Option<String>,
) -> (data: Result<CloudData, SyncError>)
    ensures
        match data {
            Ok(d) => {
                &&& enabled matches Some(flag) && flag@ == "true"@
                &&& address matches Some(text) && text@ == d.address@
                &&& username matches Some(text) && text@ == d.username@
            },
            Err(SyncError::NotEnabled) => !(enabled matches Some(flag) && flag@ == "true"@),
            Err(SyncError::MissingAddress) => (enabled matches Some(flag) && flag@ == "true"@)
                && address is None,
            Err(SyncError::MissingUsername) => (enabled matches Some(flag) && flag@ == "true"@)
                && address is Some && username is None,
            Err(_) => false,
        },
{
    if !is_enabled(enabled) {
        return Err(SyncError::NotEnabled);
    }
    let address = match address {
        Some(text) => SecretValue::new(text),
        None => {
            return Err(SyncError::MissingAddress);
        },
    };
    let username = match username {
        Some(text) => SecretValue::new(text),
        None => {
            return Err(SyncError::MissingUsername);
        },
    };
    Ok(CloudData { address, username })
}

/// The records found to hold a compromised password, in the order in which
/// they were found.
#[derive(Debug, PartialEq)]
pub struct Compromised {
    records: Vec<u64>,
}

impl View for Compromised {
    type V = Seq<u64>;

    closed spec fn view(&self) -> Seq<u64> {
        self.records@
    }
}

impl Compromised {
    /// None so far.
    pub fn new() -> (found: Compromised)
        ensures
            found@ == Seq::<u64>::empty(),
    {
        Compromised { records: Vec::new() }
    }

    /// Takes the judgement of one password of `record`, or `None` where the
    /// password could not be judged, and says whether to go on with the
    /// next password of the same record. A record counts once, for its
    /// first password that is common or exposed; its other passwords are
    /// not looked at. A password that could not be judged counts for
    /// nothing.
    pub fn note(&mut self, record: u64, judged: Option<PasswordProblem>) -> (go_on: bool)
        ensures
            go_on == !(judged matches Some(problem) && problem != PasswordProblem::NoProblem),
            final(self)@ == (if go_on {
                old(self)@
            } else {
                old(self)@.push(record)
            }),
    {
        match judged {
            Some(PasswordProblem::Common) | Some(PasswordProblem::Exposed) => {
                self.records.push(record);
                false
            },
            _ => true,
        }
    }

    /// The records.
    pub fn records(&self) -> (records: &Vec<u64>)
        ensures
            records@ == self@,
    {
        &self.records
    }
}

/// Whether a problem makes the record of the password a compromised one.
pub fn is_compromising(problem: PasswordProblem) -> (yes: bool)
    ensures
        yes == (problem != PasswordProblem::NoProblem),
{
    match problem {
        PasswordProblem::Common | PasswordProblem::Exposed => true,
        PasswordProblem::NoProblem => false,
    }
}

/// What goes to the clipboard for `content`: for a passcode secret the code
/// that its generator gives now, never the secret; for anything else the
/// text of the value. `None` where the code cannot be had: the field is not
/// registered with `manager`, or the clock stands before the Unix epoch.
pub fn copy_value_to_clipboard(content: &Content, manager: &TOTPManager) -> (text: Option<
    SecretValue,
>)
    ensures
        content@.value.kind != ValueKind::TOTPSecret ==> (text matches Some(t) && t@
            == content@.value.text),
        content@.value.kind == ValueKind::TOTPSecret ==> {
            &&& !manager.generators().contains_key(content@.id) ==> text is None
            &&& (text matches Some(t) ==> exists|time: u64|
                t@ == #[trigger] manager.generators()[content@.id].code_at(time))
        },
{
    if content.value().kind() == ValueKind::TOTPSecret {
        let id = content.id();
        match manager.get_code(&id) {
            Some((code, _)) => Some(SecretValue::new(code)),
            None => None,
        }
    } else {
        Some(content.value().to_secret_string())
    }
}

/// The transaction that deletes `content`, unless the field is a required
/// one: a required field is never deleted on the user's word. The store
/// itself would delete it; the refusal is made here, before the store is
/// asked.
pub fn delete_content(content: Content) -> (plan: Option<Transaction>)
    ensures
        match plan {
            Some(transaction) => !content@.required && transaction@.statements
                == deleting_content(content@.id) && transaction@.failures == seq![
                StoreError::DeleteContent,
            ],
            None => content@.required,
        },
{
    if content.required() {
        None
    } else {
        Some(Transaction::delete_content(content))
    }
}

/// Whether a login goes on after the download that precedes it: it does
/// where the download succeeded, and where it failed and the user chose to
/// continue without synchronisation; otherwise the error of the download
/// ends the login.
pub fn after_login_download(download: Result<(), SyncError>, continue_without: bool) -> (go:
    Result<(), SyncError>)
    ensures
        match go {
            Ok(_) => download is Ok || continue_without,
            Err(error) => download == Err::<(), SyncError>(error) && !continue_without,
        },
{
    match download {
        Ok(_) => Ok(()),
        Err(error) => if continue_without {
            Ok(())
        } else {
            Err(error)
        },
    }
}

/// The decimal digit of a value below 10.
pub open spec fn decimal_digit(value: u8) -> char {
    (48 + value) as u8 as char
}

/// `value`, below 100, in two decimal digits.
pub open spec fn two_digits(value: u8) -> Seq<char> {
    seq![decimal_digit(value / 10), decimal_digit(value % 10)]
}

/// What is shown after an upload that ended at this time of the day.
pub open spec fn last_sync(hour: u8, minute: u8, second: u8) -> Seq<char> {
    "Last sync: "@ + two_digits(hour) + ":"@ + two_digits(minute) + ":"@ + two_digits(second)
}

fn push_two_digits(text: &mut String, value: u8)
    requires
        value < 100,
    ensures
        final(text)@ == old(text)@ + two_digits(value),
{
    crate::text::push_char(text, (48 + value / 10) as char);
    crate::text::push_char(text, (48 + value % 10) as char);
    assert(text@ =~= old(text)@ + two_digits(value));
}

/// The message that is shown after an upload that ended at this time of the
/// day: `Last sync: HH:MM:SS`. `None` where the three are no time of day; a
/// leap second is one.
pub fn last_sync_message(hour: u8, minute: u8, second: u8) -> (message: Option<String>)
    ensures
        match message {
            Some(text) => hour < 24 && minute < 60 && second <= 60 && text@ == last_sync(
                hour,
                minute,
                second,
            ),
            None => !(hour < 24 && minute < 60 && second <= 60),
        },
{
    if hour >= 24 || minute >= 60 || second > 60 {
        return None;
    }
    let mut text = String::from_str("Last sync: ");
    push_two_digits(&mut text, hour);
    text.append(":");
    push_two_digits(&mut text, minute);
    text.append(":");
    push_two_digits(&mut text, second);
    Some(text)
}

} // verus!
