//! The rules of remote synchronisation that need no network: which settings
//! switch it on and off, where the vault lives on the remote side, how an
//! address is completed, and when a transfer must be confirmed.
//!
//! The transfers themselves are in [`crate::transfer`].

use crate::database::{delete_setting, save_setting, Statement, StatementView};
use crate::error::SyncError;
use crate::grammar::{ip_v4_syntax, ip_v6_syntax, is_ip_v4, is_ip_v6};
use crate::secret::SecretValue;
use crate::tables::Tables;
use crate::text::same_text;
use vstd::prelude::*;
use vstd::string::StringExecFns;

verus! {

/// Name of the vault file, on this side and on the remote one.
pub const DATABASE_FILE_NAME: &'static str = "database.password_manager";

/// What is appended to the vault's name for the copy that is set aside
/// before the vault is overwritten.
pub const BACKUP_SUFFIX: &'static str = ".backup";

/// The setting that says whether synchronisation is on.
pub const SETTING_ENABLED: &'static str = "cloud_enabled";

/// The setting that holds the remote address.
pub const SETTING_ADDRESS: &'static str = "cloud_address";

/// The setting that holds the remote user name.
pub const SETTING_USERNAME: &'static str = "cloud_username";

/// The setting that holds the remote password.
pub const SETTING_PASSWORD: &'static str = "cloud_password";

/// The port of the remote login service, used where an address names none.
pub const DEFAULT_PORT: &'static str = "22";

/// Seconds to wait for the remote side to accept a connection. A transfer
/// has no other limit on its time, and cannot be cancelled once it holds the
/// permit.
pub const CONNECT_TIMEOUT_SECONDS: u64 = 5;

/// Whether the settings say that synchronisation is on.
pub open spec fn enabled_in(tables: Tables) -> bool {
    tables.setting(SETTING_ENABLED@) == Some("true"@)
}

/// The statements that switch synchronisation on.
pub open spec fn enabling(address: Seq<char>, username: Seq<char>, password: Seq<char>) -> Seq<
    StatementView,
> {
    seq![
        StatementView::SaveSetting { name: SETTING_ENABLED@, value: "true"@ },
        StatementView::SaveSetting { name: SETTING_ADDRESS@, value: address },
        StatementView::SaveSetting { name: SETTING_USERNAME@, value: username },
        StatementView::SaveSetting { name: SETTING_PASSWORD@, value: password },
    ]
}

/// The statements that switch synchronisation off.
pub open spec fn disabling() -> Seq<StatementView> {
    seq![
        StatementView::SaveSetting { name: SETTING_ENABLED@, value: "false"@ },
        StatementView::DeleteSetting { name: SETTING_ADDRESS@ },
        StatementView::DeleteSetting { name: SETTING_USERNAME@ },
        StatementView::DeleteSetting { name: SETTING_PASSWORD@ },
    ]
}

/// Whether synchronisation is on, given the value of [`SETTING_ENABLED`], if
/// it is set.
pub fn is_enabled(setting: Option<&str>) -> (enabled: bool)
    ensures
        enabled == (setting matches Some(value) && value@ == "true"@),
{
    match setting {
        Some(value) => same_text(value, "true"),
        None => false,
    }
}

/// Switches synchronisation on, given how opening a session with these
/// credentials ended. Where the session stands, these are the statements to
/// run, in order. Where it does not, nothing is to be stored: the failure of
/// the session is the result, and no statement is handed out.
pub fn enable(
    opened: Result<(), SyncError>,
    address: &str,
    username: &str,
    password: &str,
) -> (statements: Result<Vec<Statement>, SyncError>)
    ensures
        match statements {
            Ok(statements) => opened is Ok && statements@.map_values(|s: Statement| s@)
                == enabling(address@, username@, password@),
            Err(error) => opened == Err::<(), SyncError>(error),
        },
{
    if let Err(error) = opened {
        return Err(error);
    }
    let mut statements = Vec::new();
    statements.push(save_setting(SETTING_ENABLED, "true"));
    statements.push(save_setting(SETTING_ADDRESS, address));
    statements.push(save_setting(SETTING_USERNAME, username));
    statements.push(save_setting(SETTING_PASSWORD, password));
    assert(statements@.map_values(|s: Statement| s@) =~= enabling(
        address@,
        username@,
        password@,
    ));
    Ok(statements)
}

/// The statements that switch synchronisation off. The remote vault is not
/// touched.
pub fn disable() -> (statements: Vec<Statement>)
    ensures
        statements@.map_values(|s: Statement| s@) == disabling(),
{
    let mut statements = Vec::new();
    statements.push(save_setting(SETTING_ENABLED, "false"));
    statements.push(delete_setting(SETTING_ADDRESS));
    statements.push(delete_setting(SETTING_USERNAME));
    statements.push(delete_setting(SETTING_PASSWORD));
    assert(statements@.map_values(|s: Statement| s@) =~= disabling());
    statements
}

/// What a session is opened with.
#[derive(Debug, PartialEq)]
pub struct Credentials {
    pub address: SecretValue,
    pub username: SecretValue,
    pub password: SecretValue,
}

/// The credentials as read from the settings: each of the three must be
/// set, and the first that is not is the error.
pub fn credentials_from_settings(
    address: Option<String>,
    username: Option<String>,
    password: Option<String>,
) -> (read: Result<Credentials, SyncError>)
    ensures
        match read {
            Ok(c) => {
                &&& address matches Some(text) && text@ == c.address@
                &&& username matches Some(text) && text@ == c.username@
                &&& password matches Some(text) && text@ == c.password@
            },
            Err(SyncError::MissingAddress) => address is None,
            Err(SyncError::MissingUsername) => address is Some && username is None,
            Err(SyncError::MissingPassword) => address is Some && username is Some && password
                is None,
            Err(_) => false,
        },
{
    let address = match address {
        Some(text) => SecretValue::new(text),
        None => {
            return Err(SyncError::MissingAddress);
        },
    };
    let username = match username {
        Some(text) => SecretValue::new(text),
        None => {
            return Err(SyncError::MissingUsername);
        },
    };
    let password = match password {
        Some(text) => SecretValue::new(text),
        None => {
            return Err(SyncError::MissingPassword);
        },
    };
    Ok(Credentials { address, username, password })
}

/// Once synchronisation has been switched on, the settings say so, and hold
/// the credentials that it was switched on with.
pub proof fn lemma_enable_stores_credentials(
    tables: Tables,
    address: Seq<char>,
    username: Seq<char>,
    password: Seq<char>,
)
    ensures
        ({
            let after = tables.after_all(enabling(address, username, password), 4);
            &&& enabled_in(after)
            &&& after.setting(SETTING_ADDRESS@) == Some(address)
            &&& after.setting(SETTING_USERNAME@) == Some(username)
            &&& after.setting(SETTING_PASSWORD@) == Some(password)
        }),
{
    lemma_setting_names_differ();
    reveal_with_fuel(Tables::after_all, 5);
}

/// Once synchronisation has been switched off, the settings say so, and hold
/// none of the credentials.
pub proof fn lemma_disable_clears_credentials(tables: Tables)
    ensures
        ({
            let after = tables.after_all(disabling(), 4);
            &&& !enabled_in(after)
            &&& after.setting(SETTING_ADDRESS@) is None
            &&& after.setting(SETTING_USERNAME@) is None
            &&& after.setting(SETTING_PASSWORD@) is None
        }),
{
    lemma_setting_names_differ();
    reveal_with_fuel(Tables::after_all, 5);
}

proof fn lemma_setting_names_differ()
    ensures
        SETTING_ENABLED@ != SETTING_ADDRESS@,
        SETTING_ENABLED@ != SETTING_USERNAME@,
        SETTING_ENABLED@ != SETTING_PASSWORD@,
        SETTING_ADDRESS@ != SETTING_USERNAME@,
        SETTING_ADDRESS@ != SETTING_PASSWORD@,
        SETTING_USERNAME@ != SETTING_PASSWORD@,
        "true"@ != "false"@,
{
    reveal_strlit("cloud_enabled");
    reveal_strlit("cloud_address");
    reveal_strlit("cloud_username");
    reveal_strlit("cloud_password");
    reveal_strlit("true");
    reveal_strlit("false");
    assert("cloud_enabled"@[6] == 'e');
    assert("cloud_address"@[6] == 'a');
    assert("cloud_username"@[6] == 'u');
    assert("cloud_password"@[6] == 'p');
    assert("true"@.len() == 4);
    assert("false"@.len() == 5);
}

/// The address that a session is opened with: a bare IP address is given
/// the default port, an IPv6 one in square brackets; anything else is taken
/// to name its port and is left as it is.
pub open spec fn normalized(address: Seq<char>) -> Seq<char> {
    if ip_v4_syntax(address) {
        address + ":"@ + DEFAULT_PORT@
    } else if ip_v6_syntax(address) {
        "["@ + address + "]:"@ + DEFAULT_PORT@
    } else {
        address
    }
}

/// Completes an address with the default port where it is a bare IP
/// address.
pub fn normalize_address(address: &str) -> (complete: String)
    ensures
        complete@ == normalized(address@),
{
    if is_ip_v4(address) {
        let mut complete = String::from_str(address);
        complete.append(":");
        complete.append(DEFAULT_PORT);
        complete
    } else if is_ip_v6(address) {
        let mut complete = String::from_str("[");
        complete.append(address);
        complete.append("]:");
        complete.append(DEFAULT_PORT);
        complete
    } else {
        String::from_str(address)
    }
}

/// `name` inside `folder`, as a path.
pub open spec fn joined(folder: Seq<char>, name: Seq<char>) -> Seq<char> {
    if folder.len() == 0 || folder.last() == '/' {
        folder + name
    } else {
        folder + "/"@ + name
    }
}

/// The name of the backup that stands beside the vault.
pub open spec fn backup_name() -> Seq<char> {
    DATABASE_FILE_NAME@ + BACKUP_SUFFIX@
}

fn join(folder: &str, name: &str) -> (path: String)
    ensures
        path@ == joined(folder@, name@),
{
    let n = folder.unicode_len();
    let mut path = String::from_str(folder);
    if n > 0 && folder.get_char(n - 1) != '/' {
        path.append("/");
    }
    path.append(name);
    path
}

/// The name of the backup that stands beside the vault, on either side.
pub fn backup_file_name() -> (name: String)
    ensures
        name@ == backup_name(),
{
    let mut name = String::from_str(DATABASE_FILE_NAME);
    name.append(BACKUP_SUFFIX);
    name
}

/// Where the vault lives on the remote side: in a folder named after the
/// application.
pub fn remote_vault_path(app_name: &str) -> (path: String)
    ensures
        path@ == joined(app_name@, DATABASE_FILE_NAME@),
{
    join(app_name, DATABASE_FILE_NAME)
}

/// Where the backup of the vault lives on the remote side.
pub fn remote_backup_path(app_name: &str) -> (path: String)
    ensures
        path@ == joined(app_name@, backup_name()),
{
    let name = backup_file_name();
    join(app_name, name.as_str())
}

/// Which way a transfer goes.
#[derive(Debug, PartialEq, Eq, Clone, Copy, Structural)]
pub enum Direction {
    /// From this side to the remote one.
    Upload,
    /// From the remote side to this one.
    Download,
}

/// What to do about a transfer, given what is known of both sides.
#[derive(Debug, PartialEq, Eq, Clone, Copy, Structural)]
pub enum Verdict {
    /// Transfer.
    Proceed,
    /// Ask the user first: the side that would be overwritten is newer.
    Confirm,
    /// There is nothing to transfer.
    Skip,
}

/// Whether the side that a transfer writes to holds data that is strictly
/// newer than what would replace it. Times are modification times in seconds
/// since the Unix epoch.
pub open spec fn receiver_is_newer(
    direction: Direction,
    remote_exists: bool,
    local_mtime: i64,
    remote_mtime: i64,
) -> bool {
    match direction {
        Direction::Upload => remote_exists && remote_mtime > local_mtime,
        Direction::Download => remote_exists && local_mtime > remote_mtime,
    }
}

/// The conflict policy. A transfer that would overwrite newer data needs the
/// user's word; a download from a remote side without a vault is skipped;
/// every other transfer proceeds. On equal times nothing is asked.
pub fn verdict(
    direction: Direction,
    remote_exists: bool,
    local_mtime: i64,
    remote_mtime: i64,
) -> (verdict: Verdict)
    ensures
        verdict == Verdict::Confirm <==> receiver_is_newer(
            direction,
            remote_exists,
            local_mtime,
            remote_mtime,
        ),
        verdict == Verdict::Skip <==> direction == Direction::Download && !remote_exists,
{
    match direction {
        Direction::Upload => if remote_exists && local_mtime < remote_mtime {
            Verdict::Confirm
        } else {
            Verdict::Proceed
        },
        Direction::Download => if !remote_exists {
            Verdict::Skip
        } else if local_mtime <= remote_mtime {
            Verdict::Proceed
        } else {
            Verdict::Confirm
        },
    }
}

/// What a comparison of both sides comes to, given what reading their
/// modification times gave. Where the remote side holds no vault, the times
/// are not looked at. An upload goes on without the remote time, taking the
/// remote vault to be as old as can be; it does not go on without the local
/// one. A download needs both, and reports the remote failure first.
pub open spec fn comparing(
    direction: Direction,
    remote_exists: bool,
    local_mtime: Result<i64, SyncError>,
    remote_mtime: Result<i64, SyncError>,
) -> Result<Verdict, SyncError> {
    if !remote_exists {
        Ok(
            if direction == Direction::Download {
                Verdict::Skip
            } else {
                Verdict::Proceed
            },
        )
    } else if direction == Direction::Download && remote_mtime is Err {
        Err(remote_mtime->Err_0)
    } else if local_mtime is Err {
        Err(local_mtime->Err_0)
    } else {
        let remote = if remote_mtime is Ok {
            remote_mtime->Ok_0
        } else {
            0
        };
        Ok(
            if receiver_is_newer(direction, true, local_mtime->Ok_0, remote) {
                Verdict::Confirm
            } else {
                Verdict::Proceed
            },
        )
    }
}

/// Compares both sides before a transfer.
pub fn compare(
    direction: Direction,
    remote_exists: bool,
    local_mtime: Result<i64, SyncError>,
    remote_mtime: Result<i64, SyncError>,
) -> (compared: Result<Verdict, SyncError>)
    ensures
        compared == comparing(direction, remote_exists, local_mtime, remote_mtime),
{
    if !remote_exists {
        return Ok(verdict(direction, false, 0, 0));
    }
    let remote = match remote_mtime {
        Ok(seconds) => seconds,
        Err(error) => match direction {
            Direction::Download => {
                return Err(error);
            },
            Direction::Upload => 0,
        },
    };
    match local_mtime {
        Ok(local) => Ok(verdict(direction, true, local, remote)),
        Err(error) => Err(error),
    }
}

/// Whether to transfer, given the verdict and, where the user was asked,
/// the answer. A declined upload is an error, since the caller asked for it;
/// a declined download keeps the local vault and is none.
pub fn resolve(direction: Direction, verdict: Verdict, confirmed: bool) -> (go: Result<
    bool,
    SyncError,
>)
    ensures
        match go {
            Ok(transfer) => transfer == (verdict == Verdict::Proceed || (verdict
                == Verdict::Confirm && confirmed)),
            Err(e) => e == SyncError::Canceled && direction == Direction::Upload && verdict
                == Verdict::Confirm && !confirmed,
        },
        go is Err <==> direction == Direction::Upload && verdict == Verdict::Confirm && !confirmed,
{
    match verdict {
        Verdict::Proceed => Ok(true),
        Verdict::Skip => Ok(false),
        Verdict::Confirm => if confirmed {
            Ok(true)
        } else {
            match direction {
                Direction::Upload => Err(SyncError::Canceled),
                Direction::Download => Ok(false),
            }
        },
    }
}

/// Which way the first transfer goes after synchronisation has been switched
/// on: the remote vault is adopted only where there is one and the user
/// chose it.
pub fn first_transfer(remote_exists: bool, adopt_remote: bool) -> (direction: Direction)
    ensures
        direction == Direction::Download <==> remote_exists && adopt_remote,
{
    if remote_exists && adopt_remote {
        Direction::Download
    } else {
        Direction::Upload
    }
}

} // verus!
