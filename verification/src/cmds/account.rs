//! The account commands of the command line.

use crate::text::{
    ascii_lowercase, char_is_alphanumeric, chars_of, decimal, eq_ignore_ascii_case,
    i64_to_string, is_alphanumeric, string_from_chars,
};
use vstd::prelude::*;

verus! {

/// What is said when no account is logged in on.
pub const NOT_LOGGED_IN_MESSAGE: &'static str = "Not logged in on any account";

/// What is said when the device has been revoked.
pub const REVOKED_MESSAGE: &'static str = "The current device has been revoked";

/// The most seconds that a duration can have.
pub const MAX_SECONDS: u64 = 9223372036854775;

/// `TimeDelta::num_days` of `chrono` on a duration of the given number of
/// seconds: the whole days in it.
#[verifier::external_body]
fn whole_days(seconds: i64) -> (days: i64)
    requires
        0 <= seconds <= MAX_SECONDS,
    ensures
        days == seconds / 86400,
{
    chrono::Duration::seconds(seconds).num_days()
}

/// `TimeDelta::num_hours` of `chrono` on a duration of the given number of
/// seconds: the whole hours in it.
#[verifier::external_body]
fn whole_hours(seconds: i64) -> (hours: i64)
    requires
        0 <= seconds <= MAX_SECONDS,
    ensures
        hours == seconds / 3600,
{
    chrono::Duration::seconds(seconds).num_hours()
}

/// `TimeDelta::num_minutes` of `chrono` on a duration of the given number of
/// seconds: the whole minutes in it.
#[verifier::external_body]
fn whole_minutes(seconds: i64) -> (minutes: i64)
    requires
        0 <= seconds <= MAX_SECONDS,
    ensures
        minutes == seconds / 60,
{
    chrono::Duration::seconds(seconds).num_minutes()
}

/// `TimeDelta::num_seconds` of `chrono` on a duration of the given number
/// of seconds: that number.
#[verifier::external_body]
fn whole_seconds(seconds: i64) -> (whole: i64)
    requires
        0 <= seconds <= MAX_SECONDS,
    ensures
        whole == seconds,
{
    chrono::Duration::seconds(seconds).num_seconds()
}

/// A duration in the largest unit of which it holds at least one: whole
/// days, else whole hours, else whole minutes, else seconds.
pub open spec fn format_duration_spec(seconds: int) -> Seq<char> {
    if seconds / 86400 > 0 {
        decimal(seconds / 86400) + " days"@
    } else if seconds / 3600 > 0 {
        decimal(seconds / 3600) + " hours"@
    } else if seconds / 60 > 0 {
        decimal(seconds / 60) + " minutes"@
    } else {
        decimal(seconds) + " seconds"@
    }
}

/// A duration of the given number of seconds, in the largest unit of which
/// it holds at least one.
pub fn format_duration(seconds: u64) -> (text: String)
    requires
        seconds <= MAX_SECONDS,
    ensures
        text@ == format_duration_spec(seconds as int),
{
    let seconds = seconds as i64;
    if whole_days(seconds) > 0 {
        i64_to_string(whole_days(seconds)).concat(" days")
    } else if whole_hours(seconds) > 0 {
        i64_to_string(whole_hours(seconds)).concat(" hours")
    } else if whole_minutes(seconds) > 0 {
        i64_to_string(whole_minutes(seconds)).concat(" minutes")
    } else {
        i64_to_string(whole_seconds(seconds)).concat(" seconds")
    }
}

/// A voucher code without anything that is neither letter nor digit.
pub fn normalize_voucher(voucher: &str) -> (code: String)
    ensures
        code@ == voucher@.filter(|c: char| char_is_alphanumeric(c)),
{
    let chars = chars_of(voucher);
    let ghost keep = |c: char| char_is_alphanumeric(c);
    let mut kept: Vec<char> = Vec::new();
    let mut i: usize = 0;
    while i < chars.len()
        invariant
            i <= chars.len(),
            keep == |c: char| char_is_alphanumeric(c),
            kept@ == chars@.subrange(0, i as int).filter(keep),
        decreases chars.len() - i,
    {
        let c = chars[i];
        proof {
            let before = chars@.subrange(0, i as int);
            assert(chars@.subrange(0, i + 1) =~= before.push(c));
            assert(before.push(c) =~= before + seq![c]);
            Seq::filter_distributes_over_add(before, seq![c], keep);
            reveal(Seq::filter);
            assert(seq![c].drop_last() =~= Seq::<char>::empty());
            assert(Seq::<char>::empty().filter(keep) =~= Seq::<char>::empty());
            assert(seq![c].filter(keep) =~= if keep(c) {
                seq![c]
            } else {
                Seq::<char>::empty()
            });
        }
        if is_alphanumeric(c) {
            kept.push(c);
        }
        i = i + 1;
        assert(kept@ =~= chars@.subrange(0, i as int).filter(keep));
    }
    assert(chars@.subrange(0, i as int) =~= chars@);
    string_from_chars(&kept)
}

/// A device of an account, as far as the command line shows it.
#[derive(Debug, PartialEq, Eq)]
pub struct Device {
    /// The identifier of the device.
    pub id: String,
    /// The name of the device.
    pub name: String,
    /// The public key of the device, in base64.
    pub pubkey: String,
    /// When the device was made, in seconds since the epoch.
    pub created: i64,
}

/// What the daemon says about the device that it runs on.
#[derive(Debug, PartialEq, Eq)]
pub enum DeviceState {
    /// It is logged in on the account of the given number.
    LoggedIn { account_number: String, device: Device },
    /// It is logged in on no account.
    LoggedOut,
    /// It was logged in and has been revoked.
    Revoked,
}

/// Why a command cannot be carried out.
#[derive(Clone, Copy, Debug, PartialEq, Eq, Structural)]
pub enum AccountError {
    /// No account was named and none is logged in on.
    NotLoggedIn,
    /// The account has no device of that name or identifier.
    DeviceNotFound,
}

/// Whether `wanted` names the device, by its name or by its identifier. The
/// case of ASCII letters does not count.
pub open spec fn names_device(device: Device, wanted: Seq<char>) -> bool {
    ascii_lowercase(device.name@) == ascii_lowercase(wanted) || ascii_lowercase(device.id@)
        == ascii_lowercase(wanted)
}

/// The account that a command is about: the one that is named, or else the
/// one that is logged in on, as the daemon tells.
pub fn account_else_current(account_number: Option<String>, state: DeviceState) -> (account:
    Result<String, AccountError>)
    ensures
        account == match account_number {
            Some(account) => Ok::<String, AccountError>(account),
            None => match state {
                DeviceState::LoggedIn { account_number, device } => Ok::<String, AccountError>(
                    account_number,
                ),
                _ => Err::<String, AccountError>(AccountError::NotLoggedIn),
            },
        },
{
    match account_number {
        Some(account) => Ok(account),
        None => match state {
            DeviceState::LoggedIn { account_number, device } => Ok(account_number),
            _ => Err(AccountError::NotLoggedIn),
        },
    }
}

/// The index of the first device that `wanted` names, by name or by
/// identifier.
pub fn find_device(devices: &Vec<Device>, wanted: &str) -> (found: Result<usize, AccountError>)
    ensures
        match found {
            Ok(index) => {
                &&& index < devices@.len()
                &&& names_device(devices@[index as int], wanted@)
                &&& forall|k: int| 0 <= k < index ==> !names_device(devices@[k], wanted@)
            },
            Err(error) => {
                &&& error == AccountError::DeviceNotFound
                &&& forall|k: int| 0 <= k < devices@.len() ==> !names_device(devices@[k], wanted@)
            },
        },
{
    let mut i: usize = 0;
    while i < devices.len()
        invariant
            i <= devices.len(),
            forall|k: int| 0 <= k < i ==> !names_device(devices@[k], wanted@),
        decreases devices.len() - i,
    {
        let device = &devices[i];
        if eq_ignore_ascii_case(device.name.as_str(), wanted) || eq_ignore_ascii_case(
            device.id.as_str(),
            wanted,
        ) {
            return Ok(i);
        }
        i = i + 1;
    }
    Err(AccountError::DeviceNotFound)
}

/// What the user asks about the account.
#[derive(Debug, PartialEq, Eq)]
pub enum Account {
    /// Create a new account and log in on it.
    Create,
    /// Log in on an account.
    Login {
        /// The account number to log in on. It is asked for if it is missing.
        account: Option<String>,
    },
    /// Log out of the current account.
    Logout,
    /// Show what is known about the current account.
    Get {
        /// Show more.
        verbose: bool,
    },
    /// List the devices of an account.
    ListDevices {
        /// The account number, or the current account if it is missing.
        account: Option<String>,
        /// Show more.
        verbose: bool,
    },
    /// Revoke a device of an account.
    RevokeDevice {
        /// Name or identifier of the device.
        device: String,
        /// The account number, or the current account if it is missing.
        account: Option<String>,
    },
    /// Redeem a voucher.
    Redeem {
        /// The voucher code.
        voucher: String,
    },
}

/// Whether no device in the list was made before the one in front of it.
pub open spec fn in_order_of_making(devices: Seq<Device>) -> bool {
    forall|i: int, j: int| 0 <= i <= j < devices.len() ==> devices[i].created <= devices[j].created
}

/// `slice::sort_unstable_by_key` on the time at which each device was
/// made: afterwards the devices are the same as before, in an order in
/// which none was made before the one in front of it. Which of two devices
/// of the same time comes first is open.
#[verifier::external_body]
fn sort_unstable_by_created(devices: &mut Vec<Device>)
    ensures
        final(devices)@.to_multiset() == old(devices)@.to_multiset(),
        in_order_of_making(final(devices)@),
{
    devices.sort_unstable_by_key(|device| device.created)
}

/// Puts the devices in the order in which they were made, oldest first.
pub fn sort_devices(devices: &mut Vec<Device>)
    ensures
        final(devices)@.to_multiset() == old(devices)@.to_multiset(),
        final(devices)@.len() == old(devices)@.len(),
        in_order_of_making(final(devices)@),
{
    sort_unstable_by_created(devices);
    proof {
        final(devices)@.to_multiset_ensures();
        old(devices)@.to_multiset_ensures();
    }
}

/// Width of the column of labels.
pub const LABEL_WIDTH: usize = 20;

/// A label in its column: followed by spaces up to the width of the column,
/// and as it is if it is as wide or wider.
pub open spec fn padded(label: Seq<char>) -> Seq<char> {
    if label.len() >= LABEL_WIDTH {
        label
    } else {
        label + Seq::new((LABEL_WIDTH - label.len()) as nat, |i: int| ' ')
    }
}

/// A line that shows a value under a label.
pub fn labelled(label: &str, value: &str) -> (line: String)
    ensures
        line@ == padded(label@) + value@,
{
    let width = label.unicode_len();
    let mut line = label.to_owned();
    let mut i: usize = width;
    proof {
        reveal_strlit(" ");
    }
    while i < LABEL_WIDTH
        invariant
            width == label@.len(),
            width <= i,
            width < LABEL_WIDTH ==> i <= LABEL_WIDTH,
            width >= LABEL_WIDTH ==> i == width,
            line@ == label@ + Seq::new((i - width) as nat, |k: int| ' '),
            " "@ == seq![' '],
        decreases LABEL_WIDTH - i,
    {
        line.append(" ");
        i = i + 1;
        assert(line@ =~= label@ + Seq::new((i - width) as nat, |k: int| ' '));
    }
    assert(line@ =~= padded(label@));
    line.append(value);
    line
}

/// What is shown of an account that the device is logged in on: the
/// account number, when the account expires and the name of the device, and
/// with `verbose` also the identifier of the account and the identifier,
/// the key and the time of making of the device.
pub open spec fn logged_in_report_spec(
    account_number: Seq<char>,
    expiry: Seq<char>,
    account_id: Seq<char>,
    device: Device,
    device_created: Seq<char>,
    verbose: bool,
) -> Seq<Seq<char>> {
    let head = seq![
        padded("Mullvad account:"@) + account_number,
        padded("Expires at:"@) + expiry,
    ];
    let name = seq![padded("Device name:"@) + device.name@];
    if verbose {
        head + seq![padded("Account id:"@) + account_id] + name + seq![
            padded("Device id:"@) + device.id@,
            padded("Device pubkey:"@) + device.pubkey@,
            padded("Device created:"@) + device_created,
        ]
    } else {
        head + name
    }
}

/// The lines that show an account that the device is logged in on.
pub fn logged_in_report(
    account_number: &str,
    expiry: &str,
    account_id: &str,
    device: &Device,
    device_created: &str,
    verbose: bool,
) -> (lines: Vec<String>)
    ensures
        crate::text::texts_view(lines@) == logged_in_report_spec(
            account_number@,
            expiry@,
            account_id@,
            *device,
            device_created@,
            verbose,
        ),
{
    let mut lines: Vec<String> = Vec::new();
    lines.push(labelled("Mullvad account:", account_number));
    lines.push(labelled("Expires at:", expiry));
    if verbose {
        lines.push(labelled("Account id:", account_id));
    }
    lines.push(labelled("Device name:", device.name.as_str()));
    if verbose {
        lines.push(labelled("Device id:", device.id.as_str()));
        lines.push(labelled("Device pubkey:", device.pubkey.as_str()));
        lines.push(labelled("Device created:", device_created));
    }
    assert(crate::text::texts_view(lines@) =~= logged_in_report_spec(
        account_number@,
        expiry@,
        account_id@,
        *device,
        device_created@,
        verbose,
    ));
    lines
}

/// What is shown of one device in a list: its name, and with `verbose` an
/// empty line, the name, the identifier, the key and the time of making.
pub open spec fn device_lines_spec(device: Device, created: Seq<char>, verbose: bool) -> Seq<
    Seq<char>,
> {
    if verbose {
        seq![
            Seq::empty(),
            "Name      : "@ + device.name@,
            "Id        : "@ + device.id@,
            "Public key: "@ + device.pubkey@,
            "Created   : "@ + created,
        ]
    } else {
        seq![device.name@]
    }
}

/// The lines that show one device in a list.
pub fn device_lines(device: &Device, created: &str, verbose: bool) -> (lines: Vec<String>)
    ensures
        crate::text::texts_view(lines@) == device_lines_spec(*device, created@, verbose),
{
    let mut lines: Vec<String> = Vec::new();
    if verbose {
        lines.push(String::new());
        lines.push("Name      : ".to_owned().concat(device.name.as_str()));
        lines.push("Id        : ".to_owned().concat(device.id.as_str()));
        lines.push("Public key: ".to_owned().concat(device.pubkey.as_str()));
        lines.push("Created   : ".to_owned().concat(created));
    } else {
        lines.push(device.name.clone());
    }
    assert(crate::text::texts_view(lines@) =~= device_lines_spec(*device, created@, verbose));
    lines
}

} // verus!
