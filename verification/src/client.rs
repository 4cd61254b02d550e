//! What a client of the test runner decides: how long each call may take,
//! and how long it waits for the daemon.

use vstd::prelude::*;

verus! {

/// Seconds that installing, removing or running a program may take.
pub const INSTALL_TIMEOUT: u64 = 300;

/// Seconds that asking for a reboot may take.
pub const REBOOT_TIMEOUT: u64 = 30;

/// Seconds to wait once the runner is back after a reboot.
pub const POST_REBOOT_GRACE_PERIOD: u64 = 5;

/// Seconds that changing the daemon's log level or environment may take.
pub const LOG_LEVEL_TIMEOUT: u64 = 60;

/// Seconds that stopping, enabling or disabling the daemon may take.
pub const DAEMON_RESTART_TIMEOUT: u64 = 30;

/// How often the state of the daemon is asked for before giving up.
pub const MAX_ATTEMPTS: usize = 10;

/// Seconds between two askings for the state of the daemon.
pub const POLL_INTERVAL: u64 = 3;

/// The calls that the client makes to the runner.
#[derive(Clone, Copy, Debug, PartialEq, Eq, Structural)]
pub enum Call {
    InstallApp,
    UninstallApp,
    Exec,
    PollOutput,
    TryPollOutput,
    GetMullvadAppLogs,
    MullvadDaemonGetStatus,
    MullvadDaemonVersion,
    FindMullvadAppTraces,
    FindMullvadAppCacheDir,
    SendTcp,
    SendUdp,
    SendPing,
    GeoipLookup,
    GetInterfaceIp,
    GetInterfaceMtu,
    GetInterfaceMac,
    GetDefaultInterface,
    ResolveHostname,
    RestartMullvadDaemon,
    StopMullvadDaemon,
    StartMullvadDaemon,
    EnableMullvadDaemon,
    DisableMullvadDaemon,
    SetDaemonLogLevel,
    SetDaemonEnvironment,
    GetDaemonEnvironment,
    CopyFile,
    WriteFile,
    Reboot,
    MakeDeviceJsonOld,
    Spawn,
    ReadChildStdout,
    WriteChildStdin,
    CloseChildStdin,
    GetOsVersion,
    IfconfigAliasAdd,
    IfconfigAliasRemove,
}

/// The seconds that a call may take from the moment it is made, for the
/// calls that are given more or less than the default.
pub open spec fn deadline_spec(call: Call) -> Option<u64> {
    match call {
        Call::InstallApp | Call::UninstallApp | Call::Exec => Some(INSTALL_TIMEOUT),
        Call::StopMullvadDaemon | Call::EnableMullvadDaemon | Call::DisableMullvadDaemon => Some(
            DAEMON_RESTART_TIMEOUT,
        ),
        Call::SetDaemonLogLevel | Call::SetDaemonEnvironment => Some(LOG_LEVEL_TIMEOUT),
        Call::Reboot => Some(REBOOT_TIMEOUT),
        _ => None,
    }
}

/// The seconds that a call may take from the moment it is made, or `None`
/// for the default.
pub fn deadline(call: Call) -> (seconds: Option<u64>)
    ensures
        seconds == deadline_spec(call),
{
    match call {
        Call::InstallApp | Call::UninstallApp | Call::Exec => Some(INSTALL_TIMEOUT),
        Call::StopMullvadDaemon | Call::EnableMullvadDaemon | Call::DisableMullvadDaemon => Some(
            DAEMON_RESTART_TIMEOUT,
        ),
        Call::SetDaemonLogLevel | Call::SetDaemonEnvironment => Some(LOG_LEVEL_TIMEOUT),
        Call::Reboot => Some(REBOOT_TIMEOUT),
        _ => None,
    }
}

/// Whether the daemon has to be running again before the call counts as
/// done: it has after a change of its log level or of its environment,
/// which restarts it.
pub fn waits_for_daemon(call: Call) -> (waits: bool)
    ensures
        waits == (call == Call::SetDaemonLogLevel || call == Call::SetDaemonEnvironment),
{
    match call {
        Call::SetDaemonLogLevel | Call::SetDaemonEnvironment => true,
        _ => false,
    }
}

/// What follows one asking for the state of the daemon.
#[derive(Clone, Copy, Debug, PartialEq, Eq, Structural)]
pub enum AfterPoll {
    /// The state is the one waited for.
    Accept,
    /// Sleep for the interval, then ask again.
    SleepAndRetry,
    /// Sleep for the interval, then give up.
    SleepAndTimeOut,
}

/// What follows the asking of the given number, counted from zero, whose
/// answer is or is not the state waited for. A state that is waited for is
/// taken at once. Otherwise the client sleeps, and asks again unless this
/// was the last of its attempts.
pub fn mullvad_daemon_wait_for_state(attempt: usize, accepted: bool) -> (next: AfterPoll)
    ensures
        next == if accepted {
            AfterPoll::Accept
        } else if attempt + 1 < MAX_ATTEMPTS {
            AfterPoll::SleepAndRetry
        } else {
            AfterPoll::SleepAndTimeOut
        },
{
    if accepted {
        AfterPoll::Accept
    } else if attempt < MAX_ATTEMPTS - 1 {
        AfterPoll::SleepAndRetry
    } else {
        AfterPoll::SleepAndTimeOut
    }
}

} // verus!
