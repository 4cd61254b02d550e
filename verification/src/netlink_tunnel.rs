//! What a tunnel that the kernel runs decides about its device.

use vstd::prelude::*;

verus! {

/// The name that the tunnel's interface is given.
pub const MULLVAD_INTERFACE_NAME: &'static str = "wg0-mullvad";

/// One attribute of the kernel's message about a device.
#[derive(Debug, PartialEq, Eq)]
pub enum DeviceNla {
    /// The index of the interface.
    IfIndex(u32),
    /// The name of the interface.
    IfName(String),
    /// Anything else.
    Other,
}

/// Why an operation on the device has failed.
#[derive(Clone, Copy, Debug, PartialEq, Eq, Structural)]
pub enum Error {
    /// The kernel's message lacks what was asked for.
    Truncated,
    /// The kernel has refused the request.
    Netlink,
}

/// Why an operation on the tunnel has failed.
#[derive(Clone, Copy, Debug, PartialEq, Eq, Structural)]
pub enum TunnelError {
    /// The device could not be set up or removed.
    FatalStartWireguardError(Error),
    /// The configuration of the device could not be read.
    GetConfigError,
    /// The configuration of the device could not be set.
    SetConfigError,
    /// This kind of tunnel cannot hide the pattern of its traffic.
    DaitaNotSupported,
}

/// The name in the first attribute that is a name, if any is.
pub open spec fn first_name(nlas: Seq<DeviceNla>) -> Option<String>
    decreases nlas.len(),
{
    if nlas.len() == 0 {
        None
    } else {
        match nlas[0] {
            DeviceNla::IfName(name) => Some(name),
            _ => first_name(nlas.drop_first()),
        }
    }
}

/// The name of the interface as a message of the kernel gives it: the name
/// in the first attribute that is a name. A message without a name is cut
/// short.
pub fn interface_name(nlas: Vec<DeviceNla>) -> (name: Result<String, Error>)
    ensures
        name == match first_name(nlas@) {
            Some(name) => Ok::<String, Error>(name),
            None => Err::<String, Error>(Error::Truncated),
        },
{
    let ghost all = nlas@;
    let mut nlas = nlas;
    // The attributes are taken from the end, so the name found last is the
    // first in the message.
    let mut found: Option<String> = None;
    while nlas.len() > 0
        invariant
            nlas@.len() <= all.len(),
            nlas@ == all.subrange(0, nlas@.len() as int),
            found == first_name(all.subrange(nlas@.len() as int, all.len() as int)),
        decreases nlas.len(),
    {
        let ghost rest = all.subrange(nlas@.len() as int, all.len() as int);
        let ghost with_last = all.subrange(nlas@.len() - 1, all.len() as int);
        let nla = nlas.pop();
        proof {
            assert(with_last.drop_first() =~= rest);
            assert(with_last[0] == nla.unwrap());
            assert(nlas@ =~= all.subrange(0, nlas@.len() as int));
        }
        match nla {
            Some(DeviceNla::IfName(name)) => {
                found = Some(name);
            },
            _ => {},
        }
    }
    assert(all.subrange(0, all.len() as int) =~= all);
    match found {
        Some(name) => Ok(name),
        None => Err(Error::Truncated),
    }
}

/// The name of the tunnel's interface: the one that the kernel gives, and
/// the one that the interface was made with if the kernel gives none.
pub fn get_interface_name(looked_up: Result<Vec<DeviceNla>, Error>) -> (name: String)
    ensures
        name@ == match looked_up {
            Ok(nlas) => match first_name(nlas@) {
                Some(name) => name@,
                None => MULLVAD_INTERFACE_NAME@,
            },
            Err(_) => MULLVAD_INTERFACE_NAME@,
        },
{
    let result = match looked_up {
        Ok(nlas) => interface_name(nlas),
        Err(error) => Err(error),
    };
    match result {
        Ok(name) => name,
        Err(_) => MULLVAD_INTERFACE_NAME.to_owned(),
    }
}

/// What is left to do once the configuration of a new device has been
/// applied, or has not.
#[derive(Clone, Copy, Debug, PartialEq, Eq, Structural)]
pub enum AfterSetup {
    /// The tunnel is ready.
    Keep,
    /// The device is removed again, and the tunnel fails with this error.
    TearDown(Error),
}

/// What is left to do once the configuration of a new device has been
/// applied, or has not: a device that could not be configured is removed
/// again.
pub fn after_setup(setup: Result<(), Error>) -> (next: AfterSetup)
    ensures
        next == match setup {
            Ok(_) => AfterSetup::Keep,
            Err(error) => AfterSetup::TearDown(error),
        },
{
    match setup {
        Ok(_) => AfterSetup::Keep,
        Err(error) => AfterSetup::TearDown(error),
    }
}

/// What stopping the tunnel gives, from what removing its device gave: a
/// device that cannot be removed is a fatal error of the tunnel.
pub fn stop(removed: Result<(), Error>) -> (stopped: Result<(), TunnelError>)
    ensures
        stopped == match removed {
            Ok(_) => Ok::<(), TunnelError>(()),
            Err(error) => Err::<(), TunnelError>(TunnelError::FatalStartWireguardError(error)),
        },
{
    match removed {
        Ok(_) => Ok(()),
        Err(error) => Err(TunnelError::FatalStartWireguardError(error)),
    }
}

/// This kind of tunnel cannot hide the pattern of its traffic: asking for it
/// fails outright.
pub fn start_daita() -> (started: Result<(), TunnelError>)
    ensures
        started == Err::<(), TunnelError>(TunnelError::DaitaNotSupported),
{
    Err(TunnelError::DaitaNotSupported)
}

} // verus!
