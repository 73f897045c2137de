//! The command line's arguments, as plain values.

use vstd::prelude::*;

verus! {

/// What the command line gave. A field is `None` where its flag was absent.
#[derive(Clone, Debug, PartialEq, Eq)]
pub struct Args {
    /// The MAC address of the device to wake up.
    pub mac_address: Option<String>,
    /// The IP of the device to wake up (for monitoring).
    pub ip_address: Option<String>,
    /// The passphrase to use to wake up the device.
    pub passphrase: Option<String>,
    /// The local port used to serve the web app.
    pub port: u16,
}

} // verus!
