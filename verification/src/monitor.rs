//! Fixed settings of the monitoring session.

use vstd::prelude::*;

verus! {

/// The name under which notifications are shown.
pub const APPLICATION_NAME: &'static str = "USB Monitor";

/// The class of devices whose events are watched.
pub const SUBSYSTEM: &'static str = "usb";

/// The environment variable that names another configuration document.
pub const CONFIG_PATH_VARIABLE: &'static str = "DEVNOTIFY_CONFIG";

/// The environment variable that names the home directory.
pub const HOME_VARIABLE: &'static str = "HOME";

/// The pause between two rounds of reading pending events, in milliseconds.
pub const POLL_INTERVAL_MILLIS: u64 = 100;

} // verus!
