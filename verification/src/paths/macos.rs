//! Where the helper lives on macOS.
use vstd::prelude::*;

verus! {

/// LaunchDaemon label; the `Label` key of the plist.
pub const LAUNCHD_LABEL: &'static str = "com.scloud.helper";

/// LaunchDaemon plist. `launchctl bootstrap system <this>` registers it,
/// `launchctl bootout system/<label>` unregisters it.
pub const LAUNCHD_PLIST: &'static str = "/Library/LaunchDaemons/com.scloud.helper.plist";

/// Where the installer copies the binaries to.
pub const HELPER_INSTALL_DIR: &'static str = "/Library/PrivilegedHelperTools/com.scloud.helper";

/// The helper binary, under the install directory.
pub const HELPER_BINARY: &'static str = "/Library/PrivilegedHelperTools/com.scloud.helper/sc-helper";

/// The mihomo binary, next to the helper.
pub const MIHOMO_BINARY: &'static str = "/Library/PrivilegedHelperTools/com.scloud.helper/sc-mihomo";

/// The helper's standard output, captured by launchd.
pub const STDOUT_LOG: &'static str = "/Library/Logs/sc-helper.log";

/// The helper's standard error, captured by launchd.
pub const STDERR_LOG: &'static str = "/Library/Logs/sc-helper.err.log";

/// The IPC socket. Any user may connect; the HMAC is what authenticates.
pub const SOCKET_PATH: &'static str = "/var/run/sc-helper.sock";

} // verus!
