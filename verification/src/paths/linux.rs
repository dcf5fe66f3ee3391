//! Where the helper lives on Linux.
use vstd::prelude::*;

verus! {

/// systemd unit name.
pub const SERVICE_NAME: &'static str = "sc-helper";

/// systemd unit file.
pub const SYSTEMD_UNIT_PATH: &'static str = "/etc/systemd/system/sc-helper.service";

/// Where the installer copies the binaries to.
pub const HELPER_INSTALL_DIR: &'static str = "/usr/lib/sc-helper";

/// The helper binary, under the install directory.
pub const HELPER_BINARY: &'static str = "/usr/lib/sc-helper/sc-helper";

/// The mihomo binary, next to the helper.
pub const MIHOMO_BINARY: &'static str = "/usr/lib/sc-helper/sc-mihomo";

/// For a setup that redirects standard output; journald has it by default.
pub const STDOUT_LOG: &'static str = "/var/log/sc-helper.log";

/// For a setup that redirects standard error; journald has it by default.
pub const STDERR_LOG: &'static str = "/var/log/sc-helper.err.log";

/// The IPC socket. Any user may connect; the HMAC is what authenticates.
pub const SOCKET_PATH: &'static str = "/run/sc-helper.sock";

} // verus!
