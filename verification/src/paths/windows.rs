//! Where the helper lives on Windows.
use vstd::prelude::*;

verus! {

/// Service name in the service control manager.
pub const SERVICE_NAME: &'static str = "sc_helper";

/// Display name in the list of services.
pub const SERVICE_DISPLAY: &'static str = "SCloud VPN Helper";

/// Where the installer copies the binaries to.
pub const HELPER_INSTALL_DIR: &'static str = r"C:\Program Files\sc_helper";

/// The helper binary.
pub const HELPER_BINARY: &'static str = r"C:\Program Files\sc_helper\sc-helper.exe";

/// The mihomo binary, next to the helper.
pub const MIHOMO_BINARY: &'static str = r"C:\Program Files\sc_helper\sc-mihomo.exe";

/// The named pipe that stands for the socket.
pub const PIPE_NAME: &'static str = r"\\.\pipe\sc-helper";

} // verus!
