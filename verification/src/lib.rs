//! Privileged helper of the SCloud VPN clients: what it agrees on with the GUI,
//! and everything that it decides.
//!
//!   * `ipc`: wire format; framing, requests and responses, HMAC
//!   * `paths`: agreed-upon filesystem paths
//!   * `service`: the daemon; supervisor, DNS, server
//!   * `install`, `uninstall`: how the helper comes onto a machine and goes
//!   * `client`: a single-shot client
//!   * `text`, `json`, `hexadecimal`, `endian`: what these are built from
//!   * `laws`: what must be true of all of them
//!
//! The library does no input or output of its own, apart from reading the clock.
use vstd::prelude::*;

pub mod client;
pub mod endian;
pub mod hexadecimal;
pub mod install;
pub mod ipc;
pub mod json;
pub mod laws;
pub mod paths;
pub mod service;
pub mod text;
pub mod uninstall;

verus! {

/// The HMAC secret that the helper and the GUI share, as text. It is rotated
/// with every release that breaks the protocol; a mismatch surfaces as
/// `BadHmac`, and the GUI then asks for a reinstall.
///
/// It is no defence against anyone who can read the binary: it keeps
/// unprivileged local code from driving the helper at random.
pub const IPC_SECRET: &'static str = "sc-helper-shared-secret-please-rotate-on-major-version-bump";

/// The bytes of the shared secret.
pub open spec fn shared_secret() -> Seq<u8> {
    vstd::utf8::encode_utf8(IPC_SECRET@)
}

/// The version that the helper reports.
pub const HELPER_VERSION: &'static str = "0.1.0";

/// The build that the helper reports when it was built outside a checkout.
pub const HELPER_BUILD_SHA: &'static str = "unknown";

/// The build for what `git rev-parse --short` printed, if it ran and succeeded.
pub open spec fn build_sha_of(git_output: Option<Seq<char>>) -> Seq<char> {
    match git_output {
        Some(output) if text::trimmed(output).len() > 0 => text::trimmed(output),
        _ => HELPER_BUILD_SHA@,
    }
}

/// The build that the helper reports: the commit that `git rev-parse --short`
/// printed, or a word that says it is not known. It is never empty.
pub fn build_sha(git_output: Option<&str>) -> (r: String)
    ensures
        r@ == build_sha_of(
            match git_output {
                Some(output) => Some(output@),
                None => None,
            },
        ),
        r@.len() > 0,
{
    proof {
        reveal_strlit("unknown");
    }
    match git_output {
        Some(output) => {
            let commit: &str = text::trim(output);
            if commit.unicode_len() > 0 {
                commit.to_owned()
            } else {
                HELPER_BUILD_SHA.to_owned()
            }
        },
        None => HELPER_BUILD_SHA.to_owned(),
    }
}

} // verus!
