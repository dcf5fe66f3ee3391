# sc_helper

Privileged helper of the SCloud VPN clients: a daemon that runs as root, takes
signed requests from the unprivileged GUI over a local socket, and starts and
stops mihomo and changes the system's DNS on its behalf.

The library holds everything that the helper decides, with contracts proved by
Verus. It does no input or output of its own, apart from reading the clock.

## Layout

- `src/` is the verified library.
  - `ipc`: requests, responses, canonical JSON, HMAC, freshness, framing
  - `paths`: where things live on macOS, Linux and Windows
  - `service`: supervisor of the mihomo process, DNS on macOS and Linux, server
  - `install`, `uninstall`: the plan of an installation, the steps of a removal
  - `client`: the single-shot client
  - `text`, `json`, `hexadecimal`, `endian`: what these are built from
- `tests/` runs the library.
- `app/` is ordinary Rust around it: one binary that is the daemon, the
  installer, the uninstaller or the client, by the name it is run under.

What waits for the system (a process, a socket, a file) is written as a step
function: the caller hands in what happened and gets back what to do next.
