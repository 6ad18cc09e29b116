//! Where the local daemon's socket lives, for each platform and user.
//!
//! Paths are handled as the bytes of their file names, as Unix stores them.
//! The endpoint is derived from the effective user rather than from the
//! current working directory, so the CLI and the daemon agree on it when
//! either is launched by a service manager. Reading the effective user id,
//! the environment and the passwd database is left to the caller; the rules
//! that turn what was read into a path stand here.

use vstd::prelude::*;
use vstd::slice::slice_to_vec;
use vstd::string::StringSliceAdditionalSpecFns;

verus! {

/// Errors returned while resolving platform paths for NodeSea.
#[derive(Debug, Clone, Copy, PartialEq, Eq, Structural)]
pub enum HelperError {
    /// The current user's home directory could not be resolved.
    MissingHomeDirectory,
    /// The current user's runtime directory is not available.
    MissingRuntimeDirectory,
}

/// The socket used by a Linux daemon that runs as root.
pub const LINUX_ROOT_SOCKET_PATH: &'static str = "/run/nodesea/socket";

/// The socket used by a macOS daemon that runs as root.
pub const MACOS_ROOT_SOCKET_PATH: &'static str = "/var/run/nodesea/socket";

/// The socket of a Linux user, relative to the user's runtime directory.
pub const LINUX_USER_SOCKET: &'static str = "nodesea/socket";

/// The socket of a macOS user, relative to the user's home directory.
pub const MACOS_USER_SOCKET: &'static str = "Library/Application Support/NodeSea/socket";

/// The passwd buffer size of the first lookup.
pub const DEFAULT_BUFFER_SIZE: usize = 4096;

/// The largest passwd buffer a lookup may use.
pub const MAX_BUFFER_SIZE: usize = 1048576;

/// How much the passwd buffer grows after each lookup that found it too
/// small.
pub const BUFFER_GROWTH_STEP: usize = 1024;

/// The path `rel` adjoined to `base` on a Unix system, both as the bytes of
/// their file names: an absolute `rel` replaces `base`; otherwise a `/` is put
/// between them unless `base` is empty or already ends with one.
pub open spec fn joined(base: Seq<u8>, rel: Seq<u8>) -> Seq<u8> {
    if rel.len() > 0 && rel[0] == 47u8 {
        rel
    } else if base.len() == 0 || base.last() == 47u8 {
        base + rel
    } else {
        base + seq![47u8] + rel
    }
}

/// Adjoins `rel` to `base` as a path.
pub fn join_path(base: &[u8], rel: &[u8]) -> (r: Vec<u8>)
    ensures
        r@ == joined(base@, rel@),
{
    if rel.len() > 0 && rel[0] == 47u8 {
        return slice_to_vec(rel);
    }
    let mut r = slice_to_vec(base);
    if base.len() > 0 && base[base.len() - 1] != 47u8 {
        r.push(47u8);
    }
    let ghost before = r@;
    r.extend_from_slice(rel);
    assert(r@ =~= before + rel@);
    r
}

/// The runtime directory named by `XDG_RUNTIME_DIR`, when it is set.
pub fn current_user_runtime_dir_from(value: Option<Vec<u8>>) -> (r: Result<Vec<u8>, HelperError>)
    ensures
        r == match value {
            Some(dir) => Ok(dir),
            None => Err::<Vec<u8>, HelperError>(HelperError::MissingRuntimeDirectory),
        },
{
    match value {
        Some(dir) => Ok(dir),
        None => Err(HelperError::MissingRuntimeDirectory),
    }
}

/// The default daemon socket of a Linux process: the system socket for
/// root, else `nodesea/socket` in the user's runtime directory.
pub fn linux_socket_path(euid_is_root: bool, runtime_dir: Option<Vec<u8>>) -> (r: Result<
    Vec<u8>,
    HelperError,
>)
    ensures
        euid_is_root ==> (r matches Ok(p) && p@ == LINUX_ROOT_SOCKET_PATH.spec_bytes()),
        !euid_is_root ==> match runtime_dir {
            Some(dir) => r matches Ok(p) && p@ == joined(dir@, LINUX_USER_SOCKET.spec_bytes()),
            None => r == Err::<Vec<u8>, HelperError>(HelperError::MissingRuntimeDirectory),
        },
{
    if euid_is_root {
        return Ok(slice_to_vec(LINUX_ROOT_SOCKET_PATH.as_bytes()));
    }
    match current_user_runtime_dir_from(runtime_dir) {
        Ok(dir) => Ok(join_path(dir.as_slice(), LINUX_USER_SOCKET.as_bytes())),
        Err(e) => Err(e),
    }
}

/// The default daemon socket of a macOS process: the system socket for
/// root, else `Library/Application Support/NodeSea/socket` under the user's
/// home directory, which `home` holds when it could be resolved.
pub fn macos_socket_path(euid_is_root: bool, home: Option<Vec<u8>>) -> (r: Result<
    Vec<u8>,
    HelperError,
>)
    ensures
        euid_is_root ==> (r matches Ok(p) && p@ == MACOS_ROOT_SOCKET_PATH.spec_bytes()),
        !euid_is_root ==> match home {
            Some(dir) => r matches Ok(p) && p@ == joined(dir@, MACOS_USER_SOCKET.spec_bytes()),
            None => r == Err::<Vec<u8>, HelperError>(HelperError::MissingHomeDirectory),
        },
{
    if euid_is_root {
        return Ok(slice_to_vec(MACOS_ROOT_SOCKET_PATH.as_bytes()));
    }
    match home {
        Some(dir) => Ok(join_path(dir.as_slice(), MACOS_USER_SOCKET.as_bytes())),
        None => Err(HelperError::MissingHomeDirectory),
    }
}

/// What one `getpwuid_r` call reported.
#[derive(Debug, Clone, PartialEq, Eq)]
pub enum PasswdReply {
    /// An entry was found; `home` is its home directory, if it has one.
    Entry { home: Option<Vec<u8>> },
    /// The call succeeded and found no entry for the user.
    NoEntry,
    /// The buffer was too small for the entry (`ERANGE`).
    BufferTooSmall,
    /// The call failed with another error number.
    Failed(i32),
}

/// What a passwd lookup does after one call.
#[derive(Debug, Clone, PartialEq, Eq)]
pub enum PasswdStep {
    /// The home directory was found.
    Home(Vec<u8>),
    /// Call again with a buffer of this many bytes.
    Retry(usize),
    /// The home directory cannot be resolved.
    Missing,
}

/// The buffer size after `buf_len` was found too small.
pub open spec fn grown(buf_len: usize) -> int {
    if buf_len + BUFFER_GROWTH_STEP <= MAX_BUFFER_SIZE {
        buf_len + BUFFER_GROWTH_STEP
    } else {
        MAX_BUFFER_SIZE as int
    }
}

/// Decides the next step of a home-directory lookup after a call with a
/// buffer of `buf_len` bytes reported `reply`.
///
/// A found entry gives its home directory, or ends the lookup when it has
/// none; no entry or an error other than `ERANGE` ends it. `ERANGE` grows
/// the buffer by [`BUFFER_GROWTH_STEP`] up to [`MAX_BUFFER_SIZE`] and tries
/// again, and ends the lookup once the buffer is at the maximum. So every
/// retry uses a strictly larger buffer that never exceeds the maximum, and
/// a lookup makes a bounded number of calls.
pub fn passwd_next(buf_len: usize, reply: PasswdReply) -> (r: PasswdStep)
    ensures
        match reply {
            PasswdReply::Entry { home: Some(h) } => r == PasswdStep::Home(h),
            PasswdReply::BufferTooSmall => if buf_len < MAX_BUFFER_SIZE {
                r matches PasswdStep::Retry(n) && n == grown(buf_len)
            } else {
                r is Missing
            },
            _ => r is Missing,
        },
        r matches PasswdStep::Retry(n) ==> buf_len < n <= MAX_BUFFER_SIZE,
{
    match reply {
        PasswdReply::Entry { home: Some(h) } => PasswdStep::Home(h),
        PasswdReply::BufferTooSmall => {
            if buf_len < MAX_BUFFER_SIZE {
                let n = if buf_len + BUFFER_GROWTH_STEP <= MAX_BUFFER_SIZE {
                    buf_len + BUFFER_GROWTH_STEP
                } else {
                    MAX_BUFFER_SIZE
                };
                PasswdStep::Retry(n)
            } else {
                PasswdStep::Missing
            }
        },
        _ => PasswdStep::Missing,
    }
}

} // verus!
