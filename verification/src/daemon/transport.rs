//! The local daemon transport: endpoints, errors, and the rules for binding
//! and cleaning up a Unix-domain socket.
//!
//! The filesystem and socket operations themselves are performed by the
//! caller; the functions here decide, from what each operation reported,
//! what happens next and which error ends the procedure.

use std::io;
use std::path::PathBuf;

use vstd::prelude::*;
use vstd::string::StringSliceAdditionalSpecFns;

use super::helper::{
    joined, linux_socket_path, macos_socket_path, LINUX_ROOT_SOCKET_PATH, LINUX_USER_SOCKET,
    MACOS_ROOT_SOCKET_PATH, MACOS_USER_SOCKET,
};

verus! {

/// Declares `std::io::Error`, the error of a failed filesystem or socket
/// operation.
#[verifier::external_type_specification]
#[verifier::external_body]
pub struct ExIoError(io::Error);

/// `PathBuf::clone` returns an equal path.
pub assume_specification[ <PathBuf as Clone>::clone ](p: &PathBuf) -> (r: PathBuf)
    ensures
        r == *p,
;

/// Permission bits of the socket file.
pub const SOCKET_MODE: u32 = 0o600;

/// Permission bits of a created per-user socket directory.
pub const USER_DIRECTORY_MODE: u32 = 0o700;

/// Permission bits of a created system socket directory.
pub const SYSTEM_DIRECTORY_MODE: u32 = 0o755;

/// Errors returned while creating or using a local daemon transport.
#[derive(Debug)]
pub enum TransportError {
    /// The user runtime directory is not available for the default endpoint.
    MissingRuntimeDirectory,
    /// The user's home directory is not available for the default endpoint.
    MissingHomeDirectory,
    /// Setting permissions on a transport path failed.
    SetPermissions { path: PathBuf, source: io::Error },
    /// Inspecting a transport path failed.
    InspectPath { path: PathBuf, source: io::Error },
    /// Creating the parent directory for a transport failed.
    CreateDirectory { path: PathBuf, source: io::Error },
    /// The parent path exists but is not a directory.
    ParentNotDirectory { path: PathBuf },
    /// The configured path exists but is not a Unix socket.
    PathNotSocket { path: PathBuf },
    /// Another process is already listening on the transport socket.
    SocketAlreadyInUse { path: PathBuf },
    /// Connecting to an existing socket while checking its state failed.
    SocketConnect { path: PathBuf, source: io::Error },
    /// The socket path changed while it was being checked.
    SocketPathChanged { path: PathBuf },
    /// Binding the transport socket failed.
    Bind { path: PathBuf, source: io::Error },
    /// Accepting a client connection failed.
    Accept { path: PathBuf, source: io::Error },
    /// Removing the transport socket failed.
    RemoveSocket { path: PathBuf, source: io::Error },
}

/// Endpoint backed by a Unix domain socket.
#[derive(Debug)]
pub struct UnixEndpoint {
    path: PathBuf,
}

impl UnixEndpoint {
    /// The socket's filesystem path.
    pub closed spec fn spec_path(&self) -> PathBuf {
        self.path
    }

    /// Creates an endpoint backed by a Unix domain socket at `path`.
    pub fn new(path: PathBuf) -> (r: Self)
        ensures
            r.spec_path() == path,
    {
        UnixEndpoint { path }
    }

    /// Returns the socket's filesystem path.
    pub fn path(&self) -> (r: &PathBuf)
        ensures
            *r == self.spec_path(),
    {
        &self.path
    }
}

/// The default endpoint path of a Linux daemon: the system socket for root,
/// else `nodesea/socket` in the user's runtime directory.
pub fn linux_endpoint_path(euid_is_root: bool, runtime_dir: Option<Vec<u8>>) -> (r: Result<
    Vec<u8>,
    TransportError,
>)
    ensures
        euid_is_root ==> (r matches Ok(p) && p@ == LINUX_ROOT_SOCKET_PATH.spec_bytes()),
        !euid_is_root ==> match runtime_dir {
            Some(dir) => r matches Ok(p) && p@ == joined(dir@, LINUX_USER_SOCKET.spec_bytes()),
            None => r matches Err(TransportError::MissingRuntimeDirectory),
        },
{
    match linux_socket_path(euid_is_root, runtime_dir) {
        Ok(p) => Ok(p),
        Err(_) => Err(TransportError::MissingRuntimeDirectory),
    }
}

/// The default endpoint path of a macOS daemon: the system socket for root,
/// else `Library/Application Support/NodeSea/socket` under the user's home
/// directory, which `home` holds when it could be resolved.
pub fn macos_endpoint_path(euid_is_root: bool, home: Option<Vec<u8>>) -> (r: Result<
    Vec<u8>,
    TransportError,
>)
    ensures
        euid_is_root ==> (r matches Ok(p) && p@ == MACOS_ROOT_SOCKET_PATH.spec_bytes()),
        !euid_is_root ==> match home {
            Some(dir) => r matches Ok(p) && p@ == joined(dir@, MACOS_USER_SOCKET.spec_bytes()),
            None => r matches Err(TransportError::MissingHomeDirectory),
        },
{
    match macos_socket_path(euid_is_root, home) {
        Ok(p) => Ok(p),
        Err(_) => Err(TransportError::MissingHomeDirectory),
    }
}

/// The kind of file found at a path.
#[derive(Debug, Clone, Copy, PartialEq, Eq, Structural)]
pub enum FileKind {
    Directory,
    Socket,
    Other,
}

/// What one filesystem or socket operation reported.
#[derive(Debug)]
pub enum FsEvent {
    /// The path exists; its kind and its device and inode numbers.
    Found { kind: FileKind, device: u64, inode: u64 },
    /// The path does not exist; the error the operation reported.
    Missing(io::Error),
    /// The operation completed.
    Done,
    /// A connection to the socket succeeded.
    Connected,
    /// The socket refused the connection or does not exist.
    Refused,
    /// The operation failed for another reason.
    Failed(io::Error),
}

/// A point in the binding procedure, named by the operation to perform next.
#[derive(Debug)]
pub enum BindState {
    /// Read the metadata of the parent directory, following links.
    InspectParent,
    /// Create the parent directory and its missing ancestors.
    CreateParent,
    /// Set the created parent directory's permission bits to `mode`.
    RestrictParent { mode: u32 },
    /// Read the metadata of the socket path, without following links.
    InspectSocket,
    /// Connect to the socket already at the path, to learn whether it is
    /// in use.
    ProbeExisting { device: u64, inode: u64 },
    /// Read the metadata of the socket path again, to learn whether it
    /// changed while it was probed.
    RecheckExisting { device: u64, inode: u64 },
    /// Remove the stale socket.
    RemoveStale,
    /// Bind a listener to the socket path.
    Listen,
    /// Set the new socket's permission bits to `SOCKET_MODE`.
    RestrictSocket,
    /// Remove the new socket, whatever that reports, then fail with `error`.
    DiscardSocket { error: TransportError },
    /// Read the new socket's device and inode numbers.
    IdentifySocket,
    /// The listener is bound; it owns the socket with these numbers.
    Bound { device: u64, inode: u64 },
    /// The procedure failed with this error.
    Failed(TransportError),
}

/// The permission bits of a parent directory created for the socket.
pub open spec fn spec_parent_mode(is_root: bool) -> u32 {
    if is_root {
        SYSTEM_DIRECTORY_MODE
    } else {
        USER_DIRECTORY_MODE
    }
}

/// The binding procedure of one socket path: the path, its parent directory
/// (if the path has one), and whether the process runs as root.
#[derive(Debug)]
pub struct BindPlan {
    pub path: PathBuf,
    pub parent: Option<PathBuf>,
    pub is_root: bool,
}

/// The state that follows `state` once the operation it names reported
/// `event`, for the binding procedure `plan`.
pub open spec fn spec_bind_next(plan: BindPlan, state: BindState, event: FsEvent) -> BindState {
    let path = plan.path;
    let parent = plan.parent.unwrap();
    match state {
        BindState::InspectParent => match event {
            FsEvent::Found { kind: FileKind::Directory, .. } => BindState::InspectSocket,
            FsEvent::Found { .. } => BindState::Failed(
                TransportError::ParentNotDirectory { path: parent },
            ),
            FsEvent::Missing(_) => BindState::CreateParent,
            FsEvent::Failed(e) => BindState::Failed(
                TransportError::InspectPath { path: parent, source: e },
            ),
            _ => BindState::InspectParent,
        },
        BindState::CreateParent => match event {
            FsEvent::Done => BindState::RestrictParent { mode: spec_parent_mode(plan.is_root) },
            FsEvent::Missing(e) | FsEvent::Failed(e) => BindState::Failed(
                TransportError::CreateDirectory { path: parent, source: e },
            ),
            _ => BindState::CreateParent,
        },
        BindState::RestrictParent { mode } => match event {
            FsEvent::Done => BindState::InspectSocket,
            FsEvent::Missing(e) | FsEvent::Failed(e) => BindState::Failed(
                TransportError::SetPermissions { path: parent, source: e },
            ),
            _ => BindState::RestrictParent { mode },
        },
        BindState::InspectSocket => match event {
            FsEvent::Found { kind: FileKind::Socket, device, inode } => BindState::ProbeExisting {
                device,
                inode,
            },
            FsEvent::Found { .. } => BindState::Failed(TransportError::PathNotSocket { path }),
            FsEvent::Missing(_) => BindState::Listen,
            FsEvent::Failed(e) => BindState::Failed(
                TransportError::InspectPath { path, source: e },
            ),
            _ => BindState::InspectSocket,
        },
        BindState::ProbeExisting { device, inode } => match event {
            FsEvent::Connected => BindState::Failed(TransportError::SocketAlreadyInUse { path }),
            FsEvent::Refused => BindState::RecheckExisting { device, inode },
            FsEvent::Failed(e) => BindState::Failed(
                TransportError::SocketConnect { path, source: e },
            ),
            _ => BindState::ProbeExisting { device, inode },
        },
        BindState::RecheckExisting { device, inode } => match event {
            FsEvent::Found { device: d, inode: i, .. } => if d == device && i == inode {
                BindState::RemoveStale
            } else {
                BindState::Failed(TransportError::SocketPathChanged { path })
            },
            FsEvent::Missing(e) => BindState::Failed(
                TransportError::InspectPath { path, source: e },
            ),
            FsEvent::Failed(e) => BindState::Failed(
                TransportError::InspectPath { path, source: e },
            ),
            _ => BindState::RecheckExisting { device, inode },
        },
        BindState::RemoveStale => match event {
            FsEvent::Done => BindState::Listen,
            FsEvent::Missing(e) | FsEvent::Failed(e) => BindState::Failed(
                TransportError::RemoveSocket { path, source: e },
            ),
            _ => BindState::RemoveStale,
        },
        BindState::Listen => match event {
            FsEvent::Done => BindState::RestrictSocket,
            FsEvent::Missing(e) | FsEvent::Failed(e) => BindState::Failed(TransportError::Bind { path, source: e }),
            _ => BindState::Listen,
        },
        BindState::RestrictSocket => match event {
            FsEvent::Done => BindState::IdentifySocket,
            FsEvent::Missing(e) | FsEvent::Failed(e) => BindState::DiscardSocket {
                error: TransportError::SetPermissions { path, source: e },
            },
            _ => BindState::RestrictSocket,
        },
        BindState::DiscardSocket { error } => BindState::Failed(error),
        BindState::IdentifySocket => match event {
            FsEvent::Found { device, inode, .. } => BindState::Bound { device, inode },
            FsEvent::Missing(e) => BindState::Failed(
                TransportError::InspectPath { path, source: e },
            ),
            FsEvent::Failed(e) => BindState::Failed(
                TransportError::InspectPath { path, source: e },
            ),
            _ => BindState::IdentifySocket,
        },
        BindState::Bound { device, inode } => BindState::Bound { device, inode },
        BindState::Failed(e) => BindState::Failed(e),
    }
}

/// Binding never removes a socket that may be in use: a socket is removed
/// only after a connection to it was refused and its device and inode
/// numbers were found unchanged; and a socket that accepts a connection ends
/// the procedure with [`TransportError::SocketAlreadyInUse`].
pub proof fn law_bind_removes_only_stale_sockets(plan: BindPlan, state: BindState, event: FsEvent)
    ensures
        spec_bind_next(plan, state, event) is RemoveStale ==> state is RemoveStale || (
        state matches BindState::RecheckExisting { device, inode } && event matches FsEvent::Found {
            device: d,
            inode: i,
            ..
        } && d == device && i == inode),
        state is ProbeExisting && event is Connected ==> spec_bind_next(plan, state, event)
            == BindState::Failed(TransportError::SocketAlreadyInUse { path: plan.path }),
{
}

/// A parent found to be a directory is accepted, and binding goes on to the
/// socket path; only a parent found with another kind of file ends the
/// procedure with [`TransportError::ParentNotDirectory`].
pub proof fn law_parent_directory_is_accepted(
    plan: BindPlan,
    kind: FileKind,
    device: u64,
    inode: u64,
)
    ensures
        kind == FileKind::Directory ==> spec_bind_next(
            plan,
            BindState::InspectParent,
            FsEvent::Found { kind, device, inode },
        ) == BindState::InspectSocket,
        kind != FileKind::Directory ==> spec_bind_next(
            plan,
            BindState::InspectParent,
            FsEvent::Found { kind, device, inode },
        ) == BindState::Failed(TransportError::ParentNotDirectory { path: plan.parent.unwrap() }),
{
}

/// A procedure that has not yet settled on an error (it has not failed,
/// and is not discarding a socket before failing) fails with
/// [`TransportError::ParentNotDirectory`] only where it inspected the parent
/// and found something other than a directory.
pub proof fn law_parent_not_directory_only_for_non_directory(
    plan: BindPlan,
    state: BindState,
    event: FsEvent,
)
    requires
        !(state is Failed),
        !(state is DiscardSocket),
    ensures
        spec_bind_next(plan, state, event) matches BindState::Failed(
            TransportError::ParentNotDirectory { .. },
        ) ==> state is InspectParent && (event matches FsEvent::Found { kind, .. } && kind
            != FileKind::Directory),
{
}

/// Inspecting the socket path: a socket found there is probed under the
/// device and inode numbers it was found with, a missing path is bound, and
/// anything else ends the procedure with [`TransportError::PathNotSocket`].
pub proof fn law_socket_path_inspection(plan: BindPlan, kind: FileKind, device: u64, inode: u64)
    ensures
        kind == FileKind::Socket ==> spec_bind_next(
            plan,
            BindState::InspectSocket,
            FsEvent::Found { kind, device, inode },
        ) == (BindState::ProbeExisting { device, inode }),
        kind != FileKind::Socket ==> spec_bind_next(
            plan,
            BindState::InspectSocket,
            FsEvent::Found { kind, device, inode },
        ) == BindState::Failed(TransportError::PathNotSocket { path: plan.path }),
{
}

/// A refused socket is checked again under the same numbers, and removed
/// only if they are unchanged; otherwise binding fails with
/// [`TransportError::SocketPathChanged`].
pub proof fn law_stale_socket_recheck(
    plan: BindPlan,
    device: u64,
    inode: u64,
    kind: FileKind,
    found_device: u64,
    found_inode: u64,
)
    ensures
        spec_bind_next(plan, BindState::ProbeExisting { device, inode }, FsEvent::Refused) == (
        BindState::RecheckExisting { device, inode }),
        found_device != device || found_inode != inode ==> spec_bind_next(
            plan,
            BindState::RecheckExisting { device, inode },
            FsEvent::Found { kind, device: found_device, inode: found_inode },
        ) == BindState::Failed(TransportError::SocketPathChanged { path: plan.path }),
{
}

/// A bound or failed procedure is over: no event changes it.
pub proof fn law_bind_outcome_is_final(plan: BindPlan, state: BindState, event: FsEvent)
    requires
        state is Bound || state is Failed,
    ensures
        spec_bind_next(plan, state, event) == state,
{
}

/// A socket that was bound but could not be restricted is removed before
/// the procedure fails: a listen is only ever followed by restricting the
/// socket, and a failed restriction only by discarding it.
pub proof fn law_bind_discards_unrestricted_socket(plan: BindPlan, state: BindState, event: FsEvent)
    ensures
        spec_bind_next(plan, state, event) is DiscardSocket ==> state is RestrictSocket,
        state is RestrictSocket && event is Failed ==> spec_bind_next(plan, state, event)
            is DiscardSocket,
{
}

impl BindPlan {
    /// The state the procedure starts in: the parent directory is checked
    /// first when the path has one.
    pub fn start(&self) -> (r: BindState)
        ensures
            r == (if self.parent is Some {
                BindState::InspectParent
            } else {
                BindState::InspectSocket
            }),
    {
        if self.parent.is_some() {
            BindState::InspectParent
        } else {
            BindState::InspectSocket
        }
    }

    /// Advances the binding procedure: given the operation `state` names and
    /// what it reported, returns the next state.
    ///
    /// A parent that is not a directory, a path that is not a socket, a
    /// socket another process listens on, and a socket that changed while it
    /// was checked end the procedure with their errors; a missing parent is
    /// created; a stale socket is removed; failed operations end it with the
    /// error of the operation, and so does an operation that needs a path
    /// (creating the parent, restricting it, removing, binding or restricting
    /// the socket) and reports it missing. An event that the current operation cannot
    /// report leaves the state unchanged.
    pub fn next(&self, state: BindState, event: FsEvent) -> (r: BindState)
        requires
            state is InspectParent || state is CreateParent || state is RestrictParent ==> self.parent
                is Some,
        ensures
            r == spec_bind_next(*self, state, event),
            state is InspectParent ==> (event matches FsEvent::Found { kind, .. } ==> (kind
                == FileKind::Directory <==> r is InspectSocket)),
    {
        match state {
            BindState::InspectParent => {
                let parent = self.parent_path();
                match event {
                    FsEvent::Found { kind: FileKind::Directory, .. } => BindState::InspectSocket,
                    FsEvent::Found { .. } => BindState::Failed(
                        TransportError::ParentNotDirectory { path: parent },
                    ),
                    FsEvent::Missing(_) => BindState::CreateParent,
                    FsEvent::Failed(e) => BindState::Failed(
                        TransportError::InspectPath { path: parent, source: e },
                    ),
                    _ => BindState::InspectParent,
                }
            },
            BindState::CreateParent => {
                let parent = self.parent_path();
                match event {
                    FsEvent::Done => BindState::RestrictParent {
                        mode: parent_mode(self.is_root),
                    },
                    FsEvent::Missing(e) | FsEvent::Failed(e) => BindState::Failed(
                        TransportError::CreateDirectory { path: parent, source: e },
                    ),
                    _ => BindState::CreateParent,
                }
            },
            BindState::RestrictParent { mode } => {
                let parent = self.parent_path();
                match event {
                    FsEvent::Done => BindState::InspectSocket,
                    FsEvent::Missing(e) | FsEvent::Failed(e) => BindState::Failed(
                        TransportError::SetPermissions { path: parent, source: e },
                    ),
                    _ => BindState::RestrictParent { mode },
                }
            },
            BindState::InspectSocket => {
                let path = self.path.clone();
                match event {
                    FsEvent::Found { kind: FileKind::Socket, device, inode } => {
                        BindState::ProbeExisting { device, inode }
                    },
                    FsEvent::Found { .. } => BindState::Failed(
                        TransportError::PathNotSocket { path },
                    ),
                    FsEvent::Missing(_) => BindState::Listen,
                    FsEvent::Failed(e) => BindState::Failed(
                        TransportError::InspectPath { path, source: e },
                    ),
                    _ => BindState::InspectSocket,
                }
            },
            BindState::ProbeExisting { device, inode } => {
                let path = self.path.clone();
                match event {
                    FsEvent::Connected => BindState::Failed(
                        TransportError::SocketAlreadyInUse { path },
                    ),
                    FsEvent::Refused => BindState::RecheckExisting { device, inode },
                    FsEvent::Failed(e) => BindState::Failed(
                        TransportError::SocketConnect { path, source: e },
                    ),
                    _ => BindState::ProbeExisting { device, inode },
                }
            },
            BindState::RecheckExisting { device, inode } => {
                let path = self.path.clone();
                match event {
                    FsEvent::Found { device: d, inode: i, .. } => {
                        if d == device && i == inode {
                            BindState::RemoveStale
                        } else {
                            BindState::Failed(TransportError::SocketPathChanged { path })
                        }
                    },
                    FsEvent::Missing(e) => BindState::Failed(
                        TransportError::InspectPath { path, source: e },
                    ),
                    FsEvent::Failed(e) => BindState::Failed(
                        TransportError::InspectPath { path, source: e },
                    ),
                    _ => BindState::RecheckExisting { device, inode },
                }
            },
            BindState::RemoveStale => {
                let path = self.path.clone();
                match event {
                    FsEvent::Done => BindState::Listen,
                    FsEvent::Missing(e) | FsEvent::Failed(e) => BindState::Failed(
                        TransportError::RemoveSocket { path, source: e },
                    ),
                    _ => BindState::RemoveStale,
                }
            },
            BindState::Listen => {
                let path = self.path.clone();
                match event {
                    FsEvent::Done => BindState::RestrictSocket,
                    FsEvent::Missing(e) | FsEvent::Failed(e) => BindState::Failed(
                        TransportError::Bind { path, source: e },
                    ),
                    _ => BindState::Listen,
                }
            },
            BindState::RestrictSocket => {
                let path = self.path.clone();
                match event {
                    FsEvent::Done => BindState::IdentifySocket,
                    FsEvent::Missing(e) | FsEvent::Failed(e) => BindState::DiscardSocket {
                        error: TransportError::SetPermissions { path, source: e },
                    },
                    _ => BindState::RestrictSocket,
                }
            },
            BindState::DiscardSocket { error } => BindState::Failed(error),
            BindState::IdentifySocket => {
                let path = self.path.clone();
                match event {
                    FsEvent::Found { device, inode, .. } => BindState::Bound { device, inode },
                    FsEvent::Missing(e) => BindState::Failed(
                        TransportError::InspectPath { path, source: e },
                    ),
                    FsEvent::Failed(e) => BindState::Failed(
                        TransportError::InspectPath { path, source: e },
                    ),
                    _ => BindState::IdentifySocket,
                }
            },
            BindState::Bound { device, inode } => BindState::Bound { device, inode },
            BindState::Failed(e) => BindState::Failed(e),
        }
    }

    /// A copy of the parent directory's path.
    fn parent_path(&self) -> (r: PathBuf)
        requires
            self.parent is Some,
        ensures
            r == self.parent.unwrap(),
    {
        match &self.parent {
            Some(parent) => parent.clone(),
            None => self.path.clone(),
        }
    }
}

/// Returns the permission bits of a parent directory created for the
/// socket: `0o755` for root, `0o700` for other users.
pub fn parent_mode(is_root: bool) -> (r: u32)
    ensures
        r == spec_parent_mode(is_root),
{
    if is_root {
        SYSTEM_DIRECTORY_MODE
    } else {
        USER_DIRECTORY_MODE
    }
}

/// What removing a listener's socket does next.
#[derive(Debug)]
pub enum CleanupStep {
    /// Remove the socket file.
    Remove,
    /// The cleanup is over, with this result.
    Finished(Result<(), TransportError>),
}

/// Decides how to clean up a listener's socket at `path`, given what reading
/// the path's metadata (without following links) reported and the device and
/// inode numbers of the socket the listener created.
///
/// A missing path is already clean. A path whose numbers changed is left
/// alone with [`TransportError::SocketPathChanged`]; a path that is not a
/// socket is left alone with [`TransportError::PathNotSocket`]; otherwise the
/// socket is removed.
pub fn cleanup_after_inspect(path: &PathBuf, device: u64, inode: u64, event: FsEvent) -> (r:
    CleanupStep)
    ensures
        r == match event {
            FsEvent::Found { kind, device: d, inode: i } => if d != device || i != inode {
                CleanupStep::Finished(Err(TransportError::SocketPathChanged { path: *path }))
            } else if kind != FileKind::Socket {
                CleanupStep::Finished(Err(TransportError::PathNotSocket { path: *path }))
            } else {
                CleanupStep::Remove
            },
            FsEvent::Failed(e) => CleanupStep::Finished(
                Err(TransportError::InspectPath { path: *path, source: e }),
            ),
            _ => CleanupStep::Finished(Ok(())),
        },
{
    match event {
        FsEvent::Found { kind, device: d, inode: i } => {
            if d != device || i != inode {
                CleanupStep::Finished(Err(TransportError::SocketPathChanged { path: path.clone() }))
            } else if kind != FileKind::Socket {
                CleanupStep::Finished(Err(TransportError::PathNotSocket { path: path.clone() }))
            } else {
                CleanupStep::Remove
            }
        },
        FsEvent::Failed(e) => CleanupStep::Finished(
            Err(TransportError::InspectPath { path: path.clone(), source: e }),
        ),
        _ => CleanupStep::Finished(Ok(())),
    }
}

/// The result of a cleanup once removing the socket reported `event`: a
/// socket that is already gone counts as removed.
pub fn cleanup_after_remove(path: &PathBuf, event: FsEvent) -> (r: Result<(), TransportError>)
    ensures
        r == match event {
            FsEvent::Failed(e) => Err(TransportError::RemoveSocket { path: *path, source: e }),
            _ => Ok(()),
        },
{
    match event {
        FsEvent::Failed(e) => Err(TransportError::RemoveSocket { path: path.clone(), source: e }),
        _ => Ok(()),
    }
}

/// The error of a failed accept on the listener at `path`.
pub fn accept_error(path: &PathBuf, source: io::Error) -> (r: TransportError)
    ensures
        r == (TransportError::Accept { path: *path, source }),
{
    TransportError::Accept { path: path.clone(), source }
}

} // verus!
