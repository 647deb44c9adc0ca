use vstd::prelude::*;

use crate::pointer_width::PointerWidth;

verus! {

/// Errors that the injected patch reports back over the message channel.
#[derive(Debug)]
pub enum PatchError {
    HandshakeFailed(String),
    ChannelUnavailable(String),
    Bincode(String),
    Io(String),
    Detour(String),
}

/// Errors of the operating system queries: a Windows error code (an `HRESULT`),
/// or an I/O error described by its message.
#[derive(Debug)]
pub enum OSError {
    WindowsError(i32),
    Io(String),
}

/// Why an injection failed, as the injection crate reports it; outside errors
/// are kept by their message, a remote exception by its code.
#[derive(Debug)]
pub enum InjectError {
    IllegalPath(String),
    Io(String),
    UnsupportedTarget,
    RemoteIo(String),
    RemoteException(u32),
    ProcessInaccessible,
    ArchitectureMismatch,
    Goblin(String),
}

/// Errors of injecting the patch into, or ejecting it from, a target process.
/// Ejection and procedure loading errors are kept by their message.
#[derive(Debug)]
pub enum InjectionError {
    Io(String),
    UnsupportedTargetProcess { expected: PointerWidth, found: PointerWidth },
    InjectFailed(InjectError),
    EjectFailed(String),
    LoadProcedureFailed(String),
}

impl From<InjectError> for InjectionError {
    fn from(e: InjectError) -> (r: InjectionError) {
        InjectionError::InjectFailed(e)
    }
}

impl vstd::std_specs::convert::FromSpecImpl<InjectError> for InjectionError {
    open spec fn obeys_from_spec() -> bool {
        true
    }

    open spec fn from_spec(v: InjectError) -> InjectionError {
        InjectionError::InjectFailed(v)
    }
}

/// Errors of an inter-process channel: a message that could not be decoded, an
/// I/O error (both kept by their message), or the other end having gone away.
#[derive(Debug)]
pub enum IpcChannelError {
    Bincode(String),
    Io(String),
    Disconnected,
}

/// Errors of the exchange of messages with the injected patch.
#[derive(Debug)]
pub enum IpcError {
    HandshakeFailed,
    Patch(PatchError),
    IpcChannel(IpcChannelError),
    SendFailed,
    BadResponse { expected: PointerWidth, found: PointerWidth },
}

impl From<PatchError> for IpcError {
    fn from(e: PatchError) -> (r: IpcError) {
        IpcError::Patch(e)
    }
}

impl vstd::std_specs::convert::FromSpecImpl<PatchError> for IpcError {
    open spec fn obeys_from_spec() -> bool {
        true
    }

    open spec fn from_spec(v: PatchError) -> IpcError {
        IpcError::Patch(v)
    }
}

impl From<IpcChannelError> for IpcError {
    fn from(e: IpcChannelError) -> (r: IpcError) {
        IpcError::IpcChannel(e)
    }
}

impl vstd::std_specs::convert::FromSpecImpl<IpcChannelError> for IpcError {
    open spec fn obeys_from_spec() -> bool {
        true
    }

    open spec fn from_spec(v: IpcChannelError) -> IpcError {
        IpcError::IpcChannel(v)
    }
}

} // verus!
