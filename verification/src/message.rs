use vstd::prelude::*;

use crate::error::{IpcChannelError, PatchError};
use crate::format::MixFormat;

verus! {

/// The commands that the host sends to the injected patch.
#[derive(Debug, Clone, Copy, PartialEq, Eq, Structural)]
pub enum PatchCommand {
    EnableDetour,
    DisableDetour,
    GetMixFormat,
    Eject,
}

/// A message between the host and the injected patch. `Sender`, `Receiver` and
/// `ByteSender` announce a channel handle; the handle itself travels with the
/// transport and is not part of this value.
#[derive(Debug)]
pub enum IpcMessage {
    Log(String),
    Sender,
    Receiver,
    ByteSender,
    MixFormat(MixFormat),
    Command(PatchCommand),
    Success,
    Error(PatchError),
}

/// Why no message was taken from a channel: a channel error, or nothing arrived
/// in time.
#[derive(Debug)]
pub enum TryRecvError {
    IpcError(IpcChannelError),
    Empty,
}

} // verus!
