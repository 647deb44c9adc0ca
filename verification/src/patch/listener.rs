use vstd::prelude::*;

use crate::error::{IpcChannelError, PatchError};
use crate::format::MixFormat;
use crate::message::{IpcMessage, PatchCommand, TryRecvError};

verus! {

/// What the patch's message listener does with one outcome of waiting for a
/// message.
#[derive(Debug)]
pub enum ListenerAction {
    /// Print a log line from the host.
    Print(String),
    /// Attach the detours.
    EnableDetour,
    /// Detach the detours.
    DisableDetour,
    /// Find the mix format and send it.
    GetMixFormat,
    /// Report the error to the host and go on.
    SendError(PatchError),
    /// Nothing to do; go on.
    Idle,
    /// Stop listening: the host asked the patch to eject, or the channel closed.
    Stop,
}

/// The action for one outcome of waiting for a message.
pub open spec fn spec_listener_action(received: Result<IpcMessage, TryRecvError>) -> ListenerAction {
    match received {
        Ok(IpcMessage::Log(s)) => ListenerAction::Print(s),
        Ok(IpcMessage::Command(PatchCommand::EnableDetour)) => ListenerAction::EnableDetour,
        Ok(IpcMessage::Command(PatchCommand::DisableDetour)) => ListenerAction::DisableDetour,
        Ok(IpcMessage::Command(PatchCommand::GetMixFormat)) => ListenerAction::GetMixFormat,
        Ok(IpcMessage::Command(PatchCommand::Eject)) => ListenerAction::Stop,
        Ok(_) => ListenerAction::Idle,
        Err(TryRecvError::IpcError(IpcChannelError::Bincode(e))) => ListenerAction::SendError(
            PatchError::Bincode(e),
        ),
        Err(TryRecvError::IpcError(IpcChannelError::Io(e))) => ListenerAction::SendError(
            PatchError::Io(e),
        ),
        Err(TryRecvError::IpcError(IpcChannelError::Disconnected)) => ListenerAction::Stop,
        Err(TryRecvError::Empty) => ListenerAction::Idle,
    }
}

/// One round of the patch's message listener: what to do with the outcome of
/// waiting for a message from the host. Messages other than log lines and
/// commands are ignored; channel errors are reported back, except a closed
/// channel, which ends the listener.
pub fn listener_action(received: Result<IpcMessage, TryRecvError>) -> (a: ListenerAction)
    ensures
        a == spec_listener_action(received),
{
    match received {
        Ok(IpcMessage::Log(s)) => ListenerAction::Print(s),
        Ok(IpcMessage::Command(cmd)) => match cmd {
            PatchCommand::EnableDetour => ListenerAction::EnableDetour,
            PatchCommand::DisableDetour => ListenerAction::DisableDetour,
            PatchCommand::GetMixFormat => ListenerAction::GetMixFormat,
            PatchCommand::Eject => ListenerAction::Stop,
        },
        Ok(_) => ListenerAction::Idle,
        Err(TryRecvError::IpcError(e)) => match e {
            IpcChannelError::Bincode(e) => ListenerAction::SendError(PatchError::Bincode(e)),
            IpcChannelError::Io(e) => ListenerAction::SendError(PatchError::Io(e)),
            IpcChannelError::Disconnected => ListenerAction::Stop,
        },
        Err(TryRecvError::Empty) => ListenerAction::Idle,
    }
}

/// The reply to a request to change the detours, given the outcome of the change
/// (its error kept by its message): success, or a detour error.
pub open spec fn spec_detour_reply(outcome: Result<(), String>) -> IpcMessage {
    match outcome {
        Ok(_) => IpcMessage::Success,
        Err(e) => IpcMessage::Error(PatchError::Detour(e)),
    }
}

/// The reply to the request to attach the detours, given the outcome of attaching.
pub fn enable_detour(attached: Result<(), String>) -> (reply: IpcMessage)
    ensures
        reply == spec_detour_reply(attached),
{
    match attached {
        Ok(_) => IpcMessage::Success,
        Err(e) => IpcMessage::Error(PatchError::Detour(e)),
    }
}

/// The reply to the request to detach the detours, given the outcome of detaching.
pub fn disable_detour(detached: Result<(), String>) -> (reply: IpcMessage)
    ensures
        reply == spec_detour_reply(detached),
{
    match detached {
        Ok(_) => IpcMessage::Success,
        Err(e) => IpcMessage::Error(PatchError::Detour(e)),
    }
}

/// The reply to the request for the mix format, given the outcome of asking the
/// audio device (its error kept by its message): the format, or a detour error.
pub fn get_mix_format(format: Result<MixFormat, String>) -> (reply: IpcMessage)
    ensures
        reply == (match format {
            Ok(f) => IpcMessage::MixFormat(f),
            Err(e) => IpcMessage::Error(PatchError::Detour(e)),
        }),
{
    match format {
        Ok(f) => IpcMessage::MixFormat(f),
        Err(e) => IpcMessage::Error(PatchError::Detour(e)),
    }
}

/// The reply the listener sends once it has stopped, detached the detours and
/// dropped the endpoint: success, whatever the outcome of detaching was.
pub fn shutdown_reply(detached: Result<(), String>) -> (reply: IpcMessage)
    ensures
        reply == IpcMessage::Success,
{
    IpcMessage::Success
}


/// The listener stops exactly on an eject command or a closed channel; it acts on
/// each command, prints log lines as sent, reports decoding and I/O errors with
/// their message, and ignores anything else.
pub proof fn lemma_listener_rules(received: Result<IpcMessage, TryRecvError>, s: String)
    ensures
        (spec_listener_action(received) is Stop) <==> (received == Ok::<IpcMessage, TryRecvError>(
            IpcMessage::Command(PatchCommand::Eject),
        ) || received == Err::<IpcMessage, TryRecvError>(
            TryRecvError::IpcError(IpcChannelError::Disconnected),
        )),
        spec_listener_action(Ok(IpcMessage::Log(s))) == ListenerAction::Print(s),
        spec_listener_action(Ok(IpcMessage::Command(PatchCommand::EnableDetour)))
            == ListenerAction::EnableDetour,
        spec_listener_action(Ok(IpcMessage::Command(PatchCommand::DisableDetour)))
            == ListenerAction::DisableDetour,
        spec_listener_action(Ok(IpcMessage::Command(PatchCommand::GetMixFormat)))
            == ListenerAction::GetMixFormat,
        spec_listener_action(Err(TryRecvError::IpcError(IpcChannelError::Bincode(s))))
            == ListenerAction::SendError(PatchError::Bincode(s)),
        spec_listener_action(Err(TryRecvError::IpcError(IpcChannelError::Io(s))))
            == ListenerAction::SendError(PatchError::Io(s)),
        spec_listener_action(Ok(IpcMessage::Success)) == ListenerAction::Idle,
        spec_listener_action(Err(TryRecvError::Empty)) == ListenerAction::Idle,
{
}

/// A detour change that worked is answered with success; one that failed is
/// answered with a detour error carrying its message.
pub proof fn lemma_detour_reply_rules(e: String)
    ensures
        spec_detour_reply(Ok(())) == IpcMessage::Success,
        spec_detour_reply(Err(e)) == IpcMessage::Error(PatchError::Detour(e)),
{
}

} // verus!
