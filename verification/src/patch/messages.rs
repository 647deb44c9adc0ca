use vstd::prelude::*;

use crate::error::{IpcError, PatchError};
use crate::format::MixFormat;
use crate::message::IpcMessage;

verus! {

/// What a send gives: success when the channel took the message, a failed send
/// otherwise.
pub open spec fn send_result(sent: bool) -> Result<(), IpcError> {
    if sent {
        Ok(())
    } else {
        Err(IpcError::SendFailed)
    }
}

fn send_message<F: FnOnce(IpcMessage) -> bool>(send: F, message: IpcMessage) -> (r: Result<
    (),
    IpcError,
>)
    requires
        call_requires(send, (message,)),
    ensures
        exists|sent: bool| call_ensures(send, (message,), sent) && r == send_result(sent),
{
    let ghost m = message;
    let sent = send(message);
    assert(call_ensures(send, (m,), sent));
    let r = if sent {
        Ok(())
    } else {
        Err(IpcError::SendFailed)
    };
    assert(r == send_result(sent));
    r
}

/// Sends a log line to the host through `send` (which tells whether the channel
/// took the message).
pub fn send_log<F: FnOnce(IpcMessage) -> bool>(send: F, msg: String) -> (r: Result<(), IpcError>)
    requires
        call_requires(send, (IpcMessage::Log(msg),)),
    ensures
        exists|sent: bool|
            call_ensures(send, (IpcMessage::Log(msg),), sent) && r == send_result(sent),
{
    send_message(send, IpcMessage::Log(msg))
}

/// Tells the host that the last command succeeded.
pub fn send_success<F: FnOnce(IpcMessage) -> bool>(send: F) -> (r: Result<(), IpcError>)
    requires
        call_requires(send, (IpcMessage::Success,)),
    ensures
        exists|sent: bool| call_ensures(send, (IpcMessage::Success,), sent) && r == send_result(sent),
{
    send_message(send, IpcMessage::Success)
}

/// Sends the mix format of the default output device to the host.
pub fn send_mix_format<F: FnOnce(IpcMessage) -> bool>(send: F, fmt: MixFormat) -> (r: Result<
    (),
    IpcError,
>)
    requires
        call_requires(send, (IpcMessage::MixFormat(fmt),)),
    ensures
        exists|sent: bool|
            call_ensures(send, (IpcMessage::MixFormat(fmt),), sent) && r == send_result(sent),
{
    send_message(send, IpcMessage::MixFormat(fmt))
}

/// Reports an error of the patch to the host.
pub fn send_error<F: FnOnce(IpcMessage) -> bool>(send: F, err: PatchError) -> (r: Result<
    (),
    IpcError,
>)
    requires
        call_requires(send, (IpcMessage::Error(err),)),
    ensures
        exists|sent: bool|
            call_ensures(send, (IpcMessage::Error(err),), sent) && r == send_result(sent),
{
    send_message(send, IpcMessage::Error(err))
}

/// Drops the sender of messages to the host that the patch holds.
pub fn drop_channels<S>(message_sender: &mut Option<S>) -> (r: Result<(), PatchError>)
    ensures
        *final(message_sender) is None,
        r is Ok,
{
    *message_sender = None;
    Ok(())
}

/// Keeps `sender` as the sender of messages to the host, in place of any
/// earlier one.
pub fn set_message_sender<S>(message_sender: &mut Option<S>, sender: S)
    ensures
        *final(message_sender) == Some(sender),
{
    *message_sender = Some(sender);
}


/// A send succeeds exactly when the channel took the message; otherwise it fails
/// as a failed send.
pub proof fn lemma_send_result_rules(sent: bool)
    ensures
        (send_result(sent) is Ok) <==> sent,
        !sent ==> send_result(sent) == Err::<(), IpcError>(IpcError::SendFailed),
{
}

} // verus!
