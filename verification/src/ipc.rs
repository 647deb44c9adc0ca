use vstd::prelude::*;

use crate::error::IpcError;
use crate::format::MixFormat;
use crate::message::{IpcMessage, PatchCommand, TryRecvError};

verus! {

/// What the host makes of the patch's answer to the handshake: success, the
/// patch's own error, or a failed handshake for any other message.
pub open spec fn spec_handshake_result(reply: IpcMessage) -> Result<(), IpcError> {
    match reply {
        IpcMessage::Success => Ok(()),
        IpcMessage::Error(e) => Err(IpcError::Patch(e)),
        _ => Err(IpcError::HandshakeFailed),
    }
}

/// The outcome of the handshake, from the first message the patch sends back.
pub fn handshake_result(reply: IpcMessage) -> (r: Result<(), IpcError>)
    ensures
        r == spec_handshake_result(reply),
{
    match reply {
        IpcMessage::Success => Ok(()),
        IpcMessage::Error(e) => Err(IpcError::from(e)),
        _ => Err(IpcError::HandshakeFailed),
    }
}

/// The reply to a command as the host sees it: the message, or the error of the
/// wait for it (a wait that ran out of time counts as a failed send).
pub open spec fn spec_reply(reply: Result<IpcMessage, TryRecvError>) -> Result<IpcMessage, IpcError> {
    match reply {
        Ok(m) => Ok(m),
        Err(TryRecvError::IpcError(e)) => Err(IpcError::IpcChannel(e)),
        Err(TryRecvError::Empty) => Err(IpcError::SendFailed),
    }
}

/// What a command that expects `Success` gives for a reply.
pub open spec fn spec_success_reply(reply: Result<IpcMessage, TryRecvError>) -> Result<(), IpcError> {
    match spec_reply(reply) {
        Ok(IpcMessage::Success) => Ok(()),
        Ok(_) => Err(IpcError::SendFailed),
        Err(e) => Err(e),
    }
}

/// What the request for the mix format gives for a reply.
pub open spec fn spec_mix_format_reply(reply: Result<IpcMessage, TryRecvError>) -> Result<
    MixFormat,
    IpcError,
> {
    match spec_reply(reply) {
        Ok(IpcMessage::MixFormat(fmt)) => Ok(fmt),
        Ok(_) => Err(IpcError::SendFailed),
        Err(e) => Err(e),
    }
}

/// Whether `r` is the outcome of sending `command` through `send` and then, if
/// the send succeeded, waiting for the reply through `try_recv_timeout`, where
/// `on_reply` tells what a reply gives.
pub open spec fn is_remote_outcome<
    T,
    S: FnOnce(IpcMessage) -> bool,
    R: FnOnce() -> Result<IpcMessage, TryRecvError>,
>(
    command: PatchCommand,
    send: S,
    try_recv_timeout: R,
    on_reply: spec_fn(Result<IpcMessage, TryRecvError>) -> Result<T, IpcError>,
    r: Result<T, IpcError>,
) -> bool {
    exists|sent: bool|
        #![trigger call_ensures(send, (IpcMessage::Command(command),), sent)]
        call_ensures(send, (IpcMessage::Command(command),), sent) && if sent {
            exists|reply: Result<IpcMessage, TryRecvError>|
                #![trigger call_ensures(try_recv_timeout, (), reply)]
                call_ensures(try_recv_timeout, (), reply) && r == on_reply(reply)
        } else {
            r == Err::<T, IpcError>(IpcError::SendFailed)
        }
}

/// Sends `command` and waits for the reply.
fn remote_call<S: FnOnce(IpcMessage) -> bool, R: FnOnce() -> Result<IpcMessage, TryRecvError>>(
    command: PatchCommand,
    send: S,
    try_recv_timeout: R,
) -> (r: Result<IpcMessage, IpcError>)
    requires
        call_requires(send, (IpcMessage::Command(command),)),
        call_requires(try_recv_timeout, ()),
    ensures
        is_remote_outcome(command, send, try_recv_timeout, |m| spec_reply(m), r),
{
    let sent = send(IpcMessage::Command(command));
    if !sent {
        return Err(IpcError::SendFailed);
    }
    let reply = try_recv_timeout();
    let ghost g = reply;
    let r = match reply {
        Ok(m) => Ok(m),
        Err(TryRecvError::IpcError(e)) => Err(IpcError::from(e)),
        Err(TryRecvError::Empty) => Err(IpcError::SendFailed),
    };
    assert(r == spec_reply(g));
    r
}

/// Asks the patch to attach its detours; succeeds when the patch answers `Success`.
pub fn remote_enable_detour<
    S: FnOnce(IpcMessage) -> bool,
    R: FnOnce() -> Result<IpcMessage, TryRecvError>,
>(send: S, try_recv_timeout: R) -> (r: Result<(), IpcError>)
    requires
        call_requires(send, (IpcMessage::Command(PatchCommand::EnableDetour),)),
        call_requires(try_recv_timeout, ()),
    ensures
        is_remote_outcome(
            PatchCommand::EnableDetour,
            send,
            try_recv_timeout,
            |m| spec_success_reply(m),
            r,
        ),
{
    match remote_call(PatchCommand::EnableDetour, send, try_recv_timeout) {
        Ok(IpcMessage::Success) => Ok(()),
        Ok(_) => Err(IpcError::SendFailed),
        Err(e) => Err(e),
    }
}

/// Asks the patch to detach its detours; succeeds when the patch answers `Success`.
pub fn remote_disable_detour<
    S: FnOnce(IpcMessage) -> bool,
    R: FnOnce() -> Result<IpcMessage, TryRecvError>,
>(send: S, try_recv_timeout: R) -> (r: Result<(), IpcError>)
    requires
        call_requires(send, (IpcMessage::Command(PatchCommand::DisableDetour),)),
        call_requires(try_recv_timeout, ()),
    ensures
        is_remote_outcome(
            PatchCommand::DisableDetour,
            send,
            try_recv_timeout,
            |m| spec_success_reply(m),
            r,
        ),
{
    match remote_call(PatchCommand::DisableDetour, send, try_recv_timeout) {
        Ok(IpcMessage::Success) => Ok(()),
        Ok(_) => Err(IpcError::SendFailed),
        Err(e) => Err(e),
    }
}

/// Asks the patch to stop listening and eject itself; succeeds when the patch answers `Success`.
pub fn remote_eject<
    S: FnOnce(IpcMessage) -> bool,
    R: FnOnce() -> Result<IpcMessage, TryRecvError>,
>(send: S, try_recv_timeout: R) -> (r: Result<(), IpcError>)
    requires
        call_requires(send, (IpcMessage::Command(PatchCommand::Eject),)),
        call_requires(try_recv_timeout, ()),
    ensures
        is_remote_outcome(
            PatchCommand::Eject,
            send,
            try_recv_timeout,
            |m| spec_success_reply(m),
            r,
        ),
{
    match remote_call(PatchCommand::Eject, send, try_recv_timeout) {
        Ok(IpcMessage::Success) => Ok(()),
        Ok(_) => Err(IpcError::SendFailed),
        Err(e) => Err(e),
    }
}

/// Asks the patch for the mix format of the default output device; succeeds when
/// the patch answers with a format.
pub fn remote_get_mix_format<
    S: FnOnce(IpcMessage) -> bool,
    R: FnOnce() -> Result<IpcMessage, TryRecvError>,
>(send: S, try_recv_timeout: R) -> (r: Result<MixFormat, IpcError>)
    requires
        call_requires(send, (IpcMessage::Command(PatchCommand::GetMixFormat),)),
        call_requires(try_recv_timeout, ()),
    ensures
        is_remote_outcome(
            PatchCommand::GetMixFormat,
            send,
            try_recv_timeout,
            |m| spec_mix_format_reply(m),
            r,
        ),
{
    match remote_call(PatchCommand::GetMixFormat, send, try_recv_timeout) {
        Ok(IpcMessage::MixFormat(fmt)) => Ok(fmt),
        Ok(_) => Err(IpcError::SendFailed),
        Err(e) => Err(e),
    }
}


/// A format sent back for the request is given to the caller exactly as it came:
/// when the command went out and the reply is `MixFormat(f)`, the result is
/// `Ok(f)`.
pub proof fn lemma_mix_format_reply_kept<
    S: FnOnce(IpcMessage) -> bool,
    R: FnOnce() -> Result<IpcMessage, TryRecvError>,
>(send: S, try_recv_timeout: R, f: MixFormat, r: Result<MixFormat, IpcError>)
    requires
        is_remote_outcome(
            PatchCommand::GetMixFormat,
            send,
            try_recv_timeout,
            |m| spec_mix_format_reply(m),
            r,
        ),
        forall|sent: bool|
            call_ensures(send, (IpcMessage::Command(PatchCommand::GetMixFormat),), sent) ==> sent,
        forall|reply: Result<IpcMessage, TryRecvError>|
            call_ensures(try_recv_timeout, (), reply) ==> reply == Ok::<IpcMessage, TryRecvError>(
                IpcMessage::MixFormat(f),
            ),
    ensures
        r == Ok::<MixFormat, IpcError>(f),
{
}

/// What a reply gives, for every reply: a format is handed on unchanged, `Success`
/// completes a command that expects it, any other message or a wait that ran out
/// of time is a failed send, and a channel error is kept.
pub proof fn lemma_reply_rules(f: MixFormat, m: IpcMessage, e: crate::error::IpcChannelError)
    ensures
        spec_mix_format_reply(Ok(IpcMessage::MixFormat(f))) == Ok::<MixFormat, IpcError>(f),
        spec_success_reply(Ok(IpcMessage::Success)) == Ok::<(), IpcError>(()),
        !(m is MixFormat) ==> spec_mix_format_reply(Ok(m)) is Err,
        !(m is Success) ==> spec_success_reply(Ok(m)) == Err::<(), IpcError>(IpcError::SendFailed),
        spec_mix_format_reply(Err(TryRecvError::Empty)) == Err::<MixFormat, IpcError>(
            IpcError::SendFailed,
        ),
        spec_success_reply(Err(TryRecvError::IpcError(e))) == Err::<(), IpcError>(
            IpcError::IpcChannel(e),
        ),
{
}


/// The handshake succeeds exactly on `Success`, hands on the patch's own error,
/// and fails as a handshake on any other message.
pub proof fn lemma_handshake_rules(m: IpcMessage, e: crate::error::PatchError)
    ensures
        (spec_handshake_result(m) is Ok) <==> (m is Success),
        spec_handshake_result(IpcMessage::Error(e)) == Err::<(), IpcError>(IpcError::Patch(e)),
        !(m is Success) && !(m is Error) ==> spec_handshake_result(m) == Err::<(), IpcError>(
            IpcError::HandshakeFailed,
        ),
{
}

/// A command that could not be sent fails as a failed send, whatever the reply
/// would have been.
pub proof fn lemma_failed_send_fails<
    T,
    S: FnOnce(IpcMessage) -> bool,
    R: FnOnce() -> Result<IpcMessage, TryRecvError>,
>(
    command: PatchCommand,
    send: S,
    try_recv_timeout: R,
    on_reply: spec_fn(Result<IpcMessage, TryRecvError>) -> Result<T, IpcError>,
    r: Result<T, IpcError>,
)
    requires
        is_remote_outcome(command, send, try_recv_timeout, on_reply, r),
        forall|sent: bool| call_ensures(send, (IpcMessage::Command(command),), sent) ==> !sent,
    ensures
        r == Err::<T, IpcError>(IpcError::SendFailed),
{
}

} // verus!
