use std::cell::Cell;

use rwig::error::{IpcChannelError, IpcError, PatchError};
use rwig::format::{FormatTag, MixFormat};
use rwig::ipc::{
    handshake_result, remote_disable_detour, remote_eject, remote_enable_detour,
    remote_get_mix_format,
};
use rwig::message::{IpcMessage, PatchCommand, TryRecvError};

fn pcm_format() -> MixFormat {
    let mut b = vec![0u8; 18];
    b[0] = 1;
    b[2] = 2;
    MixFormat::from_raw(&b)
}

#[test]
fn handshake_success() {
    assert!(handshake_result(IpcMessage::Success).is_ok());
}

#[test]
fn handshake_patch_error() {
    let r = handshake_result(IpcMessage::Error(PatchError::HandshakeFailed("no".to_string())));
    assert!(matches!(r, Err(IpcError::Patch(PatchError::HandshakeFailed(ref m))) if m == "no"));
}

#[test]
fn handshake_other_message() {
    assert!(matches!(handshake_result(IpcMessage::Log("hi".to_string())), Err(IpcError::HandshakeFailed)));
    assert!(matches!(handshake_result(IpcMessage::Sender), Err(IpcError::HandshakeFailed)));
}

#[test]
fn remote_enable_sends_command_and_accepts_success() {
    let sent = Cell::new(None);
    let r = remote_enable_detour(
        |m| {
            sent.set(Some(matches!(m, IpcMessage::Command(PatchCommand::EnableDetour))));
            true
        },
        || Ok(IpcMessage::Success),
    );
    assert!(r.is_ok());
    assert_eq!(sent.get(), Some(true));
}

#[test]
fn remote_disable_rejects_other_reply() {
    let r = remote_disable_detour(
        |m| matches!(m, IpcMessage::Command(PatchCommand::DisableDetour)),
        || Ok(IpcMessage::Log("x".to_string())),
    );
    assert!(matches!(r, Err(IpcError::SendFailed)));
}

#[test]
fn remote_call_failed_send_skips_wait() {
    let r = remote_eject(|_| false, || -> Result<IpcMessage, TryRecvError> { panic!("waited after failed send") });
    assert!(matches!(r, Err(IpcError::SendFailed)));
}

#[test]
fn remote_call_timeout_is_send_failure() {
    let r = remote_eject(|m| matches!(m, IpcMessage::Command(PatchCommand::Eject)), || Err(TryRecvError::Empty));
    assert!(matches!(r, Err(IpcError::SendFailed)));
}

#[test]
fn remote_call_channel_error_is_kept() {
    let r = remote_enable_detour(|_| true, || Err(TryRecvError::IpcError(IpcChannelError::Disconnected)));
    assert!(matches!(r, Err(IpcError::IpcChannel(IpcChannelError::Disconnected))));
}

#[test]
fn remote_get_mix_format_returns_format() {
    let r = remote_get_mix_format(
        |m| matches!(m, IpcMessage::Command(PatchCommand::GetMixFormat)),
        || Ok(IpcMessage::MixFormat(pcm_format())),
    );
    let f = r.unwrap();
    assert_eq!(f.format.format_tag, FormatTag::WaveFormatPcm);
    assert_eq!(f.format.channels, 2);
}

#[test]
fn remote_get_mix_format_rejects_success() {
    let r = remote_get_mix_format(|_| true, || Ok(IpcMessage::Success));
    assert!(matches!(r, Err(IpcError::SendFailed)));
}
