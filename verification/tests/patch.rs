use rwig::error::{IpcChannelError, IpcError, PatchError};
use rwig::format::MixFormat;
use rwig::message::{IpcMessage, PatchCommand, TryRecvError};
use rwig::patch::endpoint::{
    create_endpoint, drop_endpoint, set_endpoint, BufferRegion, SimulatedEndpoint, BUFFER_SIZE,
};
use rwig::patch::listener::{
    disable_detour, enable_detour, get_mix_format, listener_action, shutdown_reply, ListenerAction,
};
use rwig::patch::messages::{
    drop_channels, send_error, send_log, send_mix_format, send_success, set_message_sender,
};
use rwig::patch::strings::stringw_from_wide;

fn format_with_block_align(block_align: u16) -> MixFormat {
    let mut b = vec![0u8; 18];
    b[0] = 3;
    b[12] = (block_align & 0xff) as u8;
    b[13] = (block_align >> 8) as u8;
    MixFormat::from_raw(&b)
}

fn endpoint(block_align: u16) -> SimulatedEndpoint {
    let (tx, _rx) = ipc_channel::ipc::bytes_channel().unwrap();
    SimulatedEndpoint::new(tx, format_with_block_align(block_align))
}

#[test]
fn buffer_size_constant() {
    assert_eq!(BUFFER_SIZE, 88200);
}

#[test]
fn fresh_endpoint_reads_nothing() {
    let e = endpoint(8);
    assert_eq!(e.format.format.block_align, 8);
    assert_eq!(e.read_buffer(10), None);
}

#[test]
fn read_buffer_region_after_padding() {
    let mut e = endpoint(8);
    e.set_buffer_pointer(0x1000);
    e.set_buffer_size(480);
    e.set_current_padding(100);
    assert!(e.read_buffer_fits(50));
    assert_eq!(e.read_buffer(50), Some(BufferRegion { address: 0x1000, offset: 800, len: 400 }));
    assert_eq!(e.release_buffer(50), Some(BufferRegion { address: 0x1000, offset: 800, len: 400 }));
}

#[test]
fn read_buffer_needs_room_and_frames() {
    let mut e = endpoint(4);
    e.set_buffer_pointer(64);
    e.set_buffer_size(100);
    e.set_current_padding(60);
    assert_eq!(e.read_buffer(0), None);
    // 60 + 40 frames reach the end of the buffer: nothing is read.
    assert_eq!(e.read_buffer(40), None);
    assert_eq!(e.read_buffer(39), Some(BufferRegion { address: 64, offset: 240, len: 156 }));
}

#[test]
fn read_buffer_fits_detects_overflow() {
    let mut e = endpoint(8);
    e.set_buffer_size(u32::MAX / 4);
    assert!(!e.read_buffer_fits(1));
    e.set_buffer_size(10);
    e.set_current_padding(u32::MAX / 8);
    assert!(!e.read_buffer_fits(2));
    assert!(e.read_buffer_fits(0));
}

#[test]
fn endpoint_slot_set_and_drop() {
    let mut slot = None;
    let (tx, _rx) = ipc_channel::ipc::bytes_channel().unwrap();
    assert!(create_endpoint(&mut slot, tx, format_with_block_align(2)).is_ok());
    assert_eq!(slot.as_ref().unwrap().format.format.block_align, 2);
    assert!(set_endpoint(&mut slot, endpoint(6)).is_ok());
    assert_eq!(slot.as_ref().unwrap().format.format.block_align, 6);
    drop_endpoint(&mut slot);
    assert!(slot.is_none());
    drop_endpoint(&mut slot);
    assert!(slot.is_none());
}

#[test]
fn send_functions_build_messages() {
    let mut got = Vec::new();
    assert!(send_log(|m| { got.push(format!("{:?}", m)); true }, "hello".to_string()).is_ok());
    assert!(send_success(|m| { got.push(format!("{:?}", m)); true }).is_ok());
    assert!(send_error(|m| { got.push(format!("{:?}", m)); true }, PatchError::Detour("d".to_string())).is_ok());
    assert!(send_mix_format(|m| { got.push(format!("{:?}", m)); true }, format_with_block_align(4)).is_ok());
    assert_eq!(got[0], "Log(\"hello\")");
    assert_eq!(got[1], "Success");
    assert_eq!(got[2], "Error(Detour(\"d\"))");
    assert!(got[3].starts_with("MixFormat("));
}

#[test]
fn send_failure_is_reported() {
    assert!(matches!(send_success(|_| false), Err(IpcError::SendFailed)));
    assert!(matches!(send_log(|_| false, "x".to_string()), Err(IpcError::SendFailed)));
}

#[test]
fn drop_channels_empties_sender() {
    let mut sender = Some(5u8);
    assert!(drop_channels(&mut sender).is_ok());
    assert_eq!(sender, None);
}

#[test]
fn listener_commands() {
    assert!(matches!(listener_action(Ok(IpcMessage::Command(PatchCommand::EnableDetour))), ListenerAction::EnableDetour));
    assert!(matches!(listener_action(Ok(IpcMessage::Command(PatchCommand::DisableDetour))), ListenerAction::DisableDetour));
    assert!(matches!(listener_action(Ok(IpcMessage::Command(PatchCommand::GetMixFormat))), ListenerAction::GetMixFormat));
    assert!(matches!(listener_action(Ok(IpcMessage::Command(PatchCommand::Eject))), ListenerAction::Stop));
}

#[test]
fn listener_other_outcomes() {
    assert!(matches!(listener_action(Ok(IpcMessage::Log("l".to_string()))), ListenerAction::Print(ref s) if s == "l"));
    assert!(matches!(listener_action(Ok(IpcMessage::Success)), ListenerAction::Idle));
    assert!(matches!(listener_action(Err(TryRecvError::Empty)), ListenerAction::Idle));
    assert!(matches!(
        listener_action(Err(TryRecvError::IpcError(IpcChannelError::Bincode("b".to_string())))),
        ListenerAction::SendError(PatchError::Bincode(ref s)) if s == "b"
    ));
    assert!(matches!(
        listener_action(Err(TryRecvError::IpcError(IpcChannelError::Io("i".to_string())))),
        ListenerAction::SendError(PatchError::Io(ref s)) if s == "i"
    ));
    assert!(matches!(listener_action(Err(TryRecvError::IpcError(IpcChannelError::Disconnected))), ListenerAction::Stop));
}

#[test]
fn listener_replies() {
    assert!(matches!(enable_detour(Ok(())), IpcMessage::Success));
    assert!(matches!(disable_detour(Err("busy".to_string())), IpcMessage::Error(PatchError::Detour(ref s)) if s == "busy"));
    assert!(matches!(get_mix_format(Err("no device".to_string())), IpcMessage::Error(PatchError::Detour(_))));
    assert!(matches!(get_mix_format(Ok(format_with_block_align(4))), IpcMessage::MixFormat(_)));
}

#[test]
fn wide_string_ascii() {
    let units: Vec<u16> = "Speakers (Realtek)".encode_utf16().collect();
    assert_eq!(stringw_from_wide(&units), "Speakers (Realtek)");
    assert_eq!(stringw_from_wide(&[]), "");
}

#[test]
fn wide_string_surrogate_pairs() {
    let text = "Kopfhörer 🎧";
    let units: Vec<u16> = text.encode_utf16().collect();
    assert_eq!(stringw_from_wide(&units), text);
}

#[test]
fn wide_string_lone_surrogates_replaced() {
    assert_eq!(stringw_from_wide(&[0x0041, 0xD800, 0x0042]), "A\u{FFFD}B");
    assert_eq!(stringw_from_wide(&[0xDC00, 0xD83C]), "\u{FFFD}\u{FFFD}");
    assert_eq!(stringw_from_wide(&[0xD83C, 0xD83C, 0xDFA7]), "\u{FFFD}🎧");
    let units = [0x0041u16, 0xD800, 0xDFFF, 0xDFFF];
    assert_eq!(stringw_from_wide(&units), String::from_utf16_lossy(&units));
}

#[test]
fn shutdown_always_replies_success() {
    assert!(matches!(shutdown_reply(Ok(())), IpcMessage::Success));
    assert!(matches!(shutdown_reply(Err("not attached".to_string())), IpcMessage::Success));
}

#[test]
fn set_message_sender_replaces_held_one() {
    let mut sender = None;
    set_message_sender(&mut sender, 1u8);
    assert_eq!(sender, Some(1));
    set_message_sender(&mut sender, 2u8);
    assert_eq!(sender, Some(2));
}

#[test]
fn endpoint_clone_keeps_state() {
    let mut e = endpoint(4);
    e.set_buffer_pointer(0x40);
    e.set_buffer_size(100);
    e.set_current_padding(10);
    let c = e.clone();
    assert_eq!(c.format.format.block_align, 4);
    assert_eq!(c.read_buffer(5), e.read_buffer(5));
    assert_eq!(c.read_buffer(5), Some(BufferRegion { address: 0x40, offset: 40, len: 20 }));
}
