use rwig::error::IpcChannelError;
use rwig::message::TryRecvError;
use rwig::stream::{consumer_step, ConsumerAction, StopSignal};

fn no_read() -> Result<usize, TryRecvError> {
    panic!("read after stop")
}

#[test]
fn consumer_stops_on_signal() {
    assert_eq!(consumer_step(StopSignal::Stop, no_read), ConsumerAction::Stop);
    assert_eq!(consumer_step(StopSignal::Disconnected, no_read), ConsumerAction::Stop);
}

#[test]
fn consumer_reports_data() {
    assert_eq!(consumer_step(StopSignal::Empty, || Ok(512)), ConsumerAction::Received(512));
    assert_eq!(consumer_step(StopSignal::Empty, || Err(TryRecvError::Empty)), ConsumerAction::Idle);
}

#[test]
fn consumer_channel_errors() {
    assert_eq!(
        consumer_step(StopSignal::Empty, || Err(TryRecvError::IpcError(IpcChannelError::Bincode("b".to_string())))),
        ConsumerAction::BincodeError
    );
    assert_eq!(
        consumer_step(StopSignal::Empty, || Err(TryRecvError::IpcError(IpcChannelError::Io("i".to_string())))),
        ConsumerAction::IoError
    );
    assert_eq!(
        consumer_step(StopSignal::Empty, || Err(TryRecvError::IpcError(IpcChannelError::Disconnected))),
        ConsumerAction::Disconnected
    );
}
