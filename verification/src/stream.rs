use vstd::prelude::*;

use crate::error::IpcChannelError;
use crate::message::TryRecvError;

verus! {

/// What the capture stream's stop channel held when the consumer looked at it:
/// a stop request, nothing, or a closed channel.
#[derive(Debug, Clone, Copy, PartialEq, Eq, Structural)]
pub enum StopSignal {
    Stop,
    Empty,
    Disconnected,
}

/// What the consumer of a capture stream does after one look at its channels.
#[derive(Debug, Clone, Copy, PartialEq, Eq, Structural)]
pub enum ConsumerAction {
    /// A stop was requested, or the stop channel closed: end without reading.
    Stop,
    /// A block of this many bytes arrived; go on.
    Received(usize),
    /// A block could not be decoded; go on.
    BincodeError,
    /// The data channel reported an I/O error; go on.
    IoError,
    /// The data channel closed: end.
    Disconnected,
    /// Nothing arrived; go on.
    Idle,
}

/// Whether the consumer ends after the action.
pub open spec fn ends_consumer(action: ConsumerAction) -> bool {
    action == ConsumerAction::Stop || action == ConsumerAction::Disconnected
}

/// The action for the outcome of one read of the data channel.
pub open spec fn consumer_action_of(received: Result<usize, TryRecvError>) -> ConsumerAction {
    match received {
        Ok(n) => ConsumerAction::Received(n),
        Err(TryRecvError::IpcError(IpcChannelError::Bincode(_))) => ConsumerAction::BincodeError,
        Err(TryRecvError::IpcError(IpcChannelError::Io(_))) => ConsumerAction::IoError,
        Err(TryRecvError::IpcError(IpcChannelError::Disconnected)) => ConsumerAction::Disconnected,
        Err(TryRecvError::Empty) => ConsumerAction::Idle,
    }
}

/// One round of the capture stream's consumer: it ends when a stop was requested
/// or the stop channel closed, without reading; otherwise it reads the data
/// channel once (through `try_recv`, which gives the length of the block that
/// arrived) and acts on the outcome.
pub fn consumer_step<R: FnOnce() -> Result<usize, TryRecvError>>(
    signal: StopSignal,
    try_recv: R,
) -> (action: ConsumerAction)
    requires
        signal == StopSignal::Empty ==> call_requires(try_recv, ()),
    ensures
        signal != StopSignal::Empty ==> action == ConsumerAction::Stop,
        signal == StopSignal::Empty ==> exists|received: Result<usize, TryRecvError>|
            call_ensures(try_recv, (), received) && action == consumer_action_of(received),
{
    match signal {
        StopSignal::Stop => ConsumerAction::Stop,
        StopSignal::Disconnected => ConsumerAction::Stop,
        StopSignal::Empty => {
            let received = try_recv();
            let ghost g = received;
            let action = match received {
                Ok(n) => ConsumerAction::Received(n),
                Err(TryRecvError::IpcError(IpcChannelError::Bincode(_))) => ConsumerAction::BincodeError,
                Err(TryRecvError::IpcError(IpcChannelError::Io(_))) => ConsumerAction::IoError,
                Err(TryRecvError::IpcError(IpcChannelError::Disconnected)) => {
                    ConsumerAction::Disconnected
                },
                Err(TryRecvError::Empty) => ConsumerAction::Idle,
            };
            assert(action == consumer_action_of(g));
            action
        },
    }
}


/// The consumer ends exactly when a stop was asked for, the stop channel closed,
/// or the data channel closed; a block's length is reported as it is.
pub proof fn lemma_consumer_rules(received: Result<usize, TryRecvError>, n: usize)
    ensures
        consumer_action_of(Ok(n)) == ConsumerAction::Received(n),
        ends_consumer(consumer_action_of(received)) <==> received == Err::<usize, TryRecvError>(
            TryRecvError::IpcError(IpcChannelError::Disconnected),
        ),
        consumer_action_of(Err(TryRecvError::Empty)) == ConsumerAction::Idle,
{
}

} // verus!
