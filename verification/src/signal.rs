//! How the awaiter of an operation learns that it is done: one-shot channels of tokio.
use crate::buffer::LoanedBuffer;
use crate::error::FabricError;
use tokio::sync::oneshot;
use vstd::prelude::*;

verus! {

/// What the awaiter of a send is told: its buffer is free again.
pub type SendOutcome = Result<Vec<u8>, FabricError>;

/// What the awaiter of a receive is told: the buffer is back, and this many bytes arrived.
pub type RecvOutcome = Result<(LoanedBuffer, usize), FabricError>;

/// `tokio::sync::oneshot::Sender`, the end of a channel that a single message goes into.
#[verifier::external_type_specification]
#[verifier::external_body]
#[verifier::reject_recursive_types(T)]
pub struct ExSender<T>(oneshot::Sender<T>);

/// `tokio::sync::oneshot::Receiver`, the end of a channel that the message comes out of.
#[verifier::external_type_specification]
#[verifier::external_body]
#[verifier::reject_recursive_types(T)]
pub struct ExReceiver<T>(oneshot::Receiver<T>);

/// `tokio::sync::oneshot::error::RecvError`, what a receiver gets whose sender was dropped
/// with no message sent.
#[verifier::external_type_specification]
#[verifier::external_body]
pub struct ExRecvError(oneshot::error::RecvError);

/// Whether `tx` and `rx` are the two ends of one channel, made for the outcome of a send.
pub uninterp spec fn send_channel_ends(
    tx: oneshot::Sender<SendOutcome>,
    rx: oneshot::Receiver<SendOutcome>,
) -> bool;

/// Whether `tx` and `rx` are the two ends of one channel, made for the outcome of a receive.
pub uninterp spec fn recv_channel_ends(
    tx: oneshot::Sender<RecvOutcome>,
    rx: oneshot::Receiver<RecvOutcome>,
) -> bool;

/// Whether `outcome` is the message that went into the channel of `tx`.
pub uninterp spec fn send_channel_carries(
    tx: oneshot::Sender<SendOutcome>,
    outcome: SendOutcome,
) -> bool;

/// Whether `outcome` is the message that went into the channel of `tx`.
pub uninterp spec fn recv_channel_carries(
    tx: oneshot::Sender<RecvOutcome>,
    outcome: RecvOutcome,
) -> bool;

/// Whether the receiver of the channel of `tx` was closed or dropped before a message went in.
pub uninterp spec fn send_channel_closed(tx: oneshot::Sender<SendOutcome>) -> bool;

/// Whether the receiver of the channel of `tx` was closed or dropped before a message went in.
pub uninterp spec fn recv_channel_closed(tx: oneshot::Sender<RecvOutcome>) -> bool;

/// `tokio::sync::oneshot::channel` makes a fresh channel: what it returns are the two ends of
/// one channel.
#[verifier::external_body]
pub(crate) fn send_channel() -> (ends: (
    oneshot::Sender<SendOutcome>,
    oneshot::Receiver<SendOutcome>,
))
    ensures
        send_channel_ends(ends.0, ends.1),
{
    oneshot::channel()
}

/// `tokio::sync::oneshot::channel`, at the type of the outcome of a receive: what it returns are
/// the two ends of one channel.
#[verifier::external_body]
pub(crate) fn recv_channel() -> (ends: (
    oneshot::Sender<RecvOutcome>,
    oneshot::Receiver<RecvOutcome>,
))
    ensures
        recv_channel_ends(ends.0, ends.1),
{
    oneshot::channel()
}

/// `tokio::sync::oneshot::Sender::send` puts `outcome` into the channel of `tx` and succeeds,
/// unless the receiver was closed or dropped before: then it hands `outcome` back.
#[verifier::external_body]
pub(crate) fn tell_send(
    tx: oneshot::Sender<SendOutcome>,
    outcome: SendOutcome,
) -> (told: Result<(), SendOutcome>)
    ensures
        told is Ok ==> send_channel_carries(tx, outcome),
        told is Err ==> send_channel_closed(tx),
        told matches Err(back) ==> back == outcome,
{
    tx.send(outcome)
}

/// `tokio::sync::oneshot::Sender::send`, at the type of the outcome of a receive: puts `outcome`
/// into the channel of `tx` and succeeds, unless the receiver was closed or dropped before: then
/// it hands `outcome` back.
#[verifier::external_body]
pub(crate) fn tell_recv(
    tx: oneshot::Sender<RecvOutcome>,
    outcome: RecvOutcome,
) -> (told: Result<(), RecvOutcome>)
    ensures
        told is Ok ==> recv_channel_carries(tx, outcome),
        told is Err ==> recv_channel_closed(tx),
        told matches Err(back) ==> back == outcome,
{
    tx.send(outcome)
}

} // verus!
