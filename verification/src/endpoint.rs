//! An endpoint: what it has under way, and what becomes of it.
use crate::address::{FabricAddress, PeerId};
use crate::buffer::{cell_made_around, resize, resized, LoanedBuffer};
use crate::completion::{cq_waitable, read_cq_entry, CqEntry, CqEvent, CqReadResult, CqStep};
use crate::constants::NAME_CAPACITY;
use crate::error::FabricError;
use crate::operation::{Delivered, Delivery, Operation, OperationTable};
use crate::signal::{
    recv_channel, recv_channel_ends, send_channel, send_channel_ends, RecvOutcome, SendOutcome,
};
use tokio::sync::oneshot;
use vstd::prelude::*;

verus! {

/// What `fi_send` is asked for.
#[derive(Debug, Clone, Copy, PartialEq, Eq, Structural)]
pub struct SendRequest {
    /// The peer that the bytes go to.
    pub peer: PeerId,
    /// How many bytes go out.
    pub len: usize,
    /// What the completion will be marked with.
    pub context: usize,
}

/// What `fi_recv` is asked for.
#[derive(Debug, Clone, Copy, PartialEq, Eq, Structural)]
pub struct RecvRequest {
    /// The source that is asked for: none in particular.
    pub src_addr: u64,
    /// How many bytes fit.
    pub len: usize,
    /// What the completion will be marked with.
    pub context: usize,
}

/// An endpoint that is ready for transfers.
///
/// It owns the memory of every operation from the moment it is prepared until the fabric
/// refuses or ends it. Its view is the operations under way, by context.
pub struct FabricEndpoint {
    operations: OperationTable,
}

impl View for FabricEndpoint {
    type V = Map<usize, Operation>;

    closed spec fn view(&self) -> Map<usize, Operation> {
        self.operations@
    }
}

impl FabricEndpoint {
    /// An endpoint with nothing under way.
    pub(crate) fn new() -> (endpoint: Self)
        ensures
            endpoint@ == Map::<usize, Operation>::empty(),
    {
        FabricEndpoint { operations: OperationTable::new() }
    }

    /// Prepares the sending of `buffer` to `peer`. The endpoint owns the buffer from now on.
    /// The request goes to `fi_send`, and what that returns to
    /// [`send_posted`](Self::send_posted); the outcome will come out of the receiver.
    pub fn send_to(&mut self, peer: PeerId, buffer: Vec<u8>) -> (prepared: (
        SendRequest,
        oneshot::Receiver<SendOutcome>,
    ))
        ensures
            prepared.0.peer == peer,
            prepared.0.len == buffer@.len(),
            !old(self)@.contains_key(prepared.0.context),
            final(self)@.remove(prepared.0.context) == old(self)@,
            final(self)@.contains_key(prepared.0.context),
            final(self)@[prepared.0.context] matches Operation::Send { completion, buffer: kept }
                && kept == buffer && send_channel_ends(completion, prepared.1),
    {
        let (completion, outcome) = send_channel();
        let len: usize = buffer.len();
        let context: usize = self.operations.insert(Operation::Send { completion, buffer });
        assert(self@.remove(context) =~= old(self)@);
        (SendRequest { peer, len, context }, outcome)
    }

    /// Takes note of what `fi_send` returned for the operation under `context`. A negative
    /// code means that no completion will come, so the operation is given up at once.
    pub fn send_posted(&mut self, context: usize, ret: isize) -> (posted: Result<(), FabricError>)
        ensures
            ret < 0 ==> {
                &&& posted == Err::<(), FabricError>(FabricError::Send(ret))
                &&& final(self)@ == old(self)@.remove(context)
            },
            ret >= 0 ==> posted == Ok::<(), FabricError>(()) && final(self)@ == old(self)@,
    {
        if ret < 0 {
            let _ = self.operations.remove(context);
            return Err(FabricError::Send(ret));
        }
        Ok(())
    }

    /// The result of a send whose receiver gave `received`.
    pub fn send_finished(received: Result<SendOutcome, oneshot::error::RecvError>) -> (result:
        SendOutcome)
        ensures
            result == (match received {
                Ok(outcome) => outcome,
                Err(_) => Err(FabricError::ChannelClosed),
            }),
    {
        match received {
            Ok(outcome) => outcome,
            Err(_) => Err(FabricError::ChannelClosed),
        }
    }

    /// Prepares a receive into `buffer`, from any peer. The endpoint owns the buffer from now
    /// on, and the fabric writes to it. The request goes to `fi_recv`, and what that returns to
    /// [`recv_posted`](Self::recv_posted); the outcome will come out of the receiver.
    pub fn recv(&mut self, buffer: Vec<u8>) -> (prepared: (
        RecvRequest,
        oneshot::Receiver<RecvOutcome>,
    ))
        ensures
            prepared.0.src_addr == 0,
            prepared.0.len == buffer@.len(),
            !old(self)@.contains_key(prepared.0.context),
            final(self)@.remove(prepared.0.context) == old(self)@,
            final(self)@.contains_key(prepared.0.context),
            final(self)@[prepared.0.context] matches Operation::Recv { completion, loan }
                && loan.lends(buffer) && cell_made_around(loan.spec_memory(), buffer)
                && loan.spec_len() == buffer@.len() && recv_channel_ends(completion, prepared.1),
    {
        let (completion, outcome) = recv_channel();
        let len: usize = buffer.len();
        let loan = LoanedBuffer::new(buffer);
        let context: usize = self.operations.insert(Operation::Recv { completion, loan });
        assert(self@.remove(context) =~= old(self)@);
        (RecvRequest { src_addr: 0, len, context }, outcome)
    }

    /// Takes note of what `fi_recv` returned for the operation under `context`. A negative
    /// code means that no completion will come, so the operation is given up at once.
    pub fn recv_posted(&mut self, context: usize, ret: isize) -> (posted: Result<(), FabricError>)
        ensures
            ret < 0 ==> {
                &&& posted == Err::<(), FabricError>(FabricError::Recv(ret))
                &&& final(self)@ == old(self)@.remove(context)
            },
            ret >= 0 ==> posted == Ok::<(), FabricError>(()) && final(self)@ == old(self)@,
    {
        if ret < 0 {
            let _ = self.operations.remove(context);
            return Err(FabricError::Recv(ret));
        }
        Ok(())
    }

    /// The result of a receive whose receiver gave `received`.
    pub fn recv_finished(received: Result<RecvOutcome, oneshot::error::RecvError>) -> (result:
        RecvOutcome)
        ensures
            result == (match received {
                Ok(outcome) => outcome,
                Err(_) => Err(FabricError::ChannelClosed),
            }),
    {
        match received {
            Ok(outcome) => outcome,
            Err(_) => Err(FabricError::ChannelClosed),
        }
    }

    /// Ends the operation that `entry` reports, and hands over what its awaiter is to be told.
    /// There is none where nothing is under way under that context.
    pub fn take_completed(&mut self, entry: CqEntry) -> (delivery: Option<Delivery>)
        ensures
            final(self)@ == old(self)@.remove(entry.context),
            delivery == (if old(self)@.contains_key(entry.context) {
                Some(old(self)@[entry.context].delivery(entry.len))
            } else {
                None
            }),
            delivery matches Some(found) ==> match old(self)@[entry.context] {
                Operation::Send { completion, buffer } => found == (Delivery::Send {
                    completion,
                    outcome: Ok(buffer),
                }),
                Operation::Recv { completion, loan } => found == (Delivery::Recv {
                    completion,
                    outcome: Ok((loan, entry.len)),
                }),
            },
    {
        match self.operations.remove(entry.context) {
            Some(operation) => Some(operation.complete(entry.len)),
            None => None,
        }
    }

    /// Ends the operation that `entry` reports, and tells its awaiter.
    pub fn handle_completion(&mut self, entry: CqEntry) -> (delivered: Option<Delivered>)
        ensures
            final(self)@ == old(self)@.remove(entry.context),
            delivered is Some <==> old(self)@.contains_key(entry.context),
            delivered matches Some(became) ==> old(self)@[entry.context].delivery(
                entry.len,
            ).may_become(became),
    {
        match self.take_completed(entry) {
            Some(delivery) => Some(delivery.announce()),
            None => None,
        }
    }

    /// Ends the operation under `context`, which has failed with `err`, and hands over what its
    /// awaiter is to be told. There is none where nothing is under way under that context.
    pub fn take_failed(&mut self, context: usize, err: i32) -> (delivery: Option<Delivery>)
        ensures
            final(self)@ == old(self)@.remove(context),
            delivery == (if old(self)@.contains_key(context) {
                Some(old(self)@[context].failed(err))
            } else {
                None
            }),
            delivery matches Some(found) ==> match old(self)@[context] {
                Operation::Send { completion, .. } => found == (Delivery::Send {
                    completion,
                    outcome: Err(FabricError::Completion(err)),
                }),
                Operation::Recv { completion, .. } => found == (Delivery::Recv {
                    completion,
                    outcome: Err(FabricError::Completion(err)),
                }),
            },
    {
        match self.operations.remove(context) {
            Some(operation) => Some(operation.fail(err)),
            None => None,
        }
    }

    /// Ends the operation under `context`, which has failed with `err`, and tells its awaiter.
    pub fn handle_failure(&mut self, context: usize, err: i32) -> (delivered: Option<Delivered>)
        ensures
            final(self)@ == old(self)@.remove(context),
            delivered is Some <==> old(self)@.contains_key(context),
            delivered matches Some(became) ==> old(self)@[context].failed(err).may_become(became),
    {
        match self.take_failed(context, err) {
            Some(delivery) => Some(delivery.announce()),
            None => None,
        }
    }

    /// Takes the reader of the completion queue from `step` to the step that follows when
    /// `event` came of it. A completion or a failure that the event brings is handled, and what
    /// became of its announcement is handed back.
    pub fn read_cq(&mut self, step: CqStep, event: CqEvent) -> (next: (CqStep, Option<Delivered>))
        ensures
            next.0 == step.next(event),
            step.completed(event) matches Some(entry) ==> {
                &&& final(self)@ == old(self)@.remove(entry.context)
                &&& next.1 is Some <==> old(self)@.contains_key(entry.context)
                &&& next.1 matches Some(became) ==> old(self)@[entry.context].delivery(
                    entry.len,
                ).may_become(became)
            },
            step.failed(event) matches Some((context, err)) ==> {
                &&& final(self)@ == old(self)@.remove(context)
                &&& next.1 is Some <==> old(self)@.contains_key(context)
                &&& next.1 matches Some(became) ==> old(self)@[context].failed(err).may_become(
                    became,
                )
            },
            step.completed(event) is None && step.failed(event) is None ==> {
                &&& final(self)@ == old(self)@
                &&& next.1 is None
            },
    {
        match (step, event) {
            (CqStep::TryWait, CqEvent::TryWaited(ret)) => if cq_waitable(ret) {
                (CqStep::AwaitReadable, None)
            } else {
                (CqStep::ReadEntry { woken: false }, None)
            },
            (CqStep::AwaitReadable, CqEvent::Readable) => {
                (CqStep::ReadEntry { woken: true }, None)
            },
            (CqStep::AwaitReadable, CqEvent::WaitFailed) => (CqStep::Failed, None),
            (CqStep::ReadEntry { woken }, CqEvent::Read { ret, entry }) => {
                match read_cq_entry(ret, entry) {
                    CqReadResult::CqReadSuccess(found) => (step, self.handle_completion(found)),
                    CqReadResult::CqErrorAvailable => (CqStep::ReadError { woken }, None),
                    CqReadResult::CqErrorAgain | CqReadResult::CqError => {
                        (CqStep::stop_reading(woken), None)
                    },
                }
            },
            (CqStep::ReadError { woken }, CqEvent::ErrorRead { ret, context, err }) => {
                if ret > 0 {
                    (CqStep::ReadEntry { woken }, self.handle_failure(context, err))
                } else {
                    (CqStep::stop_reading(woken), None)
                }
            },
            (CqStep::ClearReady, CqEvent::Cleared) => (CqStep::TryWait, None),
            _ => (step, None),
        }
    }

    /// Space for `fi_getname` to write the name of the endpoint to.
    pub fn name_buffer() -> (name: Vec<u8>)
        ensures
            name@ == Seq::new(NAME_CAPACITY as nat, |i: int| 0u8),
    {
        let name: Vec<u8> = vec![0u8; NAME_CAPACITY];
        assert(name@ =~= Seq::new(NAME_CAPACITY as nat, |i: int| 0u8));
        name
    }

    /// The address of the endpoint, where `fi_getname` returned `ret`, wrote to `name` and
    /// reported a length of `name_len`.
    pub fn local_address(ret: i32, name: Vec<u8>, name_len: usize) -> (addr: Result<
        FabricAddress,
        FabricError,
    >)
        ensures
            ret == 0 ==> (addr matches Ok(a) && a@ == resized(name@, name_len as nat)),
            ret == 0 ==> (addr matches Ok(a) && a@.len() == name_len && (forall|i: int|
                0 <= i < name_len && i < name@.len() ==> #[trigger] a@[i] == name@[i]) && (forall|
                i: int,
            |
                name@.len() <= i < name_len ==> #[trigger] a@[i] == 0)),
            ret != 0 ==> addr == Err::<FabricAddress, FabricError>(FabricError::GetName(ret)),
    {
        if ret != 0 {
            return Err(FabricError::GetName(ret));
        }
        Ok(FabricAddress::new(resize(name, name_len)))
    }

    /// Checks that `peer_addr` is long enough for a provider whose addresses have `addr_len`
    /// bytes. `fi_av_insert` reads that many, so only an address that passes may go there.
    pub fn check_peer(peer_addr: &FabricAddress, addr_len: usize) -> (checked: Result<
        (),
        FabricError,
    >)
        ensures
            peer_addr@.len() >= addr_len ==> checked == Ok::<(), FabricError>(()),
            peer_addr@.len() < addr_len ==> checked == Err::<(), FabricError>(
                FabricError::ShortAddress(peer_addr@.len() as usize),
            ),
    {
        let len: usize = peer_addr.len();
        if len < addr_len {
            return Err(FabricError::ShortAddress(len));
        }
        Ok(())
    }

    /// The handle of a peer, where `fi_av_insert` was given one address that
    /// [`check_peer`](Self::check_peer) has passed, returned `ret` and wrote the handle `fi_addr`.
    pub fn insert_peer(ret: i32, fi_addr: u64) -> (peer: Result<PeerId, FabricError>)
        ensures
            ret == 1 ==> peer == Ok::<PeerId, FabricError>(PeerId(fi_addr)),
            ret != 1 ==> peer == Err::<PeerId, FabricError>(FabricError::AvInsert(ret)),
    {
        if ret != 1 {
            return Err(FabricError::AvInsert(ret));
        }
        Ok(PeerId(fi_addr))
    }
}

} // verus!
