//! Operations that the fabric has been asked for and has not completed yet.
use crate::buffer::LoanedBuffer;
use crate::error::FabricError;
use crate::signal::{
    recv_channel_carries, recv_channel_closed, send_channel_carries, send_channel_closed,
    tell_recv, tell_send, RecvOutcome, SendOutcome,
};
use tokio::sync::oneshot;
use vstd::prelude::*;

verus! {

/// An operation that is under way, with the memory it works on and the end of the channel on
/// which its completion is announced.
pub enum Operation {
    /// The fabric reads `buffer`.
    Send {
        /// Where the end of the send is announced.
        completion: oneshot::Sender<SendOutcome>,
        /// The bytes that are being sent.
        buffer: Vec<u8>,
    },
    /// The fabric writes to `loan`.
    Recv {
        /// Where the end of the receive is announced.
        completion: oneshot::Sender<RecvOutcome>,
        /// The memory that is being filled.
        loan: LoanedBuffer,
    },
}

/// The announcement of an operation that is over: what is said, and to whom.
pub enum Delivery {
    /// A send is over.
    Send {
        /// Where the outcome goes.
        completion: oneshot::Sender<SendOutcome>,
        /// What is said.
        outcome: SendOutcome,
    },
    /// A receive is over.
    Recv {
        /// Where the outcome goes.
        completion: oneshot::Sender<RecvOutcome>,
        /// What is said.
        outcome: RecvOutcome,
    },
}

/// What became of an announcement.
#[derive(Debug)]
pub enum Delivered {
    /// The awaiter has it, or will find it.
    Accepted,
    /// The awaiter of a send had gone; this is what it was not told.
    SendAbandoned(SendOutcome),
    /// The awaiter of a receive had gone; this is what it was not told.
    RecvAbandoned(RecvOutcome),
}

impl Operation {
    /// The announcement of this operation when it is over and `len` bytes were transferred: a
    /// send gets its own buffer back, a receive gets the memory back along with `len`.
    pub open spec fn delivery(self, len: usize) -> Delivery {
        match self {
            Operation::Send { completion, buffer } => Delivery::Send {
                completion,
                outcome: Ok(buffer),
            },
            Operation::Recv { completion, loan } => Delivery::Recv {
                completion,
                outcome: Ok((loan, len)),
            },
        }
    }

    /// The announcement of this operation when it has failed with `err`.
    pub open spec fn failed(self, err: i32) -> Delivery {
        match self {
            Operation::Send { completion, .. } => Delivery::Send {
                completion,
                outcome: Err(FabricError::Completion(err)),
            },
            Operation::Recv { completion, .. } => Delivery::Recv {
                completion,
                outcome: Err(FabricError::Completion(err)),
            },
        }
    }

    /// Ends this operation, `len` bytes having been transferred.
    pub fn complete(self, len: usize) -> (delivery: Delivery)
        ensures
            delivery == self.delivery(len),
    {
        match self {
            Operation::Send { completion, buffer } => Delivery::Send {
                completion,
                outcome: Ok(buffer),
            },
            Operation::Recv { completion, loan } => Delivery::Recv {
                completion,
                outcome: Ok((loan, len)),
            },
        }
    }

    /// Ends this operation, which has failed with `err`. Its memory is let go of.
    pub fn fail(self, err: i32) -> (delivery: Delivery)
        ensures
            delivery == self.failed(err),
    {
        match self {
            Operation::Send { completion, .. } => Delivery::Send {
                completion,
                outcome: Err(FabricError::Completion(err)),
            },
            Operation::Recv { completion, .. } => Delivery::Recv {
                completion,
                outcome: Err(FabricError::Completion(err)),
            },
        }
    }
}

impl Delivery {
    /// Whether the outcome went into the channel of its awaiter.
    pub open spec fn told(self) -> bool {
        match self {
            Delivery::Send { completion, outcome } => send_channel_carries(completion, outcome),
            Delivery::Recv { completion, outcome } => recv_channel_carries(completion, outcome),
        }
    }

    /// Whether `delivered` can be what became of this announcement: the awaiter has been told
    /// the outcome, or it had closed its end and the very outcome that it was to be told is left
    /// over.
    pub open spec fn may_become(self, delivered: Delivered) -> bool {
        match delivered {
            Delivered::Accepted => self.told(),
            Delivered::SendAbandoned(lost) => self matches Delivery::Send { completion, outcome }
                && lost == outcome && send_channel_closed(completion),
            Delivered::RecvAbandoned(lost) => self matches Delivery::Recv { completion, outcome }
                && lost == outcome && recv_channel_closed(completion),
        }
    }

    /// Announces the outcome. An awaiter that has not closed its end is told.
    pub fn announce(self) -> (delivered: Delivered)
        ensures
            self.may_become(delivered),
    {
        match self {
            Delivery::Send { completion, outcome } => match tell_send(completion, outcome) {
                Ok(()) => Delivered::Accepted,
                Err(lost) => Delivered::SendAbandoned(lost),
            },
            Delivery::Recv { completion, outcome } => match tell_recv(completion, outcome) {
                Ok(()) => Delivered::Accepted,
                Err(lost) => Delivered::RecvAbandoned(lost),
            },
        }
    }
}

/// The operations under way, each under the context that libfabric was given for it and that
/// comes back in its completion.
pub struct OperationTable {
    slots: Vec<Option<Operation>>,
}

impl View for OperationTable {
    type V = Map<usize, Operation>;

    closed spec fn view(&self) -> Map<usize, Operation> {
        Map::new(
            |context: usize| context < self.slots@.len() && self.slots@[context as int] is Some,
            |context: usize| self.slots@[context as int]->0,
        )
    }
}

impl OperationTable {
    /// A table of no operations.
    pub fn new() -> (table: Self)
        ensures
            table@ == Map::<usize, Operation>::empty(),
    {
        let table = OperationTable { slots: Vec::new() };
        assert(table@ =~= Map::<usize, Operation>::empty());
        table
    }

    /// Takes `operation` in, under a context that no other operation under way has.
    pub fn insert(&mut self, operation: Operation) -> (context: usize)
        ensures
            !old(self)@.contains_key(context),
            final(self)@ == old(self)@.insert(context, operation),
    {
        let mut context: usize = 0;
        while context < self.slots.len() && self.slots[context].is_some()
            invariant
                context <= self.slots@.len(),
            decreases self.slots@.len() - context,
        {
            context += 1;
        }
        if context < self.slots.len() {
            self.slots[context] = Some(operation);
        } else {
            self.slots.push(Some(operation));
        }
        assert(self@ =~= old(self)@.insert(context, operation));
        context
    }

    /// Gives up the operation that is under way under `context`, if there is one.
    pub fn remove(&mut self, context: usize) -> (removed: Option<Operation>)
        ensures
            final(self)@ == old(self)@.remove(context),
            removed == (if old(self)@.contains_key(context) {
                Some(old(self)@[context])
            } else {
                None
            }),
    {
        if context < self.slots.len() {
            let removed = self.slots[context].take();
            assert(self@ =~= old(self)@.remove(context));
            removed
        } else {
            assert(self@ =~= old(self)@.remove(context));
            None
        }
    }
}

} // verus!
