//! Memory that transfers read from and write to.
use std::cell::UnsafeCell;
use vstd::prelude::*;

verus! {

/// Bytes to be sent. Their number and their values stay fixed.
pub struct SendBuffer {
    data: Vec<u8>,
}

impl View for SendBuffer {
    type V = Seq<u8>;

    closed spec fn view(&self) -> Seq<u8> {
        self.data@
    }
}

impl SendBuffer {
    /// Takes over `data`.
    pub fn new(data: Vec<u8>) -> (buffer: Self)
        ensures
            buffer@ == data@,
    {
        SendBuffer { data }
    }

    /// The memory that a send reads: where it begins and how far it reaches.
    pub fn as_ptr(&self) -> (bytes: &[u8])
        ensures
            bytes@ == self@,
    {
        self.data.as_slice()
    }

    /// How many bytes there are to send.
    pub fn len(&self) -> (len: usize)
        ensures
            len == self@.len(),
    {
        self.data.len()
    }
}

/// Space for received bytes.
pub struct RecvBuffer {
    data: Vec<u8>,
}

impl View for RecvBuffer {
    type V = Seq<u8>;

    closed spec fn view(&self) -> Seq<u8> {
        self.data@
    }
}

impl RecvBuffer {
    /// Makes a buffer of `size` zero bytes.
    pub fn new(size: usize) -> (buffer: Self)
        ensures
            buffer@ == Seq::new(size as nat, |i: int| 0u8),
    {
        let data: Vec<u8> = vec![0u8; size];
        assert(data@ =~= Seq::new(size as nat, |i: int| 0u8));
        RecvBuffer { data }
    }

    /// How many bytes fit.
    pub fn len(&self) -> (len: usize)
        ensures
            len == self@.len(),
    {
        self.data.len()
    }

    /// The first `len` bytes.
    pub fn as_slice(&self, len: usize) -> (bytes: &[u8])
        requires
            len <= self@.len(),
        ensures
            bytes@ == self@.take(len as int),
    {
        &self.data.as_slice()[0..len]
    }

    /// The memory that a receive fills. What is written there is what the buffer holds
    /// afterwards; its length cannot change.
    pub fn as_mut_ptr(&mut self) -> (bytes: &mut [u8])
        ensures
            bytes@ == old(self)@,
            final(self)@ == final(bytes)@,
    {
        self.data.as_mut_slice()
    }
}

/// `std::cell::UnsafeCell`, a cell whose contents may change while it is shared. A value of it
/// tells nothing of what the cell holds.
#[verifier::external_type_specification]
#[verifier::external_body]
#[verifier::reject_recursive_types(T)]
pub struct ExUnsafeCell<T: ?Sized>(UnsafeCell<T>);

/// Whether `cell` was made around `buffer`.
pub uninterp spec fn cell_made_around(cell: UnsafeCell<Vec<u8>>, buffer: Vec<u8>) -> bool;

/// Whether `memory` is what came out of `cell` when it was unwrapped.
pub uninterp spec fn cell_gave(cell: UnsafeCell<Vec<u8>>, memory: Vec<u8>) -> bool;

/// `std::cell::UnsafeCell::new` makes a cell around `buffer`. What the cell holds later on may
/// differ, so nothing is claimed of that.
#[verifier::external_body]
fn cell_around(buffer: Vec<u8>) -> (cell: UnsafeCell<Vec<u8>>)
    ensures
        cell_made_around(cell, buffer),
{
    UnsafeCell::new(buffer)
}

/// `std::cell::UnsafeCell::into_inner` unwraps `cell` and gives what it holds by now. That need
/// not be what it was made around, so nothing else is claimed of it.
#[verifier::external_body]
fn cell_opened(cell: UnsafeCell<Vec<u8>>) -> (memory: Vec<u8>)
    ensures
        cell_gave(cell, memory),
{
    cell.into_inner()
}

/// `bytes` cut down to `len`, or filled up to `len` with zeros.
pub open spec fn resized(bytes: Seq<u8>, len: nat) -> Seq<u8> {
    if len <= bytes.len() {
        bytes.take(len as int)
    } else {
        bytes + Seq::new((len - bytes.len()) as nat, |i: int| 0u8)
    }
}

/// Cuts `memory` down to `len` bytes, or fills it up to `len` with zeros. Memory that has this
/// length already is handed back as it is.
pub fn resize(memory: Vec<u8>, len: usize) -> (buffer: Vec<u8>)
    ensures
        buffer@ == resized(memory@, len as nat),
        buffer@.len() == len,
        forall|i: int| 0 <= i < len && i < memory@.len() ==> #[trigger] buffer@[i] == memory@[i],
        forall|i: int| memory@.len() <= i < len ==> #[trigger] buffer@[i] == 0,
        memory@.len() == len ==> buffer == memory,
{
    if memory.len() == len {
        assert(memory@ =~= resized(memory@, len as nat));
        return memory;
    }
    let mut buffer = memory;
    buffer.resize(len, 0);
    proof {
        if len > memory@.len() {
            let kept = buffer@.subrange(0, memory@.len() as int);
            assert forall|i: int| 0 <= i < memory@.len() implies buffer@[i] == memory@[i] by {
                assert(kept[i] == buffer@[i]);
            }
        }
    }
    assert(buffer@ =~= resized(memory@, len as nat));
    buffer
}

/// A receive buffer on loan to the fabric.
///
/// While the loan lasts the fabric alone writes to the memory, so all that is known of it is
/// how many bytes it was lent with.
#[derive(Debug)]
pub struct LoanedBuffer {
    memory: UnsafeCell<Vec<u8>>,
    len: usize,
}

impl LoanedBuffer {
    /// How many bytes were lent.
    pub closed spec fn spec_len(&self) -> nat {
        self.len as nat
    }

    /// The cell that holds the memory while it is lent.
    pub closed spec fn spec_memory(&self) -> UnsafeCell<Vec<u8>> {
        self.memory
    }

    /// Whether this is the loan of `buffer`, of this very vector and its memory.
    pub closed spec fn lends(&self, buffer: Vec<u8>) -> bool {
        cell_made_around(self.memory, buffer) && self.len == buffer@.len()
    }

    /// Whether `memory` is what the loan held when it ended.
    pub closed spec fn gave(&self, memory: Vec<u8>) -> bool {
        cell_gave(self.memory, memory)
    }

    /// Lends `buffer` out.
    pub fn new(buffer: Vec<u8>) -> (loan: Self)
        ensures
            loan.lends(buffer),
            cell_made_around(loan.spec_memory(), buffer),
            loan.spec_len() == buffer@.len(),
    {
        let len: usize = buffer.len();
        LoanedBuffer { memory: cell_around(buffer), len }
    }

    /// How many bytes were lent.
    pub fn len(&self) -> (len: usize)
        ensures
            len == self.spec_len(),
    {
        self.len
    }

    /// Ends the loan and gives back the memory that was lent, at its full length, with what the
    /// fabric has left in it.
    pub fn into_vec(self) -> (buffer: Vec<u8>)
        ensures
            exists|memory: Vec<u8>| #[trigger]
                self.gave(memory) && buffer@ == resized(memory@, self.spec_len()) && (memory@.len()
                    == self.spec_len() ==> buffer == memory),
            exists|memory: Vec<u8>| #[trigger]
                cell_gave(self.spec_memory(), memory) && (forall|i: int|
                    0 <= i < self.spec_len() && i < memory@.len() ==> #[trigger] buffer@[i]
                        == memory@[i]) && (forall|i: int|
                    memory@.len() <= i < self.spec_len() ==> #[trigger] buffer@[i] == 0),
            buffer@.len() == self.spec_len(),
    {
        let ghost loan = self;
        let memory: Vec<u8> = cell_opened(self.memory);
        assert(loan.gave(memory));
        assert(cell_gave(loan.spec_memory(), memory));
        resize(memory, self.len)
    }
}

/// A loan of `buffer` is a cell around this very vector, lent at its full length, and what the
/// loan gave is what came out of that cell.
pub proof fn loan_is_of_the_buffer(loan: LoanedBuffer, buffer: Vec<u8>, memory: Vec<u8>)
    ensures
        loan.lends(buffer) <==> cell_made_around(loan.spec_memory(), buffer) && loan.spec_len()
            == buffer@.len(),
        loan.gave(memory) <==> cell_gave(loan.spec_memory(), memory),
{
}

/// Cutting and filling up leave every byte that stays where it is, and add zeros only.
pub proof fn resizing_keeps_the_bytes(bytes: Seq<u8>, len: nat)
    ensures
        resized(bytes, len).len() == len,
        forall|i: int| 0 <= i < len && i < bytes.len() ==> #[trigger] resized(bytes, len)[i]
            == bytes[i],
        forall|i: int| bytes.len() <= i < len ==> #[trigger] resized(bytes, len)[i] == 0,
{
}

} // verus!
