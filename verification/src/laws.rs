//! What holds of the library across calls.
use crate::buffer::LoanedBuffer;
use crate::builder::{as_signed, BuilderState, Setting};
use crate::completion::{CqEntry, CqEvent, CqReadResult, CqStep};
use crate::constants::{
    CONTROL_PORT, DEFAULT_PORT, EAGAIN_ERROR, EAVAIL_ERROR, FI_THREAD_SAFE, LENGTH_BYTES,
};
use crate::error::FabricError;
use crate::exchange::{
    announced_len, control_port, frame, length_bytes, socket_address, ExchangeEvent,
    ExchangeInput, ExchangeState, ExchangeStep,
};
use crate::operation::{Delivered, Delivery, Operation};
use crate::setup::{endpoint_close_order, Resource, SetupStep};
use crate::signal::{
    recv_channel_carries, recv_channel_closed, recv_channel_ends, send_channel_carries,
    send_channel_closed, send_channel_ends, RecvOutcome, SendOutcome,
};
use crate::text::{
    decimal, decimal_is_a_numeral, is_numeral_of, is_signed_numeral_of, signed_decimal,
    signed_decimal_is_a_signed_numeral,
};
use tokio::sync::oneshot;
use vstd::bytes::{
    lemma_auto_spec_u64_to_from_le_bytes, spec_u64_from_le_bytes, spec_u64_to_le_bytes,
    spec_u64_to_le_bytes_to_open,
};
use vstd::prelude::*;

verus! {

/// What a reader of the control channel takes for the length of an address is the length that
/// was written, for every address that fits in memory.
pub proof fn length_reads_back(addr: Seq<u8>)
    requires
        addr.len() <= usize::MAX,
    ensures
        length_bytes(addr).len() == LENGTH_BYTES,
        announced_len(length_bytes(addr)) == addr.len(),
{
    lemma_auto_spec_u64_to_from_le_bytes();
    let len = addr.len() as u64;
    assert(spec_u64_from_le_bytes(spec_u64_to_le_bytes(len)) == len);
}

/// The number that eight bytes stand for, the least significant first.
pub open spec fn little_endian(bytes: Seq<u8>) -> int {
    bytes[0] + 0x100 * bytes[1] + 0x1_0000 * bytes[2] + 0x100_0000 * bytes[3] + 0x1_0000_0000
        * bytes[4] + 0x100_0000_0000 * bytes[5] + 0x1_0000_0000_0000 * bytes[6]
        + 0x100_0000_0000_0000 * bytes[7]
}

proof fn little_endian_of_u64(x: u64)
    ensures
        spec_u64_to_le_bytes(x).len() == 8,
        little_endian(spec_u64_to_le_bytes(x)) == x,
{
    spec_u64_to_le_bytes_to_open(x);
    assert(x & 0xff < 256 && (x >> 8) & 0xff < 256 && (x >> 16) & 0xff < 256 && (x >> 24) & 0xff
        < 256 && (x >> 32) & 0xff < 256 && (x >> 40) & 0xff < 256 && (x >> 48) & 0xff < 256 && (x
        >> 56) & 0xff < 256) by (bit_vector);
    assert(x == (x & 0xff) + 0x100 * ((x >> 8) & 0xff) + 0x1_0000 * ((x >> 16) & 0xff) + 0x100_0000
        * ((x >> 24) & 0xff) + 0x1_0000_0000 * ((x >> 32) & 0xff) + 0x100_0000_0000 * ((x >> 40)
        & 0xff) + 0x1_0000_0000_0000 * ((x >> 48) & 0xff) + 0x100_0000_0000_0000 * ((x >> 56)
        & 0xff)) by (bit_vector);
}

/// The length of an address travels in eight bytes that stand for it, the least significant
/// first, and eight bytes are taken for the number that they stand for.
pub proof fn lengths_travel_little_endian(addr: Seq<u8>, bytes: Seq<u8>)
    requires
        addr.len() <= usize::MAX,
        bytes.len() == 8,
    ensures
        length_bytes(addr).len() == 8,
        little_endian(length_bytes(addr)) == addr.len(),
        little_endian(bytes) <= usize::MAX ==> announced_len(bytes) == little_endian(bytes),
{
    lemma_auto_spec_u64_to_from_le_bytes();
    little_endian_of_u64(addr.len() as u64);
    let announced = spec_u64_from_le_bytes(bytes);
    assert(spec_u64_to_le_bytes(announced) == bytes);
    little_endian_of_u64(announced);
}

/// An address as it travels is its length, in eight bytes, and then each of its bytes.
pub proof fn frame_is_length_and_bytes(addr: Seq<u8>)
    requires
        addr.len() <= usize::MAX,
    ensures
        frame(addr).len() == 8 + addr.len(),
        little_endian(frame(addr).take(8)) == addr.len(),
        forall|i: int| 0 <= i < addr.len() ==> #[trigger] frame(addr)[8 + i] == addr[i],
{
    length_reads_back(addr);
    lengths_travel_little_endian(addr, length_bytes(addr));
    assert(frame(addr).take(8) =~= length_bytes(addr));
}

/// No address as it travels begins another one: whatever follows, the same bytes carry the same
/// address.
pub proof fn frames_delimit_themselves(a: Seq<u8>, after_a: Seq<u8>, b: Seq<u8>, after_b: Seq<u8>)
    requires
        a.len() <= usize::MAX,
        b.len() <= usize::MAX,
        frame(a) + after_a == frame(b) + after_b,
    ensures
        a == b,
        after_a == after_b,
{
    length_reads_back(a);
    length_reads_back(b);
    let stream = frame(a) + after_a;
    let header = LENGTH_BYTES as int;
    assert(stream.take(header) =~= length_bytes(a));
    assert((frame(b) + after_b).take(header) =~= length_bytes(b));
    assert(a.len() == b.len());
    let end = header + a.len();
    assert(stream.subrange(header, end) =~= a);
    assert((frame(b) + after_b).subrange(header, end) =~= b);
    assert(stream.skip(end) =~= after_a);
    assert((frame(b) + after_b).skip(end) =~= after_b);
}

/// A client and a server that are connected end up with each other's address. The client can
/// write its whole address before it needs anything from the server; the server then has all it
/// needs to answer, and the client all it needs to finish.
pub proof fn exchange_swaps_addresses(client: Seq<u8>, server: Seq<u8>)
    requires
        client.len() <= usize::MAX,
        server.len() <= usize::MAX,
    ensures
        ({
            let c0 = ExchangeState::start(client, true);
            let c1 = c0.next(ExchangeInput::Wrote)->Ok_0;
            let c2 = c1.next(ExchangeInput::Wrote)->Ok_0;
            let s0 = ExchangeState::start(server, false);
            let s1 = s0.next(ExchangeInput::Read(c0.outgoing()))->Ok_0;
            let s2 = s1.next(ExchangeInput::Read(c1.outgoing()))->Ok_0;
            let s3 = s2.next(ExchangeInput::Wrote)->Ok_0;
            let s4 = s3.next(ExchangeInput::Wrote)->Ok_0;
            let c3 = c2.next(ExchangeInput::Read(s2.outgoing()))->Ok_0;
            let c4 = c3.next(ExchangeInput::Read(s3.outgoing()))->Ok_0;
            &&& c0.next(ExchangeInput::Wrote) is Ok
            &&& c1.next(ExchangeInput::Wrote) is Ok
            &&& s0.next(ExchangeInput::Read(c0.outgoing())) is Ok
            &&& s1.next(ExchangeInput::Read(c1.outgoing())) is Ok
            &&& s2.next(ExchangeInput::Wrote) is Ok
            &&& s3.next(ExchangeInput::Wrote) is Ok
            &&& c2.next(ExchangeInput::Read(s2.outgoing())) is Ok
            &&& c3.next(ExchangeInput::Read(s3.outgoing())) is Ok
            &&& s0.wanted() == c0.outgoing().len()
            &&& s1.wanted() == c1.outgoing().len()
            &&& c2.wanted() == s2.outgoing().len()
            &&& c3.wanted() == s3.outgoing().len()
            &&& c0.outgoing() + c1.outgoing() == frame(client)
            &&& s2.outgoing() + s3.outgoing() == frame(server)
            &&& s4.step is Done && s4.peer == Some(client)
            &&& c4.step is Done && c4.peer == Some(server)
        }),
{
    length_reads_back(client);
    length_reads_back(server);
}

/// An exchange begins with its own address, without the peer's, and with a write on the side of
/// the client and a read on that of the server.
pub proof fn exchange_begins_with_its_address(local: Seq<u8>, is_client: bool)
    ensures
        ({
            let start = ExchangeState::start(local, is_client);
            &&& start.local == local
            &&& start.is_client == is_client
            &&& start.peer is None
            &&& is_client ==> start.step is WriteLength
            &&& !is_client ==> start.step is ReadLength
        }),
{
}

/// A step that reads accepts as many bytes as it asks for and no other number of them: eight for
/// a length, and for an address the length that was announced. A step that does not read asks
/// for nothing.
pub proof fn exchange_reads_what_it_asks_for(state: ExchangeState, bytes: Seq<u8>)
    ensures
        state.step is ReadLength ==> state.wanted() == 8,
        state.step matches ExchangeStep::ReadPayload(len) ==> state.wanted() == len,
        state.step is ReadLength || state.step is ReadPayload ==> (state.next(
            ExchangeInput::Read(bytes),
        ) is Ok <==> bytes.len() == state.wanted()),
        !(state.step is ReadLength || state.step is ReadPayload) ==> state.wanted() == 0,
{
}

/// The eight bytes of a length decide how long an address is read next, and nothing else.
pub proof fn exchange_goes_by_the_announced_length(state: ExchangeState, bytes: Seq<u8>)
    requires
        state.step is ReadLength,
        bytes.len() == 8,
        little_endian(bytes) <= usize::MAX,
    ensures
        state.next(ExchangeInput::Read(bytes)) matches Ok(after) && after.local == state.local
            && after.is_client == state.is_client && after.peer == state.peer && (
        after.step matches ExchangeStep::ReadPayload(len) && len == little_endian(bytes)),
{
    lengths_travel_little_endian(seq![], bytes);
}

/// The bytes that are read for an address, all of them and in their order, are the peer's
/// address from then on. That ends the exchange of a client, and a server answers.
pub proof fn exchange_takes_what_it_reads_for_the_peer(
    state: ExchangeState,
    len: usize,
    bytes: Seq<u8>,
)
    requires
        state.step == ExchangeStep::ReadPayload(len),
        bytes.len() == len,
    ensures
        state.next(ExchangeInput::Read(bytes)) matches Ok(after) && after.peer == Some(bytes)
            && after.local == state.local && after.is_client == state.is_client && (
        if state.is_client {
            after.step is Done
        } else {
            after.step is WriteLength
        }),
{
}

/// What an exchange writes is first the length of its own address and then that address, byte
/// for byte; where it has nothing to write it writes nothing.
pub proof fn exchange_writes_its_length_and_bytes(state: ExchangeState)
    requires
        state.local.len() <= usize::MAX,
    ensures
        state.step is WriteLength ==> state.outgoing().len() == 8 && little_endian(state.outgoing())
            == state.local.len(),
        state.step is WritePayload ==> state.outgoing() == state.local,
        !(state.step is WriteLength || state.step is WritePayload) ==> state.outgoing().len() == 0,
{
    length_reads_back(state.local);
    lengths_travel_little_endian(state.local, length_bytes(state.local));
}

/// A write that is done leads on: from the length to the address, from there to the peer's length
/// on the side of the client and to the end on that of the server. The addresses stay.
pub proof fn exchange_goes_on_after_a_write(state: ExchangeState)
    requires
        state.step is WriteLength || state.step is WritePayload,
    ensures
        state.next(ExchangeInput::Wrote) matches Ok(after) && after.local == state.local
            && after.is_client == state.is_client && after.peer == state.peer && (
        if state.step is WriteLength {
            after.step is WritePayload
        } else if state.is_client {
            after.step is ReadLength
        } else {
            after.step is Done
        }),
{
}

/// An exchange fails exactly when its step fails or a read brings another number of bytes than it
/// asked for, and the error names the step.
pub proof fn exchange_fails_by_its_step(state: ExchangeState, input: ExchangeInput)
    ensures
        ({
            let failed_write = input is WriteFailed;
            let failed_read = input is ReadFailed || (input matches ExchangeInput::Read(bytes)
                && bytes.len() != state.wanted());
            let writes = state.step is WriteLength || state.step is WritePayload;
            let reads = state.step is ReadLength || state.step is ReadPayload;
            &&& state.next(input) is Err <==> (writes && failed_write) || (reads && failed_read)
            &&& state.next(input) matches Err(error) ==> match state.step {
                ExchangeStep::WriteLength => error is SendLength,
                ExchangeStep::WritePayload => error is SendPayload,
                ExchangeStep::ReadLength => error is ReadLength,
                ExchangeStep::ReadPayload(_) => error is ReadPayload,
                ExchangeStep::Done => false,
            }
        }),
{
}

/// What is no answer to the step of an exchange leaves it as it is.
pub proof fn exchange_ignores_what_is_no_answer(state: ExchangeState, input: ExchangeInput)
    requires
        state.step is WriteLength || state.step is WritePayload ==> input is Read
            || input is ReadFailed,
        state.step is ReadLength || state.step is ReadPayload ==> input is Wrote
            || input is WriteFailed,
    ensures
        state.next(input) == Ok::<ExchangeState, FabricError>(state),
{
}

/// An exchange sees what came of its step as it is: the bytes that were read, all of them.
pub proof fn events_are_seen_as_they_are(event: ExchangeEvent)
    ensures
        event matches ExchangeEvent::Read(bytes) ==> event@ == ExchangeInput::Read(bytes@),
        event is Wrote ==> event@ is Wrote,
        event is WriteFailed ==> event@ is WriteFailed,
        event is ReadFailed ==> event@ is ReadFailed,
{
}

/// A socket address is the host, a colon and the numeral of the port, from which the port reads
/// back, whatever port it is.
pub proof fn socket_address_names_host_and_port(host: Seq<char>, port: u16)
    ensures
        ({
            let addr = socket_address(host, port);
            &&& addr.len() > host.len() + 1
            &&& addr.take(host.len() as int) == host
            &&& addr[host.len() as int] == ':'
            &&& is_numeral_of(addr.skip(host.len() as int + 1), port as nat)
        }),
{
    let addr = socket_address(host, port);
    let numeral = decimal(port as nat);
    decimal_is_a_numeral(port as nat, port as nat);
    assert(addr.take(host.len() as int) =~= host);
    assert(addr.skip(host.len() as int + 1) =~= numeral);
}

/// Different ports of one host have different socket addresses, and so have different hosts with
/// one port.
pub proof fn socket_addresses_differ(host: Seq<char>, port: u16, other: Seq<char>, other_port: u16)
    ensures
        port != other_port ==> socket_address(host, port) != socket_address(host, other_port),
        host != other ==> socket_address(host, port) != socket_address(other, port),
{
    socket_address_names_host_and_port(host, port);
    socket_address_names_host_and_port(host, other_port);
    socket_address_names_host_and_port(other, port);
    if socket_address(host, port) == socket_address(other, port) {
        let numeral = decimal(port as nat);
        assert(socket_address(host, port).len() == host.len() + 1 + numeral.len());
        assert(socket_address(other, port).len() == other.len() + 1 + numeral.len());
    }
}

/// A port that is given is the port that is used, whichever it is; the default is for where none
/// is given.
pub proof fn given_port_is_used(port: u16)
    ensures
        control_port(Some(port)) == port,
        control_port(None) == CONTROL_PORT,
{
}

/// An exchange keeps knowing the peer exactly when it has read the peer's address, and never
/// mixes up whose exchange it is.
pub proof fn exchange_stays_valid(state: ExchangeState, input: ExchangeInput)
    requires
        state.valid(),
        state.next(input) is Ok,
    ensures
        state.next(input)->Ok_0.valid(),
        state.next(input)->Ok_0.local == state.local,
        state.next(input)->Ok_0.is_client == state.is_client,
{
}

/// Where an exchange is after `inputs`, or the first error that one of them caused.
pub open spec fn exchange_after(
    start: ExchangeState,
    inputs: Seq<ExchangeInput>,
) -> Result<ExchangeState, FabricError>
    decreases inputs.len(),
{
    if inputs.len() == 0 {
        Ok(start)
    } else {
        match exchange_after(start, inputs.drop_last()) {
            Ok(state) => state.next(inputs.last()),
            Err(error) => Err(error),
        }
    }
}

/// All the bytes that an exchange has written after `inputs`.
pub open spec fn exchange_written(start: ExchangeState, inputs: Seq<ExchangeInput>) -> Seq<u8>
    decreases inputs.len(),
{
    if inputs.len() == 0 {
        seq![]
    } else {
        let before = exchange_written(start, inputs.drop_last());
        match exchange_after(start, inputs.drop_last()) {
            Ok(state) => if inputs.last() is Wrote {
                before + state.outgoing()
            } else {
                before
            },
            Err(_) => before,
        }
    }
}

/// The part of its address, as it travels, that an exchange has written by the time it is in
/// `state`.
pub open spec fn written_by(state: ExchangeState) -> Seq<u8> {
    match state.step {
        ExchangeStep::WriteLength => seq![],
        ExchangeStep::WritePayload => length_bytes(state.local),
        ExchangeStep::ReadLength | ExchangeStep::ReadPayload(_) => if state.is_client {
            frame(state.local)
        } else {
            seq![]
        },
        ExchangeStep::Done => frame(state.local),
    }
}

/// Whatever events an exchange meets, what it has written so far is the part of its own address
/// that its step calls for. An exchange that is over has written its address once, whole, and
/// knows the peer's; a client that reads has written all of it, a server that reads nothing.
pub proof fn exchange_writes_its_address(
    local: Seq<u8>,
    is_client: bool,
    inputs: Seq<ExchangeInput>,
)
    ensures
        exchange_after(ExchangeState::start(local, is_client), inputs) matches Ok(state) ==> {
            &&& state.valid()
            &&& state.local == local
            &&& state.is_client == is_client
            &&& exchange_written(ExchangeState::start(local, is_client), inputs) == written_by(
                state,
            )
        },
    decreases inputs.len(),
{
    let start = ExchangeState::start(local, is_client);
    if inputs.len() > 0 {
        exchange_writes_its_address(local, is_client, inputs.drop_last());
        if let Ok(before) = exchange_after(start, inputs.drop_last()) {
            if let Ok(after) = before.next(inputs.last()) {
                exchange_stays_valid(before, inputs.last());
                assert(exchange_written(start, inputs) =~= written_by(after));
            }
        }
    }
}

/// An operation that is prepared and then given up, be it refused, completed or failed, leaves the
/// operations under way as they were.
pub proof fn ended_operation_leaves_no_trace(
    before: Map<usize, Operation>,
    context: usize,
    operation: Operation,
)
    requires
        !before.contains_key(context),
    ensures
        before.insert(context, operation).remove(context) == before,
{
    assert(before.insert(context, operation).remove(context) =~= before);
}

/// A send that was prepared and has completed is answered to whoever prepared it: what is
/// announced is the very buffer that was handed over, and it goes into the channel whose
/// receiver came with the request.
pub proof fn completed_send_is_answered(
    operation: Operation,
    buffer: Vec<u8>,
    rx: oneshot::Receiver<SendOutcome>,
    len: usize,
)
    requires
        operation matches Operation::Send { completion, buffer: kept } && kept == buffer
            && send_channel_ends(completion, rx),
    ensures
        operation.delivery(len) matches Delivery::Send { completion, outcome } && outcome == Ok::<
            Vec<u8>,
            FabricError,
        >(buffer) && send_channel_ends(completion, rx),
{
}

/// A receive that was prepared and has completed is answered to whoever prepared it: what is
/// announced is the loan of the very buffer that was handed over and the number of bytes that
/// arrived, and it goes into the channel whose receiver came with the request.
pub proof fn completed_receive_is_answered(
    operation: Operation,
    buffer: Vec<u8>,
    rx: oneshot::Receiver<RecvOutcome>,
    len: usize,
)
    requires
        operation matches Operation::Recv { completion, loan } && loan.lends(buffer)
            && recv_channel_ends(completion, rx),
    ensures
        operation.delivery(len) matches Delivery::Recv { completion, outcome }
            && recv_channel_ends(completion, rx) && (outcome matches Ok((loan, arrived))
            && loan.lends(buffer) && arrived == len),
{
}

/// A send that was prepared and has failed is answered to whoever prepared it: what is announced
/// is the error, and it goes into the channel whose receiver came with the request.
pub proof fn failed_send_is_answered(
    operation: Operation,
    rx: oneshot::Receiver<SendOutcome>,
    err: i32,
)
    requires
        operation matches Operation::Send { completion, .. } && send_channel_ends(completion, rx),
    ensures
        operation.failed(err) matches Delivery::Send { completion, outcome } && outcome == Err::<
            Vec<u8>,
            FabricError,
        >(FabricError::Completion(err)) && send_channel_ends(completion, rx),
{
}

/// A receive that was prepared and has failed is answered to whoever prepared it: what is
/// announced is the error, and it goes into the channel whose receiver came with the request.
pub proof fn failed_receive_is_answered(
    operation: Operation,
    rx: oneshot::Receiver<RecvOutcome>,
    err: i32,
)
    requires
        operation matches Operation::Recv { completion, .. } && recv_channel_ends(completion, rx),
    ensures
        operation.failed(err) matches Delivery::Recv { completion, outcome } && outcome == Err::<
            (LoanedBuffer, usize),
            FabricError,
        >(FabricError::Completion(err)) && recv_channel_ends(completion, rx),
{
}

/// What becomes of an announcement: it went into the channel of its own awaiter as it is, or that
/// awaiter had closed its end and the announcement is handed back as it is.
pub proof fn announcement_is_delivered_or_handed_back(delivery: Delivery, delivered: Delivered)
    requires
        delivery.may_become(delivered),
    ensures
        delivery matches Delivery::Send { completion, outcome } ==> match delivered {
            Delivered::Accepted => send_channel_carries(completion, outcome),
            Delivered::SendAbandoned(lost) => lost == outcome && send_channel_closed(completion),
            Delivered::RecvAbandoned(_) => false,
        },
        delivery matches Delivery::Recv { completion, outcome } ==> match delivered {
            Delivered::Accepted => recv_channel_carries(completion, outcome),
            Delivered::SendAbandoned(_) => false,
            Delivered::RecvAbandoned(lost) => lost == outcome && recv_channel_closed(completion),
        },
{
}

/// An operation that is over hands back what it held, through its own channel: a send its buffer,
/// a receive its loan with the number of bytes transferred. One that failed hands on the error.
pub proof fn operation_hands_back_what_it_held(operation: Operation, len: usize, err: i32)
    ensures
        operation matches Operation::Send { completion, buffer } ==> operation.delivery(len) == (
        Delivery::Send { completion, outcome: Ok(buffer) }) && operation.failed(err) == (
        Delivery::Send { completion, outcome: Err(FabricError::Completion(err)) }),
        operation matches Operation::Recv { completion, loan } ==> operation.delivery(len) == (
        Delivery::Recv { completion, outcome: Ok((loan, len)) }) && operation.failed(err) == (
        Delivery::Recv { completion, outcome: Err(FabricError::Completion(err)) }),
{
}

/// The awaiter of a send gets the buffer that the operation held, and the awaiter of a receive
/// the loan that it held with the number of bytes that the completion reports, whatever number
/// that is. Each is told through the channel of its own operation.
pub proof fn completion_is_told_as_reported(
    woken: bool,
    ret: isize,
    entry: CqEntry,
    operation: Operation,
    delivered: Delivered,
)
    requires
        ret > 0,
        ({
            let step = CqStep::ReadEntry { woken };
            step.completed(CqEvent::Read { ret, entry }) matches Some(found) ==> operation.delivery(
                found.len,
            ).may_become(delivered)
        }),
        delivered is Accepted,
    ensures
        operation matches Operation::Send { completion, buffer } ==> send_channel_carries(
            completion,
            Ok(buffer),
        ),
        operation matches Operation::Recv { completion, loan } ==> recv_channel_carries(
            completion,
            Ok((loan, entry.len)),
        ),
{
}

/// The awaiter of an operation that failed is told the error that the error entry reports,
/// through the channel of its own operation.
pub proof fn failure_is_told_as_reported(
    woken: bool,
    ret: isize,
    context: usize,
    err: i32,
    operation: Operation,
    delivered: Delivered,
)
    requires
        ret > 0,
        ({
            let step = CqStep::ReadError { woken };
            step.failed(CqEvent::ErrorRead { ret, context, err }) matches Some((_, found))
                ==> operation.failed(found).may_become(delivered)
        }),
        delivered is Accepted,
    ensures
        operation matches Operation::Send { completion, .. } ==> send_channel_carries(
            completion,
            Err(FabricError::Completion(err)),
        ),
        operation matches Operation::Recv { completion, .. } ==> recv_channel_carries(
            completion,
            Err(FabricError::Completion(err)),
        ),
{
}

/// An awaiter that has not closed its end is told: no announcement is left over.
pub proof fn open_awaiter_is_told(delivery: Delivery, delivered: Delivered)
    requires
        delivery.may_become(delivered),
        delivery matches Delivery::Send { completion, .. } ==> !send_channel_closed(completion),
        delivery matches Delivery::Recv { completion, .. } ==> !recv_channel_closed(completion),
    ensures
        delivered is Accepted,
        delivery.told(),
{
}

/// Completions of different operations do not get in each other's way: they may come in any
/// order, and each finds its own operation untouched.
pub proof fn completions_are_independent(
    operations: Map<usize, Operation>,
    first: CqEntry,
    second: CqEntry,
)
    requires
        first.context != second.context,
    ensures
        operations.remove(first.context).remove(second.context) == operations.remove(
            second.context,
        ).remove(first.context),
        operations.remove(first.context).contains_key(second.context)
            == operations.contains_key(second.context),
        operations.contains_key(second.context) ==> operations.remove(
            first.context,
        )[second.context] == operations[second.context],
{
    assert(operations.remove(first.context).remove(second.context) =~= operations.remove(
        second.context,
    ).remove(first.context));
}

/// What happens to the operations of an endpoint.
pub enum OperationEvent {
    /// An operation is prepared under a context.
    Prepared(usize, Operation),
    /// The operation under a context is refused by the fabric, or reported as completed or failed.
    Ended(usize),
}

/// The operations under way after `trace`, none having been under way before.
pub open spec fn under_way_after(trace: Seq<OperationEvent>) -> Map<usize, Operation>
    decreases trace.len(),
{
    if trace.len() == 0 {
        Map::empty()
    } else {
        match trace.last() {
            OperationEvent::Prepared(context, operation) => under_way_after(
                trace.drop_last(),
            ).insert(context, operation),
            OperationEvent::Ended(context) => under_way_after(trace.drop_last()).remove(context),
        }
    }
}

/// Whether every operation of `trace` was prepared under a context that was free.
pub open spec fn contexts_are_fresh(trace: Seq<OperationEvent>) -> bool
    decreases trace.len(),
{
    trace.len() > 0 ==> {
        &&& contexts_are_fresh(trace.drop_last())
        &&& trace.last() matches OperationEvent::Prepared(context, _) ==> !under_way_after(
            trace.drop_last(),
        ).contains_key(context)
    }
}

/// How many operations were prepared under `context`.
pub open spec fn times_prepared(trace: Seq<OperationEvent>, context: usize) -> nat
    decreases trace.len(),
{
    if trace.len() == 0 {
        0
    } else {
        times_prepared(trace.drop_last(), context) + (if trace.last() matches
            OperationEvent::Prepared(c, _) && c == context {
            1nat
        } else {
            0nat
        })
    }
}

/// How many operations were given up under `context`.
pub open spec fn times_given_up(trace: Seq<OperationEvent>, context: usize) -> nat
    decreases trace.len(),
{
    if trace.len() == 0 {
        0
    } else {
        times_given_up(trace.drop_last(), context) + (if trace.last() matches
            OperationEvent::Ended(c) && c == context && under_way_after(
            trace.drop_last(),
        ).contains_key(context) {
            1nat
        } else {
            0nat
        })
    }
}

/// Every operation is given up at most once, and those that have not been given up are exactly
/// those that the endpoint still owns, whatever happens in whatever order.
pub proof fn operations_are_given_up_once(trace: Seq<OperationEvent>, context: usize)
    requires
        contexts_are_fresh(trace),
    ensures
        times_prepared(trace, context) == times_given_up(trace, context) + (if under_way_after(
            trace,
        ).contains_key(context) {
            1nat
        } else {
            0nat
        }),
    decreases trace.len(),
{
    if trace.len() > 0 {
        operations_are_given_up_once(trace.drop_last(), context);
    }
}

/// A read that returns a positive number brings the very entry that it left behind to light, its
/// context and its length alike, and the reading goes on. Any other read brings none.
pub proof fn read_hands_its_entry_on(woken: bool, ret: isize, entry: CqEntry)
    ensures
        ({
            let step = CqStep::ReadEntry { woken };
            let read = CqEvent::Read { ret, entry };
            &&& ret > 0 ==> step.completed(read) == Some(entry) && step.next(read) == step
            &&& ret <= 0 ==> step.completed(read) is None
            &&& step.failed(read) is None
        }),
{
}

/// A read of the error queue that returns a positive number brings the very context and error
/// that it left behind to light, and the reading goes on. Any other brings none.
pub proof fn error_read_hands_its_entry_on(woken: bool, ret: isize, context: usize, err: i32)
    ensures
        ({
            let step = CqStep::ReadError { woken };
            let read = CqEvent::ErrorRead { ret, context, err };
            &&& ret > 0 ==> step.failed(read) == Some((context, err)) && step.next(read)
                == (CqStep::ReadEntry { woken })
            &&& ret <= 0 ==> step.failed(read) is None
            &&& step.completed(read) is None
        }),
{
}

/// Nothing but a read that was asked for brings the end of an operation to light.
pub proof fn only_reads_end_operations(step: CqStep, event: CqEvent)
    ensures
        step.completed(event) is Some ==> step is ReadEntry && (event matches CqEvent::Read {
            ret,
            entry,
        } && ret > 0 && step.completed(event) == Some(entry)),
        step.failed(event) is Some ==> step is ReadError && (event matches CqEvent::ErrorRead {
            ret,
            context,
            err,
        } && ret > 0 && step.failed(event) == Some((context, err))),
{
}

/// What a read comes to: a positive number means that the entry counts, and it counts as it is;
/// the codes for an empty queue and for a failed operation are told apart from all others.
pub proof fn read_comes_to_its_code(ret: isize, entry: CqEntry)
    ensures
        ret > 0 <==> CqReadResult::of(ret, entry) is CqReadSuccess,
        CqReadResult::of(ret, entry) matches CqReadResult::CqReadSuccess(found) ==> found.context
            == entry.context && found.len == entry.len,
        ret == EAGAIN_ERROR == -11 <==> CqReadResult::of(ret, entry) is CqErrorAgain,
        ret == EAVAIL_ERROR == -259 <==> CqReadResult::of(ret, entry) is CqErrorAvailable,
{
}

/// Whether `event` is what may come of `step`.
pub open spec fn is_answer(step: CqStep, event: CqEvent) -> bool {
    match step {
        CqStep::TryWait => event is TryWaited,
        CqStep::AwaitReadable => event is Readable || event is WaitFailed,
        CqStep::ReadEntry { .. } => event is Read,
        CqStep::ReadError { .. } => event is ErrorRead,
        CqStep::ClearReady => event is Cleared,
        CqStep::Failed => false,
    }
}

/// The reader waits when `fi_trywait` returns zero and reads at once for any other code, it reads
/// once the descriptor is readable and gives up when the wait fails, and it asks again once the
/// descriptor is marked.
pub proof fn reader_waits_and_reads(ret: i32)
    ensures
        ret == 0 ==> CqStep::TryWait.next(CqEvent::TryWaited(ret)) is AwaitReadable,
        ret != 0 ==> CqStep::TryWait.next(CqEvent::TryWaited(ret)) == (CqStep::ReadEntry {
            woken: false,
        }),
        CqStep::AwaitReadable.next(CqEvent::Readable) == (CqStep::ReadEntry { woken: true }),
        CqStep::AwaitReadable.next(CqEvent::WaitFailed) is Failed,
        CqStep::ClearReady.next(CqEvent::Cleared) is TryWait,
{
}

/// A read that finds nothing stops the reading: a descriptor that was waited on is marked first,
/// otherwise `fi_trywait` is asked again. So does an error entry that cannot be read. A failed
/// operation at the head of the queue is looked up, and the reader keeps in mind whether it was
/// woken.
pub proof fn reader_stops_when_nothing_is_left(
    woken: bool,
    ret: isize,
    entry: CqEntry,
    context: usize,
    err: i32,
)
    requires
        ret <= 0,
    ensures
        ({
            let after_read = CqStep::ReadEntry { woken }.next(CqEvent::Read { ret, entry });
            let after_error = CqStep::ReadError { woken }.next(
                CqEvent::ErrorRead { ret, context, err },
            );
            &&& ret == EAVAIL_ERROR ==> after_read == (CqStep::ReadError { woken })
            &&& ret != EAVAIL_ERROR && woken ==> after_read is ClearReady
            &&& ret != EAVAIL_ERROR && !woken ==> after_read is TryWait
            &&& woken ==> after_error is ClearReady
            &&& !woken ==> after_error is TryWait
        }),
{
}

/// What is no answer to the step of the reader leaves the reader and every operation as they are.
pub proof fn reader_ignores_what_is_no_answer(step: CqStep, event: CqEvent)
    requires
        !is_answer(step, event),
    ensures
        step.next(event) == step,
        step.completed(event) is None,
        step.failed(event) is None,
{
}

/// The reader begins to wait on the descriptor only when `fi_trywait` has just allowed it.
pub proof fn waits_only_when_allowed(step: CqStep, event: CqEvent)
    requires
        step.next(event) is AwaitReadable,
        !(step is AwaitReadable),
    ensures
        step is TryWait,
        event == CqEvent::TryWaited(0),
{
}

/// After a wait, the reader comes back to `fi_trywait` only by way of marking the descriptor,
/// and it does so only once a read has found nothing.
pub proof fn marks_the_descriptor_after_a_wait(step: CqStep, event: CqEvent)
    ensures
        step.next(event) is TryWait && !(step is TryWait) ==> step is ClearReady || step
            == (CqStep::ReadEntry { woken: false }) || step == (CqStep::ReadError { woken: false }),
        step.next(event) is ClearReady && !(step is ClearReady) ==> {
            ||| step == (CqStep::ReadEntry { woken: true }) && (event matches CqEvent::Read {
                ret,
                ..
            } && ret <= 0)
            ||| step == (CqStep::ReadError { woken: true }) && (event matches CqEvent::ErrorRead {
                ret,
                ..
            } && ret <= 0)
        },
        step == (CqStep::ReadEntry { woken: true }) || step == (CqStep::ReadError { woken: true })
            ==> step.next(event) == (CqStep::ReadEntry { woken: true }) || step.next(event) == (
        CqStep::ReadError { woken: true }) || step.next(event) is ClearReady,
{
}

/// A failed operation that heads the queue is looked up and ended with its error, and then the
/// reading goes on. Where its error cannot be read, the reading stops and nothing is ended.
pub proof fn failure_is_looked_up(
    woken: bool,
    entry: CqEntry,
    ret: isize,
    context: usize,
    err: i32,
)
    ensures
        ({
            let read = CqEvent::Read { ret: EAVAIL_ERROR, entry };
            let looked_up = CqEvent::ErrorRead { ret, context, err };
            let reading = CqStep::ReadEntry { woken };
            let failing = CqStep::ReadError { woken };
            &&& reading.next(read) == failing
            &&& reading.completed(read) is None && reading.failed(read) is None
            &&& failing.completed(looked_up) is None
            &&& ret > 0 ==> failing.next(looked_up) == reading && failing.failed(looked_up) == Some(
                (context, err),
            )
            &&& ret <= 0 ==> failing.next(looked_up) == CqStep::after_reading(woken)
                && failing.failed(looked_up) is None
        }),
{
}

/// The context of the operation that `step` ends when `event` comes of it.
pub open spec fn ended(step: CqStep, event: CqEvent) -> Option<usize> {
    match (step.completed(event), step.failed(event)) {
        (Some(entry), _) => Some(entry.context),
        (None, Some((context, _))) => Some(context),
        (None, None) => None,
    }
}

/// The step of the reader after `events`.
pub open spec fn step_after(step: CqStep, events: Seq<CqEvent>) -> CqStep
    decreases events.len(),
{
    if events.len() == 0 {
        step
    } else {
        step_after(step, events.drop_last()).next(events.last())
    }
}

/// The operations under way after `events`.
pub open spec fn operations_after(
    step: CqStep,
    operations: Map<usize, Operation>,
    events: Seq<CqEvent>,
) -> Map<usize, Operation>
    decreases events.len(),
{
    if events.len() == 0 {
        operations
    } else {
        let before = operations_after(step, operations, events.drop_last());
        match ended(step_after(step, events.drop_last()), events.last()) {
            Some(context) => before.remove(context),
            None => before,
        }
    }
}

/// The context of the operation that the event at `i` ends.
#[verifier::opaque]
pub open spec fn ended_at(step: CqStep, events: Seq<CqEvent>, i: int) -> Option<usize> {
    ended(step_after(step, events.take(i)), events[i])
}

/// Whether one of `events` ends the operation under `context`.
pub open spec fn is_ended_by(step: CqStep, events: Seq<CqEvent>, context: usize) -> bool {
    exists|i: int| 0 <= i < events.len() && #[trigger] ended_at(step, events, i) == Some(context)
}

proof fn ended_by_one_more(step: CqStep, events: Seq<CqEvent>, context: usize)
    requires
        events.len() > 0,
    ensures
        is_ended_by(step, events, context) <==> is_ended_by(step, events.drop_last(), context)
            || ended_at(step, events, events.len() - 1) == Some(context),
{
    let fewer = events.drop_last();
    assert forall|i: int| 0 <= i < fewer.len() implies #[trigger] ended_at(step, events, i)
        == ended_at(step, fewer, i) by {
        reveal(ended_at);
        assert(events.take(i) =~= fewer.take(i));
    }
    if is_ended_by(step, fewer, context) {
        let i = choose|i: int|
            0 <= i < fewer.len() && #[trigger] ended_at(step, fewer, i) == Some(context);
        assert(ended_at(step, events, i) == Some(context));
    }
}

/// Whatever the reader meets, it ends exactly the operations that completions and error entries
/// report, in whatever order they come; every other operation stays as it is.
pub proof fn reader_ends_what_is_reported(
    step: CqStep,
    operations: Map<usize, Operation>,
    events: Seq<CqEvent>,
    context: usize,
)
    ensures
        operations_after(step, operations, events).contains_key(context) <==> (
        operations.contains_key(context) && !is_ended_by(step, events, context)),
        operations_after(step, operations, events).contains_key(context) ==> operations_after(
            step,
            operations,
            events,
        )[context] == operations[context],
    decreases events.len(),
{
    if events.len() > 0 {
        let fewer = events.drop_last();
        reader_ends_what_is_reported(step, operations, fewer, context);
        ended_by_one_more(step, events, context);
        assert(ended_at(step, events, events.len() - 1) == ended(
            step_after(step, fewer),
            events.last(),
        )) by {
            reveal(ended_at);
            assert(events.take(events.len() - 1) =~= fewer);
        }
    }
}

/// As long as reads succeed the reader goes on reading, each of them ending the operation that
/// it reports. A read that finds the queue empty or unreadable stops it, and ends none.
pub proof fn reads_until_nothing_is_left(woken: bool, reads: Seq<CqEvent>, last: CqEvent)
    requires
        forall|i: int|
            0 <= i < reads.len() ==> (#[trigger] reads[i] matches CqEvent::Read { ret, .. } && ret
                > 0),
        last matches CqEvent::Read { ret, .. } && ret <= 0 && ret != EAVAIL_ERROR,
    ensures
        ({
            let step = CqStep::ReadEntry { woken };
            &&& step_after(step, reads) == step
            &&& forall|i: int|
                0 <= i < reads.len() ==> (#[trigger] reads[i] matches CqEvent::Read { entry, .. }
                    && ended(step, reads[i]) == Some(entry.context))
            &&& step_after(step, reads.push(last)) == CqStep::after_reading(woken)
            &&& ended(step, last) is None
        }),
    decreases reads.len(),
{
    if reads.len() > 0 {
        let fewer = reads.drop_last();
        assert forall|i: int| 0 <= i < fewer.len() implies (#[trigger] fewer[i] matches
            CqEvent::Read { ret, .. } && ret > 0) by {
            assert(fewer[i] == reads[i]);
        }
        reads_until_nothing_is_left(woken, fewer, last);
        assert(reads.last() == reads[reads.len() - 1]);
    }
    assert(reads.push(last).drop_last() =~= reads);
}

/// The calls that bring an endpoint up, in their order.
pub open spec fn setup_calls() -> Seq<SetupStep> {
    seq![
        SetupStep::OpenFabric,
        SetupStep::OpenDomain,
        SetupStep::OpenEndpoint,
        SetupStep::OpenCompletionQueue,
        SetupStep::OpenAddressVector,
        SetupStep::BindCompletionQueue,
        SetupStep::BindAddressVector,
        SetupStep::Enable,
    ]
}

/// The failure of each call is reported as that of this call, with the code that it returned,
/// whatever code that is.
pub proof fn failed_call_is_reported_with_its_code(ret: i32)
    ensures
        SetupStep::OpenFabric.error(ret) == FabricError::Fabric(ret),
        SetupStep::OpenDomain.error(ret) == FabricError::Domain(ret),
        SetupStep::OpenEndpoint.error(ret) == FabricError::Endpoint(ret),
        SetupStep::OpenCompletionQueue.error(ret) == FabricError::CqOpen(ret),
        SetupStep::OpenAddressVector.error(ret) == FabricError::AvOpen(ret),
        SetupStep::BindCompletionQueue.error(ret) == FabricError::BindCq(ret),
        SetupStep::BindAddressVector.error(ret) == FabricError::BindAv(ret),
        SetupStep::Enable.error(ret) == FabricError::Enable(ret),
{
}

/// When a call of the setup is made, exactly those objects are open that an earlier call has
/// opened: each of the first five calls opens one, in the order of `opened`, and the others none.
pub proof fn earlier_calls_have_opened_what_is_open(at: int, opened: Seq<Resource>)
    requires
        0 <= at < setup_calls().len(),
        opened == seq![
            Resource::Fabric,
            Resource::Domain,
            Resource::Endpoint,
            Resource::CompletionQueue,
            Resource::AddressVector,
        ],
    ensures
        setup_calls()[at].opens() == (if at < opened.len() {
            Some(opened[at])
        } else {
            None
        }),
        setup_calls()[at].open_before() == opened.take(
            if at < opened.len() {
                at
            } else {
                opened.len() as int
            },
        ),
{
    assert(setup_calls()[at].open_before() =~= opened.take(
        if at < opened.len() {
            at
        } else {
            opened.len() as int
        },
    ));
}

/// What comes of a setup that is at `step` when the calls from there on return `rets`: `None`
/// while there are calls left to make.
pub open spec fn setup_result(step: SetupStep, rets: Seq<i32>) -> Option<Result<(), FabricError>>
    decreases rets.len(),
{
    if rets.len() == 0 {
        None
    } else if rets.first() != 0 {
        Some(Err(step.error(rets.first())))
    } else {
        match step.next() {
            Some(next) => setup_result(next, rets.drop_first()),
            None => Some(Ok(())),
        }
    }
}

proof fn setup_result_from(at: int, rets: Seq<i32>, good: int)
    requires
        0 <= at < setup_calls().len(),
        rets.len() <= setup_calls().len() - at,
        0 <= good <= rets.len(),
        forall|i: int| 0 <= i < good ==> rets[i] == 0,
        good < rets.len() ==> rets[good] != 0,
    ensures
        setup_result(setup_calls()[at], rets) == (if good < rets.len() {
            Some(Err::<(), FabricError>(setup_calls()[at + good].error(rets[good])))
        } else if at + good == setup_calls().len() {
            Some(Ok(()))
        } else {
            None
        }),
    decreases rets.len(),
{
    if good > 0 && at + 1 < setup_calls().len() {
        assert(setup_calls()[at].next() == Some(setup_calls()[at + 1]));
        setup_result_from(at + 1, rets.drop_first(), good - 1);
    }
}

/// An endpoint comes up exactly when every call succeeds. Otherwise the report is that of the
/// first call that fails: the one after the `good` ones that have succeeded. Until a call has
/// failed or all have been made there is no result.
pub proof fn setup_needs_every_call(rets: Seq<i32>, good: int)
    requires
        rets.len() <= setup_calls().len(),
        0 <= good <= rets.len(),
        forall|i: int| 0 <= i < good ==> rets[i] == 0,
        good < rets.len() ==> rets[good] != 0,
    ensures
        setup_result(SetupStep::OpenFabric, rets) == (if good < rets.len() {
            Some(Err::<(), FabricError>(setup_calls()[good].error(rets[good])))
        } else if good == setup_calls().len() {
            Some(Ok(()))
        } else {
            None
        }),
{
    setup_result_from(0, rets, good);
}

/// A call that succeeds adds the object that it opens, if it opens one, to those that are open.
pub proof fn open_objects_add_up(step: SetupStep)
    requires
        step.next() is Some,
    ensures
        step.next()->0.open_before() == (match step.opens() {
            Some(resource) => step.open_before().push(resource),
            None => step.open_before(),
        }),
{
    assert(step.next()->0.open_before() =~= (match step.opens() {
        Some(resource) => step.open_before().push(resource),
        None => step.open_before(),
    }));
}

/// Whether `order` closes each of the objects `open` once and no other, and none before those
/// that were opened in it.
pub open spec fn closes_properly(order: Seq<Resource>, open: Seq<Resource>) -> bool {
    &&& order.no_duplicates()
    &&& forall|resource: Resource| order.contains(resource) == #[trigger] open.contains(resource)
    &&& forall|i: int, j: int|
        0 <= i < j < order.len() ==> (#[trigger] order[j]).parent() != Some(#[trigger] order[i])
}

/// Nothing that was opened is left open, closed twice or closed too early, whichever call of the
/// setup fails, and when an endpoint that is up goes away.
pub proof fn objects_are_closed_properly(step: SetupStep)
    ensures
        closes_properly(step.open_before().reverse(), step.open_before()),
        closes_properly(endpoint_close_order(), SetupStep::Enable.open_before()),
{
    let open = step.open_before();
    let order = open.reverse();
    assert forall|resource: Resource| order.contains(resource) == #[trigger] open.contains(
        resource,
    ) by {
        if open.contains(resource) {
            let i = choose|i: int| 0 <= i < open.len() && open[i] == resource;
            assert(order[open.len() - 1 - i] == resource);
        }
        if order.contains(resource) {
            let i = choose|i: int| 0 <= i < order.len() && order[i] == resource;
            assert(open[open.len() - 1 - i] == resource);
        }
    }
    let all = SetupStep::Enable.open_before();
    let last = endpoint_close_order();
    assert forall|resource: Resource| last.contains(resource) == #[trigger] all.contains(
        resource,
    ) by {
        assert(last[0] == Resource::CompletionQueue && all[3] == Resource::CompletionQueue);
        assert(last[1] == Resource::AddressVector && all[4] == Resource::AddressVector);
        assert(last[2] == Resource::Endpoint && all[2] == Resource::Endpoint);
        assert(last[3] == Resource::Domain && all[1] == Resource::Domain);
        assert(last[4] == Resource::Fabric && all[0] == Resource::Fabric);
    }
}

/// Which setter a call is a call of.
pub enum SettingKind {
    Port,
    Caps,
    Mode,
    EpAttrType,
    TxAttrOpFlags,
    DomainAttrMrMode,
    DomainAttrThreading,
    FabricAttrProvName,
}

/// The setter that `setting` is a call of.
pub open spec fn kind_of(setting: Setting) -> SettingKind {
    match setting {
        Setting::Port(_) => SettingKind::Port,
        Setting::Caps(_) => SettingKind::Caps,
        Setting::Mode(_) => SettingKind::Mode,
        Setting::EpAttrType(_) => SettingKind::EpAttrType,
        Setting::TxAttrOpFlags(_) => SettingKind::TxAttrOpFlags,
        Setting::DomainAttrMrMode(_) => SettingKind::DomainAttrMrMode,
        Setting::DomainAttrThreading(_) => SettingKind::DomainAttrThreading,
        Setting::FabricAttrProvName(_) => SettingKind::FabricAttrProvName,
    }
}

/// What a new builder has become after `settings`.
pub open spec fn settled(settings: Seq<Setting>) -> BuilderState
    decreases settings.len(),
{
    if settings.len() == 0 {
        BuilderState::start()
    } else {
        settings.last().applied(settled(settings.drop_last()))
    }
}

/// The last call of the setter `kind` among `settings`.
pub open spec fn last_setting(settings: Seq<Setting>, kind: SettingKind) -> Option<Setting>
    decreases settings.len(),
{
    if settings.len() == 0 {
        None
    } else if kind_of(settings.last()) == kind {
        Some(settings.last())
    } else {
        last_setting(settings.drop_last(), kind)
    }
}

/// Calls of different setters may be made in either order.
pub proof fn settings_commute(state: BuilderState, first: Setting, second: Setting)
    requires
        kind_of(first) != kind_of(second),
    ensures
        second.applied(first.applied(state)) == first.applied(second.applied(state)),
{
}

/// What a builder asks for is, for each setter, the value of its last call, whatever other calls
/// there are and in whatever order; where it was never called, what a new builder asks for. The
/// endpoint is asked to be thread-safe in any case.
pub proof fn last_setting_counts(settings: Seq<Setting>)
    ensures
        ({
            let state = settled(settings);
            &&& state.port == (match last_setting(settings, SettingKind::Port) {
                Some(Setting::Port(port)) => port,
                _ => DEFAULT_PORT,
            })
            &&& state.requested().caps == (match last_setting(settings, SettingKind::Caps) {
                Some(Setting::Caps(caps)) => caps as u64,
                _ => 0,
            })
            &&& state.requested().mode == (match last_setting(settings, SettingKind::Mode) {
                Some(Setting::Mode(mode)) => mode,
                _ => 0,
            })
            &&& state.requested().ep_attr_type == (match last_setting(
                settings,
                SettingKind::EpAttrType,
            ) {
                Some(Setting::EpAttrType(typ)) => typ,
                _ => 0,
            })
            &&& state.requested().tx_attr_op_flags == (match last_setting(
                settings,
                SettingKind::TxAttrOpFlags,
            ) {
                Some(Setting::TxAttrOpFlags(flags)) => flags as u64,
                _ => 0,
            })
            &&& state.requested().domain_attr_mr_mode == (match last_setting(
                settings,
                SettingKind::DomainAttrMrMode,
            ) {
                Some(Setting::DomainAttrMrMode(mr_mode)) => mr_mode as i32,
                _ => 0,
            })
            &&& state.requested().fabric_attr_prov_name == (match last_setting(
                settings,
                SettingKind::FabricAttrProvName,
            ) {
                Some(Setting::FabricAttrProvName(name)) => Some(name),
                _ => None,
            })
            &&& state.requested().domain_attr_threading == FI_THREAD_SAFE
        }),
    decreases settings.len(),
{
    if settings.len() > 0 {
        last_setting_counts(settings.drop_last());
    }
}

/// A registration mode keeps its bits: read as a signed number it differs from the unsigned one
/// by nothing, or by as much as thirty-two bits hold, and it fits.
pub proof fn registration_mode_keeps_its_bits(bits: u32)
    ensures
        -0x8000_0000 <= as_signed(bits) < 0x8000_0000,
        as_signed(bits) == bits || as_signed(bits) + 0x1_0000_0000 == bits,
        as_signed(bits) == bits as i32,
{
    assert(bits < 0x8000_0000 ==> bits as i32 == bits) by (bit_vector);
    assert(bits >= 0x8000_0000 ==> bits as i32 == bits - 0x1_0000_0000) by (bit_vector);
}

/// Whether `text` is `what` followed by the numeral of `code`.
pub open spec fn tells_code(text: Seq<char>, what: Seq<char>, code: int) -> bool {
    &&& text.len() > what.len()
    &&& text.take(what.len() as int) == what
    &&& is_signed_numeral_of(text.skip(what.len() as int), code)
}

proof fn code_is_told(what: Seq<char>, code: int)
    ensures
        tells_code(what + signed_decimal(code), what, code),
{
    signed_decimal_is_a_signed_numeral(code, code);
    let text = what + signed_decimal(code);
    assert(text.take(what.len() as int) =~= what);
    assert(text.skip(what.len() as int) =~= signed_decimal(code));
}

/// The report of an error that carries a code, a length or a port ends in its numeral, from which
/// it reads back, whatever number it is; one that carries an address ends in that address. What
/// comes before says which step failed.
pub proof fn reports_tell_what_failed_and_why(error: FabricError)
    ensures
        match error {
            FabricError::GetInfo => error.text() == "fi_getinfo failed!"@,
            FabricError::Fabric(ret) => tells_code(error.text(), "fi_fabric failed: "@, ret as int),
            FabricError::Domain(ret) => tells_code(error.text(), "fi_domain failed: "@, ret as int),
            FabricError::Endpoint(ret) => tells_code(
                error.text(),
                "fi_endpoint failed: "@,
                ret as int,
            ),
            FabricError::CqOpen(ret) => tells_code(
                error.text(),
                "fi_cq_open failed: "@,
                ret as int,
            ),
            FabricError::AvOpen(ret) => tells_code(
                error.text(),
                "fi_av_open failed: "@,
                ret as int,
            ),
            FabricError::BindCq(ret) => tells_code(
                error.text(),
                "fi_ep_bind cq failed: "@,
                ret as int,
            ),
            FabricError::BindAv(ret) => tells_code(
                error.text(),
                "fi_ep_bind av failed: "@,
                ret as int,
            ),
            FabricError::Enable(ret) => tells_code(error.text(), "fi_enable failed: "@, ret as int),
            FabricError::Control => error.text() == "fi_control failed"@,
            FabricError::GetName(ret) => tells_code(
                error.text(),
                "fi_getname failed: "@,
                ret as int,
            ),
            FabricError::AvInsert(ret) => tells_code(
                error.text(),
                "fi_av_insert failed: "@,
                ret as int,
            ),
            FabricError::Send(ret) => tells_code(error.text(), "fi_send failed: "@, ret as int),
            FabricError::Recv(ret) => tells_code(error.text(), "fi_recv failed: "@, ret as int),
            FabricError::Completion(err) => tells_code(
                error.text(),
                "operation failed: "@,
                err as int,
            ),
            FabricError::ShortAddress(len) => tells_code(
                error.text(),
                "peer address too short: "@,
                len as int,
            ),
            FabricError::ChannelClosed => error.text() == "channel closed"@,
            FabricError::Connect(addr) => error.text() == "failed to connect to control port "@
                + addr@,
            FabricError::Bind(port) => tells_code(
                error.text(),
                "failed to bind control port "@,
                port as int,
            ),
            FabricError::Accept => error.text() == "control connection accept failed"@,
            FabricError::SendLength => error.text() == "failed to send address length"@,
            FabricError::SendPayload => error.text() == "failed to send address payload"@,
            FabricError::ReadLength => error.text() == "failed to read address length"@,
            FabricError::ReadPayload => error.text() == "failed to read address payload"@,
        },
{
    match error {
        FabricError::Fabric(ret) => code_is_told("fi_fabric failed: "@, ret as int),
        FabricError::Domain(ret) => code_is_told("fi_domain failed: "@, ret as int),
        FabricError::Endpoint(ret) => code_is_told("fi_endpoint failed: "@, ret as int),
        FabricError::CqOpen(ret) => code_is_told("fi_cq_open failed: "@, ret as int),
        FabricError::AvOpen(ret) => code_is_told("fi_av_open failed: "@, ret as int),
        FabricError::BindCq(ret) => code_is_told("fi_ep_bind cq failed: "@, ret as int),
        FabricError::BindAv(ret) => code_is_told("fi_ep_bind av failed: "@, ret as int),
        FabricError::Enable(ret) => code_is_told("fi_enable failed: "@, ret as int),
        FabricError::GetName(ret) => code_is_told("fi_getname failed: "@, ret as int),
        FabricError::AvInsert(ret) => code_is_told("fi_av_insert failed: "@, ret as int),
        FabricError::Send(ret) => code_is_told("fi_send failed: "@, ret as int),
        FabricError::Recv(ret) => code_is_told("fi_recv failed: "@, ret as int),
        FabricError::Completion(err) => code_is_told("operation failed: "@, err as int),
        FabricError::ShortAddress(len) => code_is_told("peer address too short: "@, len as int),
        FabricError::Bind(port) => code_is_told("failed to bind control port "@, port as int),
        _ => {},
    }
}

} // verus!
