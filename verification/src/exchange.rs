//! Swapping endpoint addresses over a TCP control channel.
//!
//! An address travels as its length, in eight bytes, the least significant first, followed by
//! the address itself.
use crate::address::FabricAddress;
use crate::constants::{CONTROL_PORT, LENGTH_BYTES};
use crate::error::FabricError;
use crate::text::{decimal, push_decimal};
use vstd::bytes::{
    spec_u64_from_le_bytes, spec_u64_to_le_bytes, u64_from_le_bytes, u64_to_le_bytes,
};
use vstd::prelude::*;
use vstd::string::*;

verus! {

/// The bytes that announce the length of `addr`.
pub open spec fn length_bytes(addr: Seq<u8>) -> Seq<u8> {
    spec_u64_to_le_bytes(addr.len() as u64)
}

/// The length that `bytes` announce.
pub open spec fn announced_len(bytes: Seq<u8>) -> usize {
    spec_u64_from_le_bytes(bytes) as usize
}

/// `addr` as it travels.
pub open spec fn frame(addr: Seq<u8>) -> Seq<u8> {
    length_bytes(addr) + addr
}

/// The port to use: `port`, or [`CONTROL_PORT`] where none is given.
pub open spec fn control_port(port: Option<u16>) -> u16 {
    match port {
        Some(given) => given,
        None => CONTROL_PORT,
    }
}

/// The socket address of `port` on `host`.
pub open spec fn socket_address(host: Seq<char>, port: u16) -> Seq<char> {
    host + seq![':'] + decimal(port as nat)
}

fn socket_address_text(host: &str, port: u16) -> (addr: String)
    ensures
        addr@ == socket_address(host@, port),
{
    proof {
        reveal_strlit(":");
    }
    let mut addr = host.to_owned();
    addr.append(":");
    push_decimal(&mut addr, port as u64);
    assert(":"@ =~= seq![':']);
    addr
}

/// What is to be done to open a channel.
#[derive(Debug, PartialEq, Eq)]
pub enum LinkStep {
    /// Connect to this socket address.
    Connect(String),
    /// Bind this socket address, which is that of the given port.
    Bind(String, u16),
    /// Accept a client.
    Accept,
}

/// A channel that is being opened.
#[derive(Debug)]
pub struct ChannelSetup {
    step: LinkStep,
}

/// How far the channel is once a step is done.
#[derive(Debug)]
pub enum ChannelProgress {
    /// There is another step to do.
    Continue(ChannelSetup),
    /// The channel is open.
    Open(AddressExchangeChannel),
}

impl ChannelSetup {
    /// What is to be done next.
    pub closed spec fn spec_step(&self) -> LinkStep {
        self.step
    }

    /// What is to be done next.
    pub fn step(&self) -> (step: &LinkStep)
        ensures
            *step == self.spec_step(),
    {
        &self.step
    }

    /// Takes note of whether the step was done. A server binds its port before it accepts a
    /// client; any step that fails ends the setup.
    pub fn done(self, success: bool) -> (progress: Result<ChannelProgress, FabricError>)
        ensures
            match self.spec_step() {
                LinkStep::Connect(addr) => if success {
                    progress matches Ok(ChannelProgress::Open(_))
                } else {
                    progress == Err::<ChannelProgress, FabricError>(FabricError::Connect(addr))
                },
                LinkStep::Bind(_, port) => if success {
                    progress matches Ok(ChannelProgress::Continue(setup)) && setup.spec_step()
                        == LinkStep::Accept
                } else {
                    progress == Err::<ChannelProgress, FabricError>(FabricError::Bind(port))
                },
                LinkStep::Accept => if success {
                    progress matches Ok(ChannelProgress::Open(_))
                } else {
                    progress == Err::<ChannelProgress, FabricError>(FabricError::Accept)
                },
            },
    {
        match self.step {
            LinkStep::Connect(addr) => if success {
                Ok(ChannelProgress::Open(AddressExchangeChannel { open: () }))
            } else {
                Err(FabricError::Connect(addr))
            },
            LinkStep::Bind(_, port) => if success {
                Ok(ChannelProgress::Continue(ChannelSetup { step: LinkStep::Accept }))
            } else {
                Err(FabricError::Bind(port))
            },
            LinkStep::Accept => if success {
                Ok(ChannelProgress::Open(AddressExchangeChannel { open: () }))
            } else {
                Err(FabricError::Accept)
            },
        }
    }
}

/// Optional helper that carries addresses between two peers over TCP.
///
/// There is one only once the connection stands.
#[derive(Debug)]
pub struct AddressExchangeChannel {
    open: (),
}

impl AddressExchangeChannel {
    /// Begins to open a channel to the server at `server_addr`.
    pub fn connect(server_addr: &str, port: Option<u16>) -> (setup: ChannelSetup)
        ensures
            setup.spec_step() matches LinkStep::Connect(addr) && addr@ == socket_address(
                server_addr@,
                control_port(port),
            ),
            setup.spec_step() matches LinkStep::Connect(addr) && addr@ == server_addr@ + seq![':']
                + decimal(
                (match port {
                    Some(given) => given,
                    None => CONTROL_PORT,
                }) as nat,
            ),
    {
        let port: u16 = port.unwrap_or(CONTROL_PORT);
        ChannelSetup { step: LinkStep::Connect(socket_address_text(server_addr, port)) }
    }

    /// Begins to open a channel to the first client that comes, on any local interface.
    pub fn listen(port: Option<u16>) -> (setup: ChannelSetup)
        ensures
            setup.spec_step() matches LinkStep::Bind(addr, bound) && addr@ == socket_address(
                "0.0.0.0"@,
                control_port(port),
            ) && bound == control_port(port),
            setup.spec_step() matches LinkStep::Bind(addr, bound) && addr@ == "0.0.0.0"@ + seq![':']
                + decimal(bound as nat) && bound == (match port {
                Some(given) => given,
                None => CONTROL_PORT,
            }),
    {
        let port: u16 = port.unwrap_or(CONTROL_PORT);
        ChannelSetup { step: LinkStep::Bind(socket_address_text("0.0.0.0", port), port) }
    }

    /// Begins an exchange in which `local` is this side's address. A client writes before it
    /// reads, a server reads before it writes.
    pub fn exchange(&self, local: FabricAddress, is_client: bool) -> (exchange: AddressExchange)
        ensures
            exchange@ == ExchangeState::start(local@, is_client),
    {
        let step = if is_client {
            ExchangeStep::WriteLength
        } else {
            ExchangeStep::ReadLength
        };
        AddressExchange { local, is_client, peer: None, step }
    }

    /// The bytes that announce the length of `addr`.
    pub fn write_address(addr: &FabricAddress) -> (bytes: Vec<u8>)
        ensures
            bytes@ == length_bytes(addr@),
            bytes@.len() == LENGTH_BYTES,
    {
        u64_to_le_bytes(addr.len() as u64)
    }

    /// The length that `bytes` announce.
    pub fn read_address(bytes: [u8; 8]) -> (len: usize)
        ensures
            len == announced_len(bytes@),
    {
        u64_from_le_bytes(bytes.as_slice()) as usize
    }
}

/// What the exchange does next.
#[derive(Debug, Clone, Copy, PartialEq, Eq, Structural)]
pub enum ExchangeStep {
    /// Write the length of the local address.
    WriteLength,
    /// Write the local address.
    WritePayload,
    /// Read the length of the peer's address.
    ReadLength,
    /// Read the peer's address, which has this length.
    ReadPayload(usize),
    /// Nothing: the exchange is over.
    Done,
}

/// What came of the last step of the exchange.
#[derive(Debug, PartialEq, Eq)]
pub enum ExchangeEvent {
    /// All bytes were written.
    Wrote,
    /// The write failed.
    WriteFailed,
    /// These bytes were read.
    Read(Vec<u8>),
    /// The read failed.
    ReadFailed,
}

/// What came of the last step, with the bytes as a sequence.
pub enum ExchangeInput {
    Wrote,
    WriteFailed,
    Read(Seq<u8>),
    ReadFailed,
}

impl View for ExchangeEvent {
    type V = ExchangeInput;

    open spec fn view(&self) -> ExchangeInput {
        match self {
            ExchangeEvent::Wrote => ExchangeInput::Wrote,
            ExchangeEvent::WriteFailed => ExchangeInput::WriteFailed,
            ExchangeEvent::Read(bytes) => ExchangeInput::Read(bytes@),
            ExchangeEvent::ReadFailed => ExchangeInput::ReadFailed,
        }
    }
}

/// How far an exchange is.
#[verifier::ext_equal]
pub struct ExchangeState {
    /// This side's address.
    pub local: Seq<u8>,
    /// Whether this side is the client.
    pub is_client: bool,
    /// The other side's address, once it is known.
    pub peer: Option<Seq<u8>>,
    /// What comes next.
    pub step: ExchangeStep,
}

impl ExchangeState {
    /// The beginning of an exchange.
    pub open spec fn start(local: Seq<u8>, is_client: bool) -> ExchangeState {
        ExchangeState {
            local,
            is_client,
            peer: None,
            step: if is_client {
                ExchangeStep::WriteLength
            } else {
                ExchangeStep::ReadLength
            },
        }
    }

    /// What holds at every step: the peer is known once it has been read, which for a client is
    /// the end and for a server comes before its own writes.
    pub open spec fn valid(self) -> bool {
        self.peer is Some <==> (self.step is Done || (!self.is_client && (self.step is WriteLength
            || self.step is WritePayload)))
    }

    /// The bytes that the next step writes.
    pub open spec fn outgoing(self) -> Seq<u8> {
        match self.step {
            ExchangeStep::WriteLength => length_bytes(self.local),
            ExchangeStep::WritePayload => self.local,
            _ => seq![],
        }
    }

    /// How many bytes the next step reads.
    pub open spec fn wanted(self) -> nat {
        match self.step {
            ExchangeStep::ReadLength => LENGTH_BYTES as nat,
            ExchangeStep::ReadPayload(len) => len as nat,
            _ => 0,
        }
    }

    /// What follows when `input` came of the next step. A read counts only if it brought all
    /// the bytes that were wanted. An input that is no answer to the step changes nothing.
    pub open spec fn next(self, input: ExchangeInput) -> Result<ExchangeState, FabricError> {
        match (self.step, input) {
            (ExchangeStep::WriteLength, ExchangeInput::Wrote) => Ok(
                ExchangeState { step: ExchangeStep::WritePayload, ..self },
            ),
            (ExchangeStep::WriteLength, ExchangeInput::WriteFailed) => Err(FabricError::SendLength),
            (ExchangeStep::WritePayload, ExchangeInput::Wrote) => Ok(
                ExchangeState {
                    step: if self.is_client {
                        ExchangeStep::ReadLength
                    } else {
                        ExchangeStep::Done
                    },
                    ..self
                },
            ),
            (ExchangeStep::WritePayload, ExchangeInput::WriteFailed) => Err(
                FabricError::SendPayload,
            ),
            (ExchangeStep::ReadLength, ExchangeInput::Read(bytes)) => if bytes.len()
                == self.wanted() {
                Ok(ExchangeState { step: ExchangeStep::ReadPayload(announced_len(bytes)), ..self })
            } else {
                Err(FabricError::ReadLength)
            },
            (ExchangeStep::ReadLength, ExchangeInput::ReadFailed) => Err(FabricError::ReadLength),
            (ExchangeStep::ReadPayload(_), ExchangeInput::Read(bytes)) => if bytes.len()
                == self.wanted() {
                Ok(
                    ExchangeState {
                        peer: Some(bytes),
                        step: if self.is_client {
                            ExchangeStep::Done
                        } else {
                            ExchangeStep::WriteLength
                        },
                        ..self
                    },
                )
            } else {
                Err(FabricError::ReadPayload)
            },
            (ExchangeStep::ReadPayload(_), ExchangeInput::ReadFailed) => Err(
                FabricError::ReadPayload,
            ),
            _ => Ok(self),
        }
    }
}

/// An exchange under way.
#[derive(Debug)]
pub struct AddressExchange {
    local: FabricAddress,
    is_client: bool,
    peer: Option<FabricAddress>,
    step: ExchangeStep,
}

impl View for AddressExchange {
    type V = ExchangeState;

    closed spec fn view(&self) -> ExchangeState {
        ExchangeState {
            local: self.local@,
            is_client: self.is_client,
            peer: match self.peer {
                Some(addr) => Some(addr@),
                None => None,
            },
            step: self.step,
        }
    }
}

impl AddressExchange {
    #[verifier::type_invariant]
    spec fn is_valid(self) -> bool {
        self@.valid()
    }

    /// What comes next.
    pub fn step(&self) -> (step: ExchangeStep)
        ensures
            step == self@.step,
    {
        self.step
    }

    /// The bytes that the next step writes.
    pub fn outgoing(&self) -> (bytes: Vec<u8>)
        ensures
            bytes@ == self@.outgoing(),
    {
        match self.step {
            ExchangeStep::WriteLength => AddressExchangeChannel::write_address(&self.local),
            ExchangeStep::WritePayload => self.local.clone().into_bytes(),
            _ => Vec::new(),
        }
    }

    /// How many bytes the next step reads.
    pub fn wanted(&self) -> (len: usize)
        ensures
            len == self@.wanted(),
            self@.step matches ExchangeStep::ReadPayload(announced) ==> len == announced,
    {
        match self.step {
            ExchangeStep::ReadLength => LENGTH_BYTES,
            ExchangeStep::ReadPayload(len) => len,
            _ => 0,
        }
    }

    /// Takes note of what came of the step.
    pub fn advance(self, event: ExchangeEvent) -> (exchange: Result<Self, FabricError>)
        ensures
            match self@.next(event@) {
                Ok(state) => exchange matches Ok(e) && e@ == state,
                Err(error) => exchange == Err::<Self, FabricError>(error),
            },
    {
        proof {
            use_type_invariant(&self);
        }
        let AddressExchange { local, is_client, peer, step } = self;
        match (step, event) {
            (ExchangeStep::WriteLength, ExchangeEvent::Wrote) => {
                Ok(AddressExchange { local, is_client, peer, step: ExchangeStep::WritePayload })
            },
            (ExchangeStep::WriteLength, ExchangeEvent::WriteFailed) => {
                Err(FabricError::SendLength)
            },
            (ExchangeStep::WritePayload, ExchangeEvent::Wrote) => {
                let step = if is_client {
                    ExchangeStep::ReadLength
                } else {
                    ExchangeStep::Done
                };
                Ok(AddressExchange { local, is_client, peer, step })
            },
            (ExchangeStep::WritePayload, ExchangeEvent::WriteFailed) => {
                Err(FabricError::SendPayload)
            },
            (ExchangeStep::ReadLength, ExchangeEvent::Read(bytes)) => {
                if bytes.len() != LENGTH_BYTES {
                    return Err(FabricError::ReadLength);
                }
                let length: [u8; 8] = [
                    bytes[0],
                    bytes[1],
                    bytes[2],
                    bytes[3],
                    bytes[4],
                    bytes[5],
                    bytes[6],
                    bytes[7],
                ];
                assert(length@ =~= bytes@);
                let len: usize = AddressExchangeChannel::read_address(length);
                Ok(AddressExchange { local, is_client, peer, step: ExchangeStep::ReadPayload(len) })
            },
            (ExchangeStep::ReadLength, ExchangeEvent::ReadFailed) => Err(FabricError::ReadLength),
            (ExchangeStep::ReadPayload(len), ExchangeEvent::Read(bytes)) => {
                if bytes.len() != len {
                    return Err(FabricError::ReadPayload);
                }
                let step = if is_client {
                    ExchangeStep::Done
                } else {
                    ExchangeStep::WriteLength
                };
                Ok(AddressExchange { local, is_client, peer: Some(FabricAddress::new(bytes)), step })
            },
            (ExchangeStep::ReadPayload(_), ExchangeEvent::ReadFailed) => {
                Err(FabricError::ReadPayload)
            },
            (_, _) => Ok(AddressExchange { local, is_client, peer, step }),
        }
    }

    /// The peer's address, once the exchange is over.
    pub fn into_peer(self) -> (peer: Option<FabricAddress>)
        ensures
            peer is Some <==> self@.step is Done,
            peer matches Some(addr) ==> self@.peer == Some(addr@),
    {
        proof {
            use_type_invariant(&self);
        }
        match self.step {
            ExchangeStep::Done => self.peer,
            _ => None,
        }
    }
}

} // verus!
