//! What kind of endpoint is asked for.
use crate::constants::{
    DEFAULT_PORT, FI_DELIVERY_COMPLETE, FI_EP_RDM, FI_MSG, FI_THREAD_SAFE,
};
use crate::error::FabricError;
use crate::setup::{EndpointSetup, SetupStep};
use crate::text::{decimal, decimal_text};
use vstd::prelude::*;

verus! {

/// Why some bytes cannot be handed to C as a string: there is a NUL among them.
#[derive(Debug, Clone, Copy, PartialEq, Eq, Structural)]
pub struct NulError {
    /// Where the first NUL stands.
    pub position: usize,
}

/// Bytes that can be handed to C as a string: there is no NUL among them.
#[derive(Debug, PartialEq, Eq)]
pub struct CString {
    bytes: Vec<u8>,
}

impl View for CString {
    type V = Seq<u8>;

    closed spec fn view(&self) -> Seq<u8> {
        self.bytes@
    }
}

impl CString {
    #[verifier::type_invariant]
    spec fn holds_no_nul(self) -> bool {
        !self.bytes@.contains(0u8)
    }

    /// The string made of `bytes`, unless there is a NUL among them.
    pub fn new(bytes: Vec<u8>) -> (string: Result<Self, NulError>)
        ensures
            match string {
                Ok(s) => s@ == bytes@ && !bytes@.contains(0u8),
                Err(e) => e.position < bytes@.len() && bytes@[e.position as int] == 0
                    && !bytes@.take(e.position as int).contains(0u8),
            },
    {
        let mut position: usize = 0;
        while position < bytes.len()
            invariant
                position <= bytes@.len(),
                forall|i: int| 0 <= i < position ==> bytes@[i] != 0,
            decreases bytes@.len() - position,
        {
            if bytes[position] == 0 {
                return Err(NulError { position });
            }
            position += 1;
        }
        Ok(CString { bytes })
    }

    /// The bytes of the string, without the NUL that ends it in C.
    pub fn as_bytes(&self) -> (bytes: &[u8])
        ensures
            bytes@ == self@,
            !bytes@.contains(0u8),
    {
        proof {
            use_type_invariant(self);
        }
        self.bytes.as_slice()
    }
}

/// The hints that `fi_getinfo` looks for a provider by.
pub struct Info {
    /// The capabilities of the interface.
    pub caps: u64,
    /// The modes that the caller supports.
    pub mode: u64,
    /// The type of the endpoint.
    pub ep_attr_type: u32,
    /// The default flags of outgoing transfers.
    pub tx_attr_op_flags: u64,
    /// The modes of memory registration.
    pub domain_attr_mr_mode: i32,
    /// The threading level.
    pub domain_attr_threading: u32,
    /// The provider that is asked for, if any.
    pub fabric_attr_prov_name: Option<CString>,
}

impl Info {
    /// Hints that ask for nothing.
    pub fn new() -> (info: Self)
        ensures
            info.caps == 0,
            info.mode == 0,
            info.ep_attr_type == 0,
            info.tx_attr_op_flags == 0,
            info.domain_attr_mr_mode == 0,
            info.domain_attr_threading == 0,
            info.fabric_attr_prov_name is None,
    {
        Info {
            caps: 0,
            mode: 0,
            ep_attr_type: 0,
            tx_attr_op_flags: 0,
            domain_attr_mr_mode: 0,
            domain_attr_threading: 0,
            fabric_attr_prov_name: None,
        }
    }
}

/// What `fi_getinfo` is asked for.
pub struct GetInfoRequest {
    /// The service, which is the port in decimal.
    pub service: String,
    /// The flags of the call.
    pub flags: u64,
    /// The hints.
    pub hints: Info,
}

impl GetInfoRequest {
    /// Takes note of what `fi_getinfo` returned. The provider that it found is what the
    /// endpoint is brought up on; any code but zero means that there is none.
    pub fn returned(ret: i32) -> (setup: Result<EndpointSetup, FabricError>)
        ensures
            ret == 0 ==> (setup matches Ok(s) && s.spec_step() == SetupStep::OpenFabric),
            ret != 0 ==> setup == Err::<EndpointSetup, FabricError>(FabricError::GetInfo),
    {
        if ret != 0 {
            return Err(FabricError::GetInfo);
        }
        Ok(EndpointSetup::new())
    }
}

/// `bits` read as a two's complement number.
pub open spec fn as_signed(bits: u32) -> int {
    if bits < 0x8000_0000 {
        bits as int
    } else {
        bits - 0x1_0000_0000
    }
}

/// What has been asked of an endpoint so far.
pub struct BuilderState {
    /// The hints.
    pub hints: Info,
    /// The port.
    pub port: u16,
}

impl BuilderState {
    /// Nothing but the default port.
    pub open spec fn start() -> BuilderState {
        BuilderState {
            hints: Info {
                caps: 0,
                mode: 0,
                ep_attr_type: 0,
                tx_attr_op_flags: 0,
                domain_attr_mr_mode: 0,
                domain_attr_threading: 0,
                fabric_attr_prov_name: None,
            },
            port: DEFAULT_PORT,
        }
    }

    /// The hints that `fi_getinfo` gets to see.
    pub open spec fn requested(self) -> Info {
        Info { domain_attr_threading: FI_THREAD_SAFE, ..self.hints }
    }
}

/// One call of a setter.
pub enum Setting {
    /// [`FabricEndpointBuilder::port`]
    Port(u16),
    /// [`FabricEndpointBuilder::caps`]
    Caps(u32),
    /// [`FabricEndpointBuilder::mode`]
    Mode(u64),
    /// [`FabricEndpointBuilder::ep_attr_type`]
    EpAttrType(u32),
    /// [`FabricEndpointBuilder::tx_attr_op_flags`]
    TxAttrOpFlags(u32),
    /// [`FabricEndpointBuilder::domain_attr_mr_mode`]
    DomainAttrMrMode(u32),
    /// [`FabricEndpointBuilder::domain_attr_threading`]
    DomainAttrThreading(u32),
    /// [`FabricEndpointBuilder::fabric_attr_prov_name`]
    FabricAttrProvName(CString),
}

impl Setting {
    /// What `state` becomes by this call.
    pub open spec fn applied(self, state: BuilderState) -> BuilderState {
        let hints = state.hints;
        match self {
            Setting::Port(port) => BuilderState { port, ..state },
            Setting::Caps(caps) => BuilderState {
                hints: Info { caps: caps as u64, ..hints },
                ..state
            },
            Setting::Mode(mode) => BuilderState { hints: Info { mode, ..hints }, ..state },
            Setting::EpAttrType(typ) => BuilderState {
                hints: Info { ep_attr_type: typ, ..hints },
                ..state
            },
            Setting::TxAttrOpFlags(flags) => BuilderState {
                hints: Info { tx_attr_op_flags: flags as u64, ..hints },
                ..state
            },
            Setting::DomainAttrMrMode(mr_mode) => BuilderState {
                hints: Info { domain_attr_mr_mode: mr_mode as i32, ..hints },
                ..state
            },
            Setting::DomainAttrThreading(threading) => BuilderState {
                hints: Info { domain_attr_threading: threading, ..hints },
                ..state
            },
            Setting::FabricAttrProvName(name) => BuilderState {
                hints: Info { fabric_attr_prov_name: Some(name), ..hints },
                ..state
            },
        }
    }
}

/// Collects what is asked of an endpoint.
pub struct FabricEndpointBuilder {
    hints: Info,
    port: u16,
}

impl View for FabricEndpointBuilder {
    type V = BuilderState;

    closed spec fn view(&self) -> BuilderState {
        BuilderState { hints: self.hints, port: self.port }
    }
}

impl FabricEndpointBuilder {
    /// A builder that asks for nothing but the default port.
    pub fn new() -> (builder: Self)
        ensures
            builder@ == BuilderState::start(),
    {
        FabricEndpointBuilder { hints: Info::new(), port: DEFAULT_PORT }
    }

    /// Sets the port of the endpoint.
    pub fn port(self, port: u16) -> (builder: Self)
        ensures
            builder@ == Setting::Port(port).applied(self@),
    {
        FabricEndpointBuilder { port, ..self }
    }

    /// Sets the capabilities.
    pub fn caps(self, caps: u32) -> (builder: Self)
        ensures
            builder@ == Setting::Caps(caps).applied(self@),
    {
        FabricEndpointBuilder { hints: Info { caps: caps as u64, ..self.hints }, ..self }
    }

    /// Sets the modes that the caller supports.
    pub fn mode(self, mode: u64) -> (builder: Self)
        ensures
            builder@ == Setting::Mode(mode).applied(self@),
    {
        FabricEndpointBuilder { hints: Info { mode, ..self.hints }, ..self }
    }

    /// Sets the type of the endpoint.
    pub fn ep_attr_type(self, typ: u32) -> (builder: Self)
        ensures
            builder@ == Setting::EpAttrType(typ).applied(self@),
    {
        FabricEndpointBuilder { hints: Info { ep_attr_type: typ, ..self.hints }, ..self }
    }

    /// Sets the default flags of outgoing transfers.
    pub fn tx_attr_op_flags(self, flags: u32) -> (builder: Self)
        ensures
            builder@ == Setting::TxAttrOpFlags(flags).applied(self@),
    {
        FabricEndpointBuilder { hints: Info { tx_attr_op_flags: flags as u64, ..self.hints }, ..self }
    }

    /// Sets the modes of memory registration. The bits of `mr_mode` are kept as they are.
    pub fn domain_attr_mr_mode(self, mr_mode: u32) -> (builder: Self)
        ensures
            builder@ == Setting::DomainAttrMrMode(mr_mode).applied(self@),
            builder@.hints.domain_attr_mr_mode == as_signed(mr_mode),
    {
        assert(mr_mode < 0x8000_0000 ==> mr_mode as i32 == mr_mode) by (bit_vector);
        assert(mr_mode >= 0x8000_0000 ==> mr_mode as i32 == mr_mode - 0x1_0000_0000)
            by (bit_vector);
        FabricEndpointBuilder {
            hints: Info { domain_attr_mr_mode: mr_mode as i32, ..self.hints },
            ..self
        }
    }

    /// Sets the threading level. An endpoint is always built for concurrent use, so
    /// [`build`](Self::build) has the last word on it.
    pub fn domain_attr_threading(self, threading: u32) -> (builder: Self)
        ensures
            builder@ == Setting::DomainAttrThreading(threading).applied(self@),
    {
        FabricEndpointBuilder {
            hints: Info { domain_attr_threading: threading, ..self.hints },
            ..self
        }
    }

    /// Sets the provider that is asked for.
    pub fn fabric_attr_prov_name(self, name: CString) -> (builder: Self)
        ensures
            builder@ == Setting::FabricAttrProvName(name).applied(self@),
    {
        FabricEndpointBuilder {
            hints: Info { fabric_attr_prov_name: Some(name), ..self.hints },
            ..self
        }
    }

    /// Asks for a reliable datagram endpoint of the EFA provider whose sends complete on
    /// delivery.
    pub fn build_efa_default() -> (request: GetInfoRequest)
        ensures
            request.service@ == decimal(DEFAULT_PORT as nat),
            request.flags == 0,
            request.hints.caps == FI_MSG == 0x2,
            request.hints.mode == 0,
            request.hints.ep_attr_type == FI_EP_RDM == 3,
            request.hints.tx_attr_op_flags == FI_DELIVERY_COMPLETE == 0x1000_0000,
            request.hints.domain_attr_mr_mode == 0,
            request.hints.domain_attr_threading == FI_THREAD_SAFE,
            request.hints.fabric_attr_prov_name matches Some(name) && name@ == seq![
                'e' as u8,
                'f' as u8,
                'a' as u8,
            ],
    {
        let name_bytes: Vec<u8> = vec![0x65, 0x66, 0x61];
        assert(name_bytes@ =~= seq!['e' as u8, 'f' as u8, 'a' as u8]);
        let name = CString::new(name_bytes).unwrap();
        FabricEndpointBuilder::new()
            .fabric_attr_prov_name(name)
            .caps(FI_MSG)
            .ep_attr_type(FI_EP_RDM)
            .tx_attr_op_flags(FI_DELIVERY_COMPLETE)
            .build()
    }

    /// Asks for the endpoint. Whatever else the hints say, it is to be safe for use from
    /// several threads at once. What `fi_getinfo` returns goes to
    /// [`GetInfoRequest::returned`].
    pub fn build(self) -> (request: GetInfoRequest)
        ensures
            request.service@ == decimal(self@.port as nat),
            request.flags == 0,
            request.hints == self@.requested(),
            request.hints.domain_attr_threading == FI_THREAD_SAFE == 1,
    {
        let port: u16 = self.port;
        let mut hints = self.hints;
        hints.domain_attr_threading = FI_THREAD_SAFE;
        GetInfoRequest { service: decimal_text(port as u64), flags: 0, hints }
    }
}

} // verus!
