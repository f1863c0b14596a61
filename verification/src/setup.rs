//! Bringing an endpoint up, one libfabric call at a time.
use crate::constants::{AV_COUNT, FI_AV_MAP, FI_RECV, FI_SEND};
use crate::endpoint::FabricEndpoint;
use crate::error::FabricError;
use crate::operation::Operation;
use vstd::prelude::*;

verus! {

/// What an address vector is opened with.
#[derive(Debug, Clone, Copy, PartialEq, Eq, Structural)]
pub struct AvAttr {
    /// How it names peers.
    pub type_: u32,
    /// How many peers it is sized for.
    pub count: usize,
}

impl AvAttr {
    /// The attributes of the address vector of every endpoint.
    pub fn new() -> (attr: Self)
        ensures
            attr.type_ == FI_AV_MAP,
            attr.count == AV_COUNT,
    {
        AvAttr { type_: FI_AV_MAP, count: AV_COUNT }
    }
}

/// A libfabric object that is opened and has to be closed.
#[derive(Debug, Clone, Copy, PartialEq, Eq, Structural)]
pub enum Resource {
    Fabric,
    Domain,
    Endpoint,
    CompletionQueue,
    AddressVector,
}

impl Resource {
    /// The object that this one was opened in.
    pub open spec fn parent(self) -> Option<Resource> {
        match self {
            Resource::Fabric => None,
            Resource::Domain => Some(Resource::Fabric),
            Resource::Endpoint => Some(Resource::Domain),
            Resource::CompletionQueue => Some(Resource::Domain),
            Resource::AddressVector => Some(Resource::Domain),
        }
    }
}

/// A call on the way to an endpoint.
#[derive(Debug, Clone, Copy, PartialEq, Eq, Structural)]
pub enum SetupStep {
    /// `fi_fabric`
    OpenFabric,
    /// `fi_domain`
    OpenDomain,
    /// `fi_endpoint`
    OpenEndpoint,
    /// `fi_cq_open`
    OpenCompletionQueue,
    /// `fi_av_open`
    OpenAddressVector,
    /// `fi_ep_bind` with the completion queue
    BindCompletionQueue,
    /// `fi_ep_bind` with the address vector
    BindAddressVector,
    /// `fi_enable`
    Enable,
}

impl SetupStep {
    /// The call that comes after this one.
    pub open spec fn next(self) -> Option<SetupStep> {
        match self {
            SetupStep::OpenFabric => Some(SetupStep::OpenDomain),
            SetupStep::OpenDomain => Some(SetupStep::OpenEndpoint),
            SetupStep::OpenEndpoint => Some(SetupStep::OpenCompletionQueue),
            SetupStep::OpenCompletionQueue => Some(SetupStep::OpenAddressVector),
            SetupStep::OpenAddressVector => Some(SetupStep::BindCompletionQueue),
            SetupStep::BindCompletionQueue => Some(SetupStep::BindAddressVector),
            SetupStep::BindAddressVector => Some(SetupStep::Enable),
            SetupStep::Enable => None,
        }
    }

    /// How the failure of this call with code `ret` is reported.
    pub open spec fn error(self, ret: i32) -> FabricError {
        match self {
            SetupStep::OpenFabric => FabricError::Fabric(ret),
            SetupStep::OpenDomain => FabricError::Domain(ret),
            SetupStep::OpenEndpoint => FabricError::Endpoint(ret),
            SetupStep::OpenCompletionQueue => FabricError::CqOpen(ret),
            SetupStep::OpenAddressVector => FabricError::AvOpen(ret),
            SetupStep::BindCompletionQueue => FabricError::BindCq(ret),
            SetupStep::BindAddressVector => FabricError::BindAv(ret),
            SetupStep::Enable => FabricError::Enable(ret),
        }
    }

    /// The object that this call opens.
    pub open spec fn opens(self) -> Option<Resource> {
        match self {
            SetupStep::OpenFabric => Some(Resource::Fabric),
            SetupStep::OpenDomain => Some(Resource::Domain),
            SetupStep::OpenEndpoint => Some(Resource::Endpoint),
            SetupStep::OpenCompletionQueue => Some(Resource::CompletionQueue),
            SetupStep::OpenAddressVector => Some(Resource::AddressVector),
            _ => None,
        }
    }

    /// What is open when this call is made, in the order of opening.
    pub open spec fn open_before(self) -> Seq<Resource> {
        match self {
            SetupStep::OpenFabric => seq![],
            SetupStep::OpenDomain => seq![Resource::Fabric],
            SetupStep::OpenEndpoint => seq![Resource::Fabric, Resource::Domain],
            SetupStep::OpenCompletionQueue => seq![
                Resource::Fabric,
                Resource::Domain,
                Resource::Endpoint,
            ],
            SetupStep::OpenAddressVector => seq![
                Resource::Fabric,
                Resource::Domain,
                Resource::Endpoint,
                Resource::CompletionQueue,
            ],
            _ => seq![
                Resource::Fabric,
                Resource::Domain,
                Resource::Endpoint,
                Resource::CompletionQueue,
                Resource::AddressVector,
            ],
        }
    }

    /// The flags of this call, where it is `fi_ep_bind`: the completion queue reports sends and
    /// receives alike.
    pub fn bind_flags(self) -> (flags: u64)
        ensures
            flags == (if self is BindCompletionQueue {
                (FI_SEND | FI_RECV) as u64
            } else {
                0
            }),
    {
        match self {
            SetupStep::BindCompletionQueue => (FI_SEND | FI_RECV) as u64,
            _ => 0,
        }
    }

    fn next_step(self) -> (next: Option<SetupStep>)
        ensures
            next == self.next(),
    {
        match self {
            SetupStep::OpenFabric => Some(SetupStep::OpenDomain),
            SetupStep::OpenDomain => Some(SetupStep::OpenEndpoint),
            SetupStep::OpenEndpoint => Some(SetupStep::OpenCompletionQueue),
            SetupStep::OpenCompletionQueue => Some(SetupStep::OpenAddressVector),
            SetupStep::OpenAddressVector => Some(SetupStep::BindCompletionQueue),
            SetupStep::BindCompletionQueue => Some(SetupStep::BindAddressVector),
            SetupStep::BindAddressVector => Some(SetupStep::Enable),
            SetupStep::Enable => None,
        }
    }

    fn report(self, ret: i32) -> (error: FabricError)
        ensures
            error == self.error(ret),
    {
        match self {
            SetupStep::OpenFabric => FabricError::Fabric(ret),
            SetupStep::OpenDomain => FabricError::Domain(ret),
            SetupStep::OpenEndpoint => FabricError::Endpoint(ret),
            SetupStep::OpenCompletionQueue => FabricError::CqOpen(ret),
            SetupStep::OpenAddressVector => FabricError::AvOpen(ret),
            SetupStep::BindCompletionQueue => FabricError::BindCq(ret),
            SetupStep::BindAddressVector => FabricError::BindAv(ret),
            SetupStep::Enable => FabricError::Enable(ret),
        }
    }

    /// What has to be closed when this call fails: what is open, the last opened first.
    fn to_close(self) -> (close: Vec<Resource>)
        ensures
            close@ == self.open_before().reverse(),
    {
        let mut close: Vec<Resource> = Vec::new();
        match self {
            SetupStep::OpenFabric
            | SetupStep::OpenDomain
            | SetupStep::OpenEndpoint
            | SetupStep::OpenCompletionQueue
            | SetupStep::OpenAddressVector => {},
            _ => close.push(Resource::AddressVector),
        }
        match self {
            SetupStep::OpenFabric
            | SetupStep::OpenDomain
            | SetupStep::OpenEndpoint
            | SetupStep::OpenCompletionQueue => {},
            _ => close.push(Resource::CompletionQueue),
        }
        match self {
            SetupStep::OpenFabric | SetupStep::OpenDomain | SetupStep::OpenEndpoint => {},
            _ => close.push(Resource::Endpoint),
        }
        match self {
            SetupStep::OpenFabric | SetupStep::OpenDomain => {},
            _ => close.push(Resource::Domain),
        }
        match self {
            SetupStep::OpenFabric => {},
            _ => close.push(Resource::Fabric),
        }
        assert(close@ =~= self.open_before().reverse());
        close
    }
}

/// An endpoint that is being brought up.
#[derive(Debug)]
pub struct EndpointSetup {
    step: SetupStep,
}

/// How far the endpoint is once a call has succeeded.
pub enum SetupProgress {
    /// There is another call to make.
    Continue(EndpointSetup),
    /// The endpoint is up.
    Ready(FabricEndpoint),
}

/// Why the endpoint cannot be brought up, and what to clear away.
#[derive(Debug, PartialEq, Eq)]
pub struct SetupFailure {
    /// What went wrong.
    pub error: FabricError,
    /// What has to be closed, in this order.
    pub close: Vec<Resource>,
}

impl EndpointSetup {
    /// The call to make next.
    pub closed spec fn spec_step(&self) -> SetupStep {
        self.step
    }

    /// Before the first call.
    pub(crate) fn new() -> (setup: Self)
        ensures
            setup.spec_step() == SetupStep::OpenFabric,
    {
        EndpointSetup { step: SetupStep::OpenFabric }
    }

    /// The call to make next.
    pub fn step(&self) -> (step: SetupStep)
        ensures
            step == self.spec_step(),
    {
        self.step
    }

    /// Takes note of what the call returned. Any code but zero ends the setup.
    pub fn returned(self, ret: i32) -> (progress: Result<SetupProgress, SetupFailure>)
        ensures
            ret != 0 ==> (progress matches Err(failure) && failure.error
                == self.spec_step().error(ret) && failure.close@
                == self.spec_step().open_before().reverse()),
            ret == 0 ==> match self.spec_step().next() {
                Some(next) => progress matches Ok(SetupProgress::Continue(setup))
                    && setup.spec_step() == next,
                None => progress matches Ok(SetupProgress::Ready(endpoint)) && endpoint@
                    == Map::<usize, Operation>::empty(),
            },
    {
        if ret != 0 {
            return Err(
                SetupFailure { error: self.step.report(ret), close: self.step.to_close() },
            );
        }
        match self.step.next_step() {
            Some(step) => Ok(SetupProgress::Continue(EndpointSetup { step })),
            None => Ok(SetupProgress::Ready(FabricEndpoint::new())),
        }
    }
}

/// The order in which the objects of an endpoint that is up are closed.
pub open spec fn endpoint_close_order() -> Seq<Resource> {
    seq![
        Resource::CompletionQueue,
        Resource::AddressVector,
        Resource::Endpoint,
        Resource::Domain,
        Resource::Fabric,
    ]
}

/// The order in which the objects of an endpoint that is up are closed.
pub fn close_order() -> (close: Vec<Resource>)
    ensures
        close@ == endpoint_close_order(),
{
    let close: Vec<Resource> = vec![
        Resource::CompletionQueue,
        Resource::AddressVector,
        Resource::Endpoint,
        Resource::Domain,
        Resource::Fabric,
    ];
    assert(close@ =~= endpoint_close_order());
    close
}

} // verus!
