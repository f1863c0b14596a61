//! What can go wrong, and how it is reported.
use crate::text::{decimal, push_decimal, push_signed_decimal, signed_decimal};
use vstd::prelude::*;
use vstd::string::*;

verus! {

/// A failed step, with the code that libfabric returned where the report shows it.
#[derive(Debug, PartialEq, Eq)]
pub enum FabricError {
    /// `fi_getinfo` found no provider for the hints.
    GetInfo,
    /// `fi_fabric` failed.
    Fabric(i32),
    /// `fi_domain` failed.
    Domain(i32),
    /// `fi_endpoint` failed.
    Endpoint(i32),
    /// `fi_cq_open` failed.
    CqOpen(i32),
    /// `fi_av_open` failed.
    AvOpen(i32),
    /// `fi_ep_bind` failed for the completion queue.
    BindCq(i32),
    /// `fi_ep_bind` failed for the address vector.
    BindAv(i32),
    /// `fi_enable` failed.
    Enable(i32),
    /// `fi_control` gave no wait descriptor.
    Control,
    /// `fi_getname` failed.
    GetName(i32),
    /// `fi_av_insert` did not insert the address.
    AvInsert(i32),
    /// `fi_send` refused the operation.
    Send(isize),
    /// `fi_recv` refused the operation.
    Recv(isize),
    /// The fabric accepted the operation, and it failed later on.
    Completion(i32),
    /// The address is shorter than those of the provider; this is its length.
    ShortAddress(usize),
    /// The operation was dropped without being completed.
    ChannelClosed,
    /// The TCP connection to this address failed.
    Connect(String),
    /// The control port could not be bound.
    Bind(u16),
    /// No client could be accepted.
    Accept,
    /// The length of the local address could not be written.
    SendLength,
    /// The local address could not be written.
    SendPayload,
    /// The length of the peer's address could not be read.
    ReadLength,
    /// The peer's address could not be read.
    ReadPayload,
}

impl FabricError {
    /// The report of this error.
    pub open spec fn text(self) -> Seq<char> {
        match self {
            FabricError::GetInfo => "fi_getinfo failed!"@,
            FabricError::Fabric(ret) => "fi_fabric failed: "@ + signed_decimal(ret as int),
            FabricError::Domain(ret) => "fi_domain failed: "@ + signed_decimal(ret as int),
            FabricError::Endpoint(ret) => "fi_endpoint failed: "@ + signed_decimal(ret as int),
            FabricError::CqOpen(ret) => "fi_cq_open failed: "@ + signed_decimal(ret as int),
            FabricError::AvOpen(ret) => "fi_av_open failed: "@ + signed_decimal(ret as int),
            FabricError::BindCq(ret) => "fi_ep_bind cq failed: "@ + signed_decimal(ret as int),
            FabricError::BindAv(ret) => "fi_ep_bind av failed: "@ + signed_decimal(ret as int),
            FabricError::Enable(ret) => "fi_enable failed: "@ + signed_decimal(ret as int),
            FabricError::Control => "fi_control failed"@,
            FabricError::GetName(ret) => "fi_getname failed: "@ + signed_decimal(ret as int),
            FabricError::AvInsert(ret) => "fi_av_insert failed: "@ + signed_decimal(ret as int),
            FabricError::Send(ret) => "fi_send failed: "@ + signed_decimal(ret as int),
            FabricError::Recv(ret) => "fi_recv failed: "@ + signed_decimal(ret as int),
            FabricError::Completion(err) => "operation failed: "@ + signed_decimal(err as int),
            FabricError::ShortAddress(len) => "peer address too short: "@ + decimal(len as nat),
            FabricError::ChannelClosed => "channel closed"@,
            FabricError::Connect(addr) => "failed to connect to control port "@ + addr@,
            FabricError::Bind(port) => "failed to bind control port "@ + decimal(port as nat),
            FabricError::Accept => "control connection accept failed"@,
            FabricError::SendLength => "failed to send address length"@,
            FabricError::SendPayload => "failed to send address payload"@,
            FabricError::ReadLength => "failed to read address length"@,
            FabricError::ReadPayload => "failed to read address payload"@,
        }
    }

    /// The report of this error, as a text.
    pub fn message(&self) -> (message: String)
        ensures
            message@ == self.text(),
    {
        match self {
            FabricError::GetInfo => "fi_getinfo failed!".to_owned(),
            FabricError::Fabric(ret) => with_code("fi_fabric failed: ", *ret as i64),
            FabricError::Domain(ret) => with_code("fi_domain failed: ", *ret as i64),
            FabricError::Endpoint(ret) => with_code("fi_endpoint failed: ", *ret as i64),
            FabricError::CqOpen(ret) => with_code("fi_cq_open failed: ", *ret as i64),
            FabricError::AvOpen(ret) => with_code("fi_av_open failed: ", *ret as i64),
            FabricError::BindCq(ret) => with_code("fi_ep_bind cq failed: ", *ret as i64),
            FabricError::BindAv(ret) => with_code("fi_ep_bind av failed: ", *ret as i64),
            FabricError::Enable(ret) => with_code("fi_enable failed: ", *ret as i64),
            FabricError::Control => "fi_control failed".to_owned(),
            FabricError::GetName(ret) => with_code("fi_getname failed: ", *ret as i64),
            FabricError::AvInsert(ret) => with_code("fi_av_insert failed: ", *ret as i64),
            FabricError::Send(ret) => with_code("fi_send failed: ", *ret as i64),
            FabricError::Recv(ret) => with_code("fi_recv failed: ", *ret as i64),
            FabricError::Completion(err) => with_code("operation failed: ", *err as i64),
            FabricError::ShortAddress(len) => {
                let mut text = "peer address too short: ".to_owned();
                push_decimal(&mut text, *len as u64);
                text
            },
            FabricError::ChannelClosed => "channel closed".to_owned(),
            FabricError::Connect(addr) => {
                let mut text = "failed to connect to control port ".to_owned();
                text.append(addr.as_str());
                text
            },
            FabricError::Bind(port) => {
                let mut text = "failed to bind control port ".to_owned();
                push_decimal(&mut text, *port as u64);
                text
            },
            FabricError::Accept => "control connection accept failed".to_owned(),
            FabricError::SendLength => "failed to send address length".to_owned(),
            FabricError::SendPayload => "failed to send address payload".to_owned(),
            FabricError::ReadLength => "failed to read address length".to_owned(),
            FabricError::ReadPayload => "failed to read address payload".to_owned(),
        }
    }
}

/// `what` followed by the code `ret`.
fn with_code(what: &str, ret: i64) -> (text: String)
    ensures
        text@ == what@ + signed_decimal(ret as int),
{
    let mut text = what.to_owned();
    push_signed_decimal(&mut text, ret);
    text
}

} // verus!
