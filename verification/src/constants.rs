//! Ports of the library and the libfabric numbers that its requests carry.
use vstd::prelude::*;

verus! {

/// Default TCP port for the control channel (address exchange).
pub const CONTROL_PORT: u16 = 9229;

/// Default service port of a new endpoint.
pub const DEFAULT_PORT: u16 = 9228;

/// Capability bit: message queue transfers.
pub const FI_MSG: u32 = 0x2;

/// Bind flag: the queue reports receive completions.
pub const FI_RECV: u32 = 0x400;

/// Bind flag: the queue reports send completions.
pub const FI_SEND: u32 = 0x800;

/// Operation flag: a send completes once the peer has the data.
pub const FI_DELIVERY_COMPLETE: u32 = 0x1000_0000;

/// Endpoint type: reliable datagram.
pub const FI_EP_RDM: u32 = 3;

/// Threading level: every object may be used from several threads at once.
pub const FI_THREAD_SAFE: u32 = 1;

/// Address vector type: peers are named by opaque handles.
pub const FI_AV_MAP: u32 = 1;

/// Completion entry format with context, flags, length, buffer and data.
pub const FI_CQ_FORMAT_DATA: u32 = 3;

/// Wait object: a file descriptor.
pub const FI_WAIT_FD: u32 = 3;

/// What a read of an empty completion queue returns: `FI_EAGAIN`, negated.
pub const EAGAIN_ERROR: isize = -11;

/// What a read of the completion queue returns when a failed operation heads it: `FI_EAVAIL`,
/// negated.
pub const EAVAIL_ERROR: isize = -259;

/// How many peers an address vector is sized for.
pub const AV_COUNT: usize = 64;

/// How many entries a completion queue is sized for.
pub const CQ_SIZE: usize = 128;

/// How many bytes are set aside for the name of an endpoint.
pub const NAME_CAPACITY: usize = 128;

/// How many bytes announce the length of an address on the control channel.
pub const LENGTH_BYTES: usize = 8;

} // verus!
