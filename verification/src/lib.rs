//! The core of an asynchronous, ownership-based interface to libfabric.
//!
//! Nothing in here talks to libfabric or to the network. Each conversation with them is laid
//! out as steps: a type of this library says what is to be done next, whoever drives it does so
//! and reports back what came of it.
//!
//! - [`builder`] collects what is asked of an endpoint, [`setup`] brings it up.
//! - [`endpoint`] owns the buffers of the transfers under way, from the moment they are prepared
//!   until the fabric refuses or ends them; [`operation`] is the table that holds them,
//!   [`completion`] the reading of the completion queue, [`signal`] the channels on which the
//!   awaiters are told.
//! - [`exchange`] swaps endpoint addresses with a peer over a TCP control channel.
//! - [`laws`] states what holds across calls.
pub mod address;
pub mod buffer;
pub mod builder;
pub mod completion;
pub mod constants;
pub mod endpoint;
pub mod error;
pub mod exchange;
pub mod laws;
pub mod operation;
pub mod setup;
pub mod signal;
pub mod text;

pub use address::{FabricAddress, PeerId};
pub use buffer::{LoanedBuffer, RecvBuffer, SendBuffer};
pub use builder::{CString, FabricEndpointBuilder};
pub use constants::{CONTROL_PORT, DEFAULT_PORT};
pub use endpoint::FabricEndpoint;
pub use error::FabricError;
pub use exchange::AddressExchangeChannel;
