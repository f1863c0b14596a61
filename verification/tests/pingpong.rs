use libfabric_rs::completion::{CqEntry, CqEvent, CqStep};
use libfabric_rs::constants::FI_MSG;
use libfabric_rs::exchange::{ChannelProgress, ExchangeEvent};
use libfabric_rs::builder::GetInfoRequest;
use libfabric_rs::setup::SetupProgress;
use libfabric_rs::{
    AddressExchangeChannel, CString, FabricAddress, FabricEndpoint, FabricEndpointBuilder, PeerId,
};

const MESSAGE_SIZE: usize = 64;
const PING_COUNT: usize = 10;

fn build() -> FabricEndpoint {
    let request = FabricEndpointBuilder::new()
        .fabric_attr_prov_name(CString::new(b"sockets".to_vec()).unwrap())
        .caps(FI_MSG)
        .build();
    assert_eq!(request.service, "9228");
    let mut setup = GetInfoRequest::returned(0).unwrap();
    loop {
        match setup.returned(0).ok().unwrap() {
            SetupProgress::Continue(next) => setup = next,
            SetupProgress::Ready(endpoint) => return endpoint,
        }
    }
}

fn complete(endpoint: &mut FabricEndpoint, context: usize, len: usize) {
    let event = CqEvent::Read { ret: 1, entry: CqEntry { context, len } };
    let (step, _) = endpoint.read_cq(CqStep::ReadEntry { woken: true }, event);
    assert_eq!(step, CqStep::ReadEntry { woken: true });
}

/// Carries the message of a send to the receive of the other side.
fn carry(
    from: &mut FabricEndpoint,
    to: &mut FabricEndpoint,
    peer: PeerId,
    sent: Vec<u8>,
    mut space: Vec<u8>,
) -> (Vec<u8>, Vec<u8>) {
    let wire = sent.clone();
    space[..wire.len()].copy_from_slice(&wire);
    let (recv_request, recv_outcome) = to.recv(space);
    assert_eq!(to.recv_posted(recv_request.context, 0), Ok(()));
    let (send_request, send_outcome) = from.send_to(peer, sent);
    assert_eq!(send_request.peer, peer);
    assert_eq!(from.send_posted(send_request.context, 0), Ok(()));
    complete(to, recv_request.context, send_request.len);
    complete(from, send_request.context, send_request.len);
    let (loan, len) = FabricEndpoint::recv_finished(recv_outcome.blocking_recv()).unwrap();
    assert_eq!(len, wire.len());
    let received = loan.into_vec();
    let back = FabricEndpoint::send_finished(send_outcome.blocking_recv()).unwrap();
    assert_eq!(back, wire);
    (back, received)
}

fn text(buf: &[u8]) -> String {
    String::from_utf8_lossy(&buf[..16]).trim_end_matches('\0').to_string()
}

fn channel(is_client: bool) -> AddressExchangeChannel {
    let mut setup = if is_client {
        AddressExchangeChannel::connect("127.0.0.1", None)
    } else {
        AddressExchangeChannel::listen(None)
    };
    loop {
        match setup.done(true).unwrap() {
            ChannelProgress::Continue(next) => setup = next,
            ChannelProgress::Open(channel) => return channel,
        }
    }
}

#[test]
fn pingpong_over_a_fabric_in_memory() {
    let mut server = build();
    let mut client = build();

    let server_addr = FabricEndpoint::local_address(0, vec![2; 128], 16).unwrap();
    let client_addr = FabricEndpoint::local_address(0, vec![1; 128], 16).unwrap();
    let mut c = channel(true).exchange(client_addr.clone(), true);
    let mut s = channel(false).exchange(server_addr.clone(), false);
    for _ in 0..2 {
        let bytes = c.outgoing();
        c = c.advance(ExchangeEvent::Wrote).unwrap();
        s = s.advance(ExchangeEvent::Read(bytes)).unwrap();
    }
    for _ in 0..2 {
        let bytes = s.outgoing();
        s = s.advance(ExchangeEvent::Wrote).unwrap();
        c = c.advance(ExchangeEvent::Read(bytes)).unwrap();
    }
    assert_eq!(c.into_peer(), Some(FabricAddress::new(vec![2; 16])));
    assert_eq!(s.into_peer(), Some(FabricAddress::new(vec![1; 16])));
    assert_eq!(FabricEndpoint::check_peer(&server_addr, client_addr.len()), Ok(()));
    let server_peer = FabricEndpoint::insert_peer(1, 0).unwrap();
    let client_peer = FabricEndpoint::insert_peer(1, 0).unwrap();

    let mut client_buf = vec![0u8; MESSAGE_SIZE];
    let mut server_buf = vec![0u8; MESSAGE_SIZE];
    for i in 1..=PING_COUNT {
        let msg = format!("PING {}", i);
        client_buf[..msg.len()].copy_from_slice(msg.as_bytes());
        (client_buf, server_buf) =
            carry(&mut client, &mut server, server_peer, client_buf, server_buf);
        assert_eq!(text(&server_buf), msg);

        server_buf.fill(0);
        let response = format!("PONG {}", i);
        server_buf[..response.len()].copy_from_slice(response.as_bytes());
        (server_buf, client_buf) =
            carry(&mut server, &mut client, client_peer, server_buf, client_buf);
        assert_eq!(text(&client_buf), response);
        client_buf.fill(0);
    }
}
