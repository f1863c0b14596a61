use libfabric_rs::exchange::{
    AddressExchange, ChannelProgress, ChannelSetup, ExchangeEvent, ExchangeStep, LinkStep,
};
use libfabric_rs::{AddressExchangeChannel, FabricAddress, FabricError, CONTROL_PORT};

fn open_channel() -> AddressExchangeChannel {
    match AddressExchangeChannel::connect("127.0.0.1", None).done(true).unwrap() {
        ChannelProgress::Open(channel) => channel,
        ChannelProgress::Continue(_) => panic!("a client needs one step"),
    }
}

fn begin(bytes: &[u8], is_client: bool) -> AddressExchange {
    open_channel().exchange(FabricAddress::new(bytes.to_vec()), is_client)
}

fn bound(setup: ChannelSetup) -> ChannelSetup {
    match setup.done(true).unwrap() {
        ChannelProgress::Continue(setup) => setup,
        ChannelProgress::Open(_) => panic!("a server needs two steps"),
    }
}

#[test]
fn client_connects_to_the_control_port() {
    assert_eq!(CONTROL_PORT, 9229);
    let setup = AddressExchangeChannel::connect("192.168.1.100", None);
    assert_eq!(setup.step(), &LinkStep::Connect("192.168.1.100:9229".to_string()));
    let setup = AddressExchangeChannel::connect("node7", Some(80));
    assert_eq!(setup.step(), &LinkStep::Connect("node7:80".to_string()));
}

#[test]
fn failed_connection_is_reported_with_its_address() {
    let error = AddressExchangeChannel::connect("host", Some(1)).done(false).unwrap_err();
    assert_eq!(error, FabricError::Connect("host:1".to_string()));
    assert_eq!(error.message(), "failed to connect to control port host:1");
}

#[test]
fn server_binds_and_accepts() {
    let setup = AddressExchangeChannel::listen(None);
    assert_eq!(setup.step(), &LinkStep::Bind("0.0.0.0:9229".to_string(), 9229));
    let setup = bound(setup);
    assert_eq!(setup.step(), &LinkStep::Accept);
    assert!(matches!(setup.done(true), Ok(ChannelProgress::Open(_))));
}

#[test]
fn failed_bind_is_reported_with_its_port() {
    let error = AddressExchangeChannel::listen(Some(7000)).done(false).unwrap_err();
    assert_eq!(error, FabricError::Bind(7000));
    assert_eq!(error.message(), "failed to bind control port 7000");
}

#[test]
fn failed_accept_is_reported() {
    let error = bound(AddressExchangeChannel::listen(Some(7000))).done(false).unwrap_err();
    assert_eq!(error, FabricError::Accept);
    assert_eq!(error.message(), "control connection accept failed");
}

#[test]
fn length_is_little_endian() {
    let addr = FabricAddress::new(vec![0; 300]);
    assert_eq!(AddressExchangeChannel::write_address(&addr), vec![44, 1, 0, 0, 0, 0, 0, 0]);
    assert_eq!(AddressExchangeChannel::read_address([44, 1, 0, 0, 0, 0, 0, 0]), 300);
    assert_eq!(AddressExchangeChannel::read_address([0, 0, 0, 0, 1, 0, 0, 0]), 1 << 32);
}

#[test]
fn length_read_is_length_written() {
    for len in [0usize, 1, 16, 255, 256, 70000] {
        let addr = FabricAddress::new(vec![9; len]);
        let bytes = AddressExchangeChannel::write_address(&addr);
        let mut header = [0u8; 8];
        header.copy_from_slice(&bytes);
        assert_eq!(AddressExchangeChannel::read_address(header), len);
    }
}

#[test]
fn client_and_server_swap_addresses() {
    let client = begin(&[1, 2, 3], true);
    let server = begin(&[7, 8], false);
    assert_eq!(client.step(), ExchangeStep::WriteLength);
    assert_eq!(server.step(), ExchangeStep::ReadLength);
    assert_eq!(server.wanted(), 8);
    let server = server.advance(ExchangeEvent::Read(client.outgoing())).unwrap();
    let client = client.advance(ExchangeEvent::Wrote).unwrap();
    assert_eq!(server.step(), ExchangeStep::ReadPayload(3));
    assert_eq!(server.wanted(), 3);
    assert_eq!(client.outgoing(), vec![1, 2, 3]);
    let server = server.advance(ExchangeEvent::Read(client.outgoing())).unwrap();
    let client = client.advance(ExchangeEvent::Wrote).unwrap();
    assert_eq!(client.step(), ExchangeStep::ReadLength);
    assert_eq!(server.step(), ExchangeStep::WriteLength);
    let client = client.advance(ExchangeEvent::Read(server.outgoing())).unwrap();
    let server = server.advance(ExchangeEvent::Wrote).unwrap();
    let client = client.advance(ExchangeEvent::Read(server.outgoing())).unwrap();
    let server = server.advance(ExchangeEvent::Wrote).unwrap();
    assert_eq!(client.step(), ExchangeStep::Done);
    assert_eq!(server.step(), ExchangeStep::Done);
    assert_eq!(client.into_peer(), Some(FabricAddress::new(vec![7, 8])));
    assert_eq!(server.into_peer(), Some(FabricAddress::new(vec![1, 2, 3])));
}

#[test]
fn empty_address_can_be_swapped() {
    let server = begin(&[5], false).advance(ExchangeEvent::Read(vec![0; 8])).unwrap();
    assert_eq!(server.wanted(), 0);
    let server = server.advance(ExchangeEvent::Read(Vec::new())).unwrap();
    let server = server.advance(ExchangeEvent::Wrote).unwrap();
    let server = server.advance(ExchangeEvent::Wrote).unwrap();
    assert_eq!(server.into_peer(), Some(FabricAddress::new(Vec::new())));
}

#[test]
fn what_a_side_writes_is_its_address_once() {
    let mut written = Vec::new();
    let mut client = begin(&[4, 5], true);
    while matches!(client.step(), ExchangeStep::WriteLength | ExchangeStep::WritePayload) {
        written.extend(client.outgoing());
        client = client.advance(ExchangeEvent::Wrote).unwrap();
    }
    assert_eq!(written, vec![2, 0, 0, 0, 0, 0, 0, 0, 4, 5]);
    assert!(client.outgoing().is_empty());
}

#[test]
fn exchange_failures_are_told_apart() {
    let error = begin(&[1], true).advance(ExchangeEvent::WriteFailed).unwrap_err();
    assert_eq!(error.message(), "failed to send address length");
    let client = begin(&[1], true).advance(ExchangeEvent::Wrote).unwrap();
    let error = client.advance(ExchangeEvent::WriteFailed).unwrap_err();
    assert_eq!(error.message(), "failed to send address payload");
    let error = begin(&[1], false).advance(ExchangeEvent::ReadFailed).unwrap_err();
    assert_eq!(error.message(), "failed to read address length");
    let server = begin(&[1], false);
    let server = server.advance(ExchangeEvent::Read(vec![2, 0, 0, 0, 0, 0, 0, 0])).unwrap();
    let error = server.advance(ExchangeEvent::ReadFailed).unwrap_err();
    assert_eq!(error.message(), "failed to read address payload");
}

#[test]
fn short_read_is_a_failure() {
    let error = begin(&[1], false).advance(ExchangeEvent::Read(vec![1; 7])).unwrap_err();
    assert_eq!(error, FabricError::ReadLength);
    let server = begin(&[1], false);
    let server = server.advance(ExchangeEvent::Read(vec![2, 0, 0, 0, 0, 0, 0, 0])).unwrap();
    let error = server.advance(ExchangeEvent::Read(vec![1])).unwrap_err();
    assert_eq!(error, FabricError::ReadPayload);
}

#[test]
fn unfinished_exchange_has_no_peer() {
    assert_eq!(begin(&[1], true).into_peer(), None);
    let client = begin(&[1], true).advance(ExchangeEvent::ReadFailed).unwrap();
    assert_eq!(client.step(), ExchangeStep::WriteLength);
}

#[test]
fn address_is_found_at_the_head_of_a_stream() {
    let mut stream = Vec::new();
    for bytes in [&[1u8, 2, 3][..], &[][..], &[9u8; 20][..]] {
        let addr = FabricAddress::new(bytes.to_vec());
        stream.extend(AddressExchangeChannel::write_address(&addr));
        stream.extend(addr.into_bytes());
    }
    let mut found = Vec::new();
    while !stream.is_empty() {
        let mut server = begin(&[0], false);
        while matches!(server.step(), ExchangeStep::ReadLength | ExchangeStep::ReadPayload(_)) {
            let rest = stream.split_off(server.wanted());
            server = server.advance(ExchangeEvent::Read(stream)).unwrap();
            stream = rest;
        }
        let server = server.advance(ExchangeEvent::Wrote).unwrap();
        let server = server.advance(ExchangeEvent::Wrote).unwrap();
        found.push(server.into_peer().unwrap().into_bytes());
    }
    assert_eq!(found, vec![vec![1, 2, 3], vec![], vec![9; 20]]);
}
