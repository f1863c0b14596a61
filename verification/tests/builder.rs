use libfabric_rs::builder::{GetInfoRequest, NulError};
use libfabric_rs::constants::{FI_DELIVERY_COMPLETE, FI_EP_RDM, FI_MSG, FI_THREAD_SAFE};
use libfabric_rs::setup::SetupStep;
use libfabric_rs::{CString, FabricEndpointBuilder, FabricError};

#[test]
fn new_builder_asks_for_the_default_port_only() {
    let request = FabricEndpointBuilder::new().build();
    assert_eq!(request.service, "9228");
    assert_eq!(request.flags, 0);
    assert_eq!(request.hints.caps, 0);
    assert_eq!(request.hints.mode, 0);
    assert_eq!(request.hints.ep_attr_type, 0);
    assert_eq!(request.hints.tx_attr_op_flags, 0);
    assert_eq!(request.hints.domain_attr_mr_mode, 0);
    assert!(request.hints.fabric_attr_prov_name.is_none());
}

#[test]
fn every_setting_reaches_the_hints() {
    let request = FabricEndpointBuilder::new()
        .port(65535)
        .caps(0xffff_ffff)
        .mode(0x1234_5678_9abc_def0)
        .ep_attr_type(3)
        .tx_attr_op_flags(0x1000_0000)
        .domain_attr_mr_mode(4)
        .fabric_attr_prov_name(CString::new(b"sockets".to_vec()).unwrap())
        .build();
    assert_eq!(request.service, "65535");
    assert_eq!(request.hints.caps, 0xffff_ffff);
    assert_eq!(request.hints.mode, 0x1234_5678_9abc_def0);
    assert_eq!(request.hints.ep_attr_type, 3);
    assert_eq!(request.hints.tx_attr_op_flags, 0x1000_0000);
    assert_eq!(request.hints.domain_attr_mr_mode, 4);
    assert_eq!(request.hints.fabric_attr_prov_name.unwrap().as_bytes(), b"sockets");
}

#[test]
fn registration_modes_keep_their_bits() {
    let request = FabricEndpointBuilder::new().domain_attr_mr_mode(0xffff_ffff).build();
    assert_eq!(request.hints.domain_attr_mr_mode, -1);
    let request = FabricEndpointBuilder::new().domain_attr_mr_mode(0x8000_0000).build();
    assert_eq!(request.hints.domain_attr_mr_mode, i32::MIN);
}

#[test]
fn endpoint_is_always_thread_safe() {
    let request = FabricEndpointBuilder::new().build();
    assert_eq!(request.hints.domain_attr_threading, FI_THREAD_SAFE);
    let request = FabricEndpointBuilder::new().domain_attr_threading(5).build();
    assert_eq!(request.hints.domain_attr_threading, FI_THREAD_SAFE);
}

#[test]
fn last_setting_counts() {
    let request = FabricEndpointBuilder::new().port(1).caps(1).port(0).caps(2).build();
    assert_eq!(request.service, "0");
    assert_eq!(request.hints.caps, 2);
}

#[test]
fn efa_default() {
    let request = FabricEndpointBuilder::build_efa_default();
    assert_eq!(request.service, "9228");
    assert_eq!(request.hints.caps, FI_MSG as u64);
    assert_eq!(request.hints.ep_attr_type, FI_EP_RDM);
    assert_eq!(request.hints.tx_attr_op_flags, FI_DELIVERY_COMPLETE as u64);
    assert_eq!(request.hints.domain_attr_threading, FI_THREAD_SAFE);
    assert_eq!(request.hints.fabric_attr_prov_name.unwrap().as_bytes(), b"efa");
}

#[test]
fn c_string_refuses_a_nul() {
    assert_eq!(CString::new(vec![101, 0, 97, 0]), Err(NulError { position: 1 }));
    assert_eq!(CString::new(vec![0]), Err(NulError { position: 0 }));
    assert_eq!(CString::new(Vec::new()).unwrap().as_bytes(), b"");
}

#[test]
fn getinfo_decides_whether_there_is_a_setup() {
    let setup = GetInfoRequest::returned(0).unwrap();
    assert_eq!(setup.step(), SetupStep::OpenFabric);
    let error = GetInfoRequest::returned(-61).unwrap_err();
    assert_eq!(error, FabricError::GetInfo);
    assert_eq!(error.message(), "fi_getinfo failed!");
}

#[test]
fn settings_may_come_in_any_order() {
    let one = FabricEndpointBuilder::new().caps(2).mode(5).port(7).ep_attr_type(3).build();
    let other = FabricEndpointBuilder::new().ep_attr_type(3).port(7).mode(5).caps(2).build();
    assert_eq!(one.service, other.service);
    assert_eq!(one.hints.caps, other.hints.caps);
    assert_eq!(one.hints.mode, other.hints.mode);
    assert_eq!(one.hints.ep_attr_type, other.hints.ep_attr_type);
}
