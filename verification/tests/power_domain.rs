use arm_scmi::protocol::power_domain::{
    DomainAttributes, PowerDomainAttributesResponse, PowerDomainId, PowerDomainNameGetResponse,
    PowerDomainProtocolAttributesFlags, PowerState, PowerStateType,
};
use arm_scmi::protocol::Payload;
use arm_scmi::Error;

#[test]
fn power_domain_power_domain_protocol_attributes() {
    let mut attributes = PowerDomainProtocolAttributesFlags::from_bits_retain(0x8fff);

    assert_eq!(attributes.domain_count(), 0x8fff);

    attributes.set_domain_count(0xcdef);
    assert_eq!(attributes.bits(), 0xcdef);
}

#[test]
fn domain_count_keeps_other_bits() {
    let mut attributes = PowerDomainProtocolAttributesFlags::from_bits_retain(0xabcd_1234);
    attributes.set_domain_count(6);
    assert_eq!(attributes.bits(), 0xabcd_0006);
    assert_eq!(attributes.domain_count(), 6);
}

#[test]
fn domain_id() {
    let domain = PowerDomainId::new(0xabcd);

    assert_eq!(domain.to_words(), vec![0xabcd]);
    assert_eq!(domain.id(), 0xabcd);

    let domain = PowerDomainId::from(0x1234);
    assert_eq!(domain.id(), 0x1234);
}

#[test]
fn power_state() {
    let state = PowerState::new(PowerStateType::ContextPreserved, 0x09ab_cdef);

    assert_eq!(state.state_type(), PowerStateType::ContextPreserved);
    assert_eq!(state.state_id(), 0x09ab_cdef);

    let state = PowerState::new(PowerStateType::ContextLost, 0x09ab_cdef);
    assert_eq!(state.bits(), 0x49ab_cdef);

    let state = PowerState::try_from(0x4789_7654).unwrap();
    assert_eq!(state.state_type(), PowerStateType::ContextLost);
    assert_eq!(state.state_id(), 0x0789_7654);

    assert!(PowerState::try_from(0x8000_0000).is_err());
}

#[test]
fn power_state_must_be_zero_bits() {
    assert_eq!(
        Err(Error::InvalidPowerState(0x2000_0000)),
        PowerState::try_from(0x2000_0000)
    );
    assert_eq!(
        Err(Error::InvalidPowerState(0x1000_0001)),
        PowerState::try_from(0x1000_0001)
    );
    let state = PowerState::try_from(0x4fff_ffff).unwrap();
    assert_eq!(
        state,
        PowerState::new(state.state_type(), state.state_id())
    );
    assert_eq!(u32::from(PowerStateType::ContextLost), 0x4000_0000);
    assert_eq!(PowerStateType::from(0x4000_0000), PowerStateType::ContextLost);
    assert_eq!(PowerStateType::from(0xbfff_ffff), PowerStateType::ContextPreserved);
}

#[test]
fn name() {
    let mut response = PowerDomainAttributesResponse {
        attributes: DomainAttributes::default(),
        name: [b'A'; 16],
    };

    response.name[..6].copy_from_slice(b"Hello\0");
    assert_eq!(response.name(), Some("Hello"));
}

#[test]
fn name_without_nul() {
    let response = PowerDomainAttributesResponse {
        attributes: DomainAttributes::from_bits_retain(DomainAttributes::SYNC_SUPPORT),
        name: [b'A'; 16],
    };
    assert_eq!(response.name(), None);
    assert!(response.attributes.contains(DomainAttributes::SYNC_SUPPORT));
    assert!(!response.attributes.contains(DomainAttributes::ASYNC_SUPPORT));
}

#[test]
fn name_not_utf8() {
    let mut response = PowerDomainAttributesResponse {
        attributes: DomainAttributes::default(),
        name: [0; 16],
    };
    response.name[..3].copy_from_slice(&[0xc3, 0x28, 0]);
    assert_eq!(response.name(), None);
    response.name[..4].copy_from_slice(&[0xc3, 0xa9, b't', 0]);
    assert_eq!(response.name(), Some("\u{e9}t"));
    response.name[0] = 0;
    assert_eq!(response.name(), Some(""));
}

#[test]
fn ext_name() {
    let mut response = PowerDomainNameGetResponse {
        flags: 0,
        ext_name: [b'A'; 64],
    };

    response.ext_name[..6].copy_from_slice(b"Hello\0");
    assert_eq!(response.ext_name(), Some("Hello"));
}

#[test]
fn name_wire_form() {
    let mut name = [0u8; 16];
    name[..4].copy_from_slice(b"abcd");
    let response = PowerDomainAttributesResponse {
        attributes: DomainAttributes::from_bits_retain(DomainAttributes::SYNC_SUPPORT),
        name,
    };
    let words = response.to_words();
    assert_eq!(words, vec![0x2000_0000, 0x6463_6261, 0, 0, 0]);
    assert_eq!(PowerDomainAttributesResponse::from_words(&words), response);
    assert_eq!(PowerDomainAttributesResponse::word_count(), 5);
}
