use arm_scmi::protocol::base::{
    self, BaseCommandMessageId, BaseProtocolAttributes, DiscoverAgent, DiscoverAgentResponse,
    DiscoverImplementationVersion, DiscoverImplementationVersionResponse, DiscoverListProtocol,
    DiscoverListProtocolResponse, DiscoverSubVendor, DiscoverSubVendorResponse, DiscoverVendor,
    DiscoverVendorResponse, NotifyErrors, NotifyErrorsResponse, ResetAgentConfiguration,
    ResetAgentConfigurationFlags, ResetAgentConfigurationResponse, SetDevicePermission,
    SetDevicePermissionResponse, SetPermissionFlags, SetProtocolPermissions,
    SetProtocolPermissionsCommand, SetProtocolPermissionsResponse,
};
use arm_scmi::protocol::power_domain::{
    self, DomainAttributes, PowerDomainAttributes, PowerDomainAttributesResponse,
    PowerDomainCommandMessageId, PowerDomainId, PowerDomainNameGet, PowerDomainNameGetResponse,
    PowerDomainProtocolAttributes, PowerDomainProtocolAttributesFlags, PowerState,
    PowerStateChangeRequestedNotify, PowerStateChangeRequestedNotifyResponse, PowerStateGet,
    PowerStateGetResponse, PowerStateNotify, PowerStateNotifyResponse, PowerStateSet,
    PowerStateSetFlags, PowerStateSetResponse, PowerStateType,
};
use arm_scmi::protocol::system_power::{
    self, RawSystemState, StandardSystemState, SystemPowerCommandMessageId, SystemPowerStateGet,
    SystemPowerStateGetResponse, SystemPowerStateNotify, SystemPowerStateNotifyResponse,
    SystemPowerStateSet, SystemPowerStateSetFlags, SystemPowerStateSetResponse, SystemState,
};
use arm_scmi::protocol::{
    Command, MessageId, NotifyEnable, Payload, ProtocolId, StandardProtocolId, StandardStatusCode,
    StatusCode, Version,
};
use arm_scmi::transport::{Transport, TransportLog};
use arm_scmi::{Error, ScmiAgent};

struct MockCall {
    id: MessageId,
    request: Vec<u32>,
    response: Result<Vec<u32>, Error>,
}

struct MockTransport {
    calls: Vec<MockCall>,
}

impl MockTransport {
    fn new() -> Self {
        Self { calls: Vec::new() }
    }

    fn new_with_base_protocol() -> Self {
        let mut instance = Self::new();
        instance.add_expected_call(
            DiscoverListProtocol { skip: 0 },
            Ok(DiscoverListProtocolResponse {
                protocols: [0; 4],
                num_protocols: 1,
            }),
        );
        instance
    }

    fn new_with_standard_protocol(standard_protocol_id: StandardProtocolId) -> Self {
        let mut instance = Self::new();
        instance.add_expected_call(
            DiscoverListProtocol { skip: 0 },
            Ok(DiscoverListProtocolResponse {
                protocols: [
                    u8::from(ProtocolId::Standard(standard_protocol_id)) as u32,
                    0,
                    0,
                    0,
                ],
                num_protocols: 1,
            }),
        );
        instance
    }

    fn add_expected_call<C: Command>(&mut self, command: C, response: Result<C::Response, Error>) {
        self.calls.insert(
            0,
            MockCall {
                id: C::id(),
                request: command.to_words(),
                response: response.map(|r| r.to_words()),
            },
        );
    }
}

impl Transport for MockTransport {
    /// The log is specification state of the verified library and is never computed.
    fn log(&self) -> TransportLog {
        unreachable!("the transport log is specification state")
    }

    fn invoke_command<C: Command>(&mut self, command: C) -> Result<C::Response, Error> {
        let call = self.calls.pop().unwrap();
        assert_eq!(call.id, C::id());
        assert_eq!(call.request, command.to_words());
        call.response.map(|words| C::Response::from_words(&words))
    }
}

fn flags_bits(set: bool) -> u32 {
    if set {
        1
    } else {
        0
    }
}

#[test]
fn transport() {
    let mut transport = MockTransport::new();

    transport.add_expected_call(
        DiscoverListProtocol { skip: 0 },
        Ok(DiscoverListProtocolResponse {
            protocols: [0x0000_0011, 0, 0, 0],
            num_protocols: 1,
        }),
    );

    let scmi = ScmiAgent::new(transport);
    assert!(scmi.is_ok());

    let mut scmi = scmi.unwrap();
    assert!(scmi.power_domain_management().is_ok());
    assert!(scmi.system_power_management().is_err());

    let mut transport = MockTransport::new();
    transport.add_expected_call(
        DiscoverListProtocol { skip: 0 },
        Ok(DiscoverListProtocolResponse {
            protocols: [0x0000_0012, 0, 0, 0],
            num_protocols: 1,
        }),
    );

    let scmi = ScmiAgent::new(transport);
    assert!(scmi.is_ok());

    let mut scmi = scmi.unwrap();
    assert!(scmi.power_domain_management().is_err());
    assert!(scmi.system_power_management().is_ok());
}

#[test]
fn transport_protocol_list_packing() {
    // Four identifiers to a word; only `num_protocols` of them are listed.
    let mut transport = MockTransport::new();
    transport.add_expected_call(
        DiscoverListProtocol { skip: 0 },
        Ok(DiscoverListProtocolResponse {
            protocols: [0x1615_1413, 0x0000_1211, 0, 0],
            num_protocols: 5,
        }),
    );
    let mut scmi = ScmiAgent::new(transport).unwrap();
    assert!(scmi.power_domain_management().is_ok());
    assert_eq!(
        Err(Error::ProtocolNotSupported),
        scmi.system_power_management().map(|_| ())
    );

    let mut transport = MockTransport::new();
    transport.add_expected_call(
        DiscoverListProtocol { skip: 0 },
        Err(Error::Status(StatusCode::Standard(StandardStatusCode::Denied))),
    );
    assert_eq!(
        Err(Error::Status(StatusCode::Standard(StandardStatusCode::Denied))),
        ScmiAgent::new(transport).map(|_| ())
    );
}

#[test]
fn base_protocol_version() {
    let mut transport = MockTransport::new_with_base_protocol();

    transport.add_expected_call(
        base::ProtocolVersion {},
        Ok(base::ProtocolVersionResponse {
            version: Version::new(0x1234, 0x5678),
        }),
    );

    let mut scmi = ScmiAgent::new(transport).unwrap();
    let mut base = scmi.base();

    assert_eq!(Ok(Version::new(0x1234, 0x5678)), base.protocol_version());
}

#[test]
fn base_protocol_version_error() {
    let mut transport = MockTransport::new_with_base_protocol();

    transport.add_expected_call(
        base::ProtocolVersion {},
        Err(Error::Status(StatusCode::Standard(
            StandardStatusCode::NotSupported,
        ))),
    );

    let mut scmi = ScmiAgent::new(transport).unwrap();
    let mut base = scmi.base();

    assert_eq!(
        Err(Error::Status(StatusCode::Standard(
            StandardStatusCode::NotSupported,
        ))),
        base.protocol_version()
    );
}

#[test]
fn base_negotiate_protocol_version() {
    let mut transport = MockTransport::new_with_base_protocol();

    transport.add_expected_call(
        base::NegotiateProtocolVersion {
            version: Version::new(0x1234, 0x5678),
        },
        Ok(base::NegotiateProtocolVersionResponse {}),
    );

    let mut scmi = ScmiAgent::new(transport).unwrap();
    let mut base = scmi.base();

    assert_eq!(
        Ok(()),
        base.negotiate_protocol_version(Version::new(0x1234, 0x5678))
    );
}

#[test]
fn base_protocol_attributes() {
    let mut transport = MockTransport::new_with_base_protocol();

    let mut protocol_attributes = BaseProtocolAttributes::default();
    protocol_attributes.set_agent_count(10);
    protocol_attributes.set_protocol_count(20);
    transport.add_expected_call(
        base::ProtocolAttributes {},
        Ok(base::ProtocolAttributesResponse {
            attributes: protocol_attributes,
        }),
    );

    let mut scmi = ScmiAgent::new(transport).unwrap();
    let mut base = scmi.base();

    assert_eq!(Ok(protocol_attributes), base.protocol_attributes());
    assert_eq!(10, protocol_attributes.agent_count());
    assert_eq!(20, protocol_attributes.protocol_count());
    assert_eq!(vec![0x0a14], protocol_attributes.to_words());
}

#[test]
fn base_protocol_message_attributes() {
    let mut transport = MockTransport::new_with_base_protocol();

    transport.add_expected_call(
        base::ProtocolMessageAttributes { message_id: 0x07 },
        Ok(base::ProtocolMessageAttributesResponse {
            attributes: 0xabcd_ef01,
        }),
    );

    let mut scmi = ScmiAgent::new(transport).unwrap();
    let mut base = scmi.base();

    assert_eq!(
        Ok(0xabcd_ef01),
        base.protocol_message_attributes(BaseCommandMessageId::DiscoverAgent)
    );
}

#[test]
fn base_discover_vendor() {
    let mut transport = MockTransport::new_with_base_protocol();

    transport.add_expected_call(
        DiscoverVendor {},
        Ok(DiscoverVendorResponse {
            vendor_identifier: "Hello_World1234\0".as_bytes().try_into().unwrap(),
        }),
    );

    let mut scmi = ScmiAgent::new(transport).unwrap();
    let mut base = scmi.base();

    let vendor = base.discover_vendor().unwrap();
    assert_eq!(Some("Hello_World1234"), vendor.vendor_identifier());
}

#[test]
fn base_discover_sub_vendor() {
    let mut transport = MockTransport::new_with_base_protocol();

    transport.add_expected_call(
        DiscoverSubVendor {},
        Ok(DiscoverSubVendorResponse {
            vendor_identifier: "Hello_World5678\0".as_bytes().try_into().unwrap(),
        }),
    );

    let mut scmi = ScmiAgent::new(transport).unwrap();
    let mut base = scmi.base();

    let sub_vendor = base.discover_sub_vendor().unwrap();
    assert_eq!(Some("Hello_World5678"), sub_vendor.vendor_identifier());
}

#[test]
fn base_implementation_version() {
    let mut transport = MockTransport::new_with_base_protocol();

    transport.add_expected_call(
        DiscoverImplementationVersion {},
        Ok(DiscoverImplementationVersionResponse {
            implementation_version: 0x1234_5678,
        }),
    );

    let mut scmi = ScmiAgent::new(transport).unwrap();
    let mut base = scmi.base();

    assert_eq!(Ok(0x1234_5678), base.implementation_version());
}

#[test]
fn base_discover_protocol_list() {
    let mut transport = MockTransport::new_with_base_protocol();

    transport.add_expected_call(
        DiscoverListProtocol { skip: 4 },
        Ok(DiscoverListProtocolResponse {
            protocols: [0x0000_0011, 0, 0, 0],
            num_protocols: 1,
        }),
    );

    let mut scmi = ScmiAgent::new(transport).unwrap();
    let mut base = scmi.base();

    let protocols = base.discover_list_protocols(4).unwrap();
    assert!(protocols.contains_protocol(ProtocolId::Standard(
        StandardProtocolId::PowerDomainManagement
    )));
}

#[test]
fn base_discover_agent() {
    let mut transport = MockTransport::new_with_base_protocol();

    transport.add_expected_call(
        DiscoverAgent { agent_id: 7 },
        Ok(DiscoverAgentResponse {
            agent_id: 7,
            name: b"agent_012345678\0".as_slice().try_into().unwrap(),
        }),
    );

    let mut scmi = ScmiAgent::new(transport).unwrap();
    let mut base = scmi.base();

    let agent = base.discover_agent(7).unwrap();
    assert_eq!(7, agent.agent_id);
    assert_eq!(Some("agent_012345678"), agent.name());
}

#[test]
fn base_notify_enable() {
    let mut transport = MockTransport::new_with_base_protocol();

    let mut notify_enable = NotifyEnable::empty();
    notify_enable.set(NotifyEnable::ENABLE, true);
    transport.add_expected_call(
        NotifyErrors { notify_enable },
        Ok(NotifyErrorsResponse {}),
    );

    let mut scmi = ScmiAgent::new(transport).unwrap();
    let mut base = scmi.base();

    assert_eq!(Ok(()), base.notify_errors(true));
}

#[test]
fn base_set_device_permissions() {
    let mut transport = MockTransport::new_with_base_protocol();

    let mut device_flags = SetPermissionFlags::empty();
    device_flags.set(SetPermissionFlags::ALLOW, true);
    transport.add_expected_call(
        SetDevicePermission {
            agent_id: 3,
            device_id: 4,
            flags: device_flags,
        },
        Ok(SetDevicePermissionResponse {}),
    );

    let mut scmi = ScmiAgent::new(transport).unwrap();
    let mut base = scmi.base();

    assert_eq!(Ok(()), base.set_device_permissions(3, 4, true));
}

#[test]
fn base_set_protocol_permissions() {
    let mut transport = MockTransport::new_with_base_protocol();

    let mut protocol_flags = SetPermissionFlags::empty();
    protocol_flags.set(SetPermissionFlags::ALLOW, false);
    transport.add_expected_call(
        SetProtocolPermissions {
            agent_id: 5,
            device_id: 6,
            command_id: SetProtocolPermissionsCommand::new(ProtocolId::Standard(
                StandardProtocolId::PowerDomainManagement,
            )),
            flags: protocol_flags,
        },
        Ok(SetProtocolPermissionsResponse {}),
    );

    let mut scmi = ScmiAgent::new(transport).unwrap();
    let mut base = scmi.base();

    assert_eq!(
        Ok(()),
        base.set_protocol_permissions(
            5,
            6,
            ProtocolId::Standard(StandardProtocolId::PowerDomainManagement),
            false
        )
    );
}

#[test]
fn base_reset_agent_configuration() {
    let mut transport = MockTransport::new_with_base_protocol();

    let flags = ResetAgentConfigurationFlags::from_bits_retain(ResetAgentConfigurationFlags::CLEAR);
    transport.add_expected_call(
        ResetAgentConfiguration { agent_id: 9, flags },
        Ok(ResetAgentConfigurationResponse {}),
    );

    let mut scmi = ScmiAgent::new(transport).unwrap();
    let mut base = scmi.base();

    assert_eq!(Ok(()), base.reset_agent_configuration(9, flags));
}

#[test]
fn power_domain_protocol_version() {
    let mut transport =
        MockTransport::new_with_standard_protocol(StandardProtocolId::PowerDomainManagement);

    transport.add_expected_call(
        power_domain::ProtocolVersion {},
        Ok(power_domain::ProtocolVersionResponse {
            version: Version::new(0x1111, 0x2222),
        }),
    );

    let mut scmi = ScmiAgent::new(transport).unwrap();
    let mut power = scmi.power_domain_management().unwrap();

    assert_eq!(Ok(Version::new(0x1111, 0x2222)), power.protocol_version());
}

#[test]
fn power_domain_negotiate_protocol_version() {
    let mut transport =
        MockTransport::new_with_standard_protocol(StandardProtocolId::PowerDomainManagement);

    transport.add_expected_call(
        power_domain::NegotiateProtocolVersion {
            version: Version::new(0x1234, 0x5678),
        },
        Ok(power_domain::NegotiateProtocolVersionResponse {}),
    );

    let mut scmi = ScmiAgent::new(transport).unwrap();
    let mut power = scmi.power_domain_management().unwrap();

    assert_eq!(
        Ok(()),
        power.negotiate_protocol_version(Version::new(0x1234, 0x5678))
    );
}

#[test]
fn lib_power_domain_protocol_attributes() {
    let mut transport =
        MockTransport::new_with_standard_protocol(StandardProtocolId::PowerDomainManagement);

    let mut flags = PowerDomainProtocolAttributesFlags::default();
    flags.set_domain_count(6);

    let attributes = PowerDomainProtocolAttributes {
        attributes: flags,
        statistics_address_low: 0x1234_5678,
        statistics_address_high: 0xabcd_ef01,
        statistics_len: 0x2345_6789,
    };

    transport.add_expected_call(
        power_domain::ProtocolAttributes {},
        Ok(power_domain::ProtocolAttributesResponse {
            attributes: attributes.clone(),
        }),
    );

    let mut scmi = ScmiAgent::new(transport).unwrap();
    let mut power = scmi.power_domain_management().unwrap();

    assert_eq!(Ok(attributes), power.protocol_attributes());
}

#[test]
fn power_domain_protocol_message_attributes() {
    let mut transport =
        MockTransport::new_with_standard_protocol(StandardProtocolId::PowerDomainManagement);

    transport.add_expected_call(
        power_domain::ProtocolMessageAttributes { message_id: 0x05 },
        Ok(power_domain::ProtocolMessageAttributesResponse {
            attributes: 0x1234_5678,
        }),
    );

    let mut scmi = ScmiAgent::new(transport).unwrap();
    let mut power = scmi.power_domain_management().unwrap();

    assert_eq!(
        Ok(0x1234_5678),
        power.protocol_message_attributes(PowerDomainCommandMessageId::StateGet)
    );
}

#[test]
fn power_domain_attributes() {
    let mut transport =
        MockTransport::new_with_standard_protocol(StandardProtocolId::PowerDomainManagement);

    transport.add_expected_call(
        PowerDomainAttributes {
            domain_id: 2u16.into(),
        },
        Ok(PowerDomainAttributesResponse {
            attributes: DomainAttributes::from_bits_retain(DomainAttributes::SYNC_SUPPORT),
            name: b"power_domain123\0".as_slice().try_into().unwrap(),
        }),
    );

    let mut scmi = ScmiAgent::new(transport).unwrap();
    let mut power = scmi.power_domain_management().unwrap();

    let response = power.power_domain_attributes(2).unwrap();
    assert!(response.attributes.contains(DomainAttributes::SYNC_SUPPORT));
    assert_eq!(Some("power_domain123"), response.name());
}

#[test]
fn power_state_set() {
    let mut transport =
        MockTransport::new_with_standard_protocol(StandardProtocolId::PowerDomainManagement);

    let mut flags = PowerStateSetFlags::empty();
    flags.set(PowerStateSetFlags::ASYNC, true);
    let state = PowerState::new(PowerStateType::ContextPreserved, 0x55);
    transport.add_expected_call(
        PowerStateSet {
            flags,
            domain_id: 1u16.into(),
            power_state: state,
        },
        Ok(PowerStateSetResponse {}),
    );

    let mut scmi = ScmiAgent::new(transport).unwrap();
    let mut power = scmi.power_domain_management().unwrap();

    assert_eq!(Ok(()), power.power_state_set(1, state, true));
}

#[test]
fn power_state_get() {
    let mut transport =
        MockTransport::new_with_standard_protocol(StandardProtocolId::PowerDomainManagement);

    let power_state = PowerState::new(PowerStateType::ContextLost, 0x123);
    transport.add_expected_call(
        PowerStateGet {
            domain_id: 4u16.into(),
        },
        Ok(PowerStateGetResponse { power_state }),
    );

    let mut scmi = ScmiAgent::new(transport).unwrap();
    let mut power = scmi.power_domain_management().unwrap();

    assert_eq!(Ok(power_state), power.power_state_get(4));
}

#[test]
fn power_state_notify() {
    let mut transport =
        MockTransport::new_with_standard_protocol(StandardProtocolId::PowerDomainManagement);

    let mut notify_enable = NotifyEnable::empty();
    notify_enable.set(NotifyEnable::ENABLE, true);
    transport.add_expected_call(
        PowerStateNotify {
            domain_id: 7u16.into(),
            notify_enable,
        },
        Ok(PowerStateNotifyResponse {}),
    );

    let mut scmi = ScmiAgent::new(transport).unwrap();
    let mut power = scmi.power_domain_management().unwrap();

    assert_eq!(Ok(()), power.power_state_notify(7, true));
}

#[test]
fn power_state_change_requested_notify() {
    let mut transport =
        MockTransport::new_with_standard_protocol(StandardProtocolId::PowerDomainManagement);

    let mut notify_enable = NotifyEnable::empty();
    notify_enable.set(NotifyEnable::ENABLE, false);
    transport.add_expected_call(
        PowerStateChangeRequestedNotify {
            domain_id: 9u16.into(),
            notify_enable,
        },
        Ok(PowerStateChangeRequestedNotifyResponse {}),
    );

    let mut scmi = ScmiAgent::new(transport).unwrap();
    let mut power = scmi.power_domain_management().unwrap();

    assert_eq!(Ok(()), power.power_state_change_requested_notify(9, false));
}

#[test]
fn power_domain_name_get() {
    let mut transport =
        MockTransport::new_with_standard_protocol(StandardProtocolId::PowerDomainManagement);

    let mut ext_name = [0u8; 64];
    ext_name[..15].copy_from_slice(b"power_domain_01");
    transport.add_expected_call(
        PowerDomainNameGet {
            domain_id: 3u16.into(),
        },
        Ok(PowerDomainNameGetResponse {
            flags: 0x1234_5678,
            ext_name,
        }),
    );

    let mut scmi = ScmiAgent::new(transport).unwrap();
    let mut power = scmi.power_domain_management().unwrap();

    let response = power.power_domain_name_get(3).unwrap();
    assert_eq!(0x1234_5678, response.flags);
    assert_eq!(Some("power_domain_01"), response.ext_name());
}

#[test]
fn system_power_protocol_version() {
    let mut transport =
        MockTransport::new_with_standard_protocol(StandardProtocolId::SystemPowerManagement);

    transport.add_expected_call(
        system_power::ProtocolVersion {},
        Ok(system_power::ProtocolVersionResponse {
            version: Version::new(0xaaaa, 0xbbbb),
        }),
    );

    let mut scmi = ScmiAgent::new(transport).unwrap();
    let mut system_power = scmi.system_power_management().unwrap();

    assert_eq!(
        Ok(Version::new(0xaaaa, 0xbbbb)),
        system_power.protocol_version()
    );
}

#[test]
fn system_power_negotiate_protocol_version() {
    let mut transport =
        MockTransport::new_with_standard_protocol(StandardProtocolId::SystemPowerManagement);

    transport.add_expected_call(
        system_power::NegotiateProtocolVersion {
            version: Version::new(0x1234, 0x5678),
        },
        Ok(system_power::NegotiateProtocolVersionResponse {}),
    );

    let mut scmi = ScmiAgent::new(transport).unwrap();
    let mut system_power = scmi.system_power_management().unwrap();

    assert_eq!(
        Ok(()),
        system_power.negotiate_protocol_version(Version::new(0x1234, 0x5678))
    );
}

#[test]
fn system_power_protocol_attributes() {
    let mut transport =
        MockTransport::new_with_standard_protocol(StandardProtocolId::SystemPowerManagement);

    transport.add_expected_call(
        system_power::ProtocolAttributes {},
        Ok(system_power::ProtocolAttributesResponse {
            attributes: 0xabcd_ef01,
        }),
    );

    let mut scmi = ScmiAgent::new(transport).unwrap();
    let mut system_power = scmi.system_power_management().unwrap();

    assert_eq!(Ok(0xabcd_ef01), system_power.protocol_attributes());
}

#[test]
fn system_power_protocol_message_attributes() {
    let mut transport =
        MockTransport::new_with_standard_protocol(StandardProtocolId::SystemPowerManagement);

    transport.add_expected_call(
        system_power::ProtocolMessageAttributes { message_id: 0x03 },
        Ok(system_power::ProtocolMessageAttributesResponse {
            attributes: 0x5678_9abc,
        }),
    );

    let mut scmi = ScmiAgent::new(transport).unwrap();
    let mut system_power = scmi.system_power_management().unwrap();

    assert_eq!(
        Ok(0x5678_9abc),
        system_power.protocol_message_attributes(SystemPowerCommandMessageId::StateSet)
    );
}

#[test]
fn system_power_state_set() {
    let mut transport =
        MockTransport::new_with_standard_protocol(StandardProtocolId::SystemPowerManagement);

    let mut flags = SystemPowerStateSetFlags::empty();
    flags.set(SystemPowerStateSetFlags::GRACEFUL, true);
    transport.add_expected_call(
        SystemPowerStateSet {
            flags,
            system_state: RawSystemState::from_bits(0x4),
        },
        Ok(SystemPowerStateSetResponse {}),
    );

    let mut scmi = ScmiAgent::new(transport).unwrap();
    let mut system_power = scmi.system_power_management().unwrap();

    assert_eq!(
        Ok(()),
        system_power.system_power_state_set(
            SystemState::Standard(StandardSystemState::SystemSuspend),
            flags
        )
    );
}

#[test]
fn system_power_state_get() {
    let mut transport =
        MockTransport::new_with_standard_protocol(StandardProtocolId::SystemPowerManagement);

    transport.add_expected_call(
        SystemPowerStateGet {},
        Ok(SystemPowerStateGetResponse {
            system_state: RawSystemState::from_bits(0x3),
        }),
    );

    let mut scmi = ScmiAgent::new(transport).unwrap();
    let mut system_power = scmi.system_power_management().unwrap();

    assert_eq!(
        Ok(SystemState::Standard(StandardSystemState::SystemPowerUp)),
        system_power.system_power_state_get()
    );
}

#[test]
fn system_power_state_get_invalid() {
    let mut transport =
        MockTransport::new_with_standard_protocol(StandardProtocolId::SystemPowerManagement);

    transport.add_expected_call(
        SystemPowerStateGet {},
        Ok(SystemPowerStateGetResponse {
            system_state: RawSystemState::from_bits(0x10),
        }),
    );

    let mut scmi = ScmiAgent::new(transport).unwrap();
    let mut system_power = scmi.system_power_management().unwrap();

    assert_eq!(
        Err(Error::InvalidSystemState(0x10)),
        system_power.system_power_state_get()
    );
}

#[test]
fn system_power_state_notify() {
    let mut transport =
        MockTransport::new_with_standard_protocol(StandardProtocolId::SystemPowerManagement);

    let mut notify_enable = NotifyEnable::empty();
    notify_enable.set(NotifyEnable::ENABLE, true);
    transport.add_expected_call(
        SystemPowerStateNotify { notify_enable },
        Ok(SystemPowerStateNotifyResponse {}),
    );

    let mut scmi = ScmiAgent::new(transport).unwrap();
    let mut system_power = scmi.system_power_management().unwrap();

    assert_eq!(Ok(()), system_power.system_power_state_notify(true));
}

#[test]
fn command_wire_forms() {
    let mut flags = PowerStateSetFlags::empty();
    flags.set(PowerStateSetFlags::ASYNC, true);
    let command = PowerStateSet {
        flags,
        domain_id: PowerDomainId::new(3),
        power_state: PowerState::new(PowerStateType::ContextLost, 7),
    };
    assert_eq!(vec![1, 3, 0x4000_0007], command.to_words());
    assert_eq!(
        MessageId::PowerDomainManagement(PowerDomainCommandMessageId::StateSet),
        PowerStateSet::id()
    );
    assert_eq!(flags_bits(true), flags.bits());
    flags.set(PowerStateSetFlags::ASYNC, false);
    assert_eq!(flags_bits(false), flags.bits());
    let list = DiscoverListProtocolResponse::from_words(&[2, 0x1211, 0, 0, 0]);
    assert_eq!(2, list.num_protocols);
    assert_eq!([0x1211, 0, 0, 0], list.protocols);
}

#[test]
fn agent_with_protocol_list() {
    let list = DiscoverListProtocolResponse {
        protocols: [
            u8::from(ProtocolId::Standard(StandardProtocolId::SystemPowerManagement)) as u32,
            0,
            0,
            0,
        ],
        num_protocols: 1,
    };
    let mut scmi = ScmiAgent::with_protocol_list(MockTransport::new(), Ok(list)).unwrap();
    assert!(matches!(scmi.power_domain_management(), Err(Error::ProtocolNotSupported)));
    assert!(scmi.system_power_management().is_ok());
}

#[test]
fn agent_with_protocol_list_error() {
    let result = ScmiAgent::with_protocol_list(MockTransport::new(), Err(Error::ChannelError));
    assert!(matches!(result, Err(Error::ChannelError)));
}
