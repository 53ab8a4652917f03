use arm_scmi::protocol::base::{BaseCommandMessageId, SetProtocolPermissionsCommand};
use arm_scmi::protocol::power_domain::PowerDomainCommandMessageId;
use arm_scmi::protocol::system_power::SystemPowerCommandMessageId;
use arm_scmi::protocol::{
    MessageHeader, MessageId, ProtocolId, ResponseWithStatus, StandardProtocolId,
    StandardStatusCode, StatusCode, VendorSpecificProtocolId, Version,
};
use arm_scmi::Error;

#[test]
fn protocol_id() {
    assert_eq!(
        Ok(ProtocolId::Standard(StandardProtocolId::Base)),
        ProtocolId::try_from(0x10)
    );

    assert_eq!(
        Ok(ProtocolId::Standard(StandardProtocolId::SystemTelemetry)),
        ProtocolId::try_from(0x1b)
    );

    assert_eq!(
        Ok(ProtocolId::VendorSpecific(VendorSpecificProtocolId::new(0x80))),
        ProtocolId::try_from(0x80)
    );

    assert!(ProtocolId::try_from(0x0f).is_err());

    assert!(ProtocolId::try_from(0x1c).is_err());

    assert_eq!(0x10_u8, ProtocolId::Standard(StandardProtocolId::Base).into());

    assert_eq!(
        0x15_u8,
        ProtocolId::Standard(StandardProtocolId::SensorManagement).into()
    );

    assert_eq!(
        0xc0_u8,
        ProtocolId::VendorSpecific(VendorSpecificProtocolId::new(0xc0)).into()
    );

    assert!(VendorSpecificProtocolId::try_from(0x10).is_err());
}

#[test]
fn message_header() {
    let base_protocol_version_bits: u32 = (0x3ff << 18) | (0x10 << 10);
    let header = MessageHeader::try_from(base_protocol_version_bits).unwrap();
    assert_eq!(
        MessageId::Base(BaseCommandMessageId::ProtocolVersion),
        header.message_id
    );
    assert_eq!(0x3ff, header.token);

    let invalid_protocol: u32 = (0x3ff << 18) | (0x0f << 10);
    assert!(MessageHeader::try_from(invalid_protocol).is_err());

    let invalid_message_type: u32 = (0x3ff << 18) | (0x10 << 10) | (0b01 << 8);
    assert!(MessageHeader::try_from(invalid_message_type).is_err());

    let invalid_message_id: u32 = (0x3ff << 18) | (0x10 << 10) | 0xff;
    assert!(MessageHeader::try_from(invalid_message_id).is_err());

    let vendor_specific_bits: u32 = (0x3ff << 18) | (0xa0 << 10) | 0xb0;
    let header = MessageHeader::try_from(vendor_specific_bits).unwrap();
    assert_eq!(
        MessageId::VendorSpecific(VendorSpecificProtocolId::new(0xa0), 0xb0),
        header.message_id
    );
    assert_eq!(0x3ff, header.token);

    let header = MessageHeader {
        token: 0x3ff,
        message_id: MessageId::Base(BaseCommandMessageId::DiscoverAgent),
    };
    let power_domain_name_get_bits: u32 = (0x3ff << 18) | (0x10 << 10) | 0x07;
    assert_eq!(power_domain_name_get_bits, header.into());

    let header = MessageHeader {
        token: 0x3ff,
        message_id: MessageId::VendorSpecific(VendorSpecificProtocolId::new(0xc2), 0xd1),
    };
    let vendor_specific_bits: u32 = (0x3ff << 18) | (0xc2 << 10) | 0xd1;
    assert_eq!(vendor_specific_bits, header.into());
}

#[test]
fn response_with_status() {
    let response = ResponseWithStatus::new(-1, 0);

    assert_eq!(
        response.status(),
        Ok(StatusCode::Standard(StandardStatusCode::NotSupported))
    );
}

#[test]
fn message_id() {
    // Base
    assert_eq!(
        (ProtocolId::Standard(StandardProtocolId::Base), 0x01),
        MessageId::Base(BaseCommandMessageId::ProtocolAttributes).into()
    );

    assert_eq!(
        Ok(MessageId::Base(BaseCommandMessageId::ProtocolAttributes)),
        (ProtocolId::Standard(StandardProtocolId::Base), 0x01).try_into()
    );

    assert!(MessageId::try_from((ProtocolId::Standard(StandardProtocolId::Base), 0xff)).is_err());

    // PowerDomainManagement
    assert_eq!(
        (
            ProtocolId::Standard(StandardProtocolId::PowerDomainManagement),
            0x01
        ),
        MessageId::PowerDomainManagement(PowerDomainCommandMessageId::ProtocolAttributes).into()
    );

    assert_eq!(
        Ok(MessageId::PowerDomainManagement(
            PowerDomainCommandMessageId::ProtocolAttributes
        )),
        (
            ProtocolId::Standard(StandardProtocolId::PowerDomainManagement),
            0x01
        )
            .try_into()
    );

    assert!(MessageId::try_from((
        ProtocolId::Standard(StandardProtocolId::PowerDomainManagement),
        0xff
    ))
    .is_err());

    // SystemPowerManagement
    assert_eq!(
        (
            ProtocolId::Standard(StandardProtocolId::SystemPowerManagement),
            0x01
        ),
        MessageId::SystemPowerManagement(SystemPowerCommandMessageId::ProtocolAttributes).into()
    );

    assert_eq!(
        Ok(MessageId::SystemPowerManagement(
            SystemPowerCommandMessageId::ProtocolAttributes
        )),
        (
            ProtocolId::Standard(StandardProtocolId::SystemPowerManagement),
            0x01
        )
            .try_into()
    );

    assert!(MessageId::try_from((
        ProtocolId::Standard(StandardProtocolId::SystemPowerManagement),
        0xff
    ))
    .is_err());

    // Vendor Specific
    assert_eq!(
        (
            ProtocolId::VendorSpecific(VendorSpecificProtocolId::new(0x90)),
            0x96
        ),
        MessageId::VendorSpecific(VendorSpecificProtocolId::new(0x90), 0x96).into()
    );

    assert_eq!(
        Ok(MessageId::VendorSpecific(
            VendorSpecificProtocolId::new(0x90),
            0x96
        )),
        (
            ProtocolId::VendorSpecific(VendorSpecificProtocolId::new(0x90)),
            0x96
        )
            .try_into()
    );

    // Recognized, but not supported
    assert!(MessageId::try_from((
        ProtocolId::Standard(StandardProtocolId::PerformanceDomainManagement),
        0x0
    ))
    .is_err());
}

#[test]
fn version() {
    let version = Version::new(0xabcd, 0x8901);

    assert_eq!(0xabcd, version.major());
    assert_eq!(0x8901, version.minor());

    assert_eq!(0xabcd8901_u32, version.bits());
}

#[test]
fn version_order() {
    assert!(Version::new(1, 0xffff) < Version::new(2, 0));
    assert!(Version::new(2, 1) > Version::new(2, 0));
    assert!(Version::new(3, 4) <= Version::new(3, 4));
    assert_eq!(
        Some(core::cmp::Ordering::Equal),
        Version::new(3, 4).partial_cmp(&Version::new(3, 4))
    );
    assert_eq!(core::cmp::Ordering::Less, Version::new(0, 9).cmp(&Version::new(1, 0)));
    let mut versions = vec![Version::new(2, 0), Version::new(1, 3), Version::new(1, 2)];
    versions.sort();
    assert_eq!(
        vec![Version::new(1, 2), Version::new(1, 3), Version::new(2, 0)],
        versions
    );
}

#[test]
fn status_codes() {
    assert_eq!(0_i32, StatusCode::Standard(StandardStatusCode::Success).into());

    assert_eq!(
        Ok(StatusCode::Standard(StandardStatusCode::Success)),
        0.try_into()
    );

    assert_eq!(
        -12_i32,
        StatusCode::Standard(StandardStatusCode::PartialError).into()
    );

    assert_eq!(
        Ok(StatusCode::Standard(StandardStatusCode::PartialError)),
        (-12).try_into()
    );

    assert_eq!(-128_i32, StatusCode::VendorSpecific(-128).into());

    assert_eq!(Ok(StatusCode::VendorSpecific(-128)), (-128).try_into());
}

#[test]
fn status_code_errors() {
    assert_eq!(
        Err(Error::InvalidStatusCode(-13)),
        StatusCode::try_from(-13)
    );
    assert_eq!(
        Err(Error::InvalidStatusCode(-127)),
        StatusCode::try_from(-127)
    );
    assert_eq!(Err(Error::InvalidStatusCode(1)), StatusCode::try_from(1));
    assert_eq!(
        Ok(StatusCode::VendorSpecific(i32::MIN)),
        StatusCode::try_from(i32::MIN)
    );
}

#[test]
fn status_code_roundtrip_all() {
    for v in -200..=20 {
        if let Ok(code) = StatusCode::try_from(v) {
            assert_eq!(v, i32::from(code));
        }
    }
    for code in [
        StandardStatusCode::Success,
        StandardStatusCode::NotSupported,
        StandardStatusCode::InvalidParameters,
        StandardStatusCode::Denied,
        StandardStatusCode::NotFound,
        StandardStatusCode::OutOfRange,
        StandardStatusCode::Busy,
        StandardStatusCode::CommsError,
        StandardStatusCode::GenericError,
        StandardStatusCode::HardwareError,
        StandardStatusCode::ProtocolError,
        StandardStatusCode::InUse,
        StandardStatusCode::PartialError,
    ] {
        let s = StatusCode::Standard(code);
        assert_eq!(Ok(s), StatusCode::try_from(i32::from(s)));
    }
}

#[test]
fn protocol_id_roundtrip_all() {
    for v in 0..=255u8 {
        match ProtocolId::try_from(v) {
            Ok(id) => assert_eq!(v, u8::from(id)),
            Err(e) => {
                assert_eq!(Error::InvalidProtocolId(v), e);
                assert!(v < 0x10 || (0x1c..0x80).contains(&v));
            }
        }
    }
}

#[test]
fn message_header_errors() {
    // The protocol identifier is checked before the message type.
    assert_eq!(
        Err(Error::InvalidProtocolId(0x0f)),
        MessageHeader::try_from((0x0f << 10) | (0b10 << 8))
    );
    assert_eq!(
        Err(Error::InvalidMessageType(3)),
        MessageHeader::try_from((0x10 << 10) | (0b11 << 8) | 0xff)
    );
    assert_eq!(
        Err(Error::InvalidMessageId(0xff)),
        MessageHeader::try_from((0x10 << 10) | 0xff)
    );
    assert_eq!(
        Err(Error::ProtocolNotSupported),
        MessageHeader::try_from(0x13 << 10)
    );
}

#[test]
fn message_header_roundtrip() {
    // Bits 31..28 are not read.
    let bits: u32 = 0xf000_0000 | (0x155 << 18) | (0x11 << 10) | 0x08;
    let header = MessageHeader::try_from(bits).unwrap();
    assert_eq!(
        MessageId::PowerDomainManagement(PowerDomainCommandMessageId::DomainNameGet),
        header.message_id
    );
    assert_eq!(0x155, header.token);
    assert_eq!(bits & 0x0fff_ffff, u32::from(header));
    assert_eq!(Ok(header), MessageHeader::try_from(u32::from(header)));
}

#[test]
fn set_protocol_permissions_command() {
    let id = ProtocolId::Standard(StandardProtocolId::SystemPowerManagement);
    assert_eq!(Ok(id), SetProtocolPermissionsCommand::new(id).protocol_id());
    let id = ProtocolId::VendorSpecific(VendorSpecificProtocolId::new(0xfe));
    assert_eq!(Ok(id), SetProtocolPermissionsCommand::new(id).protocol_id());
}

#[test]
fn vendor_specific_protocol_id() {
    assert!(VendorSpecificProtocolId::is_vendor_specific(0x80));
    assert!(!VendorSpecificProtocolId::is_vendor_specific(0x7f));
    assert_eq!(0xab_u8, u8::from(VendorSpecificProtocolId::new(0xab)));
}

#[test]
fn identifiers_are_valid() {
    let id = VendorSpecificProtocolId::new(0x80);
    id.establish_valid();
    ProtocolId::VendorSpecific(id).establish_valid();
    ProtocolId::Standard(StandardProtocolId::Base).establish_valid();
    MessageId::VendorSpecific(id, 3).establish_valid();
    MessageId::Base(BaseCommandMessageId::ProtocolVersion).establish_valid();
    assert_eq!(0x80_u8, u8::from(ProtocolId::VendorSpecific(id)));
}
