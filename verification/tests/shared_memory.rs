use arm_scmi::protocol::base::{self, SetPermissionFlags, SetProtocolPermissionsCommand};
use arm_scmi::protocol::power_domain;
use arm_scmi::protocol::system_power::SystemPowerCommandMessageId;
use arm_scmi::protocol::{
    Command, MessageHeader, NotifyEnable, Payload, MessageId, ProtocolId, StandardStatusCode, StatusCode,
    VendorSpecificProtocolId, Version,
};
use arm_scmi::transport::shared_memory::{
    complete_command, payload_word_count, prepare_command, read_response, ChannelStatus,
    SharedMemoryHeader, HEADER_SIZE,
};
use arm_scmi::Error;

const WORD_COUNT: usize = 16;
const CHANNEL_STATUS_OFFSET: usize = 1;
const CHANNEL_FLAGS_OFFSET: usize = 4;
const LENGTH_OFFSET: usize = 5;
const MSG_HEADER_OFFSET: usize = 6;
const MSG_PAYLOAD_OFFSET: usize = 7;

/// A channel over a buffer of words, on which `hook` plays the platform.
fn invoke<C: Command, F: FnMut(&mut [u32])>(
    buffer: &mut [u32; WORD_COUNT],
    command: C,
    mut hook: F,
) -> Result<C::Response, Error> {
    let header_words = HEADER_SIZE / 4;
    buffer[..header_words].copy_from_slice(&SharedMemoryHeader::new_free().to_words());
    let max_payload_length = (WORD_COUNT - header_words) * 4;
    let (header, payload) = prepare_command(&command, max_payload_length)?;
    buffer[header_words..header_words + payload.len()].copy_from_slice(&payload);
    buffer[..header_words].copy_from_slice(&header.to_words());
    hook(buffer);
    let header = SharedMemoryHeader::from_words(&buffer[..header_words]);
    let (result, status) = complete_command::<C>(&header, &buffer[header_words..]);
    if let Some(status) = status {
        buffer[CHANNEL_STATUS_OFFSET] = status.bits();
    }
    result
}

#[test]
fn header_size() {
    assert_eq!(0x1c, HEADER_SIZE);
    assert_eq!(HEADER_SIZE, SharedMemoryHeader::new_free().to_words().len() * 4);
}

#[test]
fn header_fields() {
    let free = SharedMemoryHeader::new_free();
    assert_eq!(vec![0, 1, 0, 0, 0, 4, 0], free.to_words());
    assert!(free.channel_status().contains(ChannelStatus::FREE));

    let busy = SharedMemoryHeader::new_mark_busy(
        MessageId::Base(base::BaseCommandMessageId::DiscoverAgent),
        8,
        0x12,
    );
    assert_eq!(
        vec![0, 0, 0, 0, 0, 8, (0x12 << 18) | (0x10 << 10) | 0x07],
        busy.to_words()
    );
    assert_eq!(8, busy.length());
    assert_eq!(
        Ok(MessageHeader {
            token: 0x12,
            message_id: MessageId::Base(base::BaseCommandMessageId::DiscoverAgent),
        }),
        busy.message_header()
    );
    let short = SharedMemoryHeader::from_words(&[0, 1, 0, 0, 0, 3, 0x10 << 10]);
    assert_eq!(Err(Error::ResponseTooShort), short.message_header());
    assert_eq!(short, SharedMemoryHeader::from_words(&short.to_words()));
}

#[test]
fn invoke_command() {
    let mut buffer = [0u32; WORD_COUNT];
    let version = invoke(&mut buffer, base::ProtocolVersion {}, |buffer| {
        assert_eq!(0, buffer[CHANNEL_STATUS_OFFSET]);
        assert_eq!(0, buffer[CHANNEL_FLAGS_OFFSET]);
        assert_eq!(4, buffer[LENGTH_OFFSET]);
        assert_eq!((0x10 << 10), buffer[MSG_HEADER_OFFSET]);

        buffer[CHANNEL_STATUS_OFFSET] = 0x1;
        buffer[LENGTH_OFFSET] = 0xc;
        buffer[MSG_PAYLOAD_OFFSET] = 0;
        buffer[MSG_PAYLOAD_OFFSET + 1] = 0x1234_5678;
    })
    .unwrap();
    assert_eq!(Version::new(0x1234, 0x5678), version.version);
}

#[test]
fn invoke_command_with_payload() {
    let mut buffer = [0u32; WORD_COUNT];
    let agent = invoke(&mut buffer, base::DiscoverAgent { agent_id: 0xffff_ffff }, |buffer| {
        assert_eq!(8, buffer[LENGTH_OFFSET]);
        assert_eq!((0x10 << 10) | 0x07, buffer[MSG_HEADER_OFFSET]);
        assert_eq!(0xffff_ffff, buffer[MSG_PAYLOAD_OFFSET]);

        buffer[CHANNEL_STATUS_OFFSET] = 0x1;
        buffer[LENGTH_OFFSET] = 4 + 4 + 4 + 16;
        buffer[MSG_PAYLOAD_OFFSET] = 0;
        buffer[MSG_PAYLOAD_OFFSET + 1] = 3;
        buffer[MSG_PAYLOAD_OFFSET + 2] = u32::from_le_bytes(*b"OSPM");
        buffer[MSG_PAYLOAD_OFFSET + 3] = 0;
    })
    .unwrap();
    assert_eq!(3, agent.agent_id);
    assert_eq!(Some("OSPM"), agent.name());
}

#[test]
fn command_length_limits() {
    let command = base::SetProtocolPermissions {
        agent_id: 1,
        device_id: 2,
        command_id: SetProtocolPermissionsCommand::new(ProtocolId::VendorSpecific(
            VendorSpecificProtocolId::new(0xfc),
        )),
        flags: SetPermissionFlags::empty(),
    };
    assert_eq!(
        Err(Error::PayloadExceedsMaxSize),
        prepare_command(&command, 15).map(|_| ())
    );
    let (header, payload) = prepare_command(&command, 16).unwrap();
    assert_eq!(20, header.length());
    assert_eq!(vec![1, 2, 0xfc, 0], payload);
    assert_eq!(
        Ok(MessageId::Base(base::BaseCommandMessageId::SetProtocolPermissions)),
        header.message_header().map(|h| h.message_id)
    );
    // A response that cannot fit in the payload area is refused.
    let mut buffer = [0u32; WORD_COUNT];
    assert_eq!(
        Err(Error::PayloadExceedsMaxSize),
        invoke(
            &mut buffer,
            power_domain::PowerDomainNameGet {
                domain_id: power_domain::PowerDomainId::new(1),
            },
            |buffer| {
                buffer[CHANNEL_STATUS_OFFSET] = 0x1;
                buffer[LENGTH_OFFSET] = 4 + 4 + 4 + 64;
            },
        )
        .map(|_| ())
    );
}

/// A vendor specific command of 32 words, more than the payload area holds.
struct LongCommand {
    buffer: [u32; 32],
}

impl Payload for LongCommand {
    fn spec_word_count() -> vstd::prelude::nat {
        unreachable!("specification function")
    }

    fn spec_words(&self) -> vstd::prelude::Seq<u32> {
        unreachable!("specification function")
    }

    fn lemma_words(&self, _other: &Self) {
        unreachable!("proof function")
    }

    fn word_count() -> usize {
        32
    }

    fn carried_word_count(_first: u32) -> u64 {
        32
    }

    fn to_words(&self) -> Vec<u32> {
        self.buffer.to_vec()
    }

    fn from_words(words: &[u32]) -> Self {
        let mut buffer = [0u32; 32];
        buffer.copy_from_slice(words);
        Self { buffer }
    }
}

impl Command for LongCommand {
    type Response = base::NotifyErrorsResponse;

    fn spec_id() -> MessageId {
        unreachable!("specification function")
    }

    fn id() -> MessageId {
        MessageId::VendorSpecific(VendorSpecificProtocolId::new(0xfc), 0xba)
    }
}

#[test]
fn command_too_long() {
    let mut buffer = [0u32; WORD_COUNT];
    assert_eq!(
        Err(Error::PayloadExceedsMaxSize),
        invoke(&mut buffer, LongCommand { buffer: [0; 32] }, |_buffer| {}).map(|_| ())
    );
}

#[test]
fn response_too_long() {
    let mut buffer = [0u32; WORD_COUNT];
    assert_eq!(
        Err(Error::PayloadExceedsMaxSize),
        invoke(&mut buffer, base::ProtocolVersion {}, |buffer| {
            buffer[CHANNEL_STATUS_OFFSET] = 0x1;
            buffer[LENGTH_OFFSET] = 0xffff_ffff;
        })
        .map(|_| ())
    );
}

#[test]
fn response_length_errors() {
    let mut buffer = [0u32; WORD_COUNT];
    // Shorter than the message header.
    assert_eq!(
        Err(Error::LengthOverflow),
        invoke(&mut buffer, base::ProtocolVersion {}, |buffer| {
            buffer[CHANNEL_STATUS_OFFSET] = 0x1;
            buffer[LENGTH_OFFSET] = 3;
        })
        .map(|_| ())
    );
    // An error status alone, where a status and a version are expected: the status is reported.
    assert_eq!(
        Err(Error::Status(StatusCode::Standard(
            StandardStatusCode::NotSupported
        ))),
        invoke(&mut buffer, base::ProtocolVersion {}, |buffer| {
            buffer[CHANNEL_STATUS_OFFSET] = 0x1;
            buffer[LENGTH_OFFSET] = 8;
            buffer[MSG_PAYLOAD_OFFSET] = 0xffff_ffff;
        })
        .map(|_| ())
    );
    // A success status alone, where a status and a version are expected, is too short.
    assert_eq!(
        Err(Error::PayloadExceedsMaxSize),
        invoke(&mut buffer, base::ProtocolVersion {}, |buffer| {
            buffer[CHANNEL_STATUS_OFFSET] = 0x1;
            buffer[LENGTH_OFFSET] = 8;
            buffer[MSG_PAYLOAD_OFFSET] = 0;
        })
        .map(|_| ())
    );
    // A success status alone is the whole response of a command whose response is empty.
    assert_eq!(
        Ok(()),
        invoke(&mut buffer, base::NotifyErrors { notify_enable: NotifyEnable::empty() }, |buffer| {
            buffer[CHANNEL_STATUS_OFFSET] = 0x1;
            buffer[LENGTH_OFFSET] = 8;
            buffer[MSG_PAYLOAD_OFFSET] = 0;
        })
        .map(|_| ())
    );
    // A length between a status alone and a full response is refused.
    assert_eq!(
        Err(Error::PayloadExceedsMaxSize),
        invoke(&mut buffer, base::DiscoverAgent { agent_id: 1 }, |buffer| {
            buffer[CHANNEL_STATUS_OFFSET] = 0x1;
            buffer[LENGTH_OFFSET] = 12;
            buffer[MSG_PAYLOAD_OFFSET] = 0xffff_ffff;
        })
        .map(|_| ())
    );
}

#[test]
fn status_only_error_response() {
    let header = SharedMemoryHeader::from_words(&[
        0,
        1,
        0,
        0,
        0,
        8,
        u32::from(MessageHeader {
            token: 0,
            message_id: MessageId::Base(base::BaseCommandMessageId::DiscoverAgent),
        }),
    ]);
    let mut payload = [0u32; 9];
    payload[0] = (-2i32) as u32;
    assert_eq!(
        Err(Error::Status(StatusCode::Standard(
            StandardStatusCode::InvalidParameters
        ))),
        read_response::<base::DiscoverAgent>(&header, &payload).map(|_| ())
    );
}

#[test]
fn channel_error_is_cleared() {
    let mut buffer = [0u32; WORD_COUNT];
    assert_eq!(
        Err(Error::ChannelError),
        invoke(&mut buffer, base::ProtocolVersion {}, |buffer| {
            buffer[CHANNEL_STATUS_OFFSET] = 0x1 | 0x2;
            buffer[LENGTH_OFFSET] = 0xc;
        })
        .map(|_| ())
    );
    assert_eq!(0x1, buffer[CHANNEL_STATUS_OFFSET]);
    let header = SharedMemoryHeader::from_words(&[0, 0x3, 0, 0, 0, 0xc, 0x10 << 10]);
    let (result, status) = complete_command::<base::ProtocolVersion>(&header, &[0, 0]);
    assert_eq!(Err(Error::ChannelError), result.map(|_| ()));
    assert_eq!(Some(ChannelStatus::from_bits_retain(0x1)), status);
    let header = SharedMemoryHeader::from_words(&[0, 0x1, 0, 0, 0, 0xc, 0x10 << 10]);
    let (result, status) = complete_command::<base::ProtocolVersion>(&header, &[0, 0x0002_0001]);
    assert_eq!(Version::new(2, 1), result.unwrap().version);
    assert_eq!(None, status);
}

#[test]
fn payload_words_of_area() {
    assert_eq!(Some(9), payload_word_count(64));
    assert_eq!(Some(1), payload_word_count(HEADER_SIZE + 4));
    assert_eq!(None, payload_word_count(HEADER_SIZE));
    assert_eq!(None, payload_word_count(HEADER_SIZE + 6));
}

#[test]
fn invalid_response_id() {
    let mut buffer = [0u32; WORD_COUNT];
    assert_eq!(
        Err(Error::UnexpectedResponse(MessageId::SystemPowerManagement(
            SystemPowerCommandMessageId::ProtocolVersion
        ))),
        invoke(&mut buffer, base::ProtocolVersion {}, |buffer| {
            buffer[CHANNEL_STATUS_OFFSET] = 0x1;
            buffer[LENGTH_OFFSET] = 0xc;
            buffer[MSG_HEADER_OFFSET] = 0x12 << 10;
        })
        .map(|_| ())
    );
}

#[test]
fn invalid_token() {
    let mut buffer = [0u32; WORD_COUNT];
    assert_eq!(
        Err(Error::UnexpectedToken(0xab)),
        invoke(&mut buffer, base::ProtocolVersion {}, |buffer| {
            buffer[CHANNEL_STATUS_OFFSET] = 0x1;
            buffer[LENGTH_OFFSET] = 0xc;
            buffer[MSG_HEADER_OFFSET] |= 0xab << 18;
        })
        .map(|_| ())
    );
}

#[test]
fn invalid_response_header() {
    let mut buffer = [0u32; WORD_COUNT];
    assert_eq!(
        Err(Error::InvalidMessageType(1)),
        invoke(&mut buffer, base::ProtocolVersion {}, |buffer| {
            buffer[CHANNEL_STATUS_OFFSET] = 0x1;
            buffer[LENGTH_OFFSET] = 0xc;
            buffer[MSG_HEADER_OFFSET] = (0x11 << 10) | (1 << 8);
        })
        .map(|_| ())
    );
}

#[test]
fn status_error() {
    let mut buffer = [0u32; WORD_COUNT];
    assert_eq!(
        Err(Error::Status(StatusCode::Standard(
            StandardStatusCode::NotSupported
        ))),
        invoke(&mut buffer, base::ProtocolVersion {}, |buffer| {
            buffer[CHANNEL_STATUS_OFFSET] = 0x1;
            buffer[LENGTH_OFFSET] = 0xc;
            buffer[MSG_PAYLOAD_OFFSET] = 0xffff_ffff;
            buffer[MSG_PAYLOAD_OFFSET + 1] = 0x1234_5678;
        })
        .map(|_| ())
    );
}

#[test]
fn invalid_status_code() {
    let mut buffer = [0u32; WORD_COUNT];
    assert_eq!(
        Err(Error::InvalidStatusCode(-20)),
        invoke(&mut buffer, base::ProtocolVersion {}, |buffer| {
            buffer[CHANNEL_STATUS_OFFSET] = 0x1;
            buffer[LENGTH_OFFSET] = 0xc;
            buffer[MSG_PAYLOAD_OFFSET] = (-20i32) as u32;
        })
        .map(|_| ())
    );
}

#[test]
fn channel_error() {
    let mut buffer = [0u32; WORD_COUNT];
    assert_eq!(
        Err(Error::ChannelError),
        invoke(&mut buffer, base::ProtocolVersion {}, |buffer| {
            buffer[CHANNEL_STATUS_OFFSET] = 0x3;
            buffer[LENGTH_OFFSET] = 0xc;
            buffer[MSG_PAYLOAD_OFFSET] = 0;
            buffer[MSG_PAYLOAD_OFFSET + 1] = 0x1234_5678;
        })
        .map(|_| ())
    );
    assert_eq!(0x1, buffer[CHANNEL_STATUS_OFFSET]);
}

#[test]
fn discover_list_protocols_variable_length() {
    let mut buffer = [0u32; WORD_COUNT];
    // One protocol: the count and one word of identifiers.
    let list = invoke(&mut buffer, base::DiscoverListProtocol { skip: 0 }, |buffer| {
        assert_eq!(8, buffer[LENGTH_OFFSET]);
        buffer[CHANNEL_STATUS_OFFSET] = 0x1;
        buffer[LENGTH_OFFSET] = 4 + 4 + 8;
        buffer[MSG_PAYLOAD_OFFSET] = 0;
        buffer[MSG_PAYLOAD_OFFSET + 1] = 1;
        buffer[MSG_PAYLOAD_OFFSET + 2] = 0x11;
        buffer[MSG_PAYLOAD_OFFSET + 3] = 0xdead_beef;
    })
    .unwrap();
    assert_eq!(1, list.num_protocols);
    assert_eq!([0x11, 0, 0, 0], list.protocols);
    assert_eq!(vec![0x11], list.iter());

    // Five protocols: the count and two words of identifiers.
    let mut buffer = [0u32; WORD_COUNT];
    let list = invoke(&mut buffer, base::DiscoverListProtocol { skip: 0 }, |buffer| {
        buffer[CHANNEL_STATUS_OFFSET] = 0x1;
        buffer[LENGTH_OFFSET] = 4 + 4 + 12;
        buffer[MSG_PAYLOAD_OFFSET] = 0;
        buffer[MSG_PAYLOAD_OFFSET + 1] = 5;
        buffer[MSG_PAYLOAD_OFFSET + 2] = 0x1514_1312;
        buffer[MSG_PAYLOAD_OFFSET + 3] = 0x16;
    })
    .unwrap();
    assert_eq!([0x1514_1312, 0x16, 0, 0], list.protocols);
    assert_eq!(vec![0x12, 0x13, 0x14, 0x15, 0x16], list.iter());

    // A length that does not match the count is refused.
    let mut buffer = [0u32; WORD_COUNT];
    assert_eq!(
        Err(Error::PayloadExceedsMaxSize),
        invoke(&mut buffer, base::DiscoverListProtocol { skip: 0 }, |buffer| {
            buffer[CHANNEL_STATUS_OFFSET] = 0x1;
            buffer[LENGTH_OFFSET] = 4 + 4 + 20;
            buffer[MSG_PAYLOAD_OFFSET] = 0;
            buffer[MSG_PAYLOAD_OFFSET + 1] = 1;
        })
        .map(|_| ())
    );

    // More protocols than a response holds are refused.
    let mut buffer = [0u32; WORD_COUNT];
    assert_eq!(
        Err(Error::PayloadExceedsMaxSize),
        invoke(&mut buffer, base::DiscoverListProtocol { skip: 0 }, |buffer| {
            buffer[CHANNEL_STATUS_OFFSET] = 0x1;
            buffer[LENGTH_OFFSET] = 4 + 4 + 24;
            buffer[MSG_PAYLOAD_OFFSET] = 0;
            buffer[MSG_PAYLOAD_OFFSET + 1] = 17;
        })
        .map(|_| ())
    );

    // An error status alone is reported.
    let mut buffer = [0u32; WORD_COUNT];
    assert_eq!(
        Err(Error::Status(StatusCode::Standard(StandardStatusCode::Denied))),
        invoke(&mut buffer, base::DiscoverListProtocol { skip: 0 }, |buffer| {
            buffer[CHANNEL_STATUS_OFFSET] = 0x1;
            buffer[LENGTH_OFFSET] = 4 + 4;
            buffer[MSG_PAYLOAD_OFFSET] = (-3i32) as u32;
        })
        .map(|_| ())
    );
}

#[test]
fn header_from_words_fields() {
    let header = SharedMemoryHeader::from_words(&[0, 0x3, 0, 0, 0x1, 0x10, 0x12 << 10]);
    assert_eq!(ChannelStatus::from_bits_retain(0x3), header.channel_status());
    assert!(header.channel_status().contains(ChannelStatus::ERROR));
    assert_eq!(0x10, header.length());
    assert_eq!(
        Ok(MessageHeader {
            token: 0,
            message_id: MessageId::SystemPowerManagement(SystemPowerCommandMessageId::ProtocolVersion),
        }),
        header.message_header()
    );
    assert_eq!(vec![0, 0x3, 0, 0, 0x1, 0x10, 0x12 << 10], header.to_words());
}
