//! Arm System Control and Management Interface (SCMI), version 4.0 beta 0.
//!
//! Protocol identifiers, message headers, status codes and the commands of the Base, Power
//! Domain Management and System Power Management protocols; the framing of messages in a shared
//! memory channel; and an agent that issues the commands over an abstract transport.

use vstd::prelude::*;

/// Common protocol elements.
pub mod protocol;
/// Transport trait and the shared memory message framing.
pub mod transport;

use crate::protocol::base::{
    self, BaseCommandMessageId, BaseProtocolAttributes, DiscoverAgent, DiscoverAgentResponse,
    DiscoverImplementationVersion, DiscoverImplementationVersionResponse, DiscoverListProtocol,
    DiscoverListProtocolResponse, DiscoverSubVendor, DiscoverSubVendorResponse, DiscoverVendor,
    DiscoverVendorResponse, NotifyErrors, NotifyErrorsResponse, ResetAgentConfiguration,
    ResetAgentConfigurationFlags, ResetAgentConfigurationResponse, SetDevicePermission,
    SetDevicePermissionResponse, SetPermissionFlags, SetProtocolPermissions,
    SetProtocolPermissionsCommand, SetProtocolPermissionsResponse,
};
use crate::protocol::power_domain::{
    self, PowerDomainAttributes, PowerDomainAttributesResponse, PowerDomainCommandMessageId,
    PowerDomainId, PowerDomainNameGet, PowerDomainNameGetResponse, PowerDomainProtocolAttributes,
    PowerState, PowerStateChangeRequestedNotify, PowerStateChangeRequestedNotifyResponse,
    PowerStateGet, PowerStateGetResponse, PowerStateNotify, PowerStateNotifyResponse,
    PowerStateSet, PowerStateSetFlags, PowerStateSetResponse,
};
use crate::protocol::system_power::{
    self, RawSystemState, SystemPowerCommandMessageId, SystemPowerStateGet,
    SystemPowerStateGetResponse, SystemPowerStateNotify, SystemPowerStateNotifyResponse,
    SystemPowerStateSet, SystemPowerStateSetFlags, SystemPowerStateSetResponse, SystemState,
};
use crate::protocol::{
    Command, MessageId, NotifyEnable, Payload, ProtocolId, StandardProtocolId, StatusCode, Version,
};
use crate::transport::{exchange_of, lemma_reply, reply, Exchange, Transport};

verus! {

/// Error types returned by this library.
#[derive(Clone, Copy, Debug, PartialEq, Eq, Structural)]
pub enum Error {
    Status(StatusCode),
    InvalidStatusCode(i32),
    InvalidProtocolId(u8),
    InvalidMessageType(u8),
    InvalidMessageId(u8),
    InvalidPowerState(u32),
    InvalidSystemState(u32),
    ProtocolNotSupported,
    ChannelError,
    LengthOverflow,
    PayloadExceedsMaxSize,
    ResponseTooShort,
    UnexpectedResponse(MessageId),
    UnexpectedToken(u16),
}

/// `after` is `before` and one more exchange, of a command with message identifier `id` and
/// wire form `words`.
pub open spec fn sent_one(before: Seq<Exchange>, after: Seq<Exchange>, id: MessageId, words: Seq<u32>) -> bool {
    &&& after.len() == before.len() + 1
    &&& after.subrange(0, before.len() as int) =~= before
    &&& after.last().0 == id
    &&& after.last().1 =~= words
}

/// How the last exchange ended, its response decoded as `R`.
pub open spec fn last_reply<R: Payload>(sent: Seq<Exchange>) -> Result<R, Error> {
    reply::<R>(sent.last())
}

/// Setting bit 0 of an empty flag word gives 1, clearing it gives 0: the wire form of a flag
/// word whose one flag is bit 0.
proof fn lemma_bit0_flag()
    by (bit_vector)
    ensures
        0u32 | (1u32 << 0u32) == 1u32,
        0u32 & !(1u32 << 0u32) == 0u32,
{
}

/// SCMI agent.
///
/// Its contracts speak of the log of its transport: every command that the agent issues is
/// handed to the transport once, and what the agent returns is derived from that exchange.
pub struct ScmiAgent<T: Transport> {
    transport: T,
    power_domain_supported: bool,
    system_power_supported: bool,
}

impl<T: Transport> ScmiAgent<T> {
    /// The log of the agent's transport: the commands it carried and how each ended, in order.
    pub closed spec fn sent(&self) -> Seq<Exchange> {
        self.transport.log()
    }

    /// The Power Domain Management protocol was listed by the platform.
    pub closed spec fn power_domain_supported(&self) -> bool {
        self.power_domain_supported
    }

    /// The System Power Management protocol was listed by the platform.
    pub closed spec fn system_power_supported(&self) -> bool {
        self.system_power_supported
    }

    /// Creates new instance.
    ///
    /// The Base protocol is mandatory: the other protocols are looked for in the first answer
    /// of `BASE_DISCOVER_LIST_PROTOCOLS`, which is handed to the transport exactly once. An error
    /// of that exchange is returned as it is.
    pub fn new(transport: T) -> (r: Result<Self, Error>)
        ensures
            match r {
                Ok(agent) => {
                    &&& sent_one(transport.log(), agent.sent(), MessageId::Base(BaseCommandMessageId::DiscoverListProtocol), seq![0u32])
                    &&& last_reply::<DiscoverListProtocolResponse>(agent.sent()) matches Ok(list)
                    &&& agent.power_domain_supported() == list.spec_contains_protocol(
                        ProtocolId::Standard(StandardProtocolId::PowerDomainManagement),
                    )
                    &&& agent.system_power_supported() == list.spec_contains_protocol(
                        ProtocolId::Standard(StandardProtocolId::SystemPowerManagement),
                    )
                },
                Err(e) => exists|after: T| #[trigger] after.log() == transport.log().push(
                    exchange_of(DiscoverListProtocol { skip: 0 }, Err::<DiscoverListProtocolResponse, Error>(e)),
                ),
            },
    {
        let mut transport = transport;
        let command = DiscoverListProtocol { skip: 0 };
        let result = transport.invoke_command(command);
        proof {
            lemma_reply(command, result);
        }
        Self::with_protocol_list(transport, result)
    }

    /// Creates an agent over `transport` from the answer to `BASE_DISCOVER_LIST_PROTOCOLS`:
    /// the error of a failed answer is passed on, and a list marks which of the optional
    /// protocols the platform offers. No command is sent.
    pub fn with_protocol_list(transport: T, protocols: Result<DiscoverListProtocolResponse, Error>) -> (r: Result<Self, Error>)
        ensures
            match protocols {
                Ok(list) => r matches Ok(agent) && {
                    &&& agent.sent() == transport.log()
                    &&& agent.power_domain_supported() == list.spec_contains_protocol(
                        ProtocolId::Standard(StandardProtocolId::PowerDomainManagement),
                    )
                    &&& agent.system_power_supported() == list.spec_contains_protocol(
                        ProtocolId::Standard(StandardProtocolId::SystemPowerManagement),
                    )
                },
                Err(e) => r == Err::<Self, Error>(e),
            },
    {
        let protocols = match protocols {
            Ok(p) => p,
            Err(e) => return Err(e),
        };
        let power_domain_supported = protocols.contains_protocol(
            ProtocolId::Standard(StandardProtocolId::PowerDomainManagement),
        );
        let system_power_supported = protocols.contains_protocol(
            ProtocolId::Standard(StandardProtocolId::SystemPowerManagement),
        );
        Ok(Self { transport, power_domain_supported, system_power_supported })
    }

    /// Returns Base protocol agent.
    pub fn base(&mut self) -> (r: ScmiBase<'_, T>)
        ensures
            r.sent() == old(self).sent(),
            final(self).sent() == final(r.transport_ref()).log(),
            final(self).power_domain_supported() == old(self).power_domain_supported(),
            final(self).system_power_supported() == old(self).system_power_supported(),
    {
        ScmiBase { transport: &mut self.transport }
    }

    /// Returns Power Domain Management protocol agent, refused unless the platform listed the
    /// protocol.
    pub fn power_domain_management(&mut self) -> (r: Result<ScmiPowerDomainManagement<'_, T>, Error>)
        ensures
            r is Ok <==> old(self).power_domain_supported(),
            r matches Ok(p) ==> p.sent() == old(self).sent(),
            r matches Ok(p) ==> final(self).sent() == final(p.transport_ref()).log(),
            r is Err ==> final(self).sent() == old(self).sent(),
            final(self).power_domain_supported() == old(self).power_domain_supported(),
            final(self).system_power_supported() == old(self).system_power_supported(),
            r matches Err(e) ==> e == Error::ProtocolNotSupported,
    {
        if !self.power_domain_supported {
            return Err(Error::ProtocolNotSupported);
        }
        Ok(ScmiPowerDomainManagement { transport: &mut self.transport })
    }

    /// Returns System Power Management protocol agent, refused unless the platform listed the
    /// protocol.
    pub fn system_power_management(&mut self) -> (r: Result<ScmiSystemPowerManagement<'_, T>, Error>)
        ensures
            r is Ok <==> old(self).system_power_supported(),
            r matches Ok(p) ==> p.sent() == old(self).sent(),
            r matches Ok(p) ==> final(self).sent() == final(p.transport_ref()).log(),
            r is Err ==> final(self).sent() == old(self).sent(),
            final(self).power_domain_supported() == old(self).power_domain_supported(),
            final(self).system_power_supported() == old(self).system_power_supported(),
            r matches Err(e) ==> e == Error::ProtocolNotSupported,
    {
        if !self.system_power_supported {
            return Err(Error::ProtocolNotSupported);
        }
        Ok(ScmiSystemPowerManagement { transport: &mut self.transport })
    }
}

/// SCMI Base protocol agent.
///
/// It borrows the transport of the `ScmiAgent` that it came from. Each method keeps that
/// borrow, so once the protocol agent is no longer used, the agent's log holds its exchanges.
pub struct ScmiBase<'a, T: Transport> {
    transport: &'a mut T,
}

impl<'a, T: Transport> ScmiBase<'a, T> {
    /// The agent's reference to the transport.
    pub closed spec fn transport_ref(&self) -> &'a mut T {
        self.transport
    }


    /// An agent can discover its own agent ID, by calling [Self::discover_agent()] with this ID.
    /// The `agent_id` field of the response will contain the agent ID of the caller.
    pub const AGENT_ID_SELF_DISCOVERY: u32 = 0xffff_ffff;

    /// The log of the agent's transport: the commands it carried and how each ended, in order.
    pub closed spec fn sent(&self) -> Seq<Exchange> {
        (*self.transport).log()
    }

    /// Returns the protocol version.
    pub fn protocol_version(&mut self) -> (r: Result<Version, Error>)
        ensures
            *final(final(self).transport_ref()) == *final(old(self).transport_ref()),
            sent_one(old(self).sent(), final(self).sent(), MessageId::Base(BaseCommandMessageId::ProtocolVersion), Seq::<u32>::empty()),
            r == match last_reply::<base::ProtocolVersionResponse>(final(self).sent()) {
                Ok(response) => Ok(response.version),
                Err(e) => Err(e),
            },
    {
        let command = base::ProtocolVersion {};
        let result = self.transport.invoke_command(command);
        proof {
            lemma_reply(command, result);
        }
        match result {
            Ok(response) => Ok(response.version),
            Err(e) => Err(e),
        }
    }

    /// Negotiates the protocol version that the agent intends to use.
    pub fn negotiate_protocol_version(&mut self, version: Version) -> (r: Result<(), Error>)
        ensures
            *final(final(self).transport_ref()) == *final(old(self).transport_ref()),
            sent_one(old(self).sent(), final(self).sent(), MessageId::Base(BaseCommandMessageId::NegotiateProtocolVersion), seq![version@]),
            r == match last_reply::<base::NegotiateProtocolVersionResponse>(final(self).sent()) {
                Ok(response) => Ok(()),
                Err(e) => Err(e),
            },
    {
        let command = base::NegotiateProtocolVersion { version };
        let result = self.transport.invoke_command(command);
        proof {
            lemma_reply(command, result);
        }
        match result {
            Ok(response) => Ok(()),
            Err(e) => Err(e),
        }
    }

    /// Returns the implementation details that are associated with the protocol.
    pub fn protocol_attributes(&mut self) -> (r: Result<BaseProtocolAttributes, Error>)
        ensures
            *final(final(self).transport_ref()) == *final(old(self).transport_ref()),
            sent_one(old(self).sent(), final(self).sent(), MessageId::Base(BaseCommandMessageId::ProtocolAttributes), Seq::<u32>::empty()),
            r == match last_reply::<base::ProtocolAttributesResponse>(final(self).sent()) {
                Ok(response) => Ok(response.attributes),
                Err(e) => Err(e),
            },
    {
        let command = base::ProtocolAttributes {};
        let result = self.transport.invoke_command(command);
        proof {
            lemma_reply(command, result);
        }
        match result {
            Ok(response) => Ok(response.attributes),
            Err(e) => Err(e),
        }
    }

    /// Returns the implementation details associated with a specific message of the protocol.
    pub fn protocol_message_attributes(&mut self, message_id: BaseCommandMessageId) -> (r: Result<u32, Error>)
        ensures
            *final(final(self).transport_ref()) == *final(old(self).transport_ref()),
            sent_one(old(self).sent(), final(self).sent(), MessageId::Base(BaseCommandMessageId::ProtocolMessageAttributes), seq![message_id.spec_into_u8() as u32]),
            r == match last_reply::<base::ProtocolMessageAttributesResponse>(final(self).sent()) {
                Ok(response) => Ok(response.attributes),
                Err(e) => Err(e),
            },
    {
        let command = base::ProtocolMessageAttributes { message_id: u8::from(message_id) as u32 };
        let result = self.transport.invoke_command(command);
        proof {
            lemma_reply(command, result);
        }
        match result {
            Ok(response) => Ok(response.attributes),
            Err(e) => Err(e),
        }
    }

    /// Returns the vendor identifier.
    pub fn discover_vendor(&mut self) -> (r: Result<DiscoverVendorResponse, Error>)
        ensures
            *final(final(self).transport_ref()) == *final(old(self).transport_ref()),
            sent_one(old(self).sent(), final(self).sent(), MessageId::Base(BaseCommandMessageId::DiscoverVendor), Seq::<u32>::empty()),
            r == match last_reply::<DiscoverVendorResponse>(final(self).sent()) {
                Ok(response) => Ok(response),
                Err(e) => Err(e),
            },
    {
        let command = DiscoverVendor {};
        let result = self.transport.invoke_command(command);
        proof {
            lemma_reply(command, result);
        }
        match result {
            Ok(response) => Ok(response),
            Err(e) => Err(e),
        }
    }

    /// Returns the sub vendor identifier.
    pub fn discover_sub_vendor(&mut self) -> (r: Result<DiscoverSubVendorResponse, Error>)
        ensures
            *final(final(self).transport_ref()) == *final(old(self).transport_ref()),
            sent_one(old(self).sent(), final(self).sent(), MessageId::Base(BaseCommandMessageId::DiscoverSubVendor), Seq::<u32>::empty()),
            r == match last_reply::<DiscoverSubVendorResponse>(final(self).sent()) {
                Ok(response) => Ok(response),
                Err(e) => Err(e),
            },
    {
        let command = DiscoverSubVendor {};
        let result = self.transport.invoke_command(command);
        proof {
            lemma_reply(command, result);
        }
        match result {
            Ok(response) => Ok(response),
            Err(e) => Err(e),
        }
    }

    /// Returns the vendor specific implementation version.
    pub fn implementation_version(&mut self) -> (r: Result<u32, Error>)
        ensures
            *final(final(self).transport_ref()) == *final(old(self).transport_ref()),
            sent_one(old(self).sent(), final(self).sent(), MessageId::Base(BaseCommandMessageId::DiscoverImplementationVersion), Seq::<u32>::empty()),
            r == match last_reply::<DiscoverImplementationVersionResponse>(final(self).sent()) {
                Ok(response) => Ok(response.implementation_version),
                Err(e) => Err(e),
            },
    {
        let command = DiscoverImplementationVersion {};
        let result = self.transport.invoke_command(command);
        proof {
            lemma_reply(command, result);
        }
        match result {
            Ok(response) => Ok(response.implementation_version),
            Err(e) => Err(e),
        }
    }

    /// Returns the protocol list that is accessible by the agent.
    ///
    /// `skip` indicates the number of protocols to skipped, i.e. the index of the first
    /// protocol to be included in the response.
    pub fn discover_list_protocols(&mut self, skip: u32) -> (r: Result<DiscoverListProtocolResponse, Error>)
        ensures
            *final(final(self).transport_ref()) == *final(old(self).transport_ref()),
            sent_one(old(self).sent(), final(self).sent(), MessageId::Base(BaseCommandMessageId::DiscoverListProtocol), seq![skip]),
            r == match last_reply::<DiscoverListProtocolResponse>(final(self).sent()) {
                Ok(response) => Ok(response),
                Err(e) => Err(e),
            },
    {
        let command = DiscoverListProtocol { skip };
        let result = self.transport.invoke_command(command);
        proof {
            lemma_reply(command, result);
        }
        match result {
            Ok(response) => Ok(response),
            Err(e) => Err(e),
        }
    }

    /// Returns the name and ID of the agent.
    pub fn discover_agent(&mut self, agent_id: u32) -> (r: Result<DiscoverAgentResponse, Error>)
        ensures
            *final(final(self).transport_ref()) == *final(old(self).transport_ref()),
            sent_one(old(self).sent(), final(self).sent(), MessageId::Base(BaseCommandMessageId::DiscoverAgent), seq![agent_id]),
            r == match last_reply::<DiscoverAgentResponse>(final(self).sent()) {
                Ok(response) => Ok(response),
                Err(e) => Err(e),
            },
    {
        let command = DiscoverAgent { agent_id };
        let result = self.transport.invoke_command(command);
        proof {
            lemma_reply(command, result);
        }
        match result {
            Ok(response) => Ok(response),
            Err(e) => Err(e),
        }
    }

    /// Enables/disables error notification.
    pub fn notify_errors(&mut self, enable: bool) -> (r: Result<(), Error>)
        ensures
            *final(final(self).transport_ref()) == *final(old(self).transport_ref()),
            sent_one(old(self).sent(), final(self).sent(), MessageId::Base(BaseCommandMessageId::NotifyErrors), seq![(if enable { 1u32 } else { 0u32 })]),
            r == match last_reply::<NotifyErrorsResponse>(final(self).sent()) {
                Ok(response) => Ok(()),
                Err(e) => Err(e),
            },
    {
        let mut notify_enable = NotifyEnable::empty();
        notify_enable.set(NotifyEnable::ENABLE, enable);
        proof {
            lemma_bit0_flag();
        }
        let command = NotifyErrors { notify_enable };
        let result = self.transport.invoke_command(command);
        proof {
            lemma_reply(command, result);
        }
        match result {
            Ok(response) => Ok(()),
            Err(e) => Err(e),
        }
    }

    /// Indicates to the platform whether an agent has permissions to access devices.
    pub fn set_device_permissions(&mut self, agent_id: u32, device_id: u32, allow: bool) -> (r: Result<(), Error>)
        ensures
            *final(final(self).transport_ref()) == *final(old(self).transport_ref()),
            sent_one(old(self).sent(), final(self).sent(), MessageId::Base(BaseCommandMessageId::SetDevicePermission), seq![agent_id, device_id, (if allow { 1u32 } else { 0u32 })]),
            r == match last_reply::<SetDevicePermissionResponse>(final(self).sent()) {
                Ok(response) => Ok(()),
                Err(e) => Err(e),
            },
    {
        let mut flags = SetPermissionFlags::empty();
        flags.set(SetPermissionFlags::ALLOW, allow);
        proof {
            lemma_bit0_flag();
        }
        let command = SetDevicePermission { agent_id, device_id, flags };
        let result = self.transport.invoke_command(command);
        proof {
            lemma_reply(command, result);
        }
        match result {
            Ok(response) => Ok(()),
            Err(e) => Err(e),
        }
    }

    /// Indicate to the platform whether an agent has permissions to use a protocol to access the
    /// platform resources that are associated with a specific device.
    pub fn set_protocol_permissions(&mut self, agent_id: u32, device_id: u32, protocol_id: ProtocolId, allow: bool) -> (r: Result<(), Error>)
        ensures
            *final(final(self).transport_ref()) == *final(old(self).transport_ref()),
            sent_one(old(self).sent(), final(self).sent(), MessageId::Base(BaseCommandMessageId::SetProtocolPermissions), seq![agent_id, device_id, protocol_id.spec_into_u8() as u32, (if allow { 1u32 } else { 0u32 })]),
            r == match last_reply::<SetProtocolPermissionsResponse>(final(self).sent()) {
                Ok(response) => Ok(()),
                Err(e) => Err(e),
            },
    {
        let mut flags = SetPermissionFlags::empty();
        flags.set(SetPermissionFlags::ALLOW, allow);
        proof {
            lemma_bit0_flag();
        }
        let command = SetProtocolPermissions { agent_id, device_id, command_id: SetProtocolPermissionsCommand::new(protocol_id), flags };
        let result = self.transport.invoke_command(command);
        proof {
            lemma_reply(command, result);
        }
        match result {
            Ok(response) => Ok(()),
            Err(e) => Err(e),
        }
    }

    /// Resets platform resource settings that were previously configured by an agent.
    pub fn reset_agent_configuration(&mut self, agent_id: u32, flags: ResetAgentConfigurationFlags) -> (r: Result<(), Error>)
        ensures
            *final(final(self).transport_ref()) == *final(old(self).transport_ref()),
            sent_one(old(self).sent(), final(self).sent(), MessageId::Base(BaseCommandMessageId::ResetAgentConfiguration), seq![agent_id, flags@]),
            r == match last_reply::<ResetAgentConfigurationResponse>(final(self).sent()) {
                Ok(response) => Ok(()),
                Err(e) => Err(e),
            },
    {
        let command = ResetAgentConfiguration { agent_id, flags };
        let result = self.transport.invoke_command(command);
        proof {
            lemma_reply(command, result);
        }
        match result {
            Ok(response) => Ok(()),
            Err(e) => Err(e),
        }
    }
}

/// SCMI Power Domain Management protocol agent.
///
/// It borrows the transport of the `ScmiAgent` that it came from. Each method keeps that
/// borrow, so once the protocol agent is no longer used, the agent's log holds its exchanges.
pub struct ScmiPowerDomainManagement<'a, T: Transport> {
    transport: &'a mut T,
}

impl<'a, T: Transport> ScmiPowerDomainManagement<'a, T> {
    /// The agent's reference to the transport.
    pub closed spec fn transport_ref(&self) -> &'a mut T {
        self.transport
    }

    /// The log of the agent's transport: the commands it carried and how each ended, in order.
    pub closed spec fn sent(&self) -> Seq<Exchange> {
        (*self.transport).log()
    }

    /// Returns the protocol version.
    pub fn protocol_version(&mut self) -> (r: Result<Version, Error>)
        ensures
            *final(final(self).transport_ref()) == *final(old(self).transport_ref()),
            sent_one(old(self).sent(), final(self).sent(), MessageId::PowerDomainManagement(PowerDomainCommandMessageId::ProtocolVersion), Seq::<u32>::empty()),
            r == match last_reply::<power_domain::ProtocolVersionResponse>(final(self).sent()) {
                Ok(response) => Ok(response.version),
                Err(e) => Err(e),
            },
    {
        let command = power_domain::ProtocolVersion {};
        let result = self.transport.invoke_command(command);
        proof {
            lemma_reply(command, result);
        }
        match result {
            Ok(response) => Ok(response.version),
            Err(e) => Err(e),
        }
    }

    /// Negotiates the protocol version that the agent intends to use.
    pub fn negotiate_protocol_version(&mut self, version: Version) -> (r: Result<(), Error>)
        ensures
            *final(final(self).transport_ref()) == *final(old(self).transport_ref()),
            sent_one(old(self).sent(), final(self).sent(), MessageId::PowerDomainManagement(PowerDomainCommandMessageId::NegotiateProtocolVersion), seq![version@]),
            r == match last_reply::<power_domain::NegotiateProtocolVersionResponse>(final(self).sent()) {
                Ok(response) => Ok(()),
                Err(e) => Err(e),
            },
    {
        let command = power_domain::NegotiateProtocolVersion { version };
        let result = self.transport.invoke_command(command);
        proof {
            lemma_reply(command, result);
        }
        match result {
            Ok(response) => Ok(()),
            Err(e) => Err(e),
        }
    }

    /// Returns the implementation details that are associated with the protocol.
    pub fn protocol_attributes(&mut self) -> (r: Result<PowerDomainProtocolAttributes, Error>)
        ensures
            *final(final(self).transport_ref()) == *final(old(self).transport_ref()),
            sent_one(old(self).sent(), final(self).sent(), MessageId::PowerDomainManagement(PowerDomainCommandMessageId::ProtocolAttributes), Seq::<u32>::empty()),
            r == match last_reply::<power_domain::ProtocolAttributesResponse>(final(self).sent()) {
                Ok(response) => Ok(response.attributes),
                Err(e) => Err(e),
            },
    {
        let command = power_domain::ProtocolAttributes {};
        let result = self.transport.invoke_command(command);
        proof {
            lemma_reply(command, result);
        }
        match result {
            Ok(response) => Ok(response.attributes),
            Err(e) => Err(e),
        }
    }

    /// Returns the implementation details associated with a specific message of the protocol.
    pub fn protocol_message_attributes(&mut self, message_id: PowerDomainCommandMessageId) -> (r: Result<u32, Error>)
        ensures
            *final(final(self).transport_ref()) == *final(old(self).transport_ref()),
            sent_one(old(self).sent(), final(self).sent(), MessageId::PowerDomainManagement(PowerDomainCommandMessageId::ProtocolMessageAttributes), seq![message_id.spec_into_u8() as u32]),
            r == match last_reply::<power_domain::ProtocolMessageAttributesResponse>(final(self).sent()) {
                Ok(response) => Ok(response.attributes),
                Err(e) => Err(e),
            },
    {
        let command = power_domain::ProtocolMessageAttributes { message_id: u8::from(message_id) as u32 };
        let result = self.transport.invoke_command(command);
        proof {
            lemma_reply(command, result);
        }
        match result {
            Ok(response) => Ok(response.attributes),
            Err(e) => Err(e),
        }
    }

    /// Returns the attribute flags associated with a specific power domain.
    pub fn power_domain_attributes(&mut self, domain_id: u16) -> (r: Result<PowerDomainAttributesResponse, Error>)
        ensures
            *final(final(self).transport_ref()) == *final(old(self).transport_ref()),
            sent_one(old(self).sent(), final(self).sent(), MessageId::PowerDomainManagement(PowerDomainCommandMessageId::DomainAttributes), seq![domain_id as u32]),
            r == match last_reply::<PowerDomainAttributesResponse>(final(self).sent()) {
                Ok(response) => Ok(response),
                Err(e) => Err(e),
            },
    {
        let command = PowerDomainAttributes { domain_id: PowerDomainId::new(domain_id) };
        let result = self.transport.invoke_command(command);
        proof {
            lemma_reply(command, result);
        }
        match result {
            Ok(response) => Ok(response),
            Err(e) => Err(e),
        }
    }

    /// Sets the power state of a power domain.
    pub fn power_state_set(&mut self, domain_id: u16, power_state: PowerState, asynchronous: bool) -> (r: Result<(), Error>)
        ensures
            *final(final(self).transport_ref()) == *final(old(self).transport_ref()),
            sent_one(old(self).sent(), final(self).sent(), MessageId::PowerDomainManagement(PowerDomainCommandMessageId::StateSet), seq![(if asynchronous { 1u32 } else { 0u32 }), domain_id as u32, power_state@]),
            r == match last_reply::<PowerStateSetResponse>(final(self).sent()) {
                Ok(response) => Ok(()),
                Err(e) => Err(e),
            },
    {
        let mut flags = PowerStateSetFlags::empty();
        flags.set(PowerStateSetFlags::ASYNC, asynchronous);
        proof {
            lemma_bit0_flag();
        }
        let command = PowerStateSet { flags, domain_id: PowerDomainId::new(domain_id), power_state };
        let result = self.transport.invoke_command(command);
        proof {
            lemma_reply(command, result);
        }
        match result {
            Ok(response) => Ok(()),
            Err(e) => Err(e),
        }
    }

    /// Returns the power state of a power domain.
    pub fn power_state_get(&mut self, domain_id: u16) -> (r: Result<PowerState, Error>)
        ensures
            *final(final(self).transport_ref()) == *final(old(self).transport_ref()),
            sent_one(old(self).sent(), final(self).sent(), MessageId::PowerDomainManagement(PowerDomainCommandMessageId::StateGet), seq![domain_id as u32]),
            r == match last_reply::<PowerStateGetResponse>(final(self).sent()) {
                Ok(response) => Ok(response.power_state),
                Err(e) => Err(e),
            },
    {
        let command = PowerStateGet { domain_id: PowerDomainId::new(domain_id) };
        let result = self.transport.invoke_command(command);
        proof {
            lemma_reply(command, result);
        }
        match result {
            Ok(response) => Ok(response.power_state),
            Err(e) => Err(e),
        }
    }

    /// Enables/disables `POWER_STATE_CHANGED` notifications.
    pub fn power_state_notify(&mut self, domain_id: u16, enable: bool) -> (r: Result<(), Error>)
        ensures
            *final(final(self).transport_ref()) == *final(old(self).transport_ref()),
            sent_one(old(self).sent(), final(self).sent(), MessageId::PowerDomainManagement(PowerDomainCommandMessageId::StateNotify), seq![domain_id as u32, (if enable { 1u32 } else { 0u32 })]),
            r == match last_reply::<PowerStateNotifyResponse>(final(self).sent()) {
                Ok(response) => Ok(()),
                Err(e) => Err(e),
            },
    {
        let mut notify_enable = NotifyEnable::empty();
        notify_enable.set(NotifyEnable::ENABLE, enable);
        proof {
            lemma_bit0_flag();
        }
        let command = PowerStateNotify { domain_id: PowerDomainId::new(domain_id), notify_enable };
        let result = self.transport.invoke_command(command);
        proof {
            lemma_reply(command, result);
        }
        match result {
            Ok(response) => Ok(()),
            Err(e) => Err(e),
        }
    }

    /// Enables/disables `POWER_STATE_CHANGE_REQUESTED` notifications.
    pub fn power_state_change_requested_notify(&mut self, domain_id: u16, enable: bool) -> (r: Result<(), Error>)
        ensures
            *final(final(self).transport_ref()) == *final(old(self).transport_ref()),
            sent_one(old(self).sent(), final(self).sent(), MessageId::PowerDomainManagement(PowerDomainCommandMessageId::StateChangeRequestedNotify), seq![domain_id as u32, (if enable { 1u32 } else { 0u32 })]),
            r == match last_reply::<PowerStateChangeRequestedNotifyResponse>(final(self).sent()) {
                Ok(response) => Ok(()),
                Err(e) => Err(e),
            },
    {
        let mut notify_enable = NotifyEnable::empty();
        notify_enable.set(NotifyEnable::ENABLE, enable);
        proof {
            lemma_bit0_flag();
        }
        let command = PowerStateChangeRequestedNotify { domain_id: PowerDomainId::new(domain_id), notify_enable };
        let result = self.transport.invoke_command(command);
        proof {
            lemma_reply(command, result);
        }
        match result {
            Ok(response) => Ok(()),
            Err(e) => Err(e),
        }
    }

    /// Returns the extended name of the power domain.
    pub fn power_domain_name_get(&mut self, domain_id: u16) -> (r: Result<PowerDomainNameGetResponse, Error>)
        ensures
            *final(final(self).transport_ref()) == *final(old(self).transport_ref()),
            sent_one(old(self).sent(), final(self).sent(), MessageId::PowerDomainManagement(PowerDomainCommandMessageId::DomainNameGet), seq![domain_id as u32]),
            r == match last_reply::<PowerDomainNameGetResponse>(final(self).sent()) {
                Ok(response) => Ok(response),
                Err(e) => Err(e),
            },
    {
        let command = PowerDomainNameGet { domain_id: PowerDomainId::new(domain_id) };
        let result = self.transport.invoke_command(command);
        proof {
            lemma_reply(command, result);
        }
        match result {
            Ok(response) => Ok(response),
            Err(e) => Err(e),
        }
    }
}

/// SCMI System Power Management protocol agent.
///
/// It borrows the transport of the `ScmiAgent` that it came from. Each method keeps that
/// borrow, so once the protocol agent is no longer used, the agent's log holds its exchanges.
pub struct ScmiSystemPowerManagement<'a, T: Transport> {
    transport: &'a mut T,
}

impl<'a, T: Transport> ScmiSystemPowerManagement<'a, T> {
    /// The agent's reference to the transport.
    pub closed spec fn transport_ref(&self) -> &'a mut T {
        self.transport
    }

    /// The log of the agent's transport: the commands it carried and how each ended, in order.
    pub closed spec fn sent(&self) -> Seq<Exchange> {
        (*self.transport).log()
    }

    /// Returns the protocol version.
    pub fn protocol_version(&mut self) -> (r: Result<Version, Error>)
        ensures
            *final(final(self).transport_ref()) == *final(old(self).transport_ref()),
            sent_one(old(self).sent(), final(self).sent(), MessageId::SystemPowerManagement(SystemPowerCommandMessageId::ProtocolVersion), Seq::<u32>::empty()),
            r == match last_reply::<system_power::ProtocolVersionResponse>(final(self).sent()) {
                Ok(response) => Ok(response.version),
                Err(e) => Err(e),
            },
    {
        let command = system_power::ProtocolVersion {};
        let result = self.transport.invoke_command(command);
        proof {
            lemma_reply(command, result);
        }
        match result {
            Ok(response) => Ok(response.version),
            Err(e) => Err(e),
        }
    }

    /// Negotiates the protocol version that the agent intends to use.
    pub fn negotiate_protocol_version(&mut self, version: Version) -> (r: Result<(), Error>)
        ensures
            *final(final(self).transport_ref()) == *final(old(self).transport_ref()),
            sent_one(old(self).sent(), final(self).sent(), MessageId::SystemPowerManagement(SystemPowerCommandMessageId::NegotiateProtocolVersion), seq![version@]),
            r == match last_reply::<system_power::NegotiateProtocolVersionResponse>(final(self).sent()) {
                Ok(response) => Ok(()),
                Err(e) => Err(e),
            },
    {
        let command = system_power::NegotiateProtocolVersion { version };
        let result = self.transport.invoke_command(command);
        proof {
            lemma_reply(command, result);
        }
        match result {
            Ok(response) => Ok(()),
            Err(e) => Err(e),
        }
    }

    /// Returns the implementation details that are associated with the protocol.
    pub fn protocol_attributes(&mut self) -> (r: Result<u32, Error>)
        ensures
            *final(final(self).transport_ref()) == *final(old(self).transport_ref()),
            sent_one(old(self).sent(), final(self).sent(), MessageId::SystemPowerManagement(SystemPowerCommandMessageId::ProtocolAttributes), Seq::<u32>::empty()),
            r == match last_reply::<system_power::ProtocolAttributesResponse>(final(self).sent()) {
                Ok(response) => Ok(response.attributes),
                Err(e) => Err(e),
            },
    {
        let command = system_power::ProtocolAttributes {};
        let result = self.transport.invoke_command(command);
        proof {
            lemma_reply(command, result);
        }
        match result {
            Ok(response) => Ok(response.attributes),
            Err(e) => Err(e),
        }
    }

    /// Returns the implementation details associated with a specific message of the protocol.
    pub fn protocol_message_attributes(&mut self, message_id: SystemPowerCommandMessageId) -> (r: Result<u32, Error>)
        ensures
            *final(final(self).transport_ref()) == *final(old(self).transport_ref()),
            sent_one(old(self).sent(), final(self).sent(), MessageId::SystemPowerManagement(SystemPowerCommandMessageId::ProtocolMessageAttributes), seq![message_id.spec_into_u8() as u32]),
            r == match last_reply::<system_power::ProtocolMessageAttributesResponse>(final(self).sent()) {
                Ok(response) => Ok(response.attributes),
                Err(e) => Err(e),
            },
    {
        let command = system_power::ProtocolMessageAttributes { message_id: u8::from(message_id) as u32 };
        let result = self.transport.invoke_command(command);
        proof {
            lemma_reply(command, result);
        }
        match result {
            Ok(response) => Ok(response.attributes),
            Err(e) => Err(e),
        }
    }

    /// Sets the system power state.
    pub fn system_power_state_set(&mut self, system_state: SystemState, flags: SystemPowerStateSetFlags) -> (r: Result<(), Error>)
        ensures
            *final(final(self).transport_ref()) == *final(old(self).transport_ref()),
            sent_one(old(self).sent(), final(self).sent(), MessageId::SystemPowerManagement(SystemPowerCommandMessageId::StateSet), seq![flags@, system_state.spec_into_u32()]),
            r == match last_reply::<SystemPowerStateSetResponse>(final(self).sent()) {
                Ok(response) => Ok(()),
                Err(e) => Err(e),
            },
    {
        proof {
            broadcast use RawSystemState::lemma_from_system_state;
        }
        let command = SystemPowerStateSet { flags, system_state: RawSystemState::from(system_state) };
        let result = self.transport.invoke_command(command);
        proof {
            lemma_reply(command, result);
        }
        match result {
            Ok(response) => Ok(()),
            Err(e) => Err(e),
        }
    }

    /// Returns the system power state.
    pub fn system_power_state_get(&mut self) -> (r: Result<SystemState, Error>)
        ensures
            *final(final(self).transport_ref()) == *final(old(self).transport_ref()),
            sent_one(old(self).sent(), final(self).sent(), MessageId::SystemPowerManagement(SystemPowerCommandMessageId::StateGet), Seq::<u32>::empty()),
            r == match last_reply::<SystemPowerStateGetResponse>(final(self).sent()) {
                Ok(response) => SystemState::spec_try_from_u32(response.system_state@),
                Err(e) => Err(e),
            },
    {
        let command = SystemPowerStateGet {};
        let result = self.transport.invoke_command(command);
        proof {
            lemma_reply(command, result);
        }
        match result {
            Ok(response) => SystemState::try_from(response.system_state),
            Err(e) => Err(e),
        }
    }

    /// Enables/disables `SYSTEM_POWER_STATE_NOTIFIER` notifications.
    pub fn system_power_state_notify(&mut self, enable: bool) -> (r: Result<(), Error>)
        ensures
            *final(final(self).transport_ref()) == *final(old(self).transport_ref()),
            sent_one(old(self).sent(), final(self).sent(), MessageId::SystemPowerManagement(SystemPowerCommandMessageId::StateNotify), seq![(if enable { 1u32 } else { 0u32 })]),
            r == match last_reply::<SystemPowerStateNotifyResponse>(final(self).sent()) {
                Ok(response) => Ok(()),
                Err(e) => Err(e),
            },
    {
        let mut notify_enable = NotifyEnable::empty();
        notify_enable.set(NotifyEnable::ENABLE, enable);
        proof {
            lemma_bit0_flag();
        }
        let command = SystemPowerStateNotify { notify_enable };
        let result = self.transport.invoke_command(command);
        proof {
            lemma_reply(command, result);
        }
        match result {
            Ok(response) => Ok(()),
            Err(e) => Err(e),
        }
    }
}

} // verus!

