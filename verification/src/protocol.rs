/// Base protocol.
pub mod base;
/// Power Domain Management protocol.
pub mod power_domain;
/// System Power Management protocol.
pub mod system_power;

use core::cmp::Ordering;

use vstd::prelude::*;
use vstd::std_specs::cmp::{PartialOrdSpec, PartialOrdSpecImpl};
use vstd::utf8::{decode_utf8, valid_utf8};

use crate::Error;
use crate::protocol::base::BaseCommandMessageId;
use crate::protocol::power_domain::PowerDomainCommandMessageId;
use crate::protocol::system_power::SystemPowerCommandMessageId;

verus! {

/// Standard protocol identifiers (Table 2: Protocol identifiers). 0x00-0x0f are reserved, 0x1c-0x7f
/// are reserved for future use, and 0x80-0xff are vendor or platform specific.
#[derive(Clone, Copy, Debug, PartialEq, Eq, Structural)]
pub enum StandardProtocolId {
    Base,
    PowerDomainManagement,
    SystemPowerManagement,
    PerformanceDomainManagement,
    ClockManagement,
    SensorManagement,
    ResetDomainManagement,
    VoltageDomainManagement,
    PowerCappingAndMonitoring,
    PinControl,
    MpamFb,
    SystemTelemetry,
}

impl StandardProtocolId {
    /// The number that stands for this value.
    pub open spec fn spec_into_u8(self) -> u8 {
        match self {
            StandardProtocolId::Base => 0x10u8,
            StandardProtocolId::PowerDomainManagement => 0x11u8,
            StandardProtocolId::SystemPowerManagement => 0x12u8,
            StandardProtocolId::PerformanceDomainManagement => 0x13u8,
            StandardProtocolId::ClockManagement => 0x14u8,
            StandardProtocolId::SensorManagement => 0x15u8,
            StandardProtocolId::ResetDomainManagement => 0x16u8,
            StandardProtocolId::VoltageDomainManagement => 0x17u8,
            StandardProtocolId::PowerCappingAndMonitoring => 0x18u8,
            StandardProtocolId::PinControl => 0x19u8,
            StandardProtocolId::MpamFb => 0x1au8,
            StandardProtocolId::SystemTelemetry => 0x1bu8,
        }
    }

    /// The value that number `v` stands for; any other number is refused.
    pub open spec fn spec_try_from_u8(v: u8) -> Result<Self, Error> {
        if v == 0x10u8 {
            Ok(StandardProtocolId::Base)
        } else if v == 0x11u8 {
            Ok(StandardProtocolId::PowerDomainManagement)
        } else if v == 0x12u8 {
            Ok(StandardProtocolId::SystemPowerManagement)
        } else if v == 0x13u8 {
            Ok(StandardProtocolId::PerformanceDomainManagement)
        } else if v == 0x14u8 {
            Ok(StandardProtocolId::ClockManagement)
        } else if v == 0x15u8 {
            Ok(StandardProtocolId::SensorManagement)
        } else if v == 0x16u8 {
            Ok(StandardProtocolId::ResetDomainManagement)
        } else if v == 0x17u8 {
            Ok(StandardProtocolId::VoltageDomainManagement)
        } else if v == 0x18u8 {
            Ok(StandardProtocolId::PowerCappingAndMonitoring)
        } else if v == 0x19u8 {
            Ok(StandardProtocolId::PinControl)
        } else if v == 0x1au8 {
            Ok(StandardProtocolId::MpamFb)
        } else if v == 0x1bu8 {
            Ok(StandardProtocolId::SystemTelemetry)
        } else {
            Err(Error::InvalidProtocolId(v))
        }
    }
}

impl From<StandardProtocolId> for u8 {
    fn from(value: StandardProtocolId) -> (r: u8) {
        match value {
            StandardProtocolId::Base => 0x10,
            StandardProtocolId::PowerDomainManagement => 0x11,
            StandardProtocolId::SystemPowerManagement => 0x12,
            StandardProtocolId::PerformanceDomainManagement => 0x13,
            StandardProtocolId::ClockManagement => 0x14,
            StandardProtocolId::SensorManagement => 0x15,
            StandardProtocolId::ResetDomainManagement => 0x16,
            StandardProtocolId::VoltageDomainManagement => 0x17,
            StandardProtocolId::PowerCappingAndMonitoring => 0x18,
            StandardProtocolId::PinControl => 0x19,
            StandardProtocolId::MpamFb => 0x1a,
            StandardProtocolId::SystemTelemetry => 0x1b,
        }
    }
}

impl vstd::std_specs::convert::FromSpecImpl<StandardProtocolId> for u8 {
    open spec fn obeys_from_spec() -> bool {
        true
    }

    open spec fn from_spec(v: StandardProtocolId) -> u8 {
        v.spec_into_u8()
    }
}

impl TryFrom<u8> for StandardProtocolId {
    type Error = Error;

    fn try_from(value: u8) -> (r: Result<Self, Error>) {
        match value {
            0x10 => Ok(StandardProtocolId::Base),
            0x11 => Ok(StandardProtocolId::PowerDomainManagement),
            0x12 => Ok(StandardProtocolId::SystemPowerManagement),
            0x13 => Ok(StandardProtocolId::PerformanceDomainManagement),
            0x14 => Ok(StandardProtocolId::ClockManagement),
            0x15 => Ok(StandardProtocolId::SensorManagement),
            0x16 => Ok(StandardProtocolId::ResetDomainManagement),
            0x17 => Ok(StandardProtocolId::VoltageDomainManagement),
            0x18 => Ok(StandardProtocolId::PowerCappingAndMonitoring),
            0x19 => Ok(StandardProtocolId::PinControl),
            0x1a => Ok(StandardProtocolId::MpamFb),
            0x1b => Ok(StandardProtocolId::SystemTelemetry),
            _ => Err(Error::InvalidProtocolId(value)),
        }
    }
}

impl vstd::std_specs::convert::TryFromSpecImpl<u8> for StandardProtocolId {
    open spec fn obeys_try_from_spec() -> bool {
        true
    }

    open spec fn try_from_spec(v: u8) -> Result<Self, Error> {
        Self::spec_try_from_u8(v)
    }
}

/// Decoding the number of a value gives back the value, and a number that decodes
/// is the number of what it decodes to.
pub proof fn lemma_standard_protocol_id_roundtrip(m: StandardProtocolId, v: u8)
    ensures
        StandardProtocolId::spec_try_from_u8(m.spec_into_u8()) == Ok::<StandardProtocolId, Error>(m),
        StandardProtocolId::spec_try_from_u8(v) matches Ok(x) ==> x.spec_into_u8() == v,
{
}

/// The standard protocols in the order of Table 2: Protocol identifiers.
pub open spec fn standard_protocols_in_table_order() -> Seq<StandardProtocolId> {
    seq![
        StandardProtocolId::Base,
        StandardProtocolId::PowerDomainManagement,
        StandardProtocolId::SystemPowerManagement,
        StandardProtocolId::PerformanceDomainManagement,
        StandardProtocolId::ClockManagement,
        StandardProtocolId::SensorManagement,
        StandardProtocolId::ResetDomainManagement,
        StandardProtocolId::VoltageDomainManagement,
        StandardProtocolId::PowerCappingAndMonitoring,
        StandardProtocolId::PinControl,
        StandardProtocolId::MpamFb,
        StandardProtocolId::SystemTelemetry,
    ]
}

/// Table 2 numbers the standard protocols consecutively from 0x10: the `i`th protocol of the
/// table is 0x10 + `i`. Exactly the numbers 0x10 to 0x1b decode to a standard protocol, each to
/// the protocol with that place in the table; every other number is refused as an invalid
/// protocol identifier.
pub proof fn lemma_standard_protocol_numbers()
    ensures
        forall|i: int|
            0 <= i < 12 ==> #[trigger] standard_protocols_in_table_order()[i].spec_into_u8() == 0x10 + i,
        forall|v: u8|
            0x10 <= v <= 0x1b ==> #[trigger] StandardProtocolId::spec_try_from_u8(v) == Ok::<
                StandardProtocolId,
                Error,
            >(standard_protocols_in_table_order()[v - 0x10]),
        forall|v: u8|
            !(0x10 <= v <= 0x1b) ==> #[trigger] StandardProtocolId::spec_try_from_u8(v) == Err::<
                StandardProtocolId,
                Error,
            >(Error::InvalidProtocolId(v)),
{
}

/// Vendor or platform specific protocol ID. The valid ID range is 0x80-0xff.
#[derive(Clone, Copy, Debug, PartialEq, Eq, Structural)]
pub struct VendorSpecificProtocolId(u8);

impl View for VendorSpecificProtocolId {
    type V = u8;

    closed spec fn view(&self) -> u8 {
        self.0
    }
}

impl VendorSpecificProtocolId {
    const VENDOR_SPEC_BASE: u8 = 0x80;

    #[verifier::type_invariant]
    closed spec fn inv(self) -> bool {
        self.0 >= 0x80
    }

    /// The identifier lies in the vendor specific range.
    pub open spec fn is_valid(self) -> bool {
        self@ >= 0x80
    }

    /// Establishes that this identifier, like every value of the type, lies in the vendor
    /// specific range.
    pub fn establish_valid(&self)
        ensures
            self.is_valid(),
    {
        proof {
            use_type_invariant(self);
        }
    }

    /// Creates new instance.
    pub fn new(id: u8) -> (r: Self)
        requires
            id >= 0x80,
        ensures
            r@ == id,
    {
        VendorSpecificProtocolId(id)
    }

    /// Returns true if the protocol ID number belongs to a vendor specific protocol.
    pub fn is_vendor_specific(value: u8) -> (r: bool)
        ensures
            r == (value >= 0x80),
    {
        value >= Self::VENDOR_SPEC_BASE
    }

    /// The vendor specific protocol with identifier `v`.
    pub open spec fn spec_try_from_u8(v: u8) -> Result<Self, Error> {
        if v >= 0x80 {
            Ok(Self::spec_new(v))
        } else {
            Err(Error::InvalidProtocolId(v))
        }
    }

    /// The identifier with number `v`.
    pub closed spec fn spec_new(v: u8) -> Self {
        VendorSpecificProtocolId(v)
    }

    /// `spec_new` builds the identifier with the given number, and an identifier is the one
    /// built from its number.
    pub broadcast proof fn lemma_spec_new(v: u8, id: Self)
        ensures
            (#[trigger] Self::spec_new(v))@ == v,
            #[trigger] Self::spec_new(id@) == id,
    {
    }
}

impl TryFrom<u8> for VendorSpecificProtocolId {
    type Error = Error;

    fn try_from(value: u8) -> (r: Result<Self, Error>) {
        if Self::is_vendor_specific(value) {
            Ok(VendorSpecificProtocolId(value))
        } else {
            Err(Error::InvalidProtocolId(value))
        }
    }
}

impl vstd::std_specs::convert::TryFromSpecImpl<u8> for VendorSpecificProtocolId {
    open spec fn obeys_try_from_spec() -> bool {
        true
    }

    open spec fn try_from_spec(v: u8) -> Result<Self, Error> {
        Self::spec_try_from_u8(v)
    }
}

impl From<VendorSpecificProtocolId> for u8 {
    fn from(value: VendorSpecificProtocolId) -> (r: u8) {
        value.0
    }
}

impl vstd::std_specs::convert::FromSpecImpl<VendorSpecificProtocolId> for u8 {
    open spec fn obeys_from_spec() -> bool {
        true
    }

    open spec fn from_spec(v: VendorSpecificProtocolId) -> u8 {
        v@
    }
}

} // verus!

verus! {

/// Bitfield for enabling notifications.
///
/// The flag constants are the masks of their bits.
#[derive(Clone, Copy, Debug, Default, PartialEq, Eq, Structural)]
pub struct NotifyEnable(u32);

impl View for NotifyEnable {
    type V = u32;

    closed spec fn view(&self) -> u32 {
        self.0
    }
}

impl NotifyEnable {
    /// Enables sending notification messages to the calling agent.
    pub const ENABLE: u32 = 1 << 0;

    /// No flag set.
    pub fn empty() -> (r: Self)
        ensures
            r@ == 0,
    {
        NotifyEnable(0)
    }

    /// The raw bits.
    pub fn bits(&self) -> (r: u32)
        ensures
            r == self@,
    {
        self.0
    }

    /// The flags with these raw bits, unknown bits included.
    pub fn from_bits_retain(bits: u32) -> (r: Self)
        ensures
            r@ == bits,
    {
        NotifyEnable(bits)
    }

    /// All bits of `mask` are set.
    pub fn contains(&self, mask: u32) -> (r: bool)
        ensures
            r == (self@ & mask == mask),
    {
        self.0 & mask == mask
    }

    /// Sets the bits of `mask` when `value` holds and clears them otherwise; the other bits are
    /// kept.
    pub fn set(&mut self, mask: u32, value: bool)
        ensures
            final(self)@ == (if value { old(self)@ | mask } else { old(self)@ & !mask }),
    {
        if value {
            self.0 = self.0 | mask;
        } else {
            self.0 = self.0 & !mask;
        }
    }
}

impl Payload for NotifyEnable {
    open spec fn spec_word_count() -> nat {
        1
    }

    open spec fn spec_words(&self) -> Seq<u32> {
        seq![self@]
    }

    proof fn lemma_words(&self, other: &Self) {
        if self.spec_words() == other.spec_words() {
            assert(self.spec_words()[0] == other.spec_words()[0]);
        }
    }

    fn word_count() -> (r: usize) {
        1
    }

    fn carried_word_count(first: u32) -> (r: u64) {
        1
    }

    fn to_words(&self) -> (r: Vec<u32>) {
        let mut v: Vec<u32> = Vec::new();
        v.push(self.0);
        v
    }

    fn from_words(words: &[u32]) -> (r: Self) {
        NotifyEnable(words[0])
    }
}


} // verus!

verus! {

/// Protocol identifier type for storing both standard and vendor/platform specific protocol IDs.
#[derive(Clone, Copy, Debug, PartialEq, Eq, Structural)]
pub enum ProtocolId {
    Standard(StandardProtocolId),
    VendorSpecific(VendorSpecificProtocolId),
}

impl ProtocolId {
    /// A vendor specific identifier lies in the vendor specific range.
    pub open spec fn is_valid(self) -> bool {
        match self {
            ProtocolId::Standard(_) => true,
            ProtocolId::VendorSpecific(id) => id.is_valid(),
        }
    }

    /// Establishes that this identifier, like every value of the type, is valid.
    pub fn establish_valid(&self)
        ensures
            self.is_valid(),
    {
        if let ProtocolId::VendorSpecific(id) = self {
            id.establish_valid();
        }
    }

    /// The protocol identifier number.
    pub open spec fn spec_into_u8(self) -> u8 {
        match self {
            ProtocolId::Standard(id) => id.spec_into_u8(),
            ProtocolId::VendorSpecific(id) => id@,
        }
    }

    /// Numbers from 0x80 are vendor specific, others must be standard.
    pub open spec fn spec_try_from_u8(v: u8) -> Result<Self, Error> {
        if v >= 0x80 {
            Ok(ProtocolId::VendorSpecific(VendorSpecificProtocolId::spec_new(v)))
        } else {
            match StandardProtocolId::spec_try_from_u8(v) {
                Ok(id) => Ok(ProtocolId::Standard(id)),
                Err(e) => Err(e),
            }
        }
    }
}

impl TryFrom<u8> for ProtocolId {
    type Error = Error;

    fn try_from(value: u8) -> (r: Result<Self, Error>) {
        if let Ok(id) = VendorSpecificProtocolId::try_from(value) {
            Ok(ProtocolId::VendorSpecific(id))
        } else {
            match StandardProtocolId::try_from(value) {
                Ok(id) => Ok(ProtocolId::Standard(id)),
                Err(e) => Err(e),
            }
        }
    }
}

impl vstd::std_specs::convert::TryFromSpecImpl<u8> for ProtocolId {
    open spec fn obeys_try_from_spec() -> bool {
        true
    }

    open spec fn try_from_spec(v: u8) -> Result<Self, Error> {
        Self::spec_try_from_u8(v)
    }
}

impl From<ProtocolId> for u8 {
    fn from(value: ProtocolId) -> (r: u8) {
        match value {
            ProtocolId::Standard(id) => u8::from(id),
            ProtocolId::VendorSpecific(id) => u8::from(id),
        }
    }
}

impl vstd::std_specs::convert::FromSpecImpl<ProtocolId> for u8 {
    open spec fn obeys_from_spec() -> bool {
        true
    }

    open spec fn from_spec(v: ProtocolId) -> u8 {
        v.spec_into_u8()
    }
}

/// A valid protocol identifier decodes from its number, and every number that decodes is the
/// number of a valid identifier.
pub proof fn lemma_protocol_id_roundtrip(p: ProtocolId, v: u8)
    ensures
        p.is_valid() ==> ProtocolId::spec_try_from_u8(p.spec_into_u8()) == Ok::<ProtocolId, Error>(p),
        ProtocolId::spec_try_from_u8(v) matches Ok(x) ==> x.is_valid() && x.spec_into_u8() == v,
{
    broadcast use VendorSpecificProtocolId::lemma_spec_new;
    lemma_standard_protocol_id_roundtrip(StandardProtocolId::Base, v);
    if let ProtocolId::Standard(id) = p {
        lemma_standard_protocol_id_roundtrip(id, v);
    }
}

/// The protocol identifier numbers of Table 2: a standard protocol has its number from 0x10 to
/// 0x1b, a vendor specific one its own number, from 0x80. A number from 0x80 decodes to the
/// vendor specific protocol with that number, one from 0x10 to 0x1b to the standard protocol at
/// that place of the table, and every other number is refused as an invalid protocol identifier.
pub proof fn lemma_protocol_id_numbers()
    ensures
        forall|p: ProtocolId|
            p.is_valid() ==> (#[trigger] p.spec_into_u8() >= 0x80 <==> p is VendorSpecific),
        forall|p: ProtocolId|
            p is Standard ==> 0x10 <= #[trigger] p.spec_into_u8() <= 0x1b,
        forall|v: u8|
            v >= 0x80 ==> (#[trigger] ProtocolId::spec_try_from_u8(v) matches Ok(
                ProtocolId::VendorSpecific(id),
            ) && id@ == v),
        forall|v: u8|
            0x10 <= v <= 0x1b ==> #[trigger] ProtocolId::spec_try_from_u8(v) == Ok::<
                ProtocolId,
                Error,
            >(ProtocolId::Standard(standard_protocols_in_table_order()[v - 0x10])),
        forall|v: u8|
            (v < 0x10 || 0x1b < v < 0x80) ==> #[trigger] ProtocolId::spec_try_from_u8(v) == Err::<
                ProtocolId,
                Error,
            >(Error::InvalidProtocolId(v)),
{
    broadcast use VendorSpecificProtocolId::lemma_spec_new;
    lemma_standard_protocol_numbers();
}

/// Common message ID type for storing the message ID of all protocols. Each protocol has its own
/// variant.
#[derive(Clone, Copy, Debug, PartialEq, Eq, Structural)]
pub enum MessageId {
    Base(BaseCommandMessageId),
    PowerDomainManagement(PowerDomainCommandMessageId),
    SystemPowerManagement(SystemPowerCommandMessageId),
    VendorSpecific(VendorSpecificProtocolId, u8),
}

impl MessageId {
    /// A vendor specific message carries a vendor specific protocol identifier.
    pub open spec fn is_valid(self) -> bool {
        match self {
            MessageId::VendorSpecific(id, _) => id.is_valid(),
            _ => true,
        }
    }

    /// Establishes that this message identifier, like every value of the type, is valid.
    pub fn establish_valid(&self)
        ensures
            self.is_valid(),
    {
        if let MessageId::VendorSpecific(id, _) = self {
            id.establish_valid();
        }
    }

    /// The protocol identifier and the message number.
    pub open spec fn spec_into_pair(self) -> (ProtocolId, u8) {
        match self {
            MessageId::Base(m) => (ProtocolId::Standard(StandardProtocolId::Base), m.spec_into_u8()),
            MessageId::PowerDomainManagement(m) => (
                ProtocolId::Standard(StandardProtocolId::PowerDomainManagement),
                m.spec_into_u8(),
            ),
            MessageId::SystemPowerManagement(m) => (
                ProtocolId::Standard(StandardProtocolId::SystemPowerManagement),
                m.spec_into_u8(),
            ),
            MessageId::VendorSpecific(id, m) => (ProtocolId::VendorSpecific(id), m),
        }
    }

    /// The message of protocol `p` with number `v`: the Base, Power Domain Management and System
    /// Power Management protocols know their own message numbers, the other standard protocols
    /// are not supported, and any number of a vendor specific protocol is taken as it is.
    pub open spec fn spec_try_from_pair(p: ProtocolId, v: u8) -> Result<Self, Error> {
        match p {
            ProtocolId::Standard(StandardProtocolId::Base) => match BaseCommandMessageId::spec_try_from_u8(v) {
                Ok(m) => Ok(MessageId::Base(m)),
                Err(e) => Err(e),
            },
            ProtocolId::Standard(StandardProtocolId::PowerDomainManagement) => match PowerDomainCommandMessageId::spec_try_from_u8(v) {
                Ok(m) => Ok(MessageId::PowerDomainManagement(m)),
                Err(e) => Err(e),
            },
            ProtocolId::Standard(StandardProtocolId::SystemPowerManagement) => match SystemPowerCommandMessageId::spec_try_from_u8(v) {
                Ok(m) => Ok(MessageId::SystemPowerManagement(m)),
                Err(e) => Err(e),
            },
            ProtocolId::Standard(_) => Err(Error::ProtocolNotSupported),
            ProtocolId::VendorSpecific(id) => Ok(MessageId::VendorSpecific(id, v)),
        }
    }
}

impl TryFrom<(ProtocolId, u8)> for MessageId {
    type Error = Error;

    fn try_from(value: (ProtocolId, u8)) -> (r: Result<Self, Error>) {
        match value.0 {
            ProtocolId::Standard(protocol) => match protocol {
                StandardProtocolId::Base => match BaseCommandMessageId::try_from(value.1) {
                    Ok(m) => Ok(MessageId::Base(m)),
                    Err(e) => Err(e),
                },
                StandardProtocolId::PowerDomainManagement => match PowerDomainCommandMessageId::try_from(value.1) {
                    Ok(m) => Ok(MessageId::PowerDomainManagement(m)),
                    Err(e) => Err(e),
                },
                StandardProtocolId::SystemPowerManagement => match SystemPowerCommandMessageId::try_from(value.1) {
                    Ok(m) => Ok(MessageId::SystemPowerManagement(m)),
                    Err(e) => Err(e),
                },
                _ => Err(Error::ProtocolNotSupported),
            },
            ProtocolId::VendorSpecific(protocol_id) => Ok(MessageId::VendorSpecific(protocol_id, value.1)),
        }
    }
}

impl vstd::std_specs::convert::TryFromSpecImpl<(ProtocolId, u8)> for MessageId {
    open spec fn obeys_try_from_spec() -> bool {
        true
    }

    open spec fn try_from_spec(v: (ProtocolId, u8)) -> Result<Self, Error> {
        Self::spec_try_from_pair(v.0, v.1)
    }
}

impl From<MessageId> for (ProtocolId, u8) {
    fn from(value: MessageId) -> (r: (ProtocolId, u8)) {
        match value {
            MessageId::Base(message_id) => (
                ProtocolId::Standard(StandardProtocolId::Base),
                u8::from(message_id),
            ),
            MessageId::PowerDomainManagement(message_id) => (
                ProtocolId::Standard(StandardProtocolId::PowerDomainManagement),
                u8::from(message_id),
            ),
            MessageId::SystemPowerManagement(message_id) => (
                ProtocolId::Standard(StandardProtocolId::SystemPowerManagement),
                u8::from(message_id),
            ),
            MessageId::VendorSpecific(protocol_id, message_id) => {
                (ProtocolId::VendorSpecific(protocol_id), message_id)
            },
        }
    }
}

impl vstd::std_specs::convert::FromSpecImpl<MessageId> for (ProtocolId, u8) {
    open spec fn obeys_from_spec() -> bool {
        true
    }

    open spec fn from_spec(v: MessageId) -> (ProtocolId, u8) {
        v.spec_into_pair()
    }
}

/// A message identifier is decoded back from its protocol and number, and a pair that decodes
/// is the pair of what it decodes to.
pub proof fn lemma_message_id_roundtrip(m: MessageId, p: ProtocolId, v: u8)
    ensures
        MessageId::spec_try_from_pair(m.spec_into_pair().0, m.spec_into_pair().1) == Ok::<MessageId, Error>(m),
        m.is_valid() ==> m.spec_into_pair().0.is_valid(),
        MessageId::spec_try_from_pair(p, v) matches Ok(x) ==> x.spec_into_pair() == (p, v) && (p.is_valid() ==> x.is_valid()),
{
    match m {
        MessageId::Base(b) => base::lemma_base_command_message_id_roundtrip(b, v),
        MessageId::PowerDomainManagement(b) => power_domain::lemma_power_domain_command_message_id_roundtrip(b, v),
        MessageId::SystemPowerManagement(b) => system_power::lemma_system_power_command_message_id_roundtrip(b, v),
        MessageId::VendorSpecific(..) => {},
    }
    match p {
        ProtocolId::Standard(StandardProtocolId::Base) => base::lemma_base_command_message_id_roundtrip(BaseCommandMessageId::ProtocolVersion, v),
        ProtocolId::Standard(StandardProtocolId::PowerDomainManagement) => power_domain::lemma_power_domain_command_message_id_roundtrip(PowerDomainCommandMessageId::ProtocolVersion, v),
        ProtocolId::Standard(StandardProtocolId::SystemPowerManagement) => system_power::lemma_system_power_command_message_id_roundtrip(SystemPowerCommandMessageId::ProtocolVersion, v),
        _ => {},
    }
}

} // verus!

verus! {

/// Standard status codes (Table 5: Status codes). -13 to -127 are reserved, -128 and below
/// are vendor specific.
#[derive(Clone, Copy, Debug, PartialEq, Eq, Structural)]
pub enum StandardStatusCode {
    Success,
    NotSupported,
    InvalidParameters,
    Denied,
    NotFound,
    OutOfRange,
    Busy,
    CommsError,
    GenericError,
    HardwareError,
    ProtocolError,
    InUse,
    PartialError,
}

impl StandardStatusCode {
    /// The number that stands for this value.
    pub open spec fn spec_into_i32(self) -> i32 {
        match self {
            StandardStatusCode::Success => 0i32,
            StandardStatusCode::NotSupported => -1i32,
            StandardStatusCode::InvalidParameters => -2i32,
            StandardStatusCode::Denied => -3i32,
            StandardStatusCode::NotFound => -4i32,
            StandardStatusCode::OutOfRange => -5i32,
            StandardStatusCode::Busy => -6i32,
            StandardStatusCode::CommsError => -7i32,
            StandardStatusCode::GenericError => -8i32,
            StandardStatusCode::HardwareError => -9i32,
            StandardStatusCode::ProtocolError => -10i32,
            StandardStatusCode::InUse => -11i32,
            StandardStatusCode::PartialError => -12i32,
        }
    }

    /// The value that number `v` stands for; any other number is refused.
    pub open spec fn spec_try_from_i32(v: i32) -> Result<Self, Error> {
        if v == 0i32 {
            Ok(StandardStatusCode::Success)
        } else if v == -1i32 {
            Ok(StandardStatusCode::NotSupported)
        } else if v == -2i32 {
            Ok(StandardStatusCode::InvalidParameters)
        } else if v == -3i32 {
            Ok(StandardStatusCode::Denied)
        } else if v == -4i32 {
            Ok(StandardStatusCode::NotFound)
        } else if v == -5i32 {
            Ok(StandardStatusCode::OutOfRange)
        } else if v == -6i32 {
            Ok(StandardStatusCode::Busy)
        } else if v == -7i32 {
            Ok(StandardStatusCode::CommsError)
        } else if v == -8i32 {
            Ok(StandardStatusCode::GenericError)
        } else if v == -9i32 {
            Ok(StandardStatusCode::HardwareError)
        } else if v == -10i32 {
            Ok(StandardStatusCode::ProtocolError)
        } else if v == -11i32 {
            Ok(StandardStatusCode::InUse)
        } else if v == -12i32 {
            Ok(StandardStatusCode::PartialError)
        } else {
            Err(Error::InvalidStatusCode(v))
        }
    }
}

impl From<StandardStatusCode> for i32 {
    fn from(value: StandardStatusCode) -> (r: i32) {
        match value {
            StandardStatusCode::Success => 0,
            StandardStatusCode::NotSupported => -1,
            StandardStatusCode::InvalidParameters => -2,
            StandardStatusCode::Denied => -3,
            StandardStatusCode::NotFound => -4,
            StandardStatusCode::OutOfRange => -5,
            StandardStatusCode::Busy => -6,
            StandardStatusCode::CommsError => -7,
            StandardStatusCode::GenericError => -8,
            StandardStatusCode::HardwareError => -9,
            StandardStatusCode::ProtocolError => -10,
            StandardStatusCode::InUse => -11,
            StandardStatusCode::PartialError => -12,
        }
    }
}

impl vstd::std_specs::convert::FromSpecImpl<StandardStatusCode> for i32 {
    open spec fn obeys_from_spec() -> bool {
        true
    }

    open spec fn from_spec(v: StandardStatusCode) -> i32 {
        v.spec_into_i32()
    }
}

impl TryFrom<i32> for StandardStatusCode {
    type Error = Error;

    fn try_from(value: i32) -> (r: Result<Self, Error>) {
        match value {
            0 => Ok(StandardStatusCode::Success),
            -1 => Ok(StandardStatusCode::NotSupported),
            -2 => Ok(StandardStatusCode::InvalidParameters),
            -3 => Ok(StandardStatusCode::Denied),
            -4 => Ok(StandardStatusCode::NotFound),
            -5 => Ok(StandardStatusCode::OutOfRange),
            -6 => Ok(StandardStatusCode::Busy),
            -7 => Ok(StandardStatusCode::CommsError),
            -8 => Ok(StandardStatusCode::GenericError),
            -9 => Ok(StandardStatusCode::HardwareError),
            -10 => Ok(StandardStatusCode::ProtocolError),
            -11 => Ok(StandardStatusCode::InUse),
            -12 => Ok(StandardStatusCode::PartialError),
            _ => Err(Error::InvalidStatusCode(value)),
        }
    }
}

impl vstd::std_specs::convert::TryFromSpecImpl<i32> for StandardStatusCode {
    open spec fn obeys_try_from_spec() -> bool {
        true
    }

    open spec fn try_from_spec(v: i32) -> Result<Self, Error> {
        Self::spec_try_from_i32(v)
    }
}

/// Decoding the number of a value gives back the value, and a number that decodes
/// is the number of what it decodes to.
pub proof fn lemma_standard_status_code_roundtrip(m: StandardStatusCode, v: i32)
    ensures
        StandardStatusCode::spec_try_from_i32(m.spec_into_i32()) == Ok::<StandardStatusCode, Error>(m),
        StandardStatusCode::spec_try_from_i32(v) matches Ok(x) ==> x.spec_into_i32() == v,
{
}

/// The standard status codes in the order of Table 5: Status codes.
pub open spec fn standard_status_codes_in_table_order() -> Seq<StandardStatusCode> {
    seq![
        StandardStatusCode::Success,
        StandardStatusCode::NotSupported,
        StandardStatusCode::InvalidParameters,
        StandardStatusCode::Denied,
        StandardStatusCode::NotFound,
        StandardStatusCode::OutOfRange,
        StandardStatusCode::Busy,
        StandardStatusCode::CommsError,
        StandardStatusCode::GenericError,
        StandardStatusCode::HardwareError,
        StandardStatusCode::ProtocolError,
        StandardStatusCode::InUse,
        StandardStatusCode::PartialError,
    ]
}

/// Table 5 numbers the standard status codes 0, -1, -2, ... in its order: the `i`th code is
/// -`i`. Exactly the numbers -12 to 0 decode to a standard code, each to the code with that
/// number; every other number is refused as an invalid status code.
pub proof fn lemma_standard_status_code_numbers()
    ensures
        forall|i: int|
            0 <= i < 13 ==> #[trigger] standard_status_codes_in_table_order()[i].spec_into_i32() == -i,
        forall|v: i32|
            -12 <= v <= 0 ==> #[trigger] StandardStatusCode::spec_try_from_i32(v) == Ok::<
                StandardStatusCode,
                Error,
            >(standard_status_codes_in_table_order()[-v]),
        forall|v: i32|
            !(-12 <= v <= 0) ==> #[trigger] StandardStatusCode::spec_try_from_i32(v) == Err::<
                StandardStatusCode,
                Error,
            >(Error::InvalidStatusCode(v)),
{
}

/// Status code type for storing both standard and vendor/platform specific status codes.
#[derive(Clone, Copy, Debug, PartialEq, Eq, Structural)]
pub enum StatusCode {
    Standard(StandardStatusCode),
    VendorSpecific(i32),
}

impl StatusCode {
    const VENDOR_SPECIFIC_BASE: i32 = -128;

    /// Vendor specific codes are -128 and below.
    pub open spec fn is_valid(self) -> bool {
        match self {
            StatusCode::Standard(_) => true,
            StatusCode::VendorSpecific(code) => code <= -128,
        }
    }

    /// The status code number.
    pub open spec fn spec_into_i32(self) -> i32 {
        match self {
            StatusCode::Standard(code) => code.spec_into_i32(),
            StatusCode::VendorSpecific(code) => code,
        }
    }

    /// Numbers -128 and below are vendor specific, others must be standard.
    pub open spec fn spec_try_from_i32(v: i32) -> Result<Self, Error> {
        if v <= -128 {
            Ok(StatusCode::VendorSpecific(v))
        } else {
            match StandardStatusCode::spec_try_from_i32(v) {
                Ok(code) => Ok(StatusCode::Standard(code)),
                Err(e) => Err(e),
            }
        }
    }
}

impl TryFrom<i32> for StatusCode {
    type Error = Error;

    fn try_from(value: i32) -> (r: Result<Self, Error>) {
        if value <= Self::VENDOR_SPECIFIC_BASE {
            Ok(StatusCode::VendorSpecific(value))
        } else {
            match StandardStatusCode::try_from(value) {
                Ok(code) => Ok(StatusCode::Standard(code)),
                Err(e) => Err(e),
            }
        }
    }
}

impl vstd::std_specs::convert::TryFromSpecImpl<i32> for StatusCode {
    open spec fn obeys_try_from_spec() -> bool {
        true
    }

    open spec fn try_from_spec(v: i32) -> Result<Self, Error> {
        Self::spec_try_from_i32(v)
    }
}

/// A vendor specific code above -128 is not a valid status code: it is converted to its number
/// as it is.
impl From<StatusCode> for i32 {
    fn from(value: StatusCode) -> (r: i32) {
        match value {
            StatusCode::Standard(code) => i32::from(code),
            StatusCode::VendorSpecific(code) => code,
        }
    }
}

impl vstd::std_specs::convert::FromSpecImpl<StatusCode> for i32 {
    open spec fn obeys_from_spec() -> bool {
        true
    }

    open spec fn from_spec(v: StatusCode) -> i32 {
        v.spec_into_i32()
    }
}

/// A valid status code decodes from its number, and a number that decodes is the number of a
/// valid status code.
pub proof fn lemma_status_code_roundtrip(s: StatusCode, v: i32)
    ensures
        s.is_valid() ==> StatusCode::spec_try_from_i32(s.spec_into_i32()) == Ok::<StatusCode, Error>(s),
        StatusCode::spec_try_from_i32(v) matches Ok(x) ==> x.is_valid() && x.spec_into_i32() == v,
{
}

/// The status code numbers of Table 5: a standard code has its number from -12 to 0, a vendor
/// specific one its own number, -128 or below. A number of -128 or below decodes to the vendor
/// specific code with that number, one from -12 to 0 to the standard code at that place of the
/// table, and every other number is refused as an invalid status code.
pub proof fn lemma_status_code_numbers()
    ensures
        forall|c: StatusCode|
            c is Standard ==> -12 <= #[trigger] c.spec_into_i32() <= 0,
        forall|v: i32|
            v <= -128 ==> #[trigger] StatusCode::spec_try_from_i32(v) == Ok::<StatusCode, Error>(
                StatusCode::VendorSpecific(v),
            ),
        forall|v: i32|
            -12 <= v <= 0 ==> #[trigger] StatusCode::spec_try_from_i32(v) == Ok::<StatusCode, Error>(
                StatusCode::Standard(standard_status_codes_in_table_order()[-v]),
            ),
        forall|v: i32|
            -128 < v < -12 || 0 < v ==> #[trigger] StatusCode::spec_try_from_i32(v) == Err::<
                StatusCode,
                Error,
            >(Error::InvalidStatusCode(v)),
{
    lemma_standard_status_code_numbers();
}

/// Response structure including the status code.
pub struct ResponseWithStatus<R> {
    status: i32,
    pub payload: R,
}

impl<R> ResponseWithStatus<R> {
    /// The raw status field.
    pub closed spec fn spec_status(&self) -> i32 {
        self.status
    }

    /// The payload.
    pub closed spec fn spec_payload(&self) -> R {
        self.payload
    }

    /// Creates a response from its raw status field and its payload.
    pub fn new(status: i32, payload: R) -> (r: Self)
        ensures
            r.spec_status() == status,
            r.spec_payload() == payload,
    {
        ResponseWithStatus { status, payload }
    }

    /// The status code of the response.
    pub fn status(&self) -> (r: Result<StatusCode, Error>)
        ensures
            r == StatusCode::spec_try_from_i32(self.spec_status()),
    {
        StatusCode::try_from(self.status)
    }
}

/// Protocol version type.
///
/// Commonly used in `*_PROTOCOL_VERSION` and `*_NEGOTIATE_PROTOCOL_VERSION` commands. The major
/// version is in bits 31..16 and the minor version in bits 15..0.
#[derive(Clone, Copy, Debug, Default, PartialEq, Eq, Ord, Structural)]
pub struct Version(u32);

impl View for Version {
    type V = u32;

    closed spec fn view(&self) -> u32 {
        self.0
    }
}

impl Version {
    /// The major version of a raw version value.
    pub open spec fn spec_major(v: u32) -> u16 {
        ((v >> 16) & 0xffff) as u16
    }

    /// The minor version of a raw version value.
    pub open spec fn spec_minor(v: u32) -> u16 {
        (v & 0xffff) as u16
    }

    /// Creates new instance.
    pub fn new(major: u16, minor: u16) -> (r: Self)
        ensures
            r@ == ((major as u32) << 16) | (minor as u32),
            Self::spec_major(r@) == major,
            Self::spec_minor(r@) == minor,
    {
        let v: u32 = ((major as u32) << 16) | (minor as u32);
        assert(((((major as u32) << 16) | (minor as u32)) >> 16) & 0xffff == major as u32) by (bit_vector);
        assert((((major as u32) << 16) | (minor as u32)) & 0xffff == minor as u32) by (bit_vector);
        Version(v)
    }

    /// Returns major version.
    pub fn major(&self) -> (r: u16)
        ensures
            r == Self::spec_major(self@),
    {
        ((self.0 >> 16) & 0xffff) as u16
    }

    /// Returns minor version.
    pub fn minor(&self) -> (r: u16)
        ensures
            r == Self::spec_minor(self@),
    {
        (self.0 & 0xffff) as u16
    }

    /// The raw version value.
    pub fn bits(&self) -> (r: u32)
        ensures
            r == self@,
    {
        self.0
    }

    /// The version with this raw value.
    pub fn from_bits(bits: u32) -> (r: Self)
        ensures
            r@ == bits,
    {
        Version(bits)
    }
}

/// A version is made of its major and minor versions.
pub proof fn lemma_version_parts(v: u32)
    ensures
        v == ((Version::spec_major(v) as u32) << 16) | (Version::spec_minor(v) as u32),
{
    assert(v == ((((v >> 16) & 0xffff) as u16 as u32) << 16) | ((v & 0xffff) as u16 as u32)) by (bit_vector);
}

/// Raw version values are ordered by their major versions, then by their minor versions.
proof fn lemma_raw_version_order(v: u32, w: u32)
    by (bit_vector)
    ensures
        v < w <==> (Version::spec_major(v) < Version::spec_major(w) || (Version::spec_major(v)
            == Version::spec_major(w) && Version::spec_minor(v) < Version::spec_minor(w))),
        v == w <==> (Version::spec_major(v) == Version::spec_major(w) && Version::spec_minor(v)
            == Version::spec_minor(w)),
{
}

/// Versions compare as their raw values do, the same order as the derived `Ord`.
impl PartialOrd for Version {
    fn partial_cmp(&self, other: &Self) -> (r: Option<Ordering>) {
        if self.0 < other.0 {
            Some(Ordering::Less)
        } else if self.0 == other.0 {
            Some(Ordering::Equal)
        } else {
            Some(Ordering::Greater)
        }
    }
}

impl PartialOrdSpecImpl for Version {
    open spec fn obeys_partial_cmp_spec() -> bool {
        true
    }

    open spec fn partial_cmp_spec(&self, other: &Self) -> Option<Ordering> {
        if self@ < other@ {
            Some(Ordering::Less)
        } else if self@ == other@ {
            Some(Ordering::Equal)
        } else {
            Some(Ordering::Greater)
        }
    }
}

/// Versions are ordered by their major versions, then by their minor versions: `v < w` exactly
/// when the major version of `v` is lower, or the major versions are equal and the minor version
/// of `v` is lower; they compare equal exactly when both parts are equal.
pub proof fn lemma_version_order(v: Version, w: Version)
    ensures
        PartialOrdSpec::partial_cmp_spec(&v, &w) == Some(Ordering::Less) <==> (Version::spec_major(v@)
            < Version::spec_major(w@) || (Version::spec_major(v@) == Version::spec_major(w@)
            && Version::spec_minor(v@) < Version::spec_minor(w@))),
        PartialOrdSpec::partial_cmp_spec(&v, &w) == Some(Ordering::Equal) <==> (Version::spec_major(v@)
            == Version::spec_major(w@) && Version::spec_minor(v@) == Version::spec_minor(w@)),
        PartialOrdSpec::partial_cmp_spec(&v, &w) == Some(Ordering::Greater) <==> (Version::spec_major(w@)
            < Version::spec_major(v@) || (Version::spec_major(v@) == Version::spec_major(w@)
            && Version::spec_minor(w@) < Version::spec_minor(v@))),
{
    lemma_raw_version_order(v@, w@);
    lemma_raw_version_order(w@, v@);
}

} // verus!

verus! {

/// Message header structure.
///
/// See Table 3: Message header format. The token is in bits 27..18, the protocol identifier in
/// bits 17..10, the message type in bits 9..8 (commands are type 0) and the message identifier
/// in bits 7..0.
#[derive(Clone, Copy, Debug, PartialEq, Eq, Structural)]
pub struct MessageHeader {
    pub token: u16,
    pub message_id: MessageId,
}

/// The token field of a raw header.
pub open spec fn header_token(v: u32) -> u32 {
    (v >> 18) & 0x3ff
}

/// The protocol identifier field of a raw header.
pub open spec fn header_protocol_id(v: u32) -> u32 {
    (v >> 10) & 0xff
}

/// The message type field of a raw header.
pub open spec fn header_message_type(v: u32) -> u32 {
    (v >> 8) & 0x3
}

/// The message identifier field of a raw header.
pub open spec fn header_message_number(v: u32) -> u32 {
    v & 0xff
}

/// The raw header with these fields, the message type being 0.
pub open spec fn header_bits(token: u32, protocol_id: u32, message_number: u32) -> u32 {
    (token << 18) | (protocol_id << 10) | message_number
}

impl MessageHeader {
    const TOKEN_MASK: u32 = 0x3ff;
    const TOKEN_SHIFT: u32 = 18;
    const PROTOCOL_ID_MASK: u32 = 0xff;
    const PROTOCOL_ID_SHIFT: u32 = 10;
    const MESSAGE_TYPE_MASK: u32 = 0x3;
    const MESSAGE_TYPE_SHIFT: u32 = 8;
    const MESSAGE_TYPE: u32 = 0x0;
    const MESSAGE_ID_MASK: u32 = 0xff;
    const MESSAGE_ID_SHIFT: u32 = 0;

    /// The token fits in its 10 bits and the message identifier is valid.
    pub open spec fn is_valid(self) -> bool {
        self.token <= 0x3ff && self.message_id.is_valid()
    }

    /// The raw header. The token is taken modulo 2^10.
    pub open spec fn spec_into_u32(self) -> u32 {
        header_bits(
            (self.token as u32) & 0x3ff,
            self.message_id.spec_into_pair().0.spec_into_u8() as u32,
            self.message_id.spec_into_pair().1 as u32,
        )
    }

    /// The header that a raw value holds: its protocol identifier must be known, its message
    /// type must be 0 and its message identifier must be known within the protocol, checked in
    /// this order. Bits 31..28 are not read.
    pub open spec fn spec_try_from_u32(v: u32) -> Result<Self, Error> {
        match ProtocolId::spec_try_from_u8(header_protocol_id(v) as u8) {
            Err(e) => Err(e),
            Ok(p) => if header_message_type(v) != 0 {
                Err(Error::InvalidMessageType(header_message_type(v) as u8))
            } else {
                match MessageId::spec_try_from_pair(p, header_message_number(v) as u8) {
                    Err(e) => Err(e),
                    Ok(m) => Ok(MessageHeader { token: header_token(v) as u16, message_id: m }),
                }
            },
        }
    }
}

impl TryFrom<u32> for MessageHeader {
    type Error = Error;

    fn try_from(value: u32) -> (r: Result<Self, Error>) {
        assert(header_token(value) <= 0x3ff && header_protocol_id(value) <= 0xff
            && header_message_type(value) <= 3 && header_message_number(value) <= 0xff
            && (value >> 0u32) & 0xff == header_message_number(value)) by (bit_vector);
        let token = ((value >> Self::TOKEN_SHIFT) & Self::TOKEN_MASK) as u16;
        let protocol_id = match ProtocolId::try_from(
            ((value >> Self::PROTOCOL_ID_SHIFT) & Self::PROTOCOL_ID_MASK) as u8,
        ) {
            Ok(p) => p,
            Err(e) => return Err(e),
        };
        let message_type = (value >> Self::MESSAGE_TYPE_SHIFT) & Self::MESSAGE_TYPE_MASK;
        if message_type != Self::MESSAGE_TYPE {
            return Err(Error::InvalidMessageType(message_type as u8));
        }
        let message_id = match MessageId::try_from(
            (protocol_id, ((value >> Self::MESSAGE_ID_SHIFT) & Self::MESSAGE_ID_MASK) as u8),
        ) {
            Ok(m) => m,
            Err(e) => return Err(e),
        };
        Ok(Self { token, message_id })
    }
}

impl vstd::std_specs::convert::TryFromSpecImpl<u32> for MessageHeader {
    open spec fn obeys_try_from_spec() -> bool {
        true
    }

    open spec fn try_from_spec(v: u32) -> Result<Self, Error> {
        Self::spec_try_from_u32(v)
    }
}

/// The token is 10 bits wide: a token above 0x3ff is not a valid header, and only its low 10
/// bits are encoded.
impl From<MessageHeader> for u32 {
    fn from(value: MessageHeader) -> (r: u32) {
        let token = (value.token as u32) & MessageHeader::TOKEN_MASK;
        let (protocol_id, message_id) = <(ProtocolId, u8)>::from(value.message_id);
        let protocol_id = u8::from(protocol_id) as u32;
        let message_id = message_id as u32;
        let r = (token << MessageHeader::TOKEN_SHIFT) | (protocol_id << MessageHeader::PROTOCOL_ID_SHIFT)
            | (MessageHeader::MESSAGE_TYPE << MessageHeader::MESSAGE_TYPE_SHIFT)
            | (message_id << MessageHeader::MESSAGE_ID_SHIFT);
        assert(r == header_bits(token, protocol_id, message_id)) by (bit_vector)
            requires
                r == (token << 18u32) | (protocol_id << 10u32) | (0u32 << 8u32) | (message_id << 0u32);
        r
    }
}

impl vstd::std_specs::convert::FromSpecImpl<MessageHeader> for u32 {
    open spec fn obeys_from_spec() -> bool {
        true
    }

    open spec fn from_spec(v: MessageHeader) -> u32 {
        v.spec_into_u32()
    }
}

/// The fields of a raw header built from fields that fit read back as those fields.
pub proof fn lemma_header_fields(token: u32, protocol_id: u32, message_number: u32)
    requires
        token <= 0x3ff,
        protocol_id <= 0xff,
        message_number <= 0xff,
    ensures
        header_token(header_bits(token, protocol_id, message_number)) == token,
        header_protocol_id(header_bits(token, protocol_id, message_number)) == protocol_id,
        header_message_type(header_bits(token, protocol_id, message_number)) == 0,
        header_message_number(header_bits(token, protocol_id, message_number)) == message_number,
{
    assert(((((token << 18) | (protocol_id << 10) | message_number) >> 18) & 0x3ff) == token) by (bit_vector)
        requires token <= 0x3ff, protocol_id <= 0xff, message_number <= 0xff;
    assert(((((token << 18) | (protocol_id << 10) | message_number) >> 10) & 0xff) == protocol_id) by (bit_vector)
        requires token <= 0x3ff, protocol_id <= 0xff, message_number <= 0xff;
    assert(((((token << 18) | (protocol_id << 10) | message_number) >> 8) & 0x3) == 0) by (bit_vector)
        requires token <= 0x3ff, protocol_id <= 0xff, message_number <= 0xff;
    assert((((token << 18) | (protocol_id << 10) | message_number) & 0xff) == message_number) by (bit_vector)
        requires token <= 0x3ff, protocol_id <= 0xff, message_number <= 0xff;
}

/// A raw header is made of its token, protocol identifier, message type and message identifier
/// fields and of bits 31..28.
pub proof fn lemma_header_split(v: u32)
    ensures
        header_message_type(v) == 0 ==> header_bits(header_token(v), header_protocol_id(v), header_message_number(v))
            == v & 0x0fff_ffff,
{
    assert(((v >> 8) & 0x3) == 0 ==> (((((v >> 18) & 0x3ff) << 18) | (((v >> 10) & 0xff) << 10) | (v & 0xff))
        == v & 0x0fff_ffff)) by (bit_vector);
}

/// Encoding a valid header and decoding it gives the header back.
pub proof fn lemma_header_encode_decode(h: MessageHeader)
    requires
        h.is_valid(),
    ensures
        MessageHeader::spec_try_from_u32(h.spec_into_u32()) == Ok::<MessageHeader, Error>(h),
{
    let (p, n) = h.message_id.spec_into_pair();
    let tok = h.token;
    let t = (tok as u32) & 0x3ff;
    assert(t == tok as u32) by (bit_vector)
        requires t == (tok as u32) & 0x3ff, tok <= 0x3ff;
    lemma_header_fields(t, p.spec_into_u8() as u32, n as u32);
    lemma_message_id_roundtrip(h.message_id, p, n);
    lemma_protocol_id_roundtrip(p, 0);
}

/// A raw header that decodes is the encoding of what it decodes to, but for bits 31..28, which
/// are not read; and what it decodes to is valid.
pub proof fn lemma_header_decode_encode(v: u32)
    ensures
        MessageHeader::spec_try_from_u32(v) matches Ok(h) ==> h.is_valid() && h.spec_into_u32() == v & 0x0fff_ffff,
{
    if let Ok(h) = MessageHeader::spec_try_from_u32(v) {
        let p = ProtocolId::spec_try_from_u8(header_protocol_id(v) as u8)->Ok_0;
        lemma_protocol_id_roundtrip(p, header_protocol_id(v) as u8);
        lemma_message_id_roundtrip(h.message_id, p, header_message_number(v) as u8);
        lemma_header_split(v);
        assert(header_protocol_id(v) <= 0xff && header_message_number(v) <= 0xff && header_token(v) <= 0x3ff) by (bit_vector);
        assert(((header_token(v) as u16) as u32) & 0x3ff == header_token(v)) by (bit_vector)
            requires header_token(v) <= 0x3ff;
    }
}

} // verus!

verus! {

/// Byte `k` (0 to 3, least significant first) of a word.
pub open spec fn byte_of_word(w: u32, k: int) -> u8 {
    if k == 0 {
        (w & 0xff) as u8
    } else if k == 1 {
        ((w >> 8) & 0xff) as u8
    } else if k == 2 {
        ((w >> 16) & 0xff) as u8
    } else {
        ((w >> 24) & 0xff) as u8
    }
}

/// The word made of four bytes, the first one least significant.
pub open spec fn word_of_bytes(b0: u8, b1: u8, b2: u8, b3: u8) -> u32 {
    (b0 as u32) | ((b1 as u32) << 8) | ((b2 as u32) << 16) | ((b3 as u32) << 24)
}

/// The words that hold a byte sequence, four bytes to a word, the first byte in the least
/// significant bits.
pub open spec fn words_of_bytes(b: Seq<u8>) -> Seq<u32> {
    Seq::new(b.len() / 4, |i: int| word_of_bytes(b[4 * i], b[4 * i + 1], b[4 * i + 2], b[4 * i + 3]))
}

/// The bytes that a word sequence holds, four to a word, least significant first.
pub open spec fn bytes_of_words(w: Seq<u32>) -> Seq<u8> {
    Seq::new(w.len() * 4, |i: int| byte_of_word(w[i / 4], i % 4))
}

/// The bytes of a word make up the word, and the word of four bytes holds those bytes.
pub proof fn lemma_word_bytes(w: u32, b0: u8, b1: u8, b2: u8, b3: u8)
    ensures
        word_of_bytes(byte_of_word(w, 0), byte_of_word(w, 1), byte_of_word(w, 2), byte_of_word(w, 3)) == w,
        byte_of_word(word_of_bytes(b0, b1, b2, b3), 0) == b0,
        byte_of_word(word_of_bytes(b0, b1, b2, b3), 1) == b1,
        byte_of_word(word_of_bytes(b0, b1, b2, b3), 2) == b2,
        byte_of_word(word_of_bytes(b0, b1, b2, b3), 3) == b3,
{
    assert(((w & 0xff) as u8 as u32) | ((((w >> 8) & 0xff) as u8 as u32) << 8) | ((((w >> 16) & 0xff) as u8 as u32)
        << 16) | ((((w >> 24) & 0xff) as u8 as u32) << 24) == w) by (bit_vector);
    let x = word_of_bytes(b0, b1, b2, b3);
    assert((x & 0xff) as u8 == b0 && ((x >> 8) & 0xff) as u8 == b1 && ((x >> 16) & 0xff) as u8 == b2
        && ((x >> 24) & 0xff) as u8 == b3) by (bit_vector)
        requires x == (b0 as u32) | ((b1 as u32) << 8) | ((b2 as u32) << 16) | ((b3 as u32) << 24);
}

/// Packing bytes into words and unpacking them gives the bytes back, and unpacking words and
/// packing the bytes gives the words back.
pub proof fn lemma_bytes_words_roundtrip(b: Seq<u8>, w: Seq<u32>)
    ensures
        b.len() % 4 == 0 ==> bytes_of_words(words_of_bytes(b)) == b,
        words_of_bytes(bytes_of_words(w)) == w,
        words_of_bytes(b).len() == b.len() / 4,
        bytes_of_words(w).len() == w.len() * 4,
{
    if b.len() % 4 == 0 {
        let ws = words_of_bytes(b);
        assert forall|i: int| 0 <= i < b.len() implies #[trigger] bytes_of_words(ws)[i] == b[i] by {
            let j = i / 4;
            let k = i % 4;
            assert(4 * j + k == i);
            lemma_word_bytes(0, b[4 * j], b[4 * j + 1], b[4 * j + 2], b[4 * j + 3]);
        }
        assert(bytes_of_words(ws) =~= b);
    }
    let bs = bytes_of_words(w);
    assert forall|i: int| 0 <= i < w.len() implies #[trigger] words_of_bytes(bs)[i] == w[i] by {
        assert((4 * i) / 4 == i && (4 * i + 1) / 4 == i && (4 * i + 2) / 4 == i && (4 * i + 3) / 4 == i);
        assert((4 * i) % 4 == 0 && (4 * i + 1) % 4 == 1 && (4 * i + 2) % 4 == 2 && (4 * i + 3) % 4 == 3);
        lemma_word_bytes(w[i], 0, 0, 0, 0);
    }
    assert(words_of_bytes(bs) =~= w);
}

/// Appends to `out` the words that hold `bytes`.
pub fn push_words_of_bytes(out: &mut Vec<u32>, bytes: &[u8])
    requires
        bytes@.len() % 4 == 0,
    ensures
        final(out)@ == old(out)@ + words_of_bytes(bytes@),
{
    let n = bytes.len() / 4;
    assert(4 * n == bytes@.len());
    let mut i: usize = 0;
    while i < n
        invariant
            n == bytes@.len() / 4,
            4 * n == bytes@.len(),
            i <= n,
            out@ == old(out)@ + words_of_bytes(bytes@).subrange(0, i as int),
        decreases n - i,
    {
        let len = bytes.len();
        assert(4 * i + 3 < len);
        let k: usize = 4 * i;
        let w = (bytes[k] as u32) | ((bytes[k + 1] as u32) << 8) | ((bytes[k + 2] as u32) << 16)
            | ((bytes[k + 3] as u32) << 24);
        out.push(w);
        i = i + 1;
        assert(words_of_bytes(bytes@).subrange(0, i as int) =~= words_of_bytes(bytes@).subrange(0, i - 1).push(w));
    }
    assert(words_of_bytes(bytes@).subrange(0, n as int) =~= words_of_bytes(bytes@));
}

/// Writes into `dst` the bytes that `words` hold.
pub fn fill_bytes_of_words(dst: &mut [u8], words: &[u32])
    requires
        old(dst)@.len() == words@.len() * 4,
    ensures
        final(dst)@ == bytes_of_words(words@),
{
    let n = words.len();
    let mut i: usize = 0;
    while i < n
        invariant
            n == words@.len(),
            dst@.len() == 4 * n,
            i <= n,
            forall|j: int| 0 <= j < 4 * i ==> #[trigger] dst@[j] == bytes_of_words(words@)[j],
        decreases n - i,
    {
        let w = words[i];
        let len = dst.len();
        assert(4 * i + 3 < len);
        let k: usize = 4 * i;
        dst[k] = (w & 0xff) as u8;
        dst[k + 1] = ((w >> 8) & 0xff) as u8;
        dst[k + 2] = ((w >> 16) & 0xff) as u8;
        dst[k + 3] = ((w >> 24) & 0xff) as u8;
        assert forall|j: int| 4 * i <= j < 4 * i + 4 implies #[trigger] dst@[j] == bytes_of_words(words@)[j] by {
            assert(j / 4 == i as int);
        }
        i = i + 1;
    }
    assert(dst@ =~= bytes_of_words(words@));
}

/// The wire form of a message payload: a sequence of 32-bit words holding the fields in order,
/// byte arrays packed four bytes to a word (`words_of_bytes`). Every sequence of the right
/// length is the wire form of exactly one value.
pub trait Payload: Sized {
    /// The number of words of the wire form.
    spec fn spec_word_count() -> nat;

    /// The wire form.
    spec fn spec_words(&self) -> Seq<u32>;

    /// The wire form has `spec_word_count` words, and two values with the same wire form are
    /// equal.
    proof fn lemma_words(&self, other: &Self)
        ensures
            self.spec_words().len() == Self::spec_word_count(),
            self.spec_words() == other.spec_words() ==> *self == *other,
    ;

    /// The number of words of the wire form.
    fn word_count() -> (r: usize)
        ensures
            r == Self::spec_word_count(),
    ;

    /// Encodes the value.
    fn to_words(&self) -> (r: Vec<u32>)
        ensures
            r@ == self.spec_words(),
    ;

    /// The number of words that a message carries for a value whose wire form begins with the
    /// word `first`. It is `spec_word_count` but for a response of variable length, whose first
    /// word says how many of its words follow.
    open spec fn spec_carried_word_count(first: u32) -> nat {
        Self::spec_word_count()
    }

    /// The number of words that a message carries for a value whose wire form begins with the
    /// word `first`.
    fn carried_word_count(first: u32) -> (r: u64)
        ensures
            r == Self::spec_carried_word_count(first),
    ;

    /// Decodes the value whose wire form is `words`.
    fn from_words(words: &[u32]) -> (r: Self)
        requires
            words@.len() == Self::spec_word_count(),
        ensures
            r.spec_words() == words@,
    ;
}

/// The value whose wire form is `words`.
pub open spec fn decode<P: Payload>(words: Seq<u32>) -> P {
    choose|p: P| p.spec_words() == words
}

/// Decoding the wire form of a value gives the value back.
pub proof fn lemma_decode_words<P: Payload>(p: P)
    ensures
        decode::<P>(p.spec_words()) == p,
{
    let q = decode::<P>(p.spec_words());
    assert(q.spec_words() == p.spec_words());
    q.lemma_words(&p);
}

/// Command trait for connecting command structures with their message IDs and response types.
pub trait Command: Payload {
    /// The response of the command.
    type Response: Payload;

    /// The message identifier of the command.
    spec fn spec_id() -> MessageId;

    /// The message identifier of the command.
    fn id() -> (r: MessageId)
        ensures
            r == Self::spec_id(),
    ;
}

} // verus!

verus! {

/// `i` is the position of the first NUL byte.
pub open spec fn is_first_nul(bytes: Seq<u8>, i: int) -> bool {
    0 <= i < bytes.len() && bytes[i] == 0 && forall|j: int| 0 <= j < i ==> bytes[j] != 0
}

/// The string held by a NUL terminated field: the bytes before the first NUL decoded as UTF-8;
/// none where there is no NUL or those bytes are not valid UTF-8.
pub open spec fn nul_terminated_string(bytes: Seq<u8>) -> Option<Seq<char>> {
    if exists|i: int| is_first_nul(bytes, i) {
        let end = choose|i: int| is_first_nul(bytes, i);
        if valid_utf8(bytes.subrange(0, end)) {
            Some(decode_utf8(bytes.subrange(0, end)))
        } else {
            None
        }
    } else {
        None
    }
}

/// `core::str::from_utf8`: the bytes as a string slice where they are valid UTF-8 (vstd's
/// `valid_utf8`), the string holding the characters that they encode (vstd's `decode_utf8`).
#[verifier::external_body]
fn str_from_utf8(bytes: &[u8]) -> (r: Option<&str>)
    ensures
        r is Some <==> valid_utf8(bytes@),
        r matches Some(s) ==> s@ == decode_utf8(bytes@),
{
    core::str::from_utf8(bytes).ok()
}

/// The string before the first NUL byte of `slice`.
pub(crate) fn get_ascii_string(slice: &[u8]) -> (r: Option<&str>)
    ensures
        match r {
            Some(s) => nul_terminated_string(slice@) == Some(s@),
            None => nul_terminated_string(slice@) is None,
        },
{
    let len = slice.len();
    let mut i: usize = 0;
    while i < len
        invariant
            len == slice@.len(),
            i <= len,
            forall|j: int| 0 <= j < i ==> slice@[j] != 0,
        decreases len - i,
    {
        if slice[i] == 0 {
            assert(is_first_nul(slice@, i as int));
            let prefix = vstd::slice::slice_subrange(slice, 0, i);
            assert forall|k: int| is_first_nul(slice@, k) implies k == i by {
                if k < i {
                } else if k > i {
                    assert(slice@[i as int] == 0);
                }
            }
            return str_from_utf8(prefix);
        }
        i = i + 1;
    }
    None
}

} // verus!

verus! {

impl Payload for u32 {
    open spec fn spec_word_count() -> nat {
        1
    }

    open spec fn spec_words(&self) -> Seq<u32> {
        seq![*self]
    }

    proof fn lemma_words(&self, other: &Self) {
        if self.spec_words() == other.spec_words() {
            assert(self.spec_words()[0] == other.spec_words()[0]);
        }
    }

    fn word_count() -> (r: usize) {
        1
    }

    fn carried_word_count(first: u32) -> (r: u64) {
        1
    }

    fn to_words(&self) -> (r: Vec<u32>) {
        let mut v: Vec<u32> = Vec::new();
        v.push(*self);
        v
    }

    fn from_words(words: &[u32]) -> (r: Self) {
        words[0]
    }
}

impl Payload for Version {
    open spec fn spec_word_count() -> nat {
        1
    }

    open spec fn spec_words(&self) -> Seq<u32> {
        seq![self@]
    }

    proof fn lemma_words(&self, other: &Self) {
        if self.spec_words() == other.spec_words() {
            assert(self.spec_words()[0] == other.spec_words()[0]);
        }
    }

    fn word_count() -> (r: usize) {
        1
    }

    fn carried_word_count(first: u32) -> (r: u64) {
        1
    }

    fn to_words(&self) -> (r: Vec<u32>) {
        let mut v: Vec<u32> = Vec::new();
        v.push(self.0);
        v
    }

    fn from_words(words: &[u32]) -> (r: Self) {
        Version(words[0])
    }
}

} // verus!

verus! {

/// Setting the bits of a mask makes flags contain the mask, clearing them leaves none of them,
/// and either way the bits outside the mask are kept.
pub proof fn lemma_flags_set(bits: u32, mask: u32, other: u32)
    ensures
        (bits | mask) & mask == mask,
        (bits & !mask) & mask == 0,
        other & mask == 0 ==> (bits | mask) & other == bits & other,
        other & mask == 0 ==> (bits & !mask) & other == bits & other,
{
    assert((bits | mask) & mask == mask) by (bit_vector);
    assert((bits & !mask) & mask == 0) by (bit_vector);
    assert(other & mask == 0 ==> (bits | mask) & other == bits & other) by (bit_vector);
    assert(other & mask == 0 ==> (bits & !mask) & other == bits & other) by (bit_vector);
}

} // verus!
