use vstd::prelude::*;

use crate::Error;
use crate::protocol::{
    byte_of_word, fill_bytes_of_words, get_ascii_string, lemma_bytes_words_roundtrip,
    lemma_protocol_id_roundtrip, nul_terminated_string, push_words_of_bytes, words_of_bytes,
    Command, MessageId, NotifyEnable, Payload, ProtocolId, Version,
};

verus! {

/// Message identifiers of the Base protocol.
#[derive(Clone, Copy, Debug, PartialEq, Eq, Structural)]
pub enum BaseCommandMessageId {
    ProtocolVersion,
    ProtocolAttributes,
    ProtocolMessageAttributes,
    NegotiateProtocolVersion,
    DiscoverVendor,
    DiscoverSubVendor,
    DiscoverImplementationVersion,
    DiscoverListProtocol,
    DiscoverAgent,
    NotifyErrors,
    SetDevicePermission,
    SetProtocolPermissions,
    ResetAgentConfiguration,
}

impl BaseCommandMessageId {
    /// The number that stands for this value.
    pub open spec fn spec_into_u8(self) -> u8 {
        match self {
            BaseCommandMessageId::ProtocolVersion => 0x0u8,
            BaseCommandMessageId::ProtocolAttributes => 0x1u8,
            BaseCommandMessageId::ProtocolMessageAttributes => 0x2u8,
            BaseCommandMessageId::NegotiateProtocolVersion => 0x10u8,
            BaseCommandMessageId::DiscoverVendor => 0x3u8,
            BaseCommandMessageId::DiscoverSubVendor => 0x4u8,
            BaseCommandMessageId::DiscoverImplementationVersion => 0x5u8,
            BaseCommandMessageId::DiscoverListProtocol => 0x6u8,
            BaseCommandMessageId::DiscoverAgent => 0x7u8,
            BaseCommandMessageId::NotifyErrors => 0x8u8,
            BaseCommandMessageId::SetDevicePermission => 0x9u8,
            BaseCommandMessageId::SetProtocolPermissions => 0xau8,
            BaseCommandMessageId::ResetAgentConfiguration => 0xbu8,
        }
    }

    /// The value that number `v` stands for; any other number is refused.
    pub open spec fn spec_try_from_u8(v: u8) -> Result<Self, Error> {
        if v == 0x0u8 {
            Ok(BaseCommandMessageId::ProtocolVersion)
        } else if v == 0x1u8 {
            Ok(BaseCommandMessageId::ProtocolAttributes)
        } else if v == 0x2u8 {
            Ok(BaseCommandMessageId::ProtocolMessageAttributes)
        } else if v == 0x10u8 {
            Ok(BaseCommandMessageId::NegotiateProtocolVersion)
        } else if v == 0x3u8 {
            Ok(BaseCommandMessageId::DiscoverVendor)
        } else if v == 0x4u8 {
            Ok(BaseCommandMessageId::DiscoverSubVendor)
        } else if v == 0x5u8 {
            Ok(BaseCommandMessageId::DiscoverImplementationVersion)
        } else if v == 0x6u8 {
            Ok(BaseCommandMessageId::DiscoverListProtocol)
        } else if v == 0x7u8 {
            Ok(BaseCommandMessageId::DiscoverAgent)
        } else if v == 0x8u8 {
            Ok(BaseCommandMessageId::NotifyErrors)
        } else if v == 0x9u8 {
            Ok(BaseCommandMessageId::SetDevicePermission)
        } else if v == 0xau8 {
            Ok(BaseCommandMessageId::SetProtocolPermissions)
        } else if v == 0xbu8 {
            Ok(BaseCommandMessageId::ResetAgentConfiguration)
        } else {
            Err(Error::InvalidMessageId(v))
        }
    }
}

impl From<BaseCommandMessageId> for u8 {
    fn from(value: BaseCommandMessageId) -> (r: u8) {
        match value {
            BaseCommandMessageId::ProtocolVersion => 0x0,
            BaseCommandMessageId::ProtocolAttributes => 0x1,
            BaseCommandMessageId::ProtocolMessageAttributes => 0x2,
            BaseCommandMessageId::NegotiateProtocolVersion => 0x10,
            BaseCommandMessageId::DiscoverVendor => 0x3,
            BaseCommandMessageId::DiscoverSubVendor => 0x4,
            BaseCommandMessageId::DiscoverImplementationVersion => 0x5,
            BaseCommandMessageId::DiscoverListProtocol => 0x6,
            BaseCommandMessageId::DiscoverAgent => 0x7,
            BaseCommandMessageId::NotifyErrors => 0x8,
            BaseCommandMessageId::SetDevicePermission => 0x9,
            BaseCommandMessageId::SetProtocolPermissions => 0xa,
            BaseCommandMessageId::ResetAgentConfiguration => 0xb,
        }
    }
}

impl vstd::std_specs::convert::FromSpecImpl<BaseCommandMessageId> for u8 {
    open spec fn obeys_from_spec() -> bool {
        true
    }

    open spec fn from_spec(v: BaseCommandMessageId) -> u8 {
        v.spec_into_u8()
    }
}

impl TryFrom<u8> for BaseCommandMessageId {
    type Error = Error;

    fn try_from(value: u8) -> (r: Result<Self, Error>) {
        match value {
            0x0 => Ok(BaseCommandMessageId::ProtocolVersion),
            0x1 => Ok(BaseCommandMessageId::ProtocolAttributes),
            0x2 => Ok(BaseCommandMessageId::ProtocolMessageAttributes),
            0x10 => Ok(BaseCommandMessageId::NegotiateProtocolVersion),
            0x3 => Ok(BaseCommandMessageId::DiscoverVendor),
            0x4 => Ok(BaseCommandMessageId::DiscoverSubVendor),
            0x5 => Ok(BaseCommandMessageId::DiscoverImplementationVersion),
            0x6 => Ok(BaseCommandMessageId::DiscoverListProtocol),
            0x7 => Ok(BaseCommandMessageId::DiscoverAgent),
            0x8 => Ok(BaseCommandMessageId::NotifyErrors),
            0x9 => Ok(BaseCommandMessageId::SetDevicePermission),
            0xa => Ok(BaseCommandMessageId::SetProtocolPermissions),
            0xb => Ok(BaseCommandMessageId::ResetAgentConfiguration),
            _ => Err(Error::InvalidMessageId(value)),
        }
    }
}

impl vstd::std_specs::convert::TryFromSpecImpl<u8> for BaseCommandMessageId {
    open spec fn obeys_try_from_spec() -> bool {
        true
    }

    open spec fn try_from_spec(v: u8) -> Result<Self, Error> {
        Self::spec_try_from_u8(v)
    }
}

/// Decoding the number of a value gives back the value, and a number that decodes
/// is the number of what it decodes to.
pub proof fn lemma_base_command_message_id_roundtrip(m: BaseCommandMessageId, v: u8)
    ensures
        BaseCommandMessageId::spec_try_from_u8(m.spec_into_u8()) == Ok::<BaseCommandMessageId, Error>(m),
        BaseCommandMessageId::spec_try_from_u8(v) matches Ok(x) ==> x.spec_into_u8() == v,
{
}

/// The Base protocol messages as the SCMI specification defines them, `NEGOTIATE_PROTOCOL_VERSION`
/// aside: the messages common to every protocol, then `BASE_DISCOVER_VENDOR` to
/// `BASE_RESET_AGENT_CONFIGURATION`.
pub open spec fn base_messages_in_number_order() -> Seq<BaseCommandMessageId> {
    seq![
        BaseCommandMessageId::ProtocolVersion,
        BaseCommandMessageId::ProtocolAttributes,
        BaseCommandMessageId::ProtocolMessageAttributes,
        BaseCommandMessageId::DiscoverVendor,
        BaseCommandMessageId::DiscoverSubVendor,
        BaseCommandMessageId::DiscoverImplementationVersion,
        BaseCommandMessageId::DiscoverListProtocol,
        BaseCommandMessageId::DiscoverAgent,
        BaseCommandMessageId::NotifyErrors,
        BaseCommandMessageId::SetDevicePermission,
        BaseCommandMessageId::SetProtocolPermissions,
        BaseCommandMessageId::ResetAgentConfiguration,
    ]
}

/// The messages of `base_messages_in_number_order` are numbered consecutively from 0x0 by their place in it, and
/// `NEGOTIATE_PROTOCOL_VERSION` is 0x10. Exactly the numbers 0x0 to 0xb and 0x10 decode to a
/// message, each to the message with that number; every other number is refused as an invalid
/// message identifier.
pub proof fn lemma_base_message_numbers()
    ensures
        forall|i: int| 0 <= i < 12 ==> #[trigger] base_messages_in_number_order()[i].spec_into_u8() == i,
        BaseCommandMessageId::NegotiateProtocolVersion.spec_into_u8() == 0x10,
        forall|v: u8|
            v <= 0xb ==> #[trigger] BaseCommandMessageId::spec_try_from_u8(v) == Ok::<BaseCommandMessageId, Error>(
                base_messages_in_number_order()[v as int],
            ),
        BaseCommandMessageId::spec_try_from_u8(0x10) == Ok::<BaseCommandMessageId, Error>(
            BaseCommandMessageId::NegotiateProtocolVersion,
        ),
        forall|v: u8|
            !(v <= 0xb || v == 0x10) ==> #[trigger] BaseCommandMessageId::spec_try_from_u8(v) == Err::<
                BaseCommandMessageId,
                Error,
            >(Error::InvalidMessageId(v)),
{
}

/// `BASE_SET_DEVICE_PERMISSIONS` and `BASE_SET_PROTOCOL_PERMISSIONS` flags.
///
/// The flag constants are the masks of their bits.
#[derive(Clone, Copy, Debug, Default, PartialEq, Eq, Structural)]
pub struct SetPermissionFlags(u32);

impl View for SetPermissionFlags {
    type V = u32;

    closed spec fn view(&self) -> u32 {
        self.0
    }
}

impl SetPermissionFlags {
    /// Access is allowed.
    pub const ALLOW: u32 = 1 << 0;

    /// No flag set.
    pub fn empty() -> (r: Self)
        ensures
            r@ == 0,
    {
        SetPermissionFlags(0)
    }

    /// The raw bits.
    pub fn bits(&self) -> (r: u32)
        ensures
            r == self@,
    {
        self.0
    }

    /// The flags with these raw bits, unknown bits included.
    pub fn from_bits_retain(bits: u32) -> (r: Self)
        ensures
            r@ == bits,
    {
        SetPermissionFlags(bits)
    }

    /// All bits of `mask` are set.
    pub fn contains(&self, mask: u32) -> (r: bool)
        ensures
            r == (self@ & mask == mask),
    {
        self.0 & mask == mask
    }

    /// Sets the bits of `mask` when `value` holds and clears them otherwise; the other bits are
    /// kept.
    pub fn set(&mut self, mask: u32, value: bool)
        ensures
            final(self)@ == (if value { old(self)@ | mask } else { old(self)@ & !mask }),
    {
        if value {
            self.0 = self.0 | mask;
        } else {
            self.0 = self.0 & !mask;
        }
    }
}

impl Payload for SetPermissionFlags {
    open spec fn spec_word_count() -> nat {
        1
    }

    open spec fn spec_words(&self) -> Seq<u32> {
        seq![self@]
    }

    proof fn lemma_words(&self, other: &Self) {
        if self.spec_words() == other.spec_words() {
            assert(self.spec_words()[0] == other.spec_words()[0]);
        }
    }

    fn word_count() -> (r: usize) {
        1
    }

    fn carried_word_count(first: u32) -> (r: u64) {
        1
    }

    fn to_words(&self) -> (r: Vec<u32>) {
        let mut v: Vec<u32> = Vec::new();
        v.push(self.0);
        v
    }

    fn from_words(words: &[u32]) -> (r: Self) {
        SetPermissionFlags(words[0])
    }
}


/// `BASE_RESET_AGENT_CONFIGURATION` flags.
///
/// The flag constants are the masks of their bits.
#[derive(Clone, Copy, Debug, Default, PartialEq, Eq, Structural)]
pub struct ResetAgentConfigurationFlags(u32);

impl View for ResetAgentConfigurationFlags {
    type V = u32;

    closed spec fn view(&self) -> u32 {
        self.0
    }
}

impl ResetAgentConfigurationFlags {
    /// Access permission settings are reset too.
    pub const CLEAR: u32 = 1 << 0;

    /// No flag set.
    pub fn empty() -> (r: Self)
        ensures
            r@ == 0,
    {
        ResetAgentConfigurationFlags(0)
    }

    /// The raw bits.
    pub fn bits(&self) -> (r: u32)
        ensures
            r == self@,
    {
        self.0
    }

    /// The flags with these raw bits, unknown bits included.
    pub fn from_bits_retain(bits: u32) -> (r: Self)
        ensures
            r@ == bits,
    {
        ResetAgentConfigurationFlags(bits)
    }

    /// All bits of `mask` are set.
    pub fn contains(&self, mask: u32) -> (r: bool)
        ensures
            r == (self@ & mask == mask),
    {
        self.0 & mask == mask
    }

    /// Sets the bits of `mask` when `value` holds and clears them otherwise; the other bits are
    /// kept.
    pub fn set(&mut self, mask: u32, value: bool)
        ensures
            final(self)@ == (if value { old(self)@ | mask } else { old(self)@ & !mask }),
    {
        if value {
            self.0 = self.0 | mask;
        } else {
            self.0 = self.0 & !mask;
        }
    }
}

impl Payload for ResetAgentConfigurationFlags {
    open spec fn spec_word_count() -> nat {
        1
    }

    open spec fn spec_words(&self) -> Seq<u32> {
        seq![self@]
    }

    proof fn lemma_words(&self, other: &Self) {
        if self.spec_words() == other.spec_words() {
            assert(self.spec_words()[0] == other.spec_words()[0]);
        }
    }

    fn word_count() -> (r: usize) {
        1
    }

    fn carried_word_count(first: u32) -> (r: u64) {
        1
    }

    fn to_words(&self) -> (r: Vec<u32>) {
        let mut v: Vec<u32> = Vec::new();
        v.push(self.0);
        v
    }

    fn from_words(words: &[u32]) -> (r: Self) {
        ResetAgentConfigurationFlags(words[0])
    }
}


/// The protocol whose permissions `BASE_SET_PROTOCOL_PERMISSIONS` sets, in bits 7..0.
#[derive(Clone, Copy, Debug, PartialEq, Eq, Structural)]
pub struct SetProtocolPermissionsCommand(u32);

impl View for SetProtocolPermissionsCommand {
    type V = u32;

    closed spec fn view(&self) -> u32 {
        self.0
    }
}

impl SetProtocolPermissionsCommand {
    /// Creates new instance.
    pub fn new(protocol: ProtocolId) -> (r: Self)
        ensures
            r@ == protocol.spec_into_u8() as u32,
    {
        SetProtocolPermissionsCommand(u8::from(protocol) as u32)
    }

    /// The protocol identifier in bits 7..0.
    pub fn protocol_id(&self) -> (r: Result<ProtocolId, Error>)
        ensures
            r == ProtocolId::spec_try_from_u8(self@ as u8),
    {
        ProtocolId::try_from(self.0 as u8)
    }
}

/// The protocol identifier of a command built for a valid protocol is that protocol.
pub proof fn lemma_set_protocol_permissions_command(p: ProtocolId)
    requires
        p.is_valid(),
    ensures
        ProtocolId::spec_try_from_u8((p.spec_into_u8() as u32) as u8) == Ok::<ProtocolId, Error>(p),
{
    lemma_protocol_id_roundtrip(p, 0);
}

impl Payload for SetProtocolPermissionsCommand {
    open spec fn spec_word_count() -> nat {
        1
    }

    open spec fn spec_words(&self) -> Seq<u32> {
        seq![self@]
    }

    proof fn lemma_words(&self, other: &Self) {
        if self.spec_words() == other.spec_words() {
            assert(self.spec_words()[0] == other.spec_words()[0]);
        }
    }

    fn word_count() -> (r: usize) {
        1
    }

    fn carried_word_count(first: u32) -> (r: u64) {
        1
    }

    fn to_words(&self) -> (r: Vec<u32>) {
        let mut v: Vec<u32> = Vec::new();
        v.push(self.0);
        v
    }

    fn from_words(words: &[u32]) -> (r: Self) {
        SetProtocolPermissionsCommand(words[0])
    }
}

/// Attributes of the Base protocol: the number of agents in bits 15..8 and the number of
/// protocols in bits 7..0.
#[derive(Clone, Copy, Debug, Default, PartialEq, Eq, Structural)]
pub struct BaseProtocolAttributes(u32);

impl View for BaseProtocolAttributes {
    type V = u32;

    closed spec fn view(&self) -> u32 {
        self.0
    }
}

impl BaseProtocolAttributes {
    /// Returns the number of agents.
    pub fn agent_count(&self) -> (r: u8)
        ensures
            r == ((self@ >> 8) & 0xff) as u8,
    {
        ((self.0 >> 8) & 0xff) as u8
    }

    /// Returns the number of protocols.
    pub fn protocol_count(&self) -> (r: u8)
        ensures
            r == (self@ & 0xff) as u8,
    {
        (self.0 & 0xff) as u8
    }

    /// Sets the number of agents; the other bits are kept.
    pub fn set_agent_count(&mut self, count: u8)
        ensures
            final(self)@ == (old(self)@ & !0xff00u32) | ((count as u32) << 8),
            ((final(self)@ >> 8) & 0xff) as u8 == count,
            (final(self)@ & 0xff) == (old(self)@ & 0xff),
    {
        let old_v = self.0;
        self.0 = (self.0 & !0xff00u32) | ((count as u32) << 8);
        assert((((((old_v & !0xff00u32) | ((count as u32) << 8)) >> 8) & 0xff) as u8 == count)
            && ((((old_v & !0xff00u32) | ((count as u32) << 8)) & 0xff) == old_v & 0xff)) by (bit_vector);
    }

    /// Sets the number of protocols; the other bits are kept.
    pub fn set_protocol_count(&mut self, count: u8)
        ensures
            final(self)@ == (old(self)@ & !0xffu32) | (count as u32),
            (final(self)@ & 0xff) as u8 == count,
            (final(self)@ >> 8) == (old(self)@ >> 8),
    {
        let old_v = self.0;
        self.0 = (self.0 & !0xffu32) | (count as u32);
        assert(((((old_v & !0xffu32) | (count as u32)) & 0xff) as u8 == count)
            && ((((old_v & !0xffu32) | (count as u32)) >> 8) == old_v >> 8)) by (bit_vector);
    }
}

impl Payload for BaseProtocolAttributes {
    open spec fn spec_word_count() -> nat {
        1
    }

    open spec fn spec_words(&self) -> Seq<u32> {
        seq![self@]
    }

    proof fn lemma_words(&self, other: &Self) {
        if self.spec_words() == other.spec_words() {
            assert(self.spec_words()[0] == other.spec_words()[0]);
        }
    }

    fn word_count() -> (r: usize) {
        1
    }

    fn carried_word_count(first: u32) -> (r: u64) {
        1
    }

    fn to_words(&self) -> (r: Vec<u32>) {
        let mut v: Vec<u32> = Vec::new();
        v.push(self.0);
        v
    }

    fn from_words(words: &[u32]) -> (r: Self) {
        BaseProtocolAttributes(words[0])
    }
}

/// `PROTOCOL_VERSION` command.
#[derive(Clone, Copy, Debug, PartialEq, Eq)]
pub struct ProtocolVersion {}

impl Payload for ProtocolVersion {
    open spec fn spec_word_count() -> nat {
        0
    }

    open spec fn spec_words(&self) -> Seq<u32> {
        Seq::<u32>::empty()
    }

    proof fn lemma_words(&self, other: &Self) {
    }

    fn word_count() -> (r: usize) {
        0
    }

    fn carried_word_count(first: u32) -> (r: u64) {
        0
    }

    fn to_words(&self) -> (r: Vec<u32>) {
        let v: Vec<u32> = Vec::new();
        assert(v@ =~= self.spec_words());
        v
    }

    fn from_words(words: &[u32]) -> (r: Self) {
        let r = ProtocolVersion {  };
        assert(r.spec_words() =~= words@);
        r
    }
}

/// `PROTOCOL_VERSION` command response.
#[derive(Clone, Copy, Debug, PartialEq, Eq)]
pub struct ProtocolVersionResponse {
    pub version: Version,
}

impl Payload for ProtocolVersionResponse {
    open spec fn spec_word_count() -> nat {
        1
    }

    open spec fn spec_words(&self) -> Seq<u32> {
        self.version.spec_words()
    }

    proof fn lemma_words(&self, other: &Self) {
        self.version.lemma_words(&other.version);
        if self.spec_words() == other.spec_words() {
            assert(self.spec_words().subrange(0, 1) == self.version.spec_words());
            assert(other.spec_words().subrange(0, 1) == other.version.spec_words());
        }
    }

    fn word_count() -> (r: usize) {
        1
    }

    fn carried_word_count(first: u32) -> (r: u64) {
        1
    }

    fn to_words(&self) -> (r: Vec<u32>) {
        let mut v: Vec<u32> = Vec::new();
        let mut w = self.version.to_words();
        v.append(&mut w);
        assert(v@ =~= self.spec_words());
        v
    }

    fn from_words(words: &[u32]) -> (r: Self) {
        let version = Version::from_words(vstd::slice::slice_subrange(words, 0, 1));
        let r = ProtocolVersionResponse { version };
        assert(r.spec_words() =~= words@);
        r
    }
}

impl Command for ProtocolVersion {
    type Response = ProtocolVersionResponse;

    open spec fn spec_id() -> MessageId {
        MessageId::Base(BaseCommandMessageId::ProtocolVersion)
    }

    fn id() -> (r: MessageId) {
        MessageId::Base(BaseCommandMessageId::ProtocolVersion)
    }
}

/// `NEGOTIATE_PROTOCOL_VERSION` command.
#[derive(Clone, Copy, Debug, PartialEq, Eq)]
pub struct NegotiateProtocolVersion {
    pub version: Version,
}

impl Payload for NegotiateProtocolVersion {
    open spec fn spec_word_count() -> nat {
        1
    }

    open spec fn spec_words(&self) -> Seq<u32> {
        self.version.spec_words()
    }

    proof fn lemma_words(&self, other: &Self) {
        self.version.lemma_words(&other.version);
        if self.spec_words() == other.spec_words() {
            assert(self.spec_words().subrange(0, 1) == self.version.spec_words());
            assert(other.spec_words().subrange(0, 1) == other.version.spec_words());
        }
    }

    fn word_count() -> (r: usize) {
        1
    }

    fn carried_word_count(first: u32) -> (r: u64) {
        1
    }

    fn to_words(&self) -> (r: Vec<u32>) {
        let mut v: Vec<u32> = Vec::new();
        let mut w = self.version.to_words();
        v.append(&mut w);
        assert(v@ =~= self.spec_words());
        v
    }

    fn from_words(words: &[u32]) -> (r: Self) {
        let version = Version::from_words(vstd::slice::slice_subrange(words, 0, 1));
        let r = NegotiateProtocolVersion { version };
        assert(r.spec_words() =~= words@);
        r
    }
}

/// `NEGOTIATE_PROTOCOL_VERSION` command response.
#[derive(Clone, Copy, Debug, PartialEq, Eq)]
pub struct NegotiateProtocolVersionResponse {}

impl Payload for NegotiateProtocolVersionResponse {
    open spec fn spec_word_count() -> nat {
        0
    }

    open spec fn spec_words(&self) -> Seq<u32> {
        Seq::<u32>::empty()
    }

    proof fn lemma_words(&self, other: &Self) {
    }

    fn word_count() -> (r: usize) {
        0
    }

    fn carried_word_count(first: u32) -> (r: u64) {
        0
    }

    fn to_words(&self) -> (r: Vec<u32>) {
        let v: Vec<u32> = Vec::new();
        assert(v@ =~= self.spec_words());
        v
    }

    fn from_words(words: &[u32]) -> (r: Self) {
        let r = NegotiateProtocolVersionResponse {  };
        assert(r.spec_words() =~= words@);
        r
    }
}

impl Command for NegotiateProtocolVersion {
    type Response = NegotiateProtocolVersionResponse;

    open spec fn spec_id() -> MessageId {
        MessageId::Base(BaseCommandMessageId::NegotiateProtocolVersion)
    }

    fn id() -> (r: MessageId) {
        MessageId::Base(BaseCommandMessageId::NegotiateProtocolVersion)
    }
}

/// `PROTOCOL_ATTRIBUTES` command.
#[derive(Clone, Copy, Debug, PartialEq, Eq)]
pub struct ProtocolAttributes {}

impl Payload for ProtocolAttributes {
    open spec fn spec_word_count() -> nat {
        0
    }

    open spec fn spec_words(&self) -> Seq<u32> {
        Seq::<u32>::empty()
    }

    proof fn lemma_words(&self, other: &Self) {
    }

    fn word_count() -> (r: usize) {
        0
    }

    fn carried_word_count(first: u32) -> (r: u64) {
        0
    }

    fn to_words(&self) -> (r: Vec<u32>) {
        let v: Vec<u32> = Vec::new();
        assert(v@ =~= self.spec_words());
        v
    }

    fn from_words(words: &[u32]) -> (r: Self) {
        let r = ProtocolAttributes {  };
        assert(r.spec_words() =~= words@);
        r
    }
}

/// `PROTOCOL_ATTRIBUTES` command response.
#[derive(Clone, Copy, Debug, PartialEq, Eq)]
pub struct ProtocolAttributesResponse {
    pub attributes: BaseProtocolAttributes,
}

impl Payload for ProtocolAttributesResponse {
    open spec fn spec_word_count() -> nat {
        1
    }

    open spec fn spec_words(&self) -> Seq<u32> {
        self.attributes.spec_words()
    }

    proof fn lemma_words(&self, other: &Self) {
        self.attributes.lemma_words(&other.attributes);
        if self.spec_words() == other.spec_words() {
            assert(self.spec_words().subrange(0, 1) == self.attributes.spec_words());
            assert(other.spec_words().subrange(0, 1) == other.attributes.spec_words());
        }
    }

    fn word_count() -> (r: usize) {
        1
    }

    fn carried_word_count(first: u32) -> (r: u64) {
        1
    }

    fn to_words(&self) -> (r: Vec<u32>) {
        let mut v: Vec<u32> = Vec::new();
        let mut w = self.attributes.to_words();
        v.append(&mut w);
        assert(v@ =~= self.spec_words());
        v
    }

    fn from_words(words: &[u32]) -> (r: Self) {
        let attributes = BaseProtocolAttributes::from_words(vstd::slice::slice_subrange(words, 0, 1));
        let r = ProtocolAttributesResponse { attributes };
        assert(r.spec_words() =~= words@);
        r
    }
}

impl Command for ProtocolAttributes {
    type Response = ProtocolAttributesResponse;

    open spec fn spec_id() -> MessageId {
        MessageId::Base(BaseCommandMessageId::ProtocolAttributes)
    }

    fn id() -> (r: MessageId) {
        MessageId::Base(BaseCommandMessageId::ProtocolAttributes)
    }
}

/// `PROTOCOL_MESSAGE_ATTRIBUTES` command.
#[derive(Clone, Copy, Debug, PartialEq, Eq)]
pub struct ProtocolMessageAttributes {
    pub message_id: u32,
}

impl Payload for ProtocolMessageAttributes {
    open spec fn spec_word_count() -> nat {
        1
    }

    open spec fn spec_words(&self) -> Seq<u32> {
        self.message_id.spec_words()
    }

    proof fn lemma_words(&self, other: &Self) {
        self.message_id.lemma_words(&other.message_id);
        if self.spec_words() == other.spec_words() {
            assert(self.spec_words().subrange(0, 1) == self.message_id.spec_words());
            assert(other.spec_words().subrange(0, 1) == other.message_id.spec_words());
        }
    }

    fn word_count() -> (r: usize) {
        1
    }

    fn carried_word_count(first: u32) -> (r: u64) {
        1
    }

    fn to_words(&self) -> (r: Vec<u32>) {
        let mut v: Vec<u32> = Vec::new();
        let mut w = self.message_id.to_words();
        v.append(&mut w);
        assert(v@ =~= self.spec_words());
        v
    }

    fn from_words(words: &[u32]) -> (r: Self) {
        let message_id = u32::from_words(vstd::slice::slice_subrange(words, 0, 1));
        let r = ProtocolMessageAttributes { message_id };
        assert(r.spec_words() =~= words@);
        r
    }
}

/// `PROTOCOL_MESSAGE_ATTRIBUTES` command response.
#[derive(Clone, Copy, Debug, PartialEq, Eq)]
pub struct ProtocolMessageAttributesResponse {
    pub attributes: u32,
}

impl Payload for ProtocolMessageAttributesResponse {
    open spec fn spec_word_count() -> nat {
        1
    }

    open spec fn spec_words(&self) -> Seq<u32> {
        self.attributes.spec_words()
    }

    proof fn lemma_words(&self, other: &Self) {
        self.attributes.lemma_words(&other.attributes);
        if self.spec_words() == other.spec_words() {
            assert(self.spec_words().subrange(0, 1) == self.attributes.spec_words());
            assert(other.spec_words().subrange(0, 1) == other.attributes.spec_words());
        }
    }

    fn word_count() -> (r: usize) {
        1
    }

    fn carried_word_count(first: u32) -> (r: u64) {
        1
    }

    fn to_words(&self) -> (r: Vec<u32>) {
        let mut v: Vec<u32> = Vec::new();
        let mut w = self.attributes.to_words();
        v.append(&mut w);
        assert(v@ =~= self.spec_words());
        v
    }

    fn from_words(words: &[u32]) -> (r: Self) {
        let attributes = u32::from_words(vstd::slice::slice_subrange(words, 0, 1));
        let r = ProtocolMessageAttributesResponse { attributes };
        assert(r.spec_words() =~= words@);
        r
    }
}

impl Command for ProtocolMessageAttributes {
    type Response = ProtocolMessageAttributesResponse;

    open spec fn spec_id() -> MessageId {
        MessageId::Base(BaseCommandMessageId::ProtocolMessageAttributes)
    }

    fn id() -> (r: MessageId) {
        MessageId::Base(BaseCommandMessageId::ProtocolMessageAttributes)
    }
}

/// `BASE_DISCOVER_VENDOR` command.
#[derive(Clone, Copy, Debug, PartialEq, Eq)]
pub struct DiscoverVendor {}

impl Payload for DiscoverVendor {
    open spec fn spec_word_count() -> nat {
        0
    }

    open spec fn spec_words(&self) -> Seq<u32> {
        Seq::<u32>::empty()
    }

    proof fn lemma_words(&self, other: &Self) {
    }

    fn word_count() -> (r: usize) {
        0
    }

    fn carried_word_count(first: u32) -> (r: u64) {
        0
    }

    fn to_words(&self) -> (r: Vec<u32>) {
        let v: Vec<u32> = Vec::new();
        assert(v@ =~= self.spec_words());
        v
    }

    fn from_words(words: &[u32]) -> (r: Self) {
        let r = DiscoverVendor {  };
        assert(r.spec_words() =~= words@);
        r
    }
}

/// `BASE_DISCOVER_VENDOR` command response.
#[derive(Clone, Copy, Debug, PartialEq, Eq)]
pub struct DiscoverVendorResponse {
    pub vendor_identifier: [u8; 16],
}

impl Payload for DiscoverVendorResponse {
    open spec fn spec_word_count() -> nat {
        4
    }

    open spec fn spec_words(&self) -> Seq<u32> {
        words_of_bytes(self.vendor_identifier@)
    }

    proof fn lemma_words(&self, other: &Self) {
        lemma_bytes_words_roundtrip(self.vendor_identifier@, seq![]);
        lemma_bytes_words_roundtrip(other.vendor_identifier@, seq![]);
        if self.spec_words() == other.spec_words() {
            assert(self.spec_words().subrange(0, 4) == words_of_bytes(self.vendor_identifier@));
            assert(other.spec_words().subrange(0, 4) == words_of_bytes(other.vendor_identifier@));
            assert(self.vendor_identifier@ == other.vendor_identifier@);
            assert(self.vendor_identifier =~= other.vendor_identifier);
        }
    }

    fn word_count() -> (r: usize) {
        4
    }

    fn carried_word_count(first: u32) -> (r: u64) {
        4
    }

    fn to_words(&self) -> (r: Vec<u32>) {
        let mut v: Vec<u32> = Vec::new();
        push_words_of_bytes(&mut v, &self.vendor_identifier);
        assert(v@ =~= self.spec_words());
        v
    }

    fn from_words(words: &[u32]) -> (r: Self) {
        let mut vendor_identifier: [u8; 16] = [0u8; 16];
        fill_bytes_of_words(&mut vendor_identifier, vstd::slice::slice_subrange(words, 0, 4));
        proof {
            lemma_bytes_words_roundtrip(seq![], words@.subrange(0, 4));
        }
        let r = DiscoverVendorResponse { vendor_identifier };
        assert(r.spec_words() =~= words@);
        r
    }
}

impl Command for DiscoverVendor {
    type Response = DiscoverVendorResponse;

    open spec fn spec_id() -> MessageId {
        MessageId::Base(BaseCommandMessageId::DiscoverVendor)
    }

    fn id() -> (r: MessageId) {
        MessageId::Base(BaseCommandMessageId::DiscoverVendor)
    }
}

/// `BASE_DISCOVER_SUB_VENDOR` command.
#[derive(Clone, Copy, Debug, PartialEq, Eq)]
pub struct DiscoverSubVendor {}

impl Payload for DiscoverSubVendor {
    open spec fn spec_word_count() -> nat {
        0
    }

    open spec fn spec_words(&self) -> Seq<u32> {
        Seq::<u32>::empty()
    }

    proof fn lemma_words(&self, other: &Self) {
    }

    fn word_count() -> (r: usize) {
        0
    }

    fn carried_word_count(first: u32) -> (r: u64) {
        0
    }

    fn to_words(&self) -> (r: Vec<u32>) {
        let v: Vec<u32> = Vec::new();
        assert(v@ =~= self.spec_words());
        v
    }

    fn from_words(words: &[u32]) -> (r: Self) {
        let r = DiscoverSubVendor {  };
        assert(r.spec_words() =~= words@);
        r
    }
}

/// `BASE_DISCOVER_SUB_VENDOR` command response.
#[derive(Clone, Copy, Debug, PartialEq, Eq)]
pub struct DiscoverSubVendorResponse {
    pub vendor_identifier: [u8; 16],
}

impl Payload for DiscoverSubVendorResponse {
    open spec fn spec_word_count() -> nat {
        4
    }

    open spec fn spec_words(&self) -> Seq<u32> {
        words_of_bytes(self.vendor_identifier@)
    }

    proof fn lemma_words(&self, other: &Self) {
        lemma_bytes_words_roundtrip(self.vendor_identifier@, seq![]);
        lemma_bytes_words_roundtrip(other.vendor_identifier@, seq![]);
        if self.spec_words() == other.spec_words() {
            assert(self.spec_words().subrange(0, 4) == words_of_bytes(self.vendor_identifier@));
            assert(other.spec_words().subrange(0, 4) == words_of_bytes(other.vendor_identifier@));
            assert(self.vendor_identifier@ == other.vendor_identifier@);
            assert(self.vendor_identifier =~= other.vendor_identifier);
        }
    }

    fn word_count() -> (r: usize) {
        4
    }

    fn carried_word_count(first: u32) -> (r: u64) {
        4
    }

    fn to_words(&self) -> (r: Vec<u32>) {
        let mut v: Vec<u32> = Vec::new();
        push_words_of_bytes(&mut v, &self.vendor_identifier);
        assert(v@ =~= self.spec_words());
        v
    }

    fn from_words(words: &[u32]) -> (r: Self) {
        let mut vendor_identifier: [u8; 16] = [0u8; 16];
        fill_bytes_of_words(&mut vendor_identifier, vstd::slice::slice_subrange(words, 0, 4));
        proof {
            lemma_bytes_words_roundtrip(seq![], words@.subrange(0, 4));
        }
        let r = DiscoverSubVendorResponse { vendor_identifier };
        assert(r.spec_words() =~= words@);
        r
    }
}

impl Command for DiscoverSubVendor {
    type Response = DiscoverSubVendorResponse;

    open spec fn spec_id() -> MessageId {
        MessageId::Base(BaseCommandMessageId::DiscoverSubVendor)
    }

    fn id() -> (r: MessageId) {
        MessageId::Base(BaseCommandMessageId::DiscoverSubVendor)
    }
}

/// `BASE_DISCOVER_IMPLEMENTATION_VERSION` command.
#[derive(Clone, Copy, Debug, PartialEq, Eq)]
pub struct DiscoverImplementationVersion {}

impl Payload for DiscoverImplementationVersion {
    open spec fn spec_word_count() -> nat {
        0
    }

    open spec fn spec_words(&self) -> Seq<u32> {
        Seq::<u32>::empty()
    }

    proof fn lemma_words(&self, other: &Self) {
    }

    fn word_count() -> (r: usize) {
        0
    }

    fn carried_word_count(first: u32) -> (r: u64) {
        0
    }

    fn to_words(&self) -> (r: Vec<u32>) {
        let v: Vec<u32> = Vec::new();
        assert(v@ =~= self.spec_words());
        v
    }

    fn from_words(words: &[u32]) -> (r: Self) {
        let r = DiscoverImplementationVersion {  };
        assert(r.spec_words() =~= words@);
        r
    }
}

/// `BASE_DISCOVER_IMPLEMENTATION_VERSION` command response.
#[derive(Clone, Copy, Debug, PartialEq, Eq)]
pub struct DiscoverImplementationVersionResponse {
    pub implementation_version: u32,
}

impl Payload for DiscoverImplementationVersionResponse {
    open spec fn spec_word_count() -> nat {
        1
    }

    open spec fn spec_words(&self) -> Seq<u32> {
        self.implementation_version.spec_words()
    }

    proof fn lemma_words(&self, other: &Self) {
        self.implementation_version.lemma_words(&other.implementation_version);
        if self.spec_words() == other.spec_words() {
            assert(self.spec_words().subrange(0, 1) == self.implementation_version.spec_words());
            assert(other.spec_words().subrange(0, 1) == other.implementation_version.spec_words());
        }
    }

    fn word_count() -> (r: usize) {
        1
    }

    fn carried_word_count(first: u32) -> (r: u64) {
        1
    }

    fn to_words(&self) -> (r: Vec<u32>) {
        let mut v: Vec<u32> = Vec::new();
        let mut w = self.implementation_version.to_words();
        v.append(&mut w);
        assert(v@ =~= self.spec_words());
        v
    }

    fn from_words(words: &[u32]) -> (r: Self) {
        let implementation_version = u32::from_words(vstd::slice::slice_subrange(words, 0, 1));
        let r = DiscoverImplementationVersionResponse { implementation_version };
        assert(r.spec_words() =~= words@);
        r
    }
}

impl Command for DiscoverImplementationVersion {
    type Response = DiscoverImplementationVersionResponse;

    open spec fn spec_id() -> MessageId {
        MessageId::Base(BaseCommandMessageId::DiscoverImplementationVersion)
    }

    fn id() -> (r: MessageId) {
        MessageId::Base(BaseCommandMessageId::DiscoverImplementationVersion)
    }
}

/// `BASE_DISCOVER_LIST_PROTOCOLS` command.
#[derive(Clone, Copy, Debug, PartialEq, Eq)]
pub struct DiscoverListProtocol {
    pub skip: u32,
}

impl Payload for DiscoverListProtocol {
    open spec fn spec_word_count() -> nat {
        1
    }

    open spec fn spec_words(&self) -> Seq<u32> {
        self.skip.spec_words()
    }

    proof fn lemma_words(&self, other: &Self) {
        self.skip.lemma_words(&other.skip);
        if self.spec_words() == other.spec_words() {
            assert(self.spec_words().subrange(0, 1) == self.skip.spec_words());
            assert(other.spec_words().subrange(0, 1) == other.skip.spec_words());
        }
    }

    fn word_count() -> (r: usize) {
        1
    }

    fn carried_word_count(first: u32) -> (r: u64) {
        1
    }

    fn to_words(&self) -> (r: Vec<u32>) {
        let mut v: Vec<u32> = Vec::new();
        let mut w = self.skip.to_words();
        v.append(&mut w);
        assert(v@ =~= self.spec_words());
        v
    }

    fn from_words(words: &[u32]) -> (r: Self) {
        let skip = u32::from_words(vstd::slice::slice_subrange(words, 0, 1));
        let r = DiscoverListProtocol { skip };
        assert(r.spec_words() =~= words@);
        r
    }
}

/// `BASE_DISCOVER_LIST_PROTOCOLS` command response.
#[derive(Clone, Copy, Debug, PartialEq, Eq)]
pub struct DiscoverListProtocolResponse {
    pub num_protocols: u32,
    pub protocols: [u32; 4],
}

impl Payload for DiscoverListProtocolResponse {
    open spec fn spec_word_count() -> nat {
        5
    }

    open spec fn spec_words(&self) -> Seq<u32> {
        self.num_protocols.spec_words() + self.protocols@
    }

    proof fn lemma_words(&self, other: &Self) {
        self.num_protocols.lemma_words(&other.num_protocols);
        if self.spec_words() == other.spec_words() {
            assert(self.spec_words().subrange(0, 1) == self.num_protocols.spec_words());
            assert(other.spec_words().subrange(0, 1) == other.num_protocols.spec_words());
            assert(self.spec_words().subrange(1, 5) == self.protocols@);
            assert(other.spec_words().subrange(1, 5) == other.protocols@);
            assert(self.protocols =~= other.protocols);
        }
    }

    /// The number of protocols comes first, then the protocol identifiers, four to a word: a
    /// message carries only the words that hold them.
    open spec fn spec_carried_word_count(first: u32) -> nat {
        1 + (first as nat + 3) / 4
    }

    fn word_count() -> (r: usize) {
        5
    }

    fn carried_word_count(first: u32) -> (r: u64) {
        1 + (first as u64 + 3) / 4
    }

    fn to_words(&self) -> (r: Vec<u32>) {
        let mut v: Vec<u32> = Vec::new();
        let mut w = self.num_protocols.to_words();
        v.append(&mut w);
        v.push(self.protocols[0]);
        v.push(self.protocols[1]);
        v.push(self.protocols[2]);
        v.push(self.protocols[3]);
        assert(v@ =~= self.spec_words());
        v
    }

    fn from_words(words: &[u32]) -> (r: Self) {
        let num_protocols = u32::from_words(vstd::slice::slice_subrange(words, 0, 1));
        let mut protocols: [u32; 4] = [0u32; 4];
        protocols[0] = words[1];
        protocols[1] = words[2];
        protocols[2] = words[3];
        protocols[3] = words[4];
        let r = DiscoverListProtocolResponse { num_protocols, protocols };
        assert(r.spec_words() =~= words@);
        r
    }
}

impl Command for DiscoverListProtocol {
    type Response = DiscoverListProtocolResponse;

    open spec fn spec_id() -> MessageId {
        MessageId::Base(BaseCommandMessageId::DiscoverListProtocol)
    }

    fn id() -> (r: MessageId) {
        MessageId::Base(BaseCommandMessageId::DiscoverListProtocol)
    }
}

/// `BASE_DISCOVER_AGENT` command.
#[derive(Clone, Copy, Debug, PartialEq, Eq)]
pub struct DiscoverAgent {
    pub agent_id: u32,
}

impl Payload for DiscoverAgent {
    open spec fn spec_word_count() -> nat {
        1
    }

    open spec fn spec_words(&self) -> Seq<u32> {
        self.agent_id.spec_words()
    }

    proof fn lemma_words(&self, other: &Self) {
        self.agent_id.lemma_words(&other.agent_id);
        if self.spec_words() == other.spec_words() {
            assert(self.spec_words().subrange(0, 1) == self.agent_id.spec_words());
            assert(other.spec_words().subrange(0, 1) == other.agent_id.spec_words());
        }
    }

    fn word_count() -> (r: usize) {
        1
    }

    fn carried_word_count(first: u32) -> (r: u64) {
        1
    }

    fn to_words(&self) -> (r: Vec<u32>) {
        let mut v: Vec<u32> = Vec::new();
        let mut w = self.agent_id.to_words();
        v.append(&mut w);
        assert(v@ =~= self.spec_words());
        v
    }

    fn from_words(words: &[u32]) -> (r: Self) {
        let agent_id = u32::from_words(vstd::slice::slice_subrange(words, 0, 1));
        let r = DiscoverAgent { agent_id };
        assert(r.spec_words() =~= words@);
        r
    }
}

/// `BASE_DISCOVER_AGENT` command response.
#[derive(Clone, Copy, Debug, PartialEq, Eq)]
pub struct DiscoverAgentResponse {
    pub agent_id: u32,
    pub name: [u8; 16],
}

impl Payload for DiscoverAgentResponse {
    open spec fn spec_word_count() -> nat {
        5
    }

    open spec fn spec_words(&self) -> Seq<u32> {
        self.agent_id.spec_words() + words_of_bytes(self.name@)
    }

    proof fn lemma_words(&self, other: &Self) {
        self.agent_id.lemma_words(&other.agent_id);
        lemma_bytes_words_roundtrip(self.name@, seq![]);
        lemma_bytes_words_roundtrip(other.name@, seq![]);
        if self.spec_words() == other.spec_words() {
            assert(self.spec_words().subrange(0, 1) == self.agent_id.spec_words());
            assert(other.spec_words().subrange(0, 1) == other.agent_id.spec_words());
            assert(self.spec_words().subrange(1, 5) == words_of_bytes(self.name@));
            assert(other.spec_words().subrange(1, 5) == words_of_bytes(other.name@));
            assert(self.name@ == other.name@);
            assert(self.name =~= other.name);
        }
    }

    fn word_count() -> (r: usize) {
        5
    }

    fn carried_word_count(first: u32) -> (r: u64) {
        5
    }

    fn to_words(&self) -> (r: Vec<u32>) {
        let mut v: Vec<u32> = Vec::new();
        let mut w = self.agent_id.to_words();
        v.append(&mut w);
        push_words_of_bytes(&mut v, &self.name);
        assert(v@ =~= self.spec_words());
        v
    }

    fn from_words(words: &[u32]) -> (r: Self) {
        let agent_id = u32::from_words(vstd::slice::slice_subrange(words, 0, 1));
        let mut name: [u8; 16] = [0u8; 16];
        fill_bytes_of_words(&mut name, vstd::slice::slice_subrange(words, 1, 5));
        proof {
            lemma_bytes_words_roundtrip(seq![], words@.subrange(1, 5));
        }
        let r = DiscoverAgentResponse { agent_id, name };
        assert(r.spec_words() =~= words@);
        r
    }
}

impl Command for DiscoverAgent {
    type Response = DiscoverAgentResponse;

    open spec fn spec_id() -> MessageId {
        MessageId::Base(BaseCommandMessageId::DiscoverAgent)
    }

    fn id() -> (r: MessageId) {
        MessageId::Base(BaseCommandMessageId::DiscoverAgent)
    }
}

/// `BASE_NOTIFY_ERRORS` command.
#[derive(Clone, Copy, Debug, PartialEq, Eq)]
pub struct NotifyErrors {
    pub notify_enable: NotifyEnable,
}

impl Payload for NotifyErrors {
    open spec fn spec_word_count() -> nat {
        1
    }

    open spec fn spec_words(&self) -> Seq<u32> {
        self.notify_enable.spec_words()
    }

    proof fn lemma_words(&self, other: &Self) {
        self.notify_enable.lemma_words(&other.notify_enable);
        if self.spec_words() == other.spec_words() {
            assert(self.spec_words().subrange(0, 1) == self.notify_enable.spec_words());
            assert(other.spec_words().subrange(0, 1) == other.notify_enable.spec_words());
        }
    }

    fn word_count() -> (r: usize) {
        1
    }

    fn carried_word_count(first: u32) -> (r: u64) {
        1
    }

    fn to_words(&self) -> (r: Vec<u32>) {
        let mut v: Vec<u32> = Vec::new();
        let mut w = self.notify_enable.to_words();
        v.append(&mut w);
        assert(v@ =~= self.spec_words());
        v
    }

    fn from_words(words: &[u32]) -> (r: Self) {
        let notify_enable = NotifyEnable::from_words(vstd::slice::slice_subrange(words, 0, 1));
        let r = NotifyErrors { notify_enable };
        assert(r.spec_words() =~= words@);
        r
    }
}

/// `BASE_NOTIFY_ERRORS` command response.
#[derive(Clone, Copy, Debug, PartialEq, Eq)]
pub struct NotifyErrorsResponse {}

impl Payload for NotifyErrorsResponse {
    open spec fn spec_word_count() -> nat {
        0
    }

    open spec fn spec_words(&self) -> Seq<u32> {
        Seq::<u32>::empty()
    }

    proof fn lemma_words(&self, other: &Self) {
    }

    fn word_count() -> (r: usize) {
        0
    }

    fn carried_word_count(first: u32) -> (r: u64) {
        0
    }

    fn to_words(&self) -> (r: Vec<u32>) {
        let v: Vec<u32> = Vec::new();
        assert(v@ =~= self.spec_words());
        v
    }

    fn from_words(words: &[u32]) -> (r: Self) {
        let r = NotifyErrorsResponse {  };
        assert(r.spec_words() =~= words@);
        r
    }
}

impl Command for NotifyErrors {
    type Response = NotifyErrorsResponse;

    open spec fn spec_id() -> MessageId {
        MessageId::Base(BaseCommandMessageId::NotifyErrors)
    }

    fn id() -> (r: MessageId) {
        MessageId::Base(BaseCommandMessageId::NotifyErrors)
    }
}

/// `BASE_SET_DEVICE_PERMISSIONS` command.
#[derive(Clone, Copy, Debug, PartialEq, Eq)]
pub struct SetDevicePermission {
    pub agent_id: u32,
    pub device_id: u32,
    pub flags: SetPermissionFlags,
}

impl Payload for SetDevicePermission {
    open spec fn spec_word_count() -> nat {
        3
    }

    open spec fn spec_words(&self) -> Seq<u32> {
        self.agent_id.spec_words() + self.device_id.spec_words() + self.flags.spec_words()
    }

    proof fn lemma_words(&self, other: &Self) {
        self.agent_id.lemma_words(&other.agent_id);
        self.device_id.lemma_words(&other.device_id);
        self.flags.lemma_words(&other.flags);
        if self.spec_words() == other.spec_words() {
            assert(self.spec_words().subrange(0, 1) == self.agent_id.spec_words());
            assert(other.spec_words().subrange(0, 1) == other.agent_id.spec_words());
            assert(self.spec_words().subrange(1, 2) == self.device_id.spec_words());
            assert(other.spec_words().subrange(1, 2) == other.device_id.spec_words());
            assert(self.spec_words().subrange(2, 3) == self.flags.spec_words());
            assert(other.spec_words().subrange(2, 3) == other.flags.spec_words());
        }
    }

    fn word_count() -> (r: usize) {
        3
    }

    fn carried_word_count(first: u32) -> (r: u64) {
        3
    }

    fn to_words(&self) -> (r: Vec<u32>) {
        let mut v: Vec<u32> = Vec::new();
        let mut w = self.agent_id.to_words();
        v.append(&mut w);
        let mut w = self.device_id.to_words();
        v.append(&mut w);
        let mut w = self.flags.to_words();
        v.append(&mut w);
        assert(v@ =~= self.spec_words());
        v
    }

    fn from_words(words: &[u32]) -> (r: Self) {
        let agent_id = u32::from_words(vstd::slice::slice_subrange(words, 0, 1));
        let device_id = u32::from_words(vstd::slice::slice_subrange(words, 1, 2));
        let flags = SetPermissionFlags::from_words(vstd::slice::slice_subrange(words, 2, 3));
        let r = SetDevicePermission { agent_id, device_id, flags };
        assert(r.spec_words() =~= words@);
        r
    }
}

/// `BASE_SET_DEVICE_PERMISSIONS` command response.
#[derive(Clone, Copy, Debug, PartialEq, Eq)]
pub struct SetDevicePermissionResponse {}

impl Payload for SetDevicePermissionResponse {
    open spec fn spec_word_count() -> nat {
        0
    }

    open spec fn spec_words(&self) -> Seq<u32> {
        Seq::<u32>::empty()
    }

    proof fn lemma_words(&self, other: &Self) {
    }

    fn word_count() -> (r: usize) {
        0
    }

    fn carried_word_count(first: u32) -> (r: u64) {
        0
    }

    fn to_words(&self) -> (r: Vec<u32>) {
        let v: Vec<u32> = Vec::new();
        assert(v@ =~= self.spec_words());
        v
    }

    fn from_words(words: &[u32]) -> (r: Self) {
        let r = SetDevicePermissionResponse {  };
        assert(r.spec_words() =~= words@);
        r
    }
}

impl Command for SetDevicePermission {
    type Response = SetDevicePermissionResponse;

    open spec fn spec_id() -> MessageId {
        MessageId::Base(BaseCommandMessageId::SetDevicePermission)
    }

    fn id() -> (r: MessageId) {
        MessageId::Base(BaseCommandMessageId::SetDevicePermission)
    }
}

/// `BASE_SET_PROTOCOL_PERMISSIONS` command.
#[derive(Clone, Copy, Debug, PartialEq, Eq)]
pub struct SetProtocolPermissions {
    pub agent_id: u32,
    pub device_id: u32,
    pub command_id: SetProtocolPermissionsCommand,
    pub flags: SetPermissionFlags,
}

impl Payload for SetProtocolPermissions {
    open spec fn spec_word_count() -> nat {
        4
    }

    open spec fn spec_words(&self) -> Seq<u32> {
        self.agent_id.spec_words() + self.device_id.spec_words() + self.command_id.spec_words() + self.flags.spec_words()
    }

    proof fn lemma_words(&self, other: &Self) {
        self.agent_id.lemma_words(&other.agent_id);
        self.device_id.lemma_words(&other.device_id);
        self.command_id.lemma_words(&other.command_id);
        self.flags.lemma_words(&other.flags);
        if self.spec_words() == other.spec_words() {
            assert(self.spec_words().subrange(0, 1) == self.agent_id.spec_words());
            assert(other.spec_words().subrange(0, 1) == other.agent_id.spec_words());
            assert(self.spec_words().subrange(1, 2) == self.device_id.spec_words());
            assert(other.spec_words().subrange(1, 2) == other.device_id.spec_words());
            assert(self.spec_words().subrange(2, 3) == self.command_id.spec_words());
            assert(other.spec_words().subrange(2, 3) == other.command_id.spec_words());
            assert(self.spec_words().subrange(3, 4) == self.flags.spec_words());
            assert(other.spec_words().subrange(3, 4) == other.flags.spec_words());
        }
    }

    fn word_count() -> (r: usize) {
        4
    }

    fn carried_word_count(first: u32) -> (r: u64) {
        4
    }

    fn to_words(&self) -> (r: Vec<u32>) {
        let mut v: Vec<u32> = Vec::new();
        let mut w = self.agent_id.to_words();
        v.append(&mut w);
        let mut w = self.device_id.to_words();
        v.append(&mut w);
        let mut w = self.command_id.to_words();
        v.append(&mut w);
        let mut w = self.flags.to_words();
        v.append(&mut w);
        assert(v@ =~= self.spec_words());
        v
    }

    fn from_words(words: &[u32]) -> (r: Self) {
        let agent_id = u32::from_words(vstd::slice::slice_subrange(words, 0, 1));
        let device_id = u32::from_words(vstd::slice::slice_subrange(words, 1, 2));
        let command_id = SetProtocolPermissionsCommand::from_words(vstd::slice::slice_subrange(words, 2, 3));
        let flags = SetPermissionFlags::from_words(vstd::slice::slice_subrange(words, 3, 4));
        let r = SetProtocolPermissions { agent_id, device_id, command_id, flags };
        assert(r.spec_words() =~= words@);
        r
    }
}

/// `BASE_SET_PROTOCOL_PERMISSIONS` command response.
#[derive(Clone, Copy, Debug, PartialEq, Eq)]
pub struct SetProtocolPermissionsResponse {}

impl Payload for SetProtocolPermissionsResponse {
    open spec fn spec_word_count() -> nat {
        0
    }

    open spec fn spec_words(&self) -> Seq<u32> {
        Seq::<u32>::empty()
    }

    proof fn lemma_words(&self, other: &Self) {
    }

    fn word_count() -> (r: usize) {
        0
    }

    fn carried_word_count(first: u32) -> (r: u64) {
        0
    }

    fn to_words(&self) -> (r: Vec<u32>) {
        let v: Vec<u32> = Vec::new();
        assert(v@ =~= self.spec_words());
        v
    }

    fn from_words(words: &[u32]) -> (r: Self) {
        let r = SetProtocolPermissionsResponse {  };
        assert(r.spec_words() =~= words@);
        r
    }
}

impl Command for SetProtocolPermissions {
    type Response = SetProtocolPermissionsResponse;

    open spec fn spec_id() -> MessageId {
        MessageId::Base(BaseCommandMessageId::SetProtocolPermissions)
    }

    fn id() -> (r: MessageId) {
        MessageId::Base(BaseCommandMessageId::SetProtocolPermissions)
    }
}

/// `BASE_RESET_AGENT_CONFIGURATION` command.
#[derive(Clone, Copy, Debug, PartialEq, Eq)]
pub struct ResetAgentConfiguration {
    pub agent_id: u32,
    pub flags: ResetAgentConfigurationFlags,
}

impl Payload for ResetAgentConfiguration {
    open spec fn spec_word_count() -> nat {
        2
    }

    open spec fn spec_words(&self) -> Seq<u32> {
        self.agent_id.spec_words() + self.flags.spec_words()
    }

    proof fn lemma_words(&self, other: &Self) {
        self.agent_id.lemma_words(&other.agent_id);
        self.flags.lemma_words(&other.flags);
        if self.spec_words() == other.spec_words() {
            assert(self.spec_words().subrange(0, 1) == self.agent_id.spec_words());
            assert(other.spec_words().subrange(0, 1) == other.agent_id.spec_words());
            assert(self.spec_words().subrange(1, 2) == self.flags.spec_words());
            assert(other.spec_words().subrange(1, 2) == other.flags.spec_words());
        }
    }

    fn word_count() -> (r: usize) {
        2
    }

    fn carried_word_count(first: u32) -> (r: u64) {
        2
    }

    fn to_words(&self) -> (r: Vec<u32>) {
        let mut v: Vec<u32> = Vec::new();
        let mut w = self.agent_id.to_words();
        v.append(&mut w);
        let mut w = self.flags.to_words();
        v.append(&mut w);
        assert(v@ =~= self.spec_words());
        v
    }

    fn from_words(words: &[u32]) -> (r: Self) {
        let agent_id = u32::from_words(vstd::slice::slice_subrange(words, 0, 1));
        let flags = ResetAgentConfigurationFlags::from_words(vstd::slice::slice_subrange(words, 1, 2));
        let r = ResetAgentConfiguration { agent_id, flags };
        assert(r.spec_words() =~= words@);
        r
    }
}

/// `BASE_RESET_AGENT_CONFIGURATION` command response.
#[derive(Clone, Copy, Debug, PartialEq, Eq)]
pub struct ResetAgentConfigurationResponse {}

impl Payload for ResetAgentConfigurationResponse {
    open spec fn spec_word_count() -> nat {
        0
    }

    open spec fn spec_words(&self) -> Seq<u32> {
        Seq::<u32>::empty()
    }

    proof fn lemma_words(&self, other: &Self) {
    }

    fn word_count() -> (r: usize) {
        0
    }

    fn carried_word_count(first: u32) -> (r: u64) {
        0
    }

    fn to_words(&self) -> (r: Vec<u32>) {
        let v: Vec<u32> = Vec::new();
        assert(v@ =~= self.spec_words());
        v
    }

    fn from_words(words: &[u32]) -> (r: Self) {
        let r = ResetAgentConfigurationResponse {  };
        assert(r.spec_words() =~= words@);
        r
    }
}

impl Command for ResetAgentConfiguration {
    type Response = ResetAgentConfigurationResponse;

    open spec fn spec_id() -> MessageId {
        MessageId::Base(BaseCommandMessageId::ResetAgentConfiguration)
    }

    fn id() -> (r: MessageId) {
        MessageId::Base(BaseCommandMessageId::ResetAgentConfiguration)
    }
}

impl DiscoverVendorResponse {
    /// Returns the vendor identifier.
    pub fn vendor_identifier(&self) -> (r: Option<&str>)
        ensures
            match r {
                Some(s) => nul_terminated_string(self.vendor_identifier@) == Some(s@),
                None => nul_terminated_string(self.vendor_identifier@) is None,
            },
    {
        get_ascii_string(&self.vendor_identifier)
    }
}

impl DiscoverSubVendorResponse {
    /// Returns the sub vendor identifier.
    pub fn vendor_identifier(&self) -> (r: Option<&str>)
        ensures
            match r {
                Some(s) => nul_terminated_string(self.vendor_identifier@) == Some(s@),
                None => nul_terminated_string(self.vendor_identifier@) is None,
            },
    {
        get_ascii_string(&self.vendor_identifier)
    }
}

impl DiscoverAgentResponse {
    /// Returns the agent name.
    pub fn name(&self) -> (r: Option<&str>)
        ensures
            match r {
                Some(s) => nul_terminated_string(self.name@) == Some(s@),
                None => nul_terminated_string(self.name@) is None,
            },
    {
        get_ascii_string(&self.name)
    }
}

/// A protocol list carries its count, then the fewest whole words that hold that many protocol
/// identifiers, four to a word: for `n` protocols, `c` words with 4 * (`c` - 1) >= `n` >
/// 4 * (`c` - 2), that is 1 + ceil(`n` / 4).
pub proof fn lemma_list_carried_word_count(n: u32)
    ensures
        DiscoverListProtocolResponse::spec_carried_word_count(n) >= 1,
        4 * (DiscoverListProtocolResponse::spec_carried_word_count(n) - 1) >= n,
        4 * (DiscoverListProtocolResponse::spec_carried_word_count(n) - 2) < n,
{
}

impl DiscoverListProtocolResponse {
    /// The number of protocol identifiers that the response holds: `num_protocols`, at most the
    /// 16 that fit in `protocols`.
    pub open spec fn listed_count(&self) -> int {
        if self.num_protocols <= 16 {
            self.num_protocols as int
        } else {
            16
        }
    }

    /// The `i`th protocol identifier of the list: four to a word, the first in bits 7..0.
    pub open spec fn listed_protocol(&self, i: int) -> u8 {
        byte_of_word(self.protocols@[i / 4], i % 4)
    }

    /// The list holds the protocol.
    pub open spec fn spec_contains_protocol(&self, protocol: ProtocolId) -> bool {
        exists|i: int| 0 <= i < self.listed_count() && #[trigger] self.listed_protocol(i) == protocol.spec_into_u8()
    }

    /// The protocol identifiers of the list, in order.
    pub fn iter(&self) -> (r: Vec<u8>)
        ensures
            r@ == Seq::new(self.listed_count() as nat, |i: int| self.listed_protocol(i)),
    {
        let count: usize = if self.num_protocols <= 16 { self.num_protocols as usize } else { 16 };
        let mut ids: Vec<u8> = Vec::new();
        let mut i: usize = 0;
        while i < count
            invariant
                count == self.listed_count(),
                i <= count,
                ids@ =~= Seq::new(i as nat, |j: int| self.listed_protocol(j)),
            decreases count - i,
        {
            let word = self.protocols[i / 4];
            let byte = if i % 4 == 0 {
                (word & 0xff) as u8
            } else if i % 4 == 1 {
                ((word >> 8) & 0xff) as u8
            } else if i % 4 == 2 {
                ((word >> 16) & 0xff) as u8
            } else {
                ((word >> 24) & 0xff) as u8
            };
            assert(byte == self.listed_protocol(i as int));
            ids.push(byte);
            i = i + 1;
        }
        ids
    }

    /// Checks whether the list holds the protocol.
    pub fn contains_protocol(&self, protocol: ProtocolId) -> (r: bool)
        ensures
            r == self.spec_contains_protocol(protocol),
    {
        let id = u8::from(protocol);
        let count: usize = if self.num_protocols <= 16 { self.num_protocols as usize } else { 16 };
        let mut i: usize = 0;
        while i < count
            invariant
                count == self.listed_count(),
                i <= count,
                id == protocol.spec_into_u8(),
                forall|j: int| 0 <= j < i ==> #[trigger] self.listed_protocol(j) != id,
            decreases count - i,
        {
            let word = self.protocols[i / 4];
            let byte = if i % 4 == 0 {
                (word & 0xff) as u8
            } else if i % 4 == 1 {
                ((word >> 8) & 0xff) as u8
            } else if i % 4 == 2 {
                ((word >> 16) & 0xff) as u8
            } else {
                ((word >> 24) & 0xff) as u8
            };
            assert(byte == self.listed_protocol(i as int));
            if byte == id {
                return true;
            }
            i = i + 1;
        }
        false
    }
}

} // verus!
