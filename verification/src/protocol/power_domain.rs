use vstd::prelude::*;

use crate::Error;
use crate::protocol::{
    fill_bytes_of_words, get_ascii_string, lemma_bytes_words_roundtrip, nul_terminated_string,
    push_words_of_bytes, words_of_bytes, Command, MessageId, NotifyEnable, Payload, Version,
};

verus! {

/// Message identifiers of the Power Domain Management protocol.
#[derive(Clone, Copy, Debug, PartialEq, Eq, Structural)]
pub enum PowerDomainCommandMessageId {
    ProtocolVersion,
    ProtocolAttributes,
    ProtocolMessageAttributes,
    NegotiateProtocolVersion,
    DomainAttributes,
    StateSet,
    StateGet,
    StateNotify,
    StateChangeRequestedNotify,
    DomainNameGet,
}

impl PowerDomainCommandMessageId {
    /// The number that stands for this value.
    pub open spec fn spec_into_u8(self) -> u8 {
        match self {
            PowerDomainCommandMessageId::ProtocolVersion => 0x0u8,
            PowerDomainCommandMessageId::ProtocolAttributes => 0x1u8,
            PowerDomainCommandMessageId::ProtocolMessageAttributes => 0x2u8,
            PowerDomainCommandMessageId::NegotiateProtocolVersion => 0x10u8,
            PowerDomainCommandMessageId::DomainAttributes => 0x3u8,
            PowerDomainCommandMessageId::StateSet => 0x4u8,
            PowerDomainCommandMessageId::StateGet => 0x5u8,
            PowerDomainCommandMessageId::StateNotify => 0x6u8,
            PowerDomainCommandMessageId::StateChangeRequestedNotify => 0x7u8,
            PowerDomainCommandMessageId::DomainNameGet => 0x8u8,
        }
    }

    /// The value that number `v` stands for; any other number is refused.
    pub open spec fn spec_try_from_u8(v: u8) -> Result<Self, Error> {
        if v == 0x0u8 {
            Ok(PowerDomainCommandMessageId::ProtocolVersion)
        } else if v == 0x1u8 {
            Ok(PowerDomainCommandMessageId::ProtocolAttributes)
        } else if v == 0x2u8 {
            Ok(PowerDomainCommandMessageId::ProtocolMessageAttributes)
        } else if v == 0x10u8 {
            Ok(PowerDomainCommandMessageId::NegotiateProtocolVersion)
        } else if v == 0x3u8 {
            Ok(PowerDomainCommandMessageId::DomainAttributes)
        } else if v == 0x4u8 {
            Ok(PowerDomainCommandMessageId::StateSet)
        } else if v == 0x5u8 {
            Ok(PowerDomainCommandMessageId::StateGet)
        } else if v == 0x6u8 {
            Ok(PowerDomainCommandMessageId::StateNotify)
        } else if v == 0x7u8 {
            Ok(PowerDomainCommandMessageId::StateChangeRequestedNotify)
        } else if v == 0x8u8 {
            Ok(PowerDomainCommandMessageId::DomainNameGet)
        } else {
            Err(Error::InvalidMessageId(v))
        }
    }
}

impl From<PowerDomainCommandMessageId> for u8 {
    fn from(value: PowerDomainCommandMessageId) -> (r: u8) {
        match value {
            PowerDomainCommandMessageId::ProtocolVersion => 0x0,
            PowerDomainCommandMessageId::ProtocolAttributes => 0x1,
            PowerDomainCommandMessageId::ProtocolMessageAttributes => 0x2,
            PowerDomainCommandMessageId::NegotiateProtocolVersion => 0x10,
            PowerDomainCommandMessageId::DomainAttributes => 0x3,
            PowerDomainCommandMessageId::StateSet => 0x4,
            PowerDomainCommandMessageId::StateGet => 0x5,
            PowerDomainCommandMessageId::StateNotify => 0x6,
            PowerDomainCommandMessageId::StateChangeRequestedNotify => 0x7,
            PowerDomainCommandMessageId::DomainNameGet => 0x8,
        }
    }
}

impl vstd::std_specs::convert::FromSpecImpl<PowerDomainCommandMessageId> for u8 {
    open spec fn obeys_from_spec() -> bool {
        true
    }

    open spec fn from_spec(v: PowerDomainCommandMessageId) -> u8 {
        v.spec_into_u8()
    }
}

impl TryFrom<u8> for PowerDomainCommandMessageId {
    type Error = Error;

    fn try_from(value: u8) -> (r: Result<Self, Error>) {
        match value {
            0x0 => Ok(PowerDomainCommandMessageId::ProtocolVersion),
            0x1 => Ok(PowerDomainCommandMessageId::ProtocolAttributes),
            0x2 => Ok(PowerDomainCommandMessageId::ProtocolMessageAttributes),
            0x10 => Ok(PowerDomainCommandMessageId::NegotiateProtocolVersion),
            0x3 => Ok(PowerDomainCommandMessageId::DomainAttributes),
            0x4 => Ok(PowerDomainCommandMessageId::StateSet),
            0x5 => Ok(PowerDomainCommandMessageId::StateGet),
            0x6 => Ok(PowerDomainCommandMessageId::StateNotify),
            0x7 => Ok(PowerDomainCommandMessageId::StateChangeRequestedNotify),
            0x8 => Ok(PowerDomainCommandMessageId::DomainNameGet),
            _ => Err(Error::InvalidMessageId(value)),
        }
    }
}

impl vstd::std_specs::convert::TryFromSpecImpl<u8> for PowerDomainCommandMessageId {
    open spec fn obeys_try_from_spec() -> bool {
        true
    }

    open spec fn try_from_spec(v: u8) -> Result<Self, Error> {
        Self::spec_try_from_u8(v)
    }
}

/// Decoding the number of a value gives back the value, and a number that decodes
/// is the number of what it decodes to.
pub proof fn lemma_power_domain_command_message_id_roundtrip(m: PowerDomainCommandMessageId, v: u8)
    ensures
        PowerDomainCommandMessageId::spec_try_from_u8(m.spec_into_u8()) == Ok::<PowerDomainCommandMessageId, Error>(m),
        PowerDomainCommandMessageId::spec_try_from_u8(v) matches Ok(x) ==> x.spec_into_u8() == v,
{
}

/// The Power Domain Management messages as the SCMI specification defines them,
/// `NEGOTIATE_PROTOCOL_VERSION` aside: the messages common to every protocol, then
/// `POWER_DOMAIN_ATTRIBUTES` to `POWER_DOMAIN_NAME_GET`.
pub open spec fn power_domain_messages_in_number_order() -> Seq<PowerDomainCommandMessageId> {
    seq![
        PowerDomainCommandMessageId::ProtocolVersion,
        PowerDomainCommandMessageId::ProtocolAttributes,
        PowerDomainCommandMessageId::ProtocolMessageAttributes,
        PowerDomainCommandMessageId::DomainAttributes,
        PowerDomainCommandMessageId::StateSet,
        PowerDomainCommandMessageId::StateGet,
        PowerDomainCommandMessageId::StateNotify,
        PowerDomainCommandMessageId::StateChangeRequestedNotify,
        PowerDomainCommandMessageId::DomainNameGet,
    ]
}

/// The messages of `power_domain_messages_in_number_order` are numbered consecutively from 0x0 by their place in it, and
/// `NEGOTIATE_PROTOCOL_VERSION` is 0x10. Exactly the numbers 0x0 to 0x8 and 0x10 decode to a
/// message, each to the message with that number; every other number is refused as an invalid
/// message identifier.
pub proof fn lemma_power_domain_message_numbers()
    ensures
        forall|i: int| 0 <= i < 9 ==> #[trigger] power_domain_messages_in_number_order()[i].spec_into_u8() == i,
        PowerDomainCommandMessageId::NegotiateProtocolVersion.spec_into_u8() == 0x10,
        forall|v: u8|
            v <= 0x8 ==> #[trigger] PowerDomainCommandMessageId::spec_try_from_u8(v) == Ok::<PowerDomainCommandMessageId, Error>(
                power_domain_messages_in_number_order()[v as int],
            ),
        PowerDomainCommandMessageId::spec_try_from_u8(0x10) == Ok::<PowerDomainCommandMessageId, Error>(
            PowerDomainCommandMessageId::NegotiateProtocolVersion,
        ),
        forall|v: u8|
            !(v <= 0x8 || v == 0x10) ==> #[trigger] PowerDomainCommandMessageId::spec_try_from_u8(v) == Err::<
                PowerDomainCommandMessageId,
                Error,
            >(Error::InvalidMessageId(v)),
{
}

/// Power domain protocol attributes flags: the number of power domains in bits 15..0.
#[derive(Clone, Copy, Debug, Default, PartialEq, Eq, Structural)]
pub struct PowerDomainProtocolAttributesFlags(u32);

impl View for PowerDomainProtocolAttributesFlags {
    type V = u32;

    closed spec fn view(&self) -> u32 {
        self.0
    }
}

impl PowerDomainProtocolAttributesFlags {
    const DOMAINS_MASK: u32 = 0xffff;
    const DOMAINS_SHIFT: u32 = 0;

    /// Sets the number of power domains, which must fit in the 16 bits of the field; the other
    /// bits are kept.
    pub fn set_domain_count(&mut self, count: usize)
        requires
            count <= 0xffff,
        ensures
            final(self)@ == (old(self)@ & !0xffffu32) | (count as u32),
            (final(self)@ & 0xffff) == count,
            (final(self)@ & !0xffffu32) == (old(self)@ & !0xffffu32),
    {
        let old_v = self.0;
        let c = count as u32;
        self.0 = self.0 & !(Self::DOMAINS_MASK << Self::DOMAINS_SHIFT);
        self.0 = self.0 | ((c & Self::DOMAINS_MASK) << Self::DOMAINS_SHIFT);
        assert(((old_v & !(0xffffu32 << 0u32)) | ((c & 0xffffu32) << 0u32)) == (old_v & !0xffffu32) | c
            && (((old_v & !0xffffu32) | c) & 0xffff) == c
            && (((old_v & !0xffffu32) | c) & !0xffffu32) == (old_v & !0xffffu32)) by (bit_vector)
            requires c <= 0xffff;
    }

    /// Returns the number of power domains.
    pub fn domain_count(&self) -> (r: usize)
        ensures
            r == self@ & 0xffff,
    {
        let v = self.0;
        assert((v >> 0u32) & 0xffffu32 == v & 0xffff) by (bit_vector);
        ((self.0 >> Self::DOMAINS_SHIFT) & Self::DOMAINS_MASK) as usize
    }

    /// The raw bits.
    pub fn bits(&self) -> (r: u32)
        ensures
            r == self@,
    {
        self.0
    }

    /// The attributes with these raw bits.
    pub fn from_bits_retain(bits: u32) -> (r: Self)
        ensures
            r@ == bits,
    {
        PowerDomainProtocolAttributesFlags(bits)
    }
}

impl Payload for PowerDomainProtocolAttributesFlags {
    open spec fn spec_word_count() -> nat {
        1
    }

    open spec fn spec_words(&self) -> Seq<u32> {
        seq![self@]
    }

    proof fn lemma_words(&self, other: &Self) {
        if self.spec_words() == other.spec_words() {
            assert(self.spec_words()[0] == other.spec_words()[0]);
        }
    }

    fn word_count() -> (r: usize) {
        1
    }

    fn carried_word_count(first: u32) -> (r: u64) {
        1
    }

    fn to_words(&self) -> (r: Vec<u32>) {
        let mut v: Vec<u32> = Vec::new();
        v.push(self.0);
        v
    }

    fn from_words(words: &[u32]) -> (r: Self) {
        PowerDomainProtocolAttributesFlags(words[0])
    }
}

/// Power domain protocol attributes.
#[derive(Clone, Copy, Debug, Default, PartialEq, Eq)]
pub struct PowerDomainProtocolAttributes {
    pub attributes: PowerDomainProtocolAttributesFlags,
    pub statistics_address_low: u32,
    pub statistics_address_high: u32,
    pub statistics_len: u32,
}

impl Payload for PowerDomainProtocolAttributes {
    open spec fn spec_word_count() -> nat {
        4
    }

    open spec fn spec_words(&self) -> Seq<u32> {
        self.attributes.spec_words() + self.statistics_address_low.spec_words() + self.statistics_address_high.spec_words() + self.statistics_len.spec_words()
    }

    proof fn lemma_words(&self, other: &Self) {
        self.attributes.lemma_words(&other.attributes);
        self.statistics_address_low.lemma_words(&other.statistics_address_low);
        self.statistics_address_high.lemma_words(&other.statistics_address_high);
        self.statistics_len.lemma_words(&other.statistics_len);
        if self.spec_words() == other.spec_words() {
            assert(self.spec_words().subrange(0, 1) == self.attributes.spec_words());
            assert(other.spec_words().subrange(0, 1) == other.attributes.spec_words());
            assert(self.spec_words().subrange(1, 2) == self.statistics_address_low.spec_words());
            assert(other.spec_words().subrange(1, 2) == other.statistics_address_low.spec_words());
            assert(self.spec_words().subrange(2, 3) == self.statistics_address_high.spec_words());
            assert(other.spec_words().subrange(2, 3) == other.statistics_address_high.spec_words());
            assert(self.spec_words().subrange(3, 4) == self.statistics_len.spec_words());
            assert(other.spec_words().subrange(3, 4) == other.statistics_len.spec_words());
        }
    }

    fn word_count() -> (r: usize) {
        4
    }

    fn carried_word_count(first: u32) -> (r: u64) {
        4
    }

    fn to_words(&self) -> (r: Vec<u32>) {
        let mut v: Vec<u32> = Vec::new();
        let mut w = self.attributes.to_words();
        v.append(&mut w);
        let mut w = self.statistics_address_low.to_words();
        v.append(&mut w);
        let mut w = self.statistics_address_high.to_words();
        v.append(&mut w);
        let mut w = self.statistics_len.to_words();
        v.append(&mut w);
        assert(v@ =~= self.spec_words());
        v
    }

    fn from_words(words: &[u32]) -> (r: Self) {
        let attributes = PowerDomainProtocolAttributesFlags::from_words(vstd::slice::slice_subrange(words, 0, 1));
        let statistics_address_low = u32::from_words(vstd::slice::slice_subrange(words, 1, 2));
        let statistics_address_high = u32::from_words(vstd::slice::slice_subrange(words, 2, 3));
        let statistics_len = u32::from_words(vstd::slice::slice_subrange(words, 3, 4));
        let r = PowerDomainProtocolAttributes { attributes, statistics_address_low, statistics_address_high, statistics_len };
        assert(r.spec_words() =~= words@);
        r
    }
}

/// Power domain ID.
#[derive(Clone, Copy, Debug, Default, PartialEq, Eq, Structural)]
pub struct PowerDomainId(u32);

impl View for PowerDomainId {
    type V = u32;

    closed spec fn view(&self) -> u32 {
        self.0
    }
}

impl PowerDomainId {
    /// Creates new instance.
    pub fn new(id: u16) -> (r: Self)
        ensures
            r@ == id as u32,
    {
        PowerDomainId(id as u32)
    }

    /// Return the raw domain ID value: the low 16 bits.
    pub fn id(&self) -> (r: u16)
        ensures
            r == self@ as u16,
    {
        self.0 as u16
    }
}

impl From<u16> for PowerDomainId {
    fn from(value: u16) -> (r: Self) {
        Self::new(value)
    }
}

impl vstd::std_specs::convert::FromSpecImpl<u16> for PowerDomainId {
    open spec fn obeys_from_spec() -> bool {
        true
    }

    closed spec fn from_spec(v: u16) -> Self {
        PowerDomainId(v as u32)
    }
}

impl PowerDomainId {
    /// The identifier built from `v` holds `v`.
    pub broadcast proof fn lemma_from_u16(v: u16)
        ensures
            (#[trigger] <PowerDomainId as vstd::std_specs::convert::FromSpec<u16>>::from_spec(v))@ == v as u32,
    {
    }
}

impl Payload for PowerDomainId {
    open spec fn spec_word_count() -> nat {
        1
    }

    open spec fn spec_words(&self) -> Seq<u32> {
        seq![self@]
    }

    proof fn lemma_words(&self, other: &Self) {
        if self.spec_words() == other.spec_words() {
            assert(self.spec_words()[0] == other.spec_words()[0]);
        }
    }

    fn word_count() -> (r: usize) {
        1
    }

    fn carried_word_count(first: u32) -> (r: u64) {
        1
    }

    fn to_words(&self) -> (r: Vec<u32>) {
        let mut v: Vec<u32> = Vec::new();
        v.push(self.0);
        v
    }

    fn from_words(words: &[u32]) -> (r: Self) {
        PowerDomainId(words[0])
    }
}

/// Power domain attributes.
///
/// The flag constants are the masks of their bits.
#[derive(Clone, Copy, Debug, Default, PartialEq, Eq, Structural)]
pub struct DomainAttributes(u32);

impl View for DomainAttributes {
    type V = u32;

    closed spec fn view(&self) -> u32 {
        self.0
    }
}

impl DomainAttributes {
    /// Power state change notifications are supported on this domain.
    pub const CHANGE_NOTIFICATIONS_SUPPORT: u32 = 1 << 31;

    /// Power state can be set asynchronously.
    pub const ASYNC_SUPPORT: u32 = 1 << 30;

    /// Power state can be set synchronously.
    pub const SYNC_SUPPORT: u32 = 1 << 29;

    /// Power state change requested notifications are supported on this domain.
    pub const CHANGE_REQUESTED_NOTIFICATIONS_SUPPORT: u32 = 1 << 28;

    /// Power domain name is greater than 16 bytes.
    pub const EXTENDED_POWER_DOMAIN: u32 = 1 << 27;

    /// No flag set.
    pub fn empty() -> (r: Self)
        ensures
            r@ == 0,
    {
        DomainAttributes(0)
    }

    /// The raw bits.
    pub fn bits(&self) -> (r: u32)
        ensures
            r == self@,
    {
        self.0
    }

    /// The flags with these raw bits, unknown bits included.
    pub fn from_bits_retain(bits: u32) -> (r: Self)
        ensures
            r@ == bits,
    {
        DomainAttributes(bits)
    }

    /// All bits of `mask` are set.
    pub fn contains(&self, mask: u32) -> (r: bool)
        ensures
            r == (self@ & mask == mask),
    {
        self.0 & mask == mask
    }

    /// Sets the bits of `mask` when `value` holds and clears them otherwise; the other bits are
    /// kept.
    pub fn set(&mut self, mask: u32, value: bool)
        ensures
            final(self)@ == (if value { old(self)@ | mask } else { old(self)@ & !mask }),
    {
        if value {
            self.0 = self.0 | mask;
        } else {
            self.0 = self.0 & !mask;
        }
    }
}

impl Payload for DomainAttributes {
    open spec fn spec_word_count() -> nat {
        1
    }

    open spec fn spec_words(&self) -> Seq<u32> {
        seq![self@]
    }

    proof fn lemma_words(&self, other: &Self) {
        if self.spec_words() == other.spec_words() {
            assert(self.spec_words()[0] == other.spec_words()[0]);
        }
    }

    fn word_count() -> (r: usize) {
        1
    }

    fn carried_word_count(first: u32) -> (r: u64) {
        1
    }

    fn to_words(&self) -> (r: Vec<u32>) {
        let mut v: Vec<u32> = Vec::new();
        v.push(self.0);
        v
    }

    fn from_words(words: &[u32]) -> (r: Self) {
        DomainAttributes(words[0])
    }
}


/// `POWER_STATE_SET` flags.
///
/// The flag constants are the masks of their bits.
#[derive(Clone, Copy, Debug, Default, PartialEq, Eq, Structural)]
pub struct PowerStateSetFlags(u32);

impl View for PowerStateSetFlags {
    type V = u32;

    closed spec fn view(&self) -> u32 {
        self.0
    }
}

impl PowerStateSetFlags {
    /// Power transition must be done asynchronously.
    pub const ASYNC: u32 = 1 << 0;

    /// No flag set.
    pub fn empty() -> (r: Self)
        ensures
            r@ == 0,
    {
        PowerStateSetFlags(0)
    }

    /// The raw bits.
    pub fn bits(&self) -> (r: u32)
        ensures
            r == self@,
    {
        self.0
    }

    /// The flags with these raw bits, unknown bits included.
    pub fn from_bits_retain(bits: u32) -> (r: Self)
        ensures
            r@ == bits,
    {
        PowerStateSetFlags(bits)
    }

    /// All bits of `mask` are set.
    pub fn contains(&self, mask: u32) -> (r: bool)
        ensures
            r == (self@ & mask == mask),
    {
        self.0 & mask == mask
    }

    /// Sets the bits of `mask` when `value` holds and clears them otherwise; the other bits are
    /// kept.
    pub fn set(&mut self, mask: u32, value: bool)
        ensures
            final(self)@ == (if value { old(self)@ | mask } else { old(self)@ & !mask }),
    {
        if value {
            self.0 = self.0 | mask;
        } else {
            self.0 = self.0 & !mask;
        }
    }
}

impl Payload for PowerStateSetFlags {
    open spec fn spec_word_count() -> nat {
        1
    }

    open spec fn spec_words(&self) -> Seq<u32> {
        seq![self@]
    }

    proof fn lemma_words(&self, other: &Self) {
        if self.spec_words() == other.spec_words() {
            assert(self.spec_words()[0] == other.spec_words()[0]);
        }
    }

    fn word_count() -> (r: usize) {
        1
    }

    fn carried_word_count(first: u32) -> (r: u64) {
        1
    }

    fn to_words(&self) -> (r: Vec<u32>) {
        let mut v: Vec<u32> = Vec::new();
        v.push(self.0);
        v
    }

    fn from_words(words: &[u32]) -> (r: Self) {
        PowerStateSetFlags(words[0])
    }
}


/// Power state type: bit 30 of a power state.
#[derive(Clone, Copy, Debug, PartialEq, Eq, Structural)]
pub enum PowerStateType {
    ContextPreserved,
    ContextLost,
}

impl PowerStateType {
    const STATE_TYPE_BIT: u32 = 1 << 30;

    /// The type that bit 30 of `v` gives.
    pub open spec fn spec_from_u32(v: u32) -> Self {
        if v & 0x4000_0000 == 0 {
            PowerStateType::ContextPreserved
        } else {
            PowerStateType::ContextLost
        }
    }

    /// The type as its bit.
    pub open spec fn spec_into_u32(self) -> u32 {
        match self {
            PowerStateType::ContextPreserved => 0,
            PowerStateType::ContextLost => 0x4000_0000,
        }
    }
}

impl From<u32> for PowerStateType {
    fn from(value: u32) -> (r: Self) {
        assert(1u32 << 30u32 == 0x4000_0000u32) by (bit_vector);
        if value & Self::STATE_TYPE_BIT == 0 {
            PowerStateType::ContextPreserved
        } else {
            PowerStateType::ContextLost
        }
    }
}

impl vstd::std_specs::convert::FromSpecImpl<u32> for PowerStateType {
    open spec fn obeys_from_spec() -> bool {
        true
    }

    open spec fn from_spec(v: u32) -> Self {
        Self::spec_from_u32(v)
    }
}

impl From<PowerStateType> for u32 {
    fn from(value: PowerStateType) -> (r: u32) {
        assert(1u32 << 30u32 == 0x4000_0000u32) by (bit_vector);
        match value {
            PowerStateType::ContextPreserved => 0,
            PowerStateType::ContextLost => PowerStateType::STATE_TYPE_BIT,
        }
    }
}

impl vstd::std_specs::convert::FromSpecImpl<PowerStateType> for u32 {
    open spec fn obeys_from_spec() -> bool {
        true
    }

    open spec fn from_spec(v: PowerStateType) -> u32 {
        v.spec_into_u32()
    }
}

/// Power State value: the state type in bit 30 and the state ID in bits 27..0; bits 31, 29 and
/// 28 must be zero.
///
/// See Table 6: Power State Parameter Layout for Device Power Domains
#[derive(Clone, Copy, Debug, Default, PartialEq, Eq, Structural)]
pub struct PowerState(u32);

impl View for PowerState {
    type V = u32;

    closed spec fn view(&self) -> u32 {
        self.0
    }
}

impl PowerState {
    const MBZ_BITS: u32 = 0xb000_0000;
    const STATE_ID_MASK: u32 = 0x0fff_ffff;
    const STATE_ID_SHIFT: u32 = 0;

    /// Creates new instance.
    pub fn new(state_type: PowerStateType, state_id: u32) -> (r: Self)
        requires
            state_id <= 0x0fff_ffff,
        ensures
            r@ == state_type.spec_into_u32() | state_id,
            r@ & 0xb000_0000 == 0,
            PowerStateType::spec_from_u32(r@) == state_type,
            r@ & 0x0fff_ffff == state_id,
    {
        let t = u32::from(state_type);
        let v = t | (state_id << Self::STATE_ID_SHIFT);
        assert(state_id << 0u32 == state_id) by (bit_vector);
        assert(state_id & 0x0fff_ffff == state_id) by (bit_vector)
            requires state_id <= 0x0fff_ffff;
        assert(t == 0 || t == 0x4000_0000);
        assert((t == 0 || t == 0x4000_0000) ==> (t | state_id) & 0xb000_0000 == 0
            && ((t | state_id) & 0x4000_0000 == 0) == (t == 0)
            && (t | state_id) & 0x0fff_ffff == state_id) by (bit_vector)
            requires state_id & 0x0fff_ffff == state_id;
        PowerState(v)
    }

    /// Returns the type of the state.
    pub fn state_type(&self) -> (r: PowerStateType)
        ensures
            r == PowerStateType::spec_from_u32(self@),
    {
        PowerStateType::from(self.0)
    }

    /// Returns the state ID.
    pub fn state_id(&self) -> (r: u32)
        ensures
            r == self@ & 0x0fff_ffff,
    {
        let v = self.0;
        assert((v >> 0u32) & 0x0fff_ffffu32 == v & 0x0fff_ffff) by (bit_vector);
        (self.0 >> Self::STATE_ID_SHIFT) & Self::STATE_ID_MASK
    }

    /// The raw value.
    pub fn bits(&self) -> (r: u32)
        ensures
            r == self@,
    {
        self.0
    }

    /// The power state with raw value `v`, refused when a must-be-zero bit is set.
    pub open spec fn spec_try_from_u32(v: u32) -> Result<Self, Error> {
        if v & 0xb000_0000 != 0 {
            Err(Error::InvalidPowerState(v))
        } else {
            Ok(Self::spec_from_bits(v))
        }
    }

    /// The power state with raw value `v`.
    pub closed spec fn spec_from_bits(v: u32) -> Self {
        PowerState(v)
    }

    /// The power state with raw value `v` holds `v`, and a power state is the one with its raw
    /// value.
    pub broadcast proof fn lemma_from_bits(v: u32, s: Self)
        ensures
            (#[trigger] Self::spec_from_bits(v))@ == v,
            #[trigger] Self::spec_from_bits(s@) == s,
    {
    }
}

impl TryFrom<u32> for PowerState {
    type Error = Error;

    fn try_from(value: u32) -> (r: Result<Self, Error>) {
        if (value & Self::MBZ_BITS) != 0 {
            return Err(Error::InvalidPowerState(value));
        }
        Ok(PowerState(value))
    }
}

impl vstd::std_specs::convert::TryFromSpecImpl<u32> for PowerState {
    open spec fn obeys_try_from_spec() -> bool {
        true
    }

    open spec fn try_from_spec(v: u32) -> Result<Self, Error> {
        Self::spec_try_from_u32(v)
    }
}

/// A power state is made of its type and its state ID when its must-be-zero bits are clear.
pub proof fn lemma_power_state_parts(v: u32)
    requires
        v & 0xb000_0000 == 0,
    ensures
        v == PowerStateType::spec_from_u32(v).spec_into_u32() | (v & 0x0fff_ffff),
{
    assert(v & 0xb000_0000 == 0 ==> v == (if v & 0x4000_0000 == 0 { 0u32 } else { 0x4000_0000u32 }) | (v & 0x0fff_ffff))
        by (bit_vector);
}

impl Payload for PowerState {
    open spec fn spec_word_count() -> nat {
        1
    }

    open spec fn spec_words(&self) -> Seq<u32> {
        seq![self@]
    }

    proof fn lemma_words(&self, other: &Self) {
        if self.spec_words() == other.spec_words() {
            assert(self.spec_words()[0] == other.spec_words()[0]);
        }
    }

    fn word_count() -> (r: usize) {
        1
    }

    fn carried_word_count(first: u32) -> (r: u64) {
        1
    }

    fn to_words(&self) -> (r: Vec<u32>) {
        let mut v: Vec<u32> = Vec::new();
        v.push(self.0);
        v
    }

    fn from_words(words: &[u32]) -> (r: Self) {
        PowerState(words[0])
    }
}

/// `PROTOCOL_VERSION` command.
#[derive(Clone, Copy, Debug, PartialEq, Eq)]
pub struct ProtocolVersion {}

impl Payload for ProtocolVersion {
    open spec fn spec_word_count() -> nat {
        0
    }

    open spec fn spec_words(&self) -> Seq<u32> {
        Seq::<u32>::empty()
    }

    proof fn lemma_words(&self, other: &Self) {
    }

    fn word_count() -> (r: usize) {
        0
    }

    fn carried_word_count(first: u32) -> (r: u64) {
        0
    }

    fn to_words(&self) -> (r: Vec<u32>) {
        let v: Vec<u32> = Vec::new();
        assert(v@ =~= self.spec_words());
        v
    }

    fn from_words(words: &[u32]) -> (r: Self) {
        let r = ProtocolVersion {  };
        assert(r.spec_words() =~= words@);
        r
    }
}

/// `PROTOCOL_VERSION` command response.
#[derive(Clone, Copy, Debug, PartialEq, Eq)]
pub struct ProtocolVersionResponse {
    pub version: Version,
}

impl Payload for ProtocolVersionResponse {
    open spec fn spec_word_count() -> nat {
        1
    }

    open spec fn spec_words(&self) -> Seq<u32> {
        self.version.spec_words()
    }

    proof fn lemma_words(&self, other: &Self) {
        self.version.lemma_words(&other.version);
        if self.spec_words() == other.spec_words() {
            assert(self.spec_words().subrange(0, 1) == self.version.spec_words());
            assert(other.spec_words().subrange(0, 1) == other.version.spec_words());
        }
    }

    fn word_count() -> (r: usize) {
        1
    }

    fn carried_word_count(first: u32) -> (r: u64) {
        1
    }

    fn to_words(&self) -> (r: Vec<u32>) {
        let mut v: Vec<u32> = Vec::new();
        let mut w = self.version.to_words();
        v.append(&mut w);
        assert(v@ =~= self.spec_words());
        v
    }

    fn from_words(words: &[u32]) -> (r: Self) {
        let version = Version::from_words(vstd::slice::slice_subrange(words, 0, 1));
        let r = ProtocolVersionResponse { version };
        assert(r.spec_words() =~= words@);
        r
    }
}

impl Command for ProtocolVersion {
    type Response = ProtocolVersionResponse;

    open spec fn spec_id() -> MessageId {
        MessageId::PowerDomainManagement(PowerDomainCommandMessageId::ProtocolVersion)
    }

    fn id() -> (r: MessageId) {
        MessageId::PowerDomainManagement(PowerDomainCommandMessageId::ProtocolVersion)
    }
}

/// `NEGOTIATE_PROTOCOL_VERSION` command.
#[derive(Clone, Copy, Debug, PartialEq, Eq)]
pub struct NegotiateProtocolVersion {
    pub version: Version,
}

impl Payload for NegotiateProtocolVersion {
    open spec fn spec_word_count() -> nat {
        1
    }

    open spec fn spec_words(&self) -> Seq<u32> {
        self.version.spec_words()
    }

    proof fn lemma_words(&self, other: &Self) {
        self.version.lemma_words(&other.version);
        if self.spec_words() == other.spec_words() {
            assert(self.spec_words().subrange(0, 1) == self.version.spec_words());
            assert(other.spec_words().subrange(0, 1) == other.version.spec_words());
        }
    }

    fn word_count() -> (r: usize) {
        1
    }

    fn carried_word_count(first: u32) -> (r: u64) {
        1
    }

    fn to_words(&self) -> (r: Vec<u32>) {
        let mut v: Vec<u32> = Vec::new();
        let mut w = self.version.to_words();
        v.append(&mut w);
        assert(v@ =~= self.spec_words());
        v
    }

    fn from_words(words: &[u32]) -> (r: Self) {
        let version = Version::from_words(vstd::slice::slice_subrange(words, 0, 1));
        let r = NegotiateProtocolVersion { version };
        assert(r.spec_words() =~= words@);
        r
    }
}

/// `NEGOTIATE_PROTOCOL_VERSION` command response.
#[derive(Clone, Copy, Debug, PartialEq, Eq)]
pub struct NegotiateProtocolVersionResponse {}

impl Payload for NegotiateProtocolVersionResponse {
    open spec fn spec_word_count() -> nat {
        0
    }

    open spec fn spec_words(&self) -> Seq<u32> {
        Seq::<u32>::empty()
    }

    proof fn lemma_words(&self, other: &Self) {
    }

    fn word_count() -> (r: usize) {
        0
    }

    fn carried_word_count(first: u32) -> (r: u64) {
        0
    }

    fn to_words(&self) -> (r: Vec<u32>) {
        let v: Vec<u32> = Vec::new();
        assert(v@ =~= self.spec_words());
        v
    }

    fn from_words(words: &[u32]) -> (r: Self) {
        let r = NegotiateProtocolVersionResponse {  };
        assert(r.spec_words() =~= words@);
        r
    }
}

impl Command for NegotiateProtocolVersion {
    type Response = NegotiateProtocolVersionResponse;

    open spec fn spec_id() -> MessageId {
        MessageId::PowerDomainManagement(PowerDomainCommandMessageId::NegotiateProtocolVersion)
    }

    fn id() -> (r: MessageId) {
        MessageId::PowerDomainManagement(PowerDomainCommandMessageId::NegotiateProtocolVersion)
    }
}

/// `PROTOCOL_ATTRIBUTES` command.
#[derive(Clone, Copy, Debug, PartialEq, Eq)]
pub struct ProtocolAttributes {}

impl Payload for ProtocolAttributes {
    open spec fn spec_word_count() -> nat {
        0
    }

    open spec fn spec_words(&self) -> Seq<u32> {
        Seq::<u32>::empty()
    }

    proof fn lemma_words(&self, other: &Self) {
    }

    fn word_count() -> (r: usize) {
        0
    }

    fn carried_word_count(first: u32) -> (r: u64) {
        0
    }

    fn to_words(&self) -> (r: Vec<u32>) {
        let v: Vec<u32> = Vec::new();
        assert(v@ =~= self.spec_words());
        v
    }

    fn from_words(words: &[u32]) -> (r: Self) {
        let r = ProtocolAttributes {  };
        assert(r.spec_words() =~= words@);
        r
    }
}

/// `PROTOCOL_ATTRIBUTES` command response.
#[derive(Clone, Copy, Debug, PartialEq, Eq)]
pub struct ProtocolAttributesResponse {
    pub attributes: PowerDomainProtocolAttributes,
}

impl Payload for ProtocolAttributesResponse {
    open spec fn spec_word_count() -> nat {
        4
    }

    open spec fn spec_words(&self) -> Seq<u32> {
        self.attributes.spec_words()
    }

    proof fn lemma_words(&self, other: &Self) {
        self.attributes.lemma_words(&other.attributes);
        if self.spec_words() == other.spec_words() {
            assert(self.spec_words().subrange(0, 4) == self.attributes.spec_words());
            assert(other.spec_words().subrange(0, 4) == other.attributes.spec_words());
        }
    }

    fn word_count() -> (r: usize) {
        4
    }

    fn carried_word_count(first: u32) -> (r: u64) {
        4
    }

    fn to_words(&self) -> (r: Vec<u32>) {
        let mut v: Vec<u32> = Vec::new();
        let mut w = self.attributes.to_words();
        v.append(&mut w);
        assert(v@ =~= self.spec_words());
        v
    }

    fn from_words(words: &[u32]) -> (r: Self) {
        let attributes = PowerDomainProtocolAttributes::from_words(vstd::slice::slice_subrange(words, 0, 4));
        let r = ProtocolAttributesResponse { attributes };
        assert(r.spec_words() =~= words@);
        r
    }
}

impl Command for ProtocolAttributes {
    type Response = ProtocolAttributesResponse;

    open spec fn spec_id() -> MessageId {
        MessageId::PowerDomainManagement(PowerDomainCommandMessageId::ProtocolAttributes)
    }

    fn id() -> (r: MessageId) {
        MessageId::PowerDomainManagement(PowerDomainCommandMessageId::ProtocolAttributes)
    }
}

/// `PROTOCOL_MESSAGE_ATTRIBUTES` command.
#[derive(Clone, Copy, Debug, PartialEq, Eq)]
pub struct ProtocolMessageAttributes {
    pub message_id: u32,
}

impl Payload for ProtocolMessageAttributes {
    open spec fn spec_word_count() -> nat {
        1
    }

    open spec fn spec_words(&self) -> Seq<u32> {
        self.message_id.spec_words()
    }

    proof fn lemma_words(&self, other: &Self) {
        self.message_id.lemma_words(&other.message_id);
        if self.spec_words() == other.spec_words() {
            assert(self.spec_words().subrange(0, 1) == self.message_id.spec_words());
            assert(other.spec_words().subrange(0, 1) == other.message_id.spec_words());
        }
    }

    fn word_count() -> (r: usize) {
        1
    }

    fn carried_word_count(first: u32) -> (r: u64) {
        1
    }

    fn to_words(&self) -> (r: Vec<u32>) {
        let mut v: Vec<u32> = Vec::new();
        let mut w = self.message_id.to_words();
        v.append(&mut w);
        assert(v@ =~= self.spec_words());
        v
    }

    fn from_words(words: &[u32]) -> (r: Self) {
        let message_id = u32::from_words(vstd::slice::slice_subrange(words, 0, 1));
        let r = ProtocolMessageAttributes { message_id };
        assert(r.spec_words() =~= words@);
        r
    }
}

/// `PROTOCOL_MESSAGE_ATTRIBUTES` command response.
#[derive(Clone, Copy, Debug, PartialEq, Eq)]
pub struct ProtocolMessageAttributesResponse {
    pub attributes: u32,
}

impl Payload for ProtocolMessageAttributesResponse {
    open spec fn spec_word_count() -> nat {
        1
    }

    open spec fn spec_words(&self) -> Seq<u32> {
        self.attributes.spec_words()
    }

    proof fn lemma_words(&self, other: &Self) {
        self.attributes.lemma_words(&other.attributes);
        if self.spec_words() == other.spec_words() {
            assert(self.spec_words().subrange(0, 1) == self.attributes.spec_words());
            assert(other.spec_words().subrange(0, 1) == other.attributes.spec_words());
        }
    }

    fn word_count() -> (r: usize) {
        1
    }

    fn carried_word_count(first: u32) -> (r: u64) {
        1
    }

    fn to_words(&self) -> (r: Vec<u32>) {
        let mut v: Vec<u32> = Vec::new();
        let mut w = self.attributes.to_words();
        v.append(&mut w);
        assert(v@ =~= self.spec_words());
        v
    }

    fn from_words(words: &[u32]) -> (r: Self) {
        let attributes = u32::from_words(vstd::slice::slice_subrange(words, 0, 1));
        let r = ProtocolMessageAttributesResponse { attributes };
        assert(r.spec_words() =~= words@);
        r
    }
}

impl Command for ProtocolMessageAttributes {
    type Response = ProtocolMessageAttributesResponse;

    open spec fn spec_id() -> MessageId {
        MessageId::PowerDomainManagement(PowerDomainCommandMessageId::ProtocolMessageAttributes)
    }

    fn id() -> (r: MessageId) {
        MessageId::PowerDomainManagement(PowerDomainCommandMessageId::ProtocolMessageAttributes)
    }
}

/// `POWER_DOMAIN_ATTRIBUTES` command.
#[derive(Clone, Copy, Debug, PartialEq, Eq)]
pub struct PowerDomainAttributes {
    pub domain_id: PowerDomainId,
}

impl Payload for PowerDomainAttributes {
    open spec fn spec_word_count() -> nat {
        1
    }

    open spec fn spec_words(&self) -> Seq<u32> {
        self.domain_id.spec_words()
    }

    proof fn lemma_words(&self, other: &Self) {
        self.domain_id.lemma_words(&other.domain_id);
        if self.spec_words() == other.spec_words() {
            assert(self.spec_words().subrange(0, 1) == self.domain_id.spec_words());
            assert(other.spec_words().subrange(0, 1) == other.domain_id.spec_words());
        }
    }

    fn word_count() -> (r: usize) {
        1
    }

    fn carried_word_count(first: u32) -> (r: u64) {
        1
    }

    fn to_words(&self) -> (r: Vec<u32>) {
        let mut v: Vec<u32> = Vec::new();
        let mut w = self.domain_id.to_words();
        v.append(&mut w);
        assert(v@ =~= self.spec_words());
        v
    }

    fn from_words(words: &[u32]) -> (r: Self) {
        let domain_id = PowerDomainId::from_words(vstd::slice::slice_subrange(words, 0, 1));
        let r = PowerDomainAttributes { domain_id };
        assert(r.spec_words() =~= words@);
        r
    }
}

/// `POWER_DOMAIN_ATTRIBUTES` command response.
#[derive(Clone, Copy, Debug, PartialEq, Eq)]
pub struct PowerDomainAttributesResponse {
    pub attributes: DomainAttributes,
    pub name: [u8; 16],
}

impl Payload for PowerDomainAttributesResponse {
    open spec fn spec_word_count() -> nat {
        5
    }

    open spec fn spec_words(&self) -> Seq<u32> {
        self.attributes.spec_words() + words_of_bytes(self.name@)
    }

    proof fn lemma_words(&self, other: &Self) {
        self.attributes.lemma_words(&other.attributes);
        lemma_bytes_words_roundtrip(self.name@, seq![]);
        lemma_bytes_words_roundtrip(other.name@, seq![]);
        if self.spec_words() == other.spec_words() {
            assert(self.spec_words().subrange(0, 1) == self.attributes.spec_words());
            assert(other.spec_words().subrange(0, 1) == other.attributes.spec_words());
            assert(self.spec_words().subrange(1, 5) == words_of_bytes(self.name@));
            assert(other.spec_words().subrange(1, 5) == words_of_bytes(other.name@));
            assert(self.name@ == other.name@);
            assert(self.name =~= other.name);
        }
    }

    fn word_count() -> (r: usize) {
        5
    }

    fn carried_word_count(first: u32) -> (r: u64) {
        5
    }

    fn to_words(&self) -> (r: Vec<u32>) {
        let mut v: Vec<u32> = Vec::new();
        let mut w = self.attributes.to_words();
        v.append(&mut w);
        push_words_of_bytes(&mut v, &self.name);
        assert(v@ =~= self.spec_words());
        v
    }

    fn from_words(words: &[u32]) -> (r: Self) {
        let attributes = DomainAttributes::from_words(vstd::slice::slice_subrange(words, 0, 1));
        let mut name: [u8; 16] = [0u8; 16];
        fill_bytes_of_words(&mut name, vstd::slice::slice_subrange(words, 1, 5));
        proof {
            lemma_bytes_words_roundtrip(seq![], words@.subrange(1, 5));
        }
        let r = PowerDomainAttributesResponse { attributes, name };
        assert(r.spec_words() =~= words@);
        r
    }
}

impl Command for PowerDomainAttributes {
    type Response = PowerDomainAttributesResponse;

    open spec fn spec_id() -> MessageId {
        MessageId::PowerDomainManagement(PowerDomainCommandMessageId::DomainAttributes)
    }

    fn id() -> (r: MessageId) {
        MessageId::PowerDomainManagement(PowerDomainCommandMessageId::DomainAttributes)
    }
}

/// `POWER_STATE_SET` command.
#[derive(Clone, Copy, Debug, PartialEq, Eq)]
pub struct PowerStateSet {
    pub flags: PowerStateSetFlags,
    pub domain_id: PowerDomainId,
    pub power_state: PowerState,
}

impl Payload for PowerStateSet {
    open spec fn spec_word_count() -> nat {
        3
    }

    open spec fn spec_words(&self) -> Seq<u32> {
        self.flags.spec_words() + self.domain_id.spec_words() + self.power_state.spec_words()
    }

    proof fn lemma_words(&self, other: &Self) {
        self.flags.lemma_words(&other.flags);
        self.domain_id.lemma_words(&other.domain_id);
        self.power_state.lemma_words(&other.power_state);
        if self.spec_words() == other.spec_words() {
            assert(self.spec_words().subrange(0, 1) == self.flags.spec_words());
            assert(other.spec_words().subrange(0, 1) == other.flags.spec_words());
            assert(self.spec_words().subrange(1, 2) == self.domain_id.spec_words());
            assert(other.spec_words().subrange(1, 2) == other.domain_id.spec_words());
            assert(self.spec_words().subrange(2, 3) == self.power_state.spec_words());
            assert(other.spec_words().subrange(2, 3) == other.power_state.spec_words());
        }
    }

    fn word_count() -> (r: usize) {
        3
    }

    fn carried_word_count(first: u32) -> (r: u64) {
        3
    }

    fn to_words(&self) -> (r: Vec<u32>) {
        let mut v: Vec<u32> = Vec::new();
        let mut w = self.flags.to_words();
        v.append(&mut w);
        let mut w = self.domain_id.to_words();
        v.append(&mut w);
        let mut w = self.power_state.to_words();
        v.append(&mut w);
        assert(v@ =~= self.spec_words());
        v
    }

    fn from_words(words: &[u32]) -> (r: Self) {
        let flags = PowerStateSetFlags::from_words(vstd::slice::slice_subrange(words, 0, 1));
        let domain_id = PowerDomainId::from_words(vstd::slice::slice_subrange(words, 1, 2));
        let power_state = PowerState::from_words(vstd::slice::slice_subrange(words, 2, 3));
        let r = PowerStateSet { flags, domain_id, power_state };
        assert(r.spec_words() =~= words@);
        r
    }
}

/// `POWER_STATE_SET` command response.
#[derive(Clone, Copy, Debug, PartialEq, Eq)]
pub struct PowerStateSetResponse {}

impl Payload for PowerStateSetResponse {
    open spec fn spec_word_count() -> nat {
        0
    }

    open spec fn spec_words(&self) -> Seq<u32> {
        Seq::<u32>::empty()
    }

    proof fn lemma_words(&self, other: &Self) {
    }

    fn word_count() -> (r: usize) {
        0
    }

    fn carried_word_count(first: u32) -> (r: u64) {
        0
    }

    fn to_words(&self) -> (r: Vec<u32>) {
        let v: Vec<u32> = Vec::new();
        assert(v@ =~= self.spec_words());
        v
    }

    fn from_words(words: &[u32]) -> (r: Self) {
        let r = PowerStateSetResponse {  };
        assert(r.spec_words() =~= words@);
        r
    }
}

impl Command for PowerStateSet {
    type Response = PowerStateSetResponse;

    open spec fn spec_id() -> MessageId {
        MessageId::PowerDomainManagement(PowerDomainCommandMessageId::StateSet)
    }

    fn id() -> (r: MessageId) {
        MessageId::PowerDomainManagement(PowerDomainCommandMessageId::StateSet)
    }
}

/// `POWER_STATE_GET` command.
#[derive(Clone, Copy, Debug, PartialEq, Eq)]
pub struct PowerStateGet {
    pub domain_id: PowerDomainId,
}

impl Payload for PowerStateGet {
    open spec fn spec_word_count() -> nat {
        1
    }

    open spec fn spec_words(&self) -> Seq<u32> {
        self.domain_id.spec_words()
    }

    proof fn lemma_words(&self, other: &Self) {
        self.domain_id.lemma_words(&other.domain_id);
        if self.spec_words() == other.spec_words() {
            assert(self.spec_words().subrange(0, 1) == self.domain_id.spec_words());
            assert(other.spec_words().subrange(0, 1) == other.domain_id.spec_words());
        }
    }

    fn word_count() -> (r: usize) {
        1
    }

    fn carried_word_count(first: u32) -> (r: u64) {
        1
    }

    fn to_words(&self) -> (r: Vec<u32>) {
        let mut v: Vec<u32> = Vec::new();
        let mut w = self.domain_id.to_words();
        v.append(&mut w);
        assert(v@ =~= self.spec_words());
        v
    }

    fn from_words(words: &[u32]) -> (r: Self) {
        let domain_id = PowerDomainId::from_words(vstd::slice::slice_subrange(words, 0, 1));
        let r = PowerStateGet { domain_id };
        assert(r.spec_words() =~= words@);
        r
    }
}

/// `POWER_STATE_GET` command response.
#[derive(Clone, Copy, Debug, PartialEq, Eq)]
pub struct PowerStateGetResponse {
    pub power_state: PowerState,
}

impl Payload for PowerStateGetResponse {
    open spec fn spec_word_count() -> nat {
        1
    }

    open spec fn spec_words(&self) -> Seq<u32> {
        self.power_state.spec_words()
    }

    proof fn lemma_words(&self, other: &Self) {
        self.power_state.lemma_words(&other.power_state);
        if self.spec_words() == other.spec_words() {
            assert(self.spec_words().subrange(0, 1) == self.power_state.spec_words());
            assert(other.spec_words().subrange(0, 1) == other.power_state.spec_words());
        }
    }

    fn word_count() -> (r: usize) {
        1
    }

    fn carried_word_count(first: u32) -> (r: u64) {
        1
    }

    fn to_words(&self) -> (r: Vec<u32>) {
        let mut v: Vec<u32> = Vec::new();
        let mut w = self.power_state.to_words();
        v.append(&mut w);
        assert(v@ =~= self.spec_words());
        v
    }

    fn from_words(words: &[u32]) -> (r: Self) {
        let power_state = PowerState::from_words(vstd::slice::slice_subrange(words, 0, 1));
        let r = PowerStateGetResponse { power_state };
        assert(r.spec_words() =~= words@);
        r
    }
}

impl Command for PowerStateGet {
    type Response = PowerStateGetResponse;

    open spec fn spec_id() -> MessageId {
        MessageId::PowerDomainManagement(PowerDomainCommandMessageId::StateGet)
    }

    fn id() -> (r: MessageId) {
        MessageId::PowerDomainManagement(PowerDomainCommandMessageId::StateGet)
    }
}

/// `POWER_STATE_NOTIFY` command.
#[derive(Clone, Copy, Debug, PartialEq, Eq)]
pub struct PowerStateNotify {
    pub domain_id: PowerDomainId,
    pub notify_enable: NotifyEnable,
}

impl Payload for PowerStateNotify {
    open spec fn spec_word_count() -> nat {
        2
    }

    open spec fn spec_words(&self) -> Seq<u32> {
        self.domain_id.spec_words() + self.notify_enable.spec_words()
    }

    proof fn lemma_words(&self, other: &Self) {
        self.domain_id.lemma_words(&other.domain_id);
        self.notify_enable.lemma_words(&other.notify_enable);
        if self.spec_words() == other.spec_words() {
            assert(self.spec_words().subrange(0, 1) == self.domain_id.spec_words());
            assert(other.spec_words().subrange(0, 1) == other.domain_id.spec_words());
            assert(self.spec_words().subrange(1, 2) == self.notify_enable.spec_words());
            assert(other.spec_words().subrange(1, 2) == other.notify_enable.spec_words());
        }
    }

    fn word_count() -> (r: usize) {
        2
    }

    fn carried_word_count(first: u32) -> (r: u64) {
        2
    }

    fn to_words(&self) -> (r: Vec<u32>) {
        let mut v: Vec<u32> = Vec::new();
        let mut w = self.domain_id.to_words();
        v.append(&mut w);
        let mut w = self.notify_enable.to_words();
        v.append(&mut w);
        assert(v@ =~= self.spec_words());
        v
    }

    fn from_words(words: &[u32]) -> (r: Self) {
        let domain_id = PowerDomainId::from_words(vstd::slice::slice_subrange(words, 0, 1));
        let notify_enable = NotifyEnable::from_words(vstd::slice::slice_subrange(words, 1, 2));
        let r = PowerStateNotify { domain_id, notify_enable };
        assert(r.spec_words() =~= words@);
        r
    }
}

/// `POWER_STATE_NOTIFY` command response.
#[derive(Clone, Copy, Debug, PartialEq, Eq)]
pub struct PowerStateNotifyResponse {}

impl Payload for PowerStateNotifyResponse {
    open spec fn spec_word_count() -> nat {
        0
    }

    open spec fn spec_words(&self) -> Seq<u32> {
        Seq::<u32>::empty()
    }

    proof fn lemma_words(&self, other: &Self) {
    }

    fn word_count() -> (r: usize) {
        0
    }

    fn carried_word_count(first: u32) -> (r: u64) {
        0
    }

    fn to_words(&self) -> (r: Vec<u32>) {
        let v: Vec<u32> = Vec::new();
        assert(v@ =~= self.spec_words());
        v
    }

    fn from_words(words: &[u32]) -> (r: Self) {
        let r = PowerStateNotifyResponse {  };
        assert(r.spec_words() =~= words@);
        r
    }
}

impl Command for PowerStateNotify {
    type Response = PowerStateNotifyResponse;

    open spec fn spec_id() -> MessageId {
        MessageId::PowerDomainManagement(PowerDomainCommandMessageId::StateNotify)
    }

    fn id() -> (r: MessageId) {
        MessageId::PowerDomainManagement(PowerDomainCommandMessageId::StateNotify)
    }
}

/// `POWER_STATE_CHANGE_REQUESTED_NOTIFY` command.
#[derive(Clone, Copy, Debug, PartialEq, Eq)]
pub struct PowerStateChangeRequestedNotify {
    pub domain_id: PowerDomainId,
    pub notify_enable: NotifyEnable,
}

impl Payload for PowerStateChangeRequestedNotify {
    open spec fn spec_word_count() -> nat {
        2
    }

    open spec fn spec_words(&self) -> Seq<u32> {
        self.domain_id.spec_words() + self.notify_enable.spec_words()
    }

    proof fn lemma_words(&self, other: &Self) {
        self.domain_id.lemma_words(&other.domain_id);
        self.notify_enable.lemma_words(&other.notify_enable);
        if self.spec_words() == other.spec_words() {
            assert(self.spec_words().subrange(0, 1) == self.domain_id.spec_words());
            assert(other.spec_words().subrange(0, 1) == other.domain_id.spec_words());
            assert(self.spec_words().subrange(1, 2) == self.notify_enable.spec_words());
            assert(other.spec_words().subrange(1, 2) == other.notify_enable.spec_words());
        }
    }

    fn word_count() -> (r: usize) {
        2
    }

    fn carried_word_count(first: u32) -> (r: u64) {
        2
    }

    fn to_words(&self) -> (r: Vec<u32>) {
        let mut v: Vec<u32> = Vec::new();
        let mut w = self.domain_id.to_words();
        v.append(&mut w);
        let mut w = self.notify_enable.to_words();
        v.append(&mut w);
        assert(v@ =~= self.spec_words());
        v
    }

    fn from_words(words: &[u32]) -> (r: Self) {
        let domain_id = PowerDomainId::from_words(vstd::slice::slice_subrange(words, 0, 1));
        let notify_enable = NotifyEnable::from_words(vstd::slice::slice_subrange(words, 1, 2));
        let r = PowerStateChangeRequestedNotify { domain_id, notify_enable };
        assert(r.spec_words() =~= words@);
        r
    }
}

/// `POWER_STATE_CHANGE_REQUESTED_NOTIFY` command response.
#[derive(Clone, Copy, Debug, PartialEq, Eq)]
pub struct PowerStateChangeRequestedNotifyResponse {}

impl Payload for PowerStateChangeRequestedNotifyResponse {
    open spec fn spec_word_count() -> nat {
        0
    }

    open spec fn spec_words(&self) -> Seq<u32> {
        Seq::<u32>::empty()
    }

    proof fn lemma_words(&self, other: &Self) {
    }

    fn word_count() -> (r: usize) {
        0
    }

    fn carried_word_count(first: u32) -> (r: u64) {
        0
    }

    fn to_words(&self) -> (r: Vec<u32>) {
        let v: Vec<u32> = Vec::new();
        assert(v@ =~= self.spec_words());
        v
    }

    fn from_words(words: &[u32]) -> (r: Self) {
        let r = PowerStateChangeRequestedNotifyResponse {  };
        assert(r.spec_words() =~= words@);
        r
    }
}

impl Command for PowerStateChangeRequestedNotify {
    type Response = PowerStateChangeRequestedNotifyResponse;

    open spec fn spec_id() -> MessageId {
        MessageId::PowerDomainManagement(PowerDomainCommandMessageId::StateChangeRequestedNotify)
    }

    fn id() -> (r: MessageId) {
        MessageId::PowerDomainManagement(PowerDomainCommandMessageId::StateChangeRequestedNotify)
    }
}

/// `POWER_DOMAIN_NAME_GET` command.
#[derive(Clone, Copy, Debug, PartialEq, Eq)]
pub struct PowerDomainNameGet {
    pub domain_id: PowerDomainId,
}

impl Payload for PowerDomainNameGet {
    open spec fn spec_word_count() -> nat {
        1
    }

    open spec fn spec_words(&self) -> Seq<u32> {
        self.domain_id.spec_words()
    }

    proof fn lemma_words(&self, other: &Self) {
        self.domain_id.lemma_words(&other.domain_id);
        if self.spec_words() == other.spec_words() {
            assert(self.spec_words().subrange(0, 1) == self.domain_id.spec_words());
            assert(other.spec_words().subrange(0, 1) == other.domain_id.spec_words());
        }
    }

    fn word_count() -> (r: usize) {
        1
    }

    fn carried_word_count(first: u32) -> (r: u64) {
        1
    }

    fn to_words(&self) -> (r: Vec<u32>) {
        let mut v: Vec<u32> = Vec::new();
        let mut w = self.domain_id.to_words();
        v.append(&mut w);
        assert(v@ =~= self.spec_words());
        v
    }

    fn from_words(words: &[u32]) -> (r: Self) {
        let domain_id = PowerDomainId::from_words(vstd::slice::slice_subrange(words, 0, 1));
        let r = PowerDomainNameGet { domain_id };
        assert(r.spec_words() =~= words@);
        r
    }
}

/// `POWER_DOMAIN_NAME_GET` command response.
#[derive(Clone, Copy, Debug, PartialEq, Eq)]
pub struct PowerDomainNameGetResponse {
    pub flags: u32,
    pub ext_name: [u8; 64],
}

impl Payload for PowerDomainNameGetResponse {
    open spec fn spec_word_count() -> nat {
        17
    }

    open spec fn spec_words(&self) -> Seq<u32> {
        self.flags.spec_words() + words_of_bytes(self.ext_name@)
    }

    proof fn lemma_words(&self, other: &Self) {
        self.flags.lemma_words(&other.flags);
        lemma_bytes_words_roundtrip(self.ext_name@, seq![]);
        lemma_bytes_words_roundtrip(other.ext_name@, seq![]);
        if self.spec_words() == other.spec_words() {
            assert(self.spec_words().subrange(0, 1) == self.flags.spec_words());
            assert(other.spec_words().subrange(0, 1) == other.flags.spec_words());
            assert(self.spec_words().subrange(1, 17) == words_of_bytes(self.ext_name@));
            assert(other.spec_words().subrange(1, 17) == words_of_bytes(other.ext_name@));
            assert(self.ext_name@ == other.ext_name@);
            assert(self.ext_name =~= other.ext_name);
        }
    }

    fn word_count() -> (r: usize) {
        17
    }

    fn carried_word_count(first: u32) -> (r: u64) {
        17
    }

    fn to_words(&self) -> (r: Vec<u32>) {
        let mut v: Vec<u32> = Vec::new();
        let mut w = self.flags.to_words();
        v.append(&mut w);
        push_words_of_bytes(&mut v, &self.ext_name);
        assert(v@ =~= self.spec_words());
        v
    }

    fn from_words(words: &[u32]) -> (r: Self) {
        let flags = u32::from_words(vstd::slice::slice_subrange(words, 0, 1));
        let mut ext_name: [u8; 64] = [0u8; 64];
        fill_bytes_of_words(&mut ext_name, vstd::slice::slice_subrange(words, 1, 17));
        proof {
            lemma_bytes_words_roundtrip(seq![], words@.subrange(1, 17));
        }
        let r = PowerDomainNameGetResponse { flags, ext_name };
        assert(r.spec_words() =~= words@);
        r
    }
}

impl Command for PowerDomainNameGet {
    type Response = PowerDomainNameGetResponse;

    open spec fn spec_id() -> MessageId {
        MessageId::PowerDomainManagement(PowerDomainCommandMessageId::DomainNameGet)
    }

    fn id() -> (r: MessageId) {
        MessageId::PowerDomainManagement(PowerDomainCommandMessageId::DomainNameGet)
    }
}

impl PowerDomainAttributesResponse {
    /// Returns the power domain name.
    pub fn name(&self) -> (r: Option<&str>)
        ensures
            match r {
                Some(s) => nul_terminated_string(self.name@) == Some(s@),
                None => nul_terminated_string(self.name@) is None,
            },
    {
        get_ascii_string(&self.name)
    }
}

impl PowerDomainNameGetResponse {
    /// Returns the power domain name.
    pub fn ext_name(&self) -> (r: Option<&str>)
        ensures
            match r {
                Some(s) => nul_terminated_string(self.ext_name@) == Some(s@),
                None => nul_terminated_string(self.ext_name@) is None,
            },
    {
        get_ascii_string(&self.ext_name)
    }
}

} // verus!
