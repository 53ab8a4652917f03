use vstd::prelude::*;

use crate::Error;
use crate::protocol::{Command, MessageId, NotifyEnable, Payload, Version};

verus! {

/// Message identifiers of the System Power Management protocol.
#[derive(Clone, Copy, Debug, PartialEq, Eq, Structural)]
pub enum SystemPowerCommandMessageId {
    ProtocolVersion,
    ProtocolAttributes,
    ProtocolMessageAttributes,
    NegotiateProtocolVersion,
    StateSet,
    StateGet,
    StateNotify,
}

impl SystemPowerCommandMessageId {
    /// The number that stands for this value.
    pub open spec fn spec_into_u8(self) -> u8 {
        match self {
            SystemPowerCommandMessageId::ProtocolVersion => 0x0u8,
            SystemPowerCommandMessageId::ProtocolAttributes => 0x1u8,
            SystemPowerCommandMessageId::ProtocolMessageAttributes => 0x2u8,
            SystemPowerCommandMessageId::NegotiateProtocolVersion => 0x10u8,
            SystemPowerCommandMessageId::StateSet => 0x3u8,
            SystemPowerCommandMessageId::StateGet => 0x4u8,
            SystemPowerCommandMessageId::StateNotify => 0x5u8,
        }
    }

    /// The value that number `v` stands for; any other number is refused.
    pub open spec fn spec_try_from_u8(v: u8) -> Result<Self, Error> {
        if v == 0x0u8 {
            Ok(SystemPowerCommandMessageId::ProtocolVersion)
        } else if v == 0x1u8 {
            Ok(SystemPowerCommandMessageId::ProtocolAttributes)
        } else if v == 0x2u8 {
            Ok(SystemPowerCommandMessageId::ProtocolMessageAttributes)
        } else if v == 0x10u8 {
            Ok(SystemPowerCommandMessageId::NegotiateProtocolVersion)
        } else if v == 0x3u8 {
            Ok(SystemPowerCommandMessageId::StateSet)
        } else if v == 0x4u8 {
            Ok(SystemPowerCommandMessageId::StateGet)
        } else if v == 0x5u8 {
            Ok(SystemPowerCommandMessageId::StateNotify)
        } else {
            Err(Error::InvalidMessageId(v))
        }
    }
}

impl From<SystemPowerCommandMessageId> for u8 {
    fn from(value: SystemPowerCommandMessageId) -> (r: u8) {
        match value {
            SystemPowerCommandMessageId::ProtocolVersion => 0x0,
            SystemPowerCommandMessageId::ProtocolAttributes => 0x1,
            SystemPowerCommandMessageId::ProtocolMessageAttributes => 0x2,
            SystemPowerCommandMessageId::NegotiateProtocolVersion => 0x10,
            SystemPowerCommandMessageId::StateSet => 0x3,
            SystemPowerCommandMessageId::StateGet => 0x4,
            SystemPowerCommandMessageId::StateNotify => 0x5,
        }
    }
}

impl vstd::std_specs::convert::FromSpecImpl<SystemPowerCommandMessageId> for u8 {
    open spec fn obeys_from_spec() -> bool {
        true
    }

    open spec fn from_spec(v: SystemPowerCommandMessageId) -> u8 {
        v.spec_into_u8()
    }
}

impl TryFrom<u8> for SystemPowerCommandMessageId {
    type Error = Error;

    fn try_from(value: u8) -> (r: Result<Self, Error>) {
        match value {
            0x0 => Ok(SystemPowerCommandMessageId::ProtocolVersion),
            0x1 => Ok(SystemPowerCommandMessageId::ProtocolAttributes),
            0x2 => Ok(SystemPowerCommandMessageId::ProtocolMessageAttributes),
            0x10 => Ok(SystemPowerCommandMessageId::NegotiateProtocolVersion),
            0x3 => Ok(SystemPowerCommandMessageId::StateSet),
            0x4 => Ok(SystemPowerCommandMessageId::StateGet),
            0x5 => Ok(SystemPowerCommandMessageId::StateNotify),
            _ => Err(Error::InvalidMessageId(value)),
        }
    }
}

impl vstd::std_specs::convert::TryFromSpecImpl<u8> for SystemPowerCommandMessageId {
    open spec fn obeys_try_from_spec() -> bool {
        true
    }

    open spec fn try_from_spec(v: u8) -> Result<Self, Error> {
        Self::spec_try_from_u8(v)
    }
}

/// Decoding the number of a value gives back the value, and a number that decodes
/// is the number of what it decodes to.
pub proof fn lemma_system_power_command_message_id_roundtrip(m: SystemPowerCommandMessageId, v: u8)
    ensures
        SystemPowerCommandMessageId::spec_try_from_u8(m.spec_into_u8()) == Ok::<SystemPowerCommandMessageId, Error>(m),
        SystemPowerCommandMessageId::spec_try_from_u8(v) matches Ok(x) ==> x.spec_into_u8() == v,
{
}

/// The System Power Management messages as the SCMI specification defines them,
/// `NEGOTIATE_PROTOCOL_VERSION` aside: the messages common to every protocol, then
/// `SYSTEM_POWER_STATE_SET` to `SYSTEM_POWER_STATE_NOTIFY`.
pub open spec fn system_power_messages_in_number_order() -> Seq<SystemPowerCommandMessageId> {
    seq![
        SystemPowerCommandMessageId::ProtocolVersion,
        SystemPowerCommandMessageId::ProtocolAttributes,
        SystemPowerCommandMessageId::ProtocolMessageAttributes,
        SystemPowerCommandMessageId::StateSet,
        SystemPowerCommandMessageId::StateGet,
        SystemPowerCommandMessageId::StateNotify,
    ]
}

/// The messages of `system_power_messages_in_number_order` are numbered consecutively from 0x0 by their place in it, and
/// `NEGOTIATE_PROTOCOL_VERSION` is 0x10. Exactly the numbers 0x0 to 0x5 and 0x10 decode to a
/// message, each to the message with that number; every other number is refused as an invalid
/// message identifier.
pub proof fn lemma_system_power_message_numbers()
    ensures
        forall|i: int| 0 <= i < 6 ==> #[trigger] system_power_messages_in_number_order()[i].spec_into_u8() == i,
        SystemPowerCommandMessageId::NegotiateProtocolVersion.spec_into_u8() == 0x10,
        forall|v: u8|
            v <= 0x5 ==> #[trigger] SystemPowerCommandMessageId::spec_try_from_u8(v) == Ok::<SystemPowerCommandMessageId, Error>(
                system_power_messages_in_number_order()[v as int],
            ),
        SystemPowerCommandMessageId::spec_try_from_u8(0x10) == Ok::<SystemPowerCommandMessageId, Error>(
            SystemPowerCommandMessageId::NegotiateProtocolVersion,
        ),
        forall|v: u8|
            !(v <= 0x5 || v == 0x10) ==> #[trigger] SystemPowerCommandMessageId::spec_try_from_u8(v) == Err::<
                SystemPowerCommandMessageId,
                Error,
            >(Error::InvalidMessageId(v)),
{
}

/// Message attributes of `SYSTEM_POWER_STATE_SET`.
///
/// The flag constants are the masks of their bits.
#[derive(Clone, Copy, Debug, Default, PartialEq, Eq, Structural)]
pub struct SystemPowerStateSetAttributes(u32);

impl View for SystemPowerStateSetAttributes {
    type V = u32;

    closed spec fn view(&self) -> u32 {
        self.0
    }
}

impl SystemPowerStateSetAttributes {
    /// System warm reset is supported.
    pub const SYSTEM_WARM_RESET_SUPPORT: u32 = 1 << 31;

    /// System suspend is supported.
    pub const SYSTEM_SUSPEND_SUPPORT: u32 = 1 << 30;

    /// No flag set.
    pub fn empty() -> (r: Self)
        ensures
            r@ == 0,
    {
        SystemPowerStateSetAttributes(0)
    }

    /// The raw bits.
    pub fn bits(&self) -> (r: u32)
        ensures
            r == self@,
    {
        self.0
    }

    /// The flags with these raw bits, unknown bits included.
    pub fn from_bits_retain(bits: u32) -> (r: Self)
        ensures
            r@ == bits,
    {
        SystemPowerStateSetAttributes(bits)
    }

    /// All bits of `mask` are set.
    pub fn contains(&self, mask: u32) -> (r: bool)
        ensures
            r == (self@ & mask == mask),
    {
        self.0 & mask == mask
    }

    /// Sets the bits of `mask` when `value` holds and clears them otherwise; the other bits are
    /// kept.
    pub fn set(&mut self, mask: u32, value: bool)
        ensures
            final(self)@ == (if value { old(self)@ | mask } else { old(self)@ & !mask }),
    {
        if value {
            self.0 = self.0 | mask;
        } else {
            self.0 = self.0 & !mask;
        }
    }
}

impl Payload for SystemPowerStateSetAttributes {
    open spec fn spec_word_count() -> nat {
        1
    }

    open spec fn spec_words(&self) -> Seq<u32> {
        seq![self@]
    }

    proof fn lemma_words(&self, other: &Self) {
        if self.spec_words() == other.spec_words() {
            assert(self.spec_words()[0] == other.spec_words()[0]);
        }
    }

    fn word_count() -> (r: usize) {
        1
    }

    fn carried_word_count(first: u32) -> (r: u64) {
        1
    }

    fn to_words(&self) -> (r: Vec<u32>) {
        let mut v: Vec<u32> = Vec::new();
        v.push(self.0);
        v
    }

    fn from_words(words: &[u32]) -> (r: Self) {
        SystemPowerStateSetAttributes(words[0])
    }
}


/// `SYSTEM_POWER_STATE_SET` flags.
///
/// The flag constants are the masks of their bits.
#[derive(Clone, Copy, Debug, Default, PartialEq, Eq, Structural)]
pub struct SystemPowerStateSetFlags(u32);

impl View for SystemPowerStateSetFlags {
    type V = u32;

    closed spec fn view(&self) -> u32 {
        self.0
    }
}

impl SystemPowerStateSetFlags {
    /// The request is a graceful request.
    pub const GRACEFUL: u32 = 1 << 0;

    /// No flag set.
    pub fn empty() -> (r: Self)
        ensures
            r@ == 0,
    {
        SystemPowerStateSetFlags(0)
    }

    /// The raw bits.
    pub fn bits(&self) -> (r: u32)
        ensures
            r == self@,
    {
        self.0
    }

    /// The flags with these raw bits, unknown bits included.
    pub fn from_bits_retain(bits: u32) -> (r: Self)
        ensures
            r@ == bits,
    {
        SystemPowerStateSetFlags(bits)
    }

    /// All bits of `mask` are set.
    pub fn contains(&self, mask: u32) -> (r: bool)
        ensures
            r == (self@ & mask == mask),
    {
        self.0 & mask == mask
    }

    /// Sets the bits of `mask` when `value` holds and clears them otherwise; the other bits are
    /// kept.
    pub fn set(&mut self, mask: u32, value: bool)
        ensures
            final(self)@ == (if value { old(self)@ | mask } else { old(self)@ & !mask }),
    {
        if value {
            self.0 = self.0 | mask;
        } else {
            self.0 = self.0 & !mask;
        }
    }
}

impl Payload for SystemPowerStateSetFlags {
    open spec fn spec_word_count() -> nat {
        1
    }

    open spec fn spec_words(&self) -> Seq<u32> {
        seq![self@]
    }

    proof fn lemma_words(&self, other: &Self) {
        if self.spec_words() == other.spec_words() {
            assert(self.spec_words()[0] == other.spec_words()[0]);
        }
    }

    fn word_count() -> (r: usize) {
        1
    }

    fn carried_word_count(first: u32) -> (r: u64) {
        1
    }

    fn to_words(&self) -> (r: Vec<u32>) {
        let mut v: Vec<u32> = Vec::new();
        v.push(self.0);
        v
    }

    fn from_words(words: &[u32]) -> (r: Self) {
        SystemPowerStateSetFlags(words[0])
    }
}


/// Standard system states.
#[derive(Clone, Copy, Debug, PartialEq, Eq, Structural)]
pub enum StandardSystemState {
    SystemShutdown,
    SystemColdReset,
    SystemWarmReset,
    SystemPowerUp,
    SystemSuspend,
}

impl StandardSystemState {
    /// The number that stands for this value.
    pub open spec fn spec_into_u32(self) -> u32 {
        match self {
            StandardSystemState::SystemShutdown => 0x0000_0000u32,
            StandardSystemState::SystemColdReset => 0x0000_0001u32,
            StandardSystemState::SystemWarmReset => 0x0000_0002u32,
            StandardSystemState::SystemPowerUp => 0x0000_0003u32,
            StandardSystemState::SystemSuspend => 0x0000_0004u32,
        }
    }

    /// The value that number `v` stands for; any other number is refused.
    pub open spec fn spec_try_from_u32(v: u32) -> Result<Self, Error> {
        if v == 0x0000_0000u32 {
            Ok(StandardSystemState::SystemShutdown)
        } else if v == 0x0000_0001u32 {
            Ok(StandardSystemState::SystemColdReset)
        } else if v == 0x0000_0002u32 {
            Ok(StandardSystemState::SystemWarmReset)
        } else if v == 0x0000_0003u32 {
            Ok(StandardSystemState::SystemPowerUp)
        } else if v == 0x0000_0004u32 {
            Ok(StandardSystemState::SystemSuspend)
        } else {
            Err(Error::InvalidSystemState(v))
        }
    }
}

impl From<StandardSystemState> for u32 {
    fn from(value: StandardSystemState) -> (r: u32) {
        match value {
            StandardSystemState::SystemShutdown => 0x0000_0000,
            StandardSystemState::SystemColdReset => 0x0000_0001,
            StandardSystemState::SystemWarmReset => 0x0000_0002,
            StandardSystemState::SystemPowerUp => 0x0000_0003,
            StandardSystemState::SystemSuspend => 0x0000_0004,
        }
    }
}

impl vstd::std_specs::convert::FromSpecImpl<StandardSystemState> for u32 {
    open spec fn obeys_from_spec() -> bool {
        true
    }

    open spec fn from_spec(v: StandardSystemState) -> u32 {
        v.spec_into_u32()
    }
}

impl TryFrom<u32> for StandardSystemState {
    type Error = Error;

    fn try_from(value: u32) -> (r: Result<Self, Error>) {
        match value {
            0x0000_0000 => Ok(StandardSystemState::SystemShutdown),
            0x0000_0001 => Ok(StandardSystemState::SystemColdReset),
            0x0000_0002 => Ok(StandardSystemState::SystemWarmReset),
            0x0000_0003 => Ok(StandardSystemState::SystemPowerUp),
            0x0000_0004 => Ok(StandardSystemState::SystemSuspend),
            _ => Err(Error::InvalidSystemState(value)),
        }
    }
}

impl vstd::std_specs::convert::TryFromSpecImpl<u32> for StandardSystemState {
    open spec fn obeys_try_from_spec() -> bool {
        true
    }

    open spec fn try_from_spec(v: u32) -> Result<Self, Error> {
        Self::spec_try_from_u32(v)
    }
}

/// Decoding the number of a value gives back the value, and a number that decodes
/// is the number of what it decodes to.
pub proof fn lemma_standard_system_state_roundtrip(m: StandardSystemState, v: u32)
    ensures
        StandardSystemState::spec_try_from_u32(m.spec_into_u32()) == Ok::<StandardSystemState, Error>(m),
        StandardSystemState::spec_try_from_u32(v) matches Ok(x) ==> x.spec_into_u32() == v,
{
}

/// The standard system states in the order of the SCMI specification: shutdown, cold reset,
/// warm reset, power up, suspend.
pub open spec fn standard_system_states_in_order() -> Seq<StandardSystemState> {
    seq![
        StandardSystemState::SystemShutdown,
        StandardSystemState::SystemColdReset,
        StandardSystemState::SystemWarmReset,
        StandardSystemState::SystemPowerUp,
        StandardSystemState::SystemSuspend,
    ]
}

/// The standard system states are numbered consecutively from 0 in that order: shutdown 0,
/// cold reset 1, warm reset 2, power up 3, suspend 4. Exactly the numbers 0 to 4 decode to a
/// standard state, each to the state with that number; every other number is refused as an
/// invalid system state.
pub proof fn lemma_standard_system_state_numbers()
    ensures
        forall|i: int| 0 <= i < 5 ==> #[trigger] standard_system_states_in_order()[i].spec_into_u32() == i,
        forall|v: u32|
            v <= 4 ==> #[trigger] StandardSystemState::spec_try_from_u32(v) == Ok::<
                StandardSystemState,
                Error,
            >(standard_system_states_in_order()[v as int]),
        forall|v: u32|
            4 < v ==> #[trigger] StandardSystemState::spec_try_from_u32(v) == Err::<
                StandardSystemState,
                Error,
            >(Error::InvalidSystemState(v)),
{
}

/// Vendor specific system state. The valid state range is 0x8000_0000-0xffff_ffff.
#[derive(Clone, Copy, Debug, PartialEq, Eq, Structural)]
pub struct VendorSpecificSystemState(u32);

impl View for VendorSpecificSystemState {
    type V = u32;

    closed spec fn view(&self) -> u32 {
        self.0
    }
}

impl VendorSpecificSystemState {
    const VENDOR_SPEC_BASE: u32 = 0x8000_0000;

    #[verifier::type_invariant]
    closed spec fn inv(self) -> bool {
        self.0 >= 0x8000_0000
    }

    /// The state lies in the vendor specific range.
    pub open spec fn is_valid(self) -> bool {
        self@ >= 0x8000_0000
    }

    /// Establishes that this state, like every value of the type, lies in the vendor specific
    /// range.
    pub fn establish_valid(&self)
        ensures
            self.is_valid(),
    {
        proof {
            use_type_invariant(self);
        }
    }

    /// Creates new instance.
    pub fn new(state: u32) -> (r: Self)
        requires
            state >= 0x8000_0000,
        ensures
            r@ == state,
    {
        VendorSpecificSystemState(state)
    }

    /// Checks if the value is a vendor specific state number.
    fn is_vendor_specific(state: u32) -> (r: bool)
        ensures
            r == (state >= 0x8000_0000),
    {
        state >= Self::VENDOR_SPEC_BASE
    }

    /// The vendor specific state with number `v`.
    pub closed spec fn spec_new(v: u32) -> Self {
        VendorSpecificSystemState(v)
    }

    /// `spec_new` builds the state with the given number, and a state is the one built from its
    /// number.
    pub broadcast proof fn lemma_spec_new(v: u32, s: Self)
        ensures
            (#[trigger] Self::spec_new(v))@ == v,
            #[trigger] Self::spec_new(s@) == s,
    {
    }

    /// The vendor specific state with number `v`; numbers below 0x8000_0000 are refused.
    pub open spec fn spec_try_from_u32(v: u32) -> Result<Self, Error> {
        if v >= 0x8000_0000 {
            Ok(Self::spec_new(v))
        } else {
            Err(Error::InvalidSystemState(v))
        }
    }
}

impl TryFrom<u32> for VendorSpecificSystemState {
    type Error = Error;

    fn try_from(value: u32) -> (r: Result<Self, Error>) {
        if Self::is_vendor_specific(value) {
            Ok(VendorSpecificSystemState(value))
        } else {
            Err(Error::InvalidSystemState(value))
        }
    }
}

impl vstd::std_specs::convert::TryFromSpecImpl<u32> for VendorSpecificSystemState {
    open spec fn obeys_try_from_spec() -> bool {
        true
    }

    open spec fn try_from_spec(v: u32) -> Result<Self, Error> {
        Self::spec_try_from_u32(v)
    }
}

impl From<VendorSpecificSystemState> for u32 {
    fn from(value: VendorSpecificSystemState) -> (r: u32) {
        value.0
    }
}

impl vstd::std_specs::convert::FromSpecImpl<VendorSpecificSystemState> for u32 {
    open spec fn obeys_from_spec() -> bool {
        true
    }

    open spec fn from_spec(v: VendorSpecificSystemState) -> u32 {
        v@
    }
}

/// Standard or vendor specific system state.
#[derive(Clone, Copy, Debug, PartialEq, Eq, Structural)]
pub enum SystemState {
    Standard(StandardSystemState),
    VendorSpecific(VendorSpecificSystemState),
}

impl SystemState {
    /// A vendor specific state lies in the vendor specific range.
    pub open spec fn is_valid(self) -> bool {
        match self {
            SystemState::Standard(_) => true,
            SystemState::VendorSpecific(s) => s.is_valid(),
        }
    }

    /// Establishes that this state, like every value of the type, is valid.
    pub fn establish_valid(&self)
        ensures
            self.is_valid(),
    {
        if let SystemState::VendorSpecific(s) = self {
            s.establish_valid();
        }
    }

    /// The system state number.
    pub open spec fn spec_into_u32(self) -> u32 {
        match self {
            SystemState::Standard(s) => s.spec_into_u32(),
            SystemState::VendorSpecific(s) => s@,
        }
    }

    /// Numbers from 0x8000_0000 are vendor specific, others must be standard.
    pub open spec fn spec_try_from_u32(v: u32) -> Result<Self, Error> {
        if v >= 0x8000_0000 {
            Ok(SystemState::VendorSpecific(VendorSpecificSystemState::spec_new(v)))
        } else {
            match StandardSystemState::spec_try_from_u32(v) {
                Ok(s) => Ok(SystemState::Standard(s)),
                Err(e) => Err(e),
            }
        }
    }
}

impl TryFrom<RawSystemState> for SystemState {
    type Error = Error;

    fn try_from(value: RawSystemState) -> (r: Result<Self, Error>) {
        if let Ok(v) = VendorSpecificSystemState::try_from(value.0) {
            Ok(SystemState::VendorSpecific(v))
        } else {
            match StandardSystemState::try_from(value.0) {
                Ok(s) => Ok(SystemState::Standard(s)),
                Err(e) => Err(e),
            }
        }
    }
}

impl vstd::std_specs::convert::TryFromSpecImpl<RawSystemState> for SystemState {
    open spec fn obeys_try_from_spec() -> bool {
        true
    }

    open spec fn try_from_spec(v: RawSystemState) -> Result<Self, Error> {
        Self::spec_try_from_u32(v@)
    }
}

impl From<SystemState> for RawSystemState {
    fn from(value: SystemState) -> (r: Self) {
        RawSystemState(
            match value {
                SystemState::Standard(standard_system_state) => u32::from(standard_system_state),
                SystemState::VendorSpecific(vendor_specific_system_state) => u32::from(
                    vendor_specific_system_state,
                ),
            },
        )
    }
}

impl vstd::std_specs::convert::FromSpecImpl<SystemState> for RawSystemState {
    open spec fn obeys_from_spec() -> bool {
        true
    }

    closed spec fn from_spec(v: SystemState) -> Self {
        RawSystemState(v.spec_into_u32())
    }
}

/// Raw System State that follows the wire representation of the `system_state` field definition.
#[derive(Clone, Copy, Debug, Default, PartialEq, Eq, Structural)]
pub struct RawSystemState(pub(crate) u32);

impl View for RawSystemState {
    type V = u32;

    closed spec fn view(&self) -> u32 {
        self.0
    }
}

impl RawSystemState {
    /// The raw state number.
    pub fn bits(&self) -> (r: u32)
        ensures
            r == self@,
    {
        self.0
    }

    /// The raw state with this number.
    pub fn from_bits(bits: u32) -> (r: Self)
        ensures
            r@ == bits,
    {
        RawSystemState(bits)
    }

    /// The raw state converted from a system state holds its number.
    pub broadcast proof fn lemma_from_system_state(s: SystemState)
        ensures
            (#[trigger] <RawSystemState as vstd::std_specs::convert::FromSpec<SystemState>>::from_spec(s))@
                == s.spec_into_u32(),
    {
    }
}

/// A valid system state decodes from its raw state, and a raw state that decodes is the raw
/// state of a valid system state.
pub proof fn lemma_system_state_roundtrip(s: SystemState, v: u32)
    ensures
        s.is_valid() ==> SystemState::spec_try_from_u32(s.spec_into_u32()) == Ok::<SystemState, Error>(s),
        SystemState::spec_try_from_u32(v) matches Ok(x) ==> x.is_valid() && x.spec_into_u32() == v,
{
    broadcast use VendorSpecificSystemState::lemma_spec_new;
    lemma_standard_system_state_roundtrip(StandardSystemState::SystemShutdown, v);
    if let SystemState::Standard(st) = s {
        lemma_standard_system_state_roundtrip(st, v);
    }
}

/// The system state numbers: a standard state has its number from 0 to 4, a vendor specific one
/// its own number, from 0x8000_0000. A number from 0x8000_0000 decodes to the vendor specific
/// state with that number, one from 0 to 4 to the standard state with that number, and every
/// other number is refused as an invalid system state.
pub proof fn lemma_system_state_numbers()
    ensures
        forall|s: SystemState|
            s is Standard ==> #[trigger] s.spec_into_u32() <= 4,
        forall|v: u32|
            v >= 0x8000_0000 ==> (#[trigger] SystemState::spec_try_from_u32(v) matches Ok(
                SystemState::VendorSpecific(st),
            ) && st@ == v),
        forall|v: u32|
            v <= 4 ==> #[trigger] SystemState::spec_try_from_u32(v) == Ok::<SystemState, Error>(
                SystemState::Standard(standard_system_states_in_order()[v as int]),
            ),
        forall|v: u32|
            4 < v < 0x8000_0000 ==> #[trigger] SystemState::spec_try_from_u32(v) == Err::<
                SystemState,
                Error,
            >(Error::InvalidSystemState(v)),
{
    broadcast use VendorSpecificSystemState::lemma_spec_new;
    lemma_standard_system_state_numbers();
}

impl Payload for RawSystemState {
    open spec fn spec_word_count() -> nat {
        1
    }

    open spec fn spec_words(&self) -> Seq<u32> {
        seq![self@]
    }

    proof fn lemma_words(&self, other: &Self) {
        if self.spec_words() == other.spec_words() {
            assert(self.spec_words()[0] == other.spec_words()[0]);
        }
    }

    fn word_count() -> (r: usize) {
        1
    }

    fn carried_word_count(first: u32) -> (r: u64) {
        1
    }

    fn to_words(&self) -> (r: Vec<u32>) {
        let mut v: Vec<u32> = Vec::new();
        v.push(self.0);
        v
    }

    fn from_words(words: &[u32]) -> (r: Self) {
        RawSystemState(words[0])
    }
}

/// `PROTOCOL_VERSION` command.
#[derive(Clone, Copy, Debug, PartialEq, Eq)]
pub struct ProtocolVersion {}

impl Payload for ProtocolVersion {
    open spec fn spec_word_count() -> nat {
        0
    }

    open spec fn spec_words(&self) -> Seq<u32> {
        Seq::<u32>::empty()
    }

    proof fn lemma_words(&self, other: &Self) {
    }

    fn word_count() -> (r: usize) {
        0
    }

    fn carried_word_count(first: u32) -> (r: u64) {
        0
    }

    fn to_words(&self) -> (r: Vec<u32>) {
        let v: Vec<u32> = Vec::new();
        assert(v@ =~= self.spec_words());
        v
    }

    fn from_words(words: &[u32]) -> (r: Self) {
        let r = ProtocolVersion {  };
        assert(r.spec_words() =~= words@);
        r
    }
}

/// `PROTOCOL_VERSION` command response.
#[derive(Clone, Copy, Debug, PartialEq, Eq)]
pub struct ProtocolVersionResponse {
    pub version: Version,
}

impl Payload for ProtocolVersionResponse {
    open spec fn spec_word_count() -> nat {
        1
    }

    open spec fn spec_words(&self) -> Seq<u32> {
        self.version.spec_words()
    }

    proof fn lemma_words(&self, other: &Self) {
        self.version.lemma_words(&other.version);
        if self.spec_words() == other.spec_words() {
            assert(self.spec_words().subrange(0, 1) == self.version.spec_words());
            assert(other.spec_words().subrange(0, 1) == other.version.spec_words());
        }
    }

    fn word_count() -> (r: usize) {
        1
    }

    fn carried_word_count(first: u32) -> (r: u64) {
        1
    }

    fn to_words(&self) -> (r: Vec<u32>) {
        let mut v: Vec<u32> = Vec::new();
        let mut w = self.version.to_words();
        v.append(&mut w);
        assert(v@ =~= self.spec_words());
        v
    }

    fn from_words(words: &[u32]) -> (r: Self) {
        let version = Version::from_words(vstd::slice::slice_subrange(words, 0, 1));
        let r = ProtocolVersionResponse { version };
        assert(r.spec_words() =~= words@);
        r
    }
}

impl Command for ProtocolVersion {
    type Response = ProtocolVersionResponse;

    open spec fn spec_id() -> MessageId {
        MessageId::SystemPowerManagement(SystemPowerCommandMessageId::ProtocolVersion)
    }

    fn id() -> (r: MessageId) {
        MessageId::SystemPowerManagement(SystemPowerCommandMessageId::ProtocolVersion)
    }
}

/// `NEGOTIATE_PROTOCOL_VERSION` command.
#[derive(Clone, Copy, Debug, PartialEq, Eq)]
pub struct NegotiateProtocolVersion {
    pub version: Version,
}

impl Payload for NegotiateProtocolVersion {
    open spec fn spec_word_count() -> nat {
        1
    }

    open spec fn spec_words(&self) -> Seq<u32> {
        self.version.spec_words()
    }

    proof fn lemma_words(&self, other: &Self) {
        self.version.lemma_words(&other.version);
        if self.spec_words() == other.spec_words() {
            assert(self.spec_words().subrange(0, 1) == self.version.spec_words());
            assert(other.spec_words().subrange(0, 1) == other.version.spec_words());
        }
    }

    fn word_count() -> (r: usize) {
        1
    }

    fn carried_word_count(first: u32) -> (r: u64) {
        1
    }

    fn to_words(&self) -> (r: Vec<u32>) {
        let mut v: Vec<u32> = Vec::new();
        let mut w = self.version.to_words();
        v.append(&mut w);
        assert(v@ =~= self.spec_words());
        v
    }

    fn from_words(words: &[u32]) -> (r: Self) {
        let version = Version::from_words(vstd::slice::slice_subrange(words, 0, 1));
        let r = NegotiateProtocolVersion { version };
        assert(r.spec_words() =~= words@);
        r
    }
}

/// `NEGOTIATE_PROTOCOL_VERSION` command response.
#[derive(Clone, Copy, Debug, PartialEq, Eq)]
pub struct NegotiateProtocolVersionResponse {}

impl Payload for NegotiateProtocolVersionResponse {
    open spec fn spec_word_count() -> nat {
        0
    }

    open spec fn spec_words(&self) -> Seq<u32> {
        Seq::<u32>::empty()
    }

    proof fn lemma_words(&self, other: &Self) {
    }

    fn word_count() -> (r: usize) {
        0
    }

    fn carried_word_count(first: u32) -> (r: u64) {
        0
    }

    fn to_words(&self) -> (r: Vec<u32>) {
        let v: Vec<u32> = Vec::new();
        assert(v@ =~= self.spec_words());
        v
    }

    fn from_words(words: &[u32]) -> (r: Self) {
        let r = NegotiateProtocolVersionResponse {  };
        assert(r.spec_words() =~= words@);
        r
    }
}

impl Command for NegotiateProtocolVersion {
    type Response = NegotiateProtocolVersionResponse;

    open spec fn spec_id() -> MessageId {
        MessageId::SystemPowerManagement(SystemPowerCommandMessageId::NegotiateProtocolVersion)
    }

    fn id() -> (r: MessageId) {
        MessageId::SystemPowerManagement(SystemPowerCommandMessageId::NegotiateProtocolVersion)
    }
}

/// `PROTOCOL_ATTRIBUTES` command.
#[derive(Clone, Copy, Debug, PartialEq, Eq)]
pub struct ProtocolAttributes {}

impl Payload for ProtocolAttributes {
    open spec fn spec_word_count() -> nat {
        0
    }

    open spec fn spec_words(&self) -> Seq<u32> {
        Seq::<u32>::empty()
    }

    proof fn lemma_words(&self, other: &Self) {
    }

    fn word_count() -> (r: usize) {
        0
    }

    fn carried_word_count(first: u32) -> (r: u64) {
        0
    }

    fn to_words(&self) -> (r: Vec<u32>) {
        let v: Vec<u32> = Vec::new();
        assert(v@ =~= self.spec_words());
        v
    }

    fn from_words(words: &[u32]) -> (r: Self) {
        let r = ProtocolAttributes {  };
        assert(r.spec_words() =~= words@);
        r
    }
}

/// `PROTOCOL_ATTRIBUTES` command response.
#[derive(Clone, Copy, Debug, PartialEq, Eq)]
pub struct ProtocolAttributesResponse {
    pub attributes: u32,
}

impl Payload for ProtocolAttributesResponse {
    open spec fn spec_word_count() -> nat {
        1
    }

    open spec fn spec_words(&self) -> Seq<u32> {
        self.attributes.spec_words()
    }

    proof fn lemma_words(&self, other: &Self) {
        self.attributes.lemma_words(&other.attributes);
        if self.spec_words() == other.spec_words() {
            assert(self.spec_words().subrange(0, 1) == self.attributes.spec_words());
            assert(other.spec_words().subrange(0, 1) == other.attributes.spec_words());
        }
    }

    fn word_count() -> (r: usize) {
        1
    }

    fn carried_word_count(first: u32) -> (r: u64) {
        1
    }

    fn to_words(&self) -> (r: Vec<u32>) {
        let mut v: Vec<u32> = Vec::new();
        let mut w = self.attributes.to_words();
        v.append(&mut w);
        assert(v@ =~= self.spec_words());
        v
    }

    fn from_words(words: &[u32]) -> (r: Self) {
        let attributes = u32::from_words(vstd::slice::slice_subrange(words, 0, 1));
        let r = ProtocolAttributesResponse { attributes };
        assert(r.spec_words() =~= words@);
        r
    }
}

impl Command for ProtocolAttributes {
    type Response = ProtocolAttributesResponse;

    open spec fn spec_id() -> MessageId {
        MessageId::SystemPowerManagement(SystemPowerCommandMessageId::ProtocolAttributes)
    }

    fn id() -> (r: MessageId) {
        MessageId::SystemPowerManagement(SystemPowerCommandMessageId::ProtocolAttributes)
    }
}

/// `PROTOCOL_MESSAGE_ATTRIBUTES` command.
#[derive(Clone, Copy, Debug, PartialEq, Eq)]
pub struct ProtocolMessageAttributes {
    pub message_id: u32,
}

impl Payload for ProtocolMessageAttributes {
    open spec fn spec_word_count() -> nat {
        1
    }

    open spec fn spec_words(&self) -> Seq<u32> {
        self.message_id.spec_words()
    }

    proof fn lemma_words(&self, other: &Self) {
        self.message_id.lemma_words(&other.message_id);
        if self.spec_words() == other.spec_words() {
            assert(self.spec_words().subrange(0, 1) == self.message_id.spec_words());
            assert(other.spec_words().subrange(0, 1) == other.message_id.spec_words());
        }
    }

    fn word_count() -> (r: usize) {
        1
    }

    fn carried_word_count(first: u32) -> (r: u64) {
        1
    }

    fn to_words(&self) -> (r: Vec<u32>) {
        let mut v: Vec<u32> = Vec::new();
        let mut w = self.message_id.to_words();
        v.append(&mut w);
        assert(v@ =~= self.spec_words());
        v
    }

    fn from_words(words: &[u32]) -> (r: Self) {
        let message_id = u32::from_words(vstd::slice::slice_subrange(words, 0, 1));
        let r = ProtocolMessageAttributes { message_id };
        assert(r.spec_words() =~= words@);
        r
    }
}

/// `PROTOCOL_MESSAGE_ATTRIBUTES` command response.
#[derive(Clone, Copy, Debug, PartialEq, Eq)]
pub struct ProtocolMessageAttributesResponse {
    pub attributes: u32,
}

impl Payload for ProtocolMessageAttributesResponse {
    open spec fn spec_word_count() -> nat {
        1
    }

    open spec fn spec_words(&self) -> Seq<u32> {
        self.attributes.spec_words()
    }

    proof fn lemma_words(&self, other: &Self) {
        self.attributes.lemma_words(&other.attributes);
        if self.spec_words() == other.spec_words() {
            assert(self.spec_words().subrange(0, 1) == self.attributes.spec_words());
            assert(other.spec_words().subrange(0, 1) == other.attributes.spec_words());
        }
    }

    fn word_count() -> (r: usize) {
        1
    }

    fn carried_word_count(first: u32) -> (r: u64) {
        1
    }

    fn to_words(&self) -> (r: Vec<u32>) {
        let mut v: Vec<u32> = Vec::new();
        let mut w = self.attributes.to_words();
        v.append(&mut w);
        assert(v@ =~= self.spec_words());
        v
    }

    fn from_words(words: &[u32]) -> (r: Self) {
        let attributes = u32::from_words(vstd::slice::slice_subrange(words, 0, 1));
        let r = ProtocolMessageAttributesResponse { attributes };
        assert(r.spec_words() =~= words@);
        r
    }
}

impl Command for ProtocolMessageAttributes {
    type Response = ProtocolMessageAttributesResponse;

    open spec fn spec_id() -> MessageId {
        MessageId::SystemPowerManagement(SystemPowerCommandMessageId::ProtocolMessageAttributes)
    }

    fn id() -> (r: MessageId) {
        MessageId::SystemPowerManagement(SystemPowerCommandMessageId::ProtocolMessageAttributes)
    }
}

/// `SYSTEM_POWER_STATE_SET` command.
#[derive(Clone, Copy, Debug, PartialEq, Eq)]
pub struct SystemPowerStateSet {
    pub flags: SystemPowerStateSetFlags,
    pub system_state: RawSystemState,
}

impl Payload for SystemPowerStateSet {
    open spec fn spec_word_count() -> nat {
        2
    }

    open spec fn spec_words(&self) -> Seq<u32> {
        self.flags.spec_words() + self.system_state.spec_words()
    }

    proof fn lemma_words(&self, other: &Self) {
        self.flags.lemma_words(&other.flags);
        self.system_state.lemma_words(&other.system_state);
        if self.spec_words() == other.spec_words() {
            assert(self.spec_words().subrange(0, 1) == self.flags.spec_words());
            assert(other.spec_words().subrange(0, 1) == other.flags.spec_words());
            assert(self.spec_words().subrange(1, 2) == self.system_state.spec_words());
            assert(other.spec_words().subrange(1, 2) == other.system_state.spec_words());
        }
    }

    fn word_count() -> (r: usize) {
        2
    }

    fn carried_word_count(first: u32) -> (r: u64) {
        2
    }

    fn to_words(&self) -> (r: Vec<u32>) {
        let mut v: Vec<u32> = Vec::new();
        let mut w = self.flags.to_words();
        v.append(&mut w);
        let mut w = self.system_state.to_words();
        v.append(&mut w);
        assert(v@ =~= self.spec_words());
        v
    }

    fn from_words(words: &[u32]) -> (r: Self) {
        let flags = SystemPowerStateSetFlags::from_words(vstd::slice::slice_subrange(words, 0, 1));
        let system_state = RawSystemState::from_words(vstd::slice::slice_subrange(words, 1, 2));
        let r = SystemPowerStateSet { flags, system_state };
        assert(r.spec_words() =~= words@);
        r
    }
}

/// `SYSTEM_POWER_STATE_SET` command response.
#[derive(Clone, Copy, Debug, PartialEq, Eq)]
pub struct SystemPowerStateSetResponse {}

impl Payload for SystemPowerStateSetResponse {
    open spec fn spec_word_count() -> nat {
        0
    }

    open spec fn spec_words(&self) -> Seq<u32> {
        Seq::<u32>::empty()
    }

    proof fn lemma_words(&self, other: &Self) {
    }

    fn word_count() -> (r: usize) {
        0
    }

    fn carried_word_count(first: u32) -> (r: u64) {
        0
    }

    fn to_words(&self) -> (r: Vec<u32>) {
        let v: Vec<u32> = Vec::new();
        assert(v@ =~= self.spec_words());
        v
    }

    fn from_words(words: &[u32]) -> (r: Self) {
        let r = SystemPowerStateSetResponse {  };
        assert(r.spec_words() =~= words@);
        r
    }
}

impl Command for SystemPowerStateSet {
    type Response = SystemPowerStateSetResponse;

    open spec fn spec_id() -> MessageId {
        MessageId::SystemPowerManagement(SystemPowerCommandMessageId::StateSet)
    }

    fn id() -> (r: MessageId) {
        MessageId::SystemPowerManagement(SystemPowerCommandMessageId::StateSet)
    }
}

/// `SYSTEM_POWER_STATE_GET` command.
#[derive(Clone, Copy, Debug, PartialEq, Eq)]
pub struct SystemPowerStateGet {}

impl Payload for SystemPowerStateGet {
    open spec fn spec_word_count() -> nat {
        0
    }

    open spec fn spec_words(&self) -> Seq<u32> {
        Seq::<u32>::empty()
    }

    proof fn lemma_words(&self, other: &Self) {
    }

    fn word_count() -> (r: usize) {
        0
    }

    fn carried_word_count(first: u32) -> (r: u64) {
        0
    }

    fn to_words(&self) -> (r: Vec<u32>) {
        let v: Vec<u32> = Vec::new();
        assert(v@ =~= self.spec_words());
        v
    }

    fn from_words(words: &[u32]) -> (r: Self) {
        let r = SystemPowerStateGet {  };
        assert(r.spec_words() =~= words@);
        r
    }
}

/// `SYSTEM_POWER_STATE_GET` command response.
#[derive(Clone, Copy, Debug, PartialEq, Eq)]
pub struct SystemPowerStateGetResponse {
    pub system_state: RawSystemState,
}

impl Payload for SystemPowerStateGetResponse {
    open spec fn spec_word_count() -> nat {
        1
    }

    open spec fn spec_words(&self) -> Seq<u32> {
        self.system_state.spec_words()
    }

    proof fn lemma_words(&self, other: &Self) {
        self.system_state.lemma_words(&other.system_state);
        if self.spec_words() == other.spec_words() {
            assert(self.spec_words().subrange(0, 1) == self.system_state.spec_words());
            assert(other.spec_words().subrange(0, 1) == other.system_state.spec_words());
        }
    }

    fn word_count() -> (r: usize) {
        1
    }

    fn carried_word_count(first: u32) -> (r: u64) {
        1
    }

    fn to_words(&self) -> (r: Vec<u32>) {
        let mut v: Vec<u32> = Vec::new();
        let mut w = self.system_state.to_words();
        v.append(&mut w);
        assert(v@ =~= self.spec_words());
        v
    }

    fn from_words(words: &[u32]) -> (r: Self) {
        let system_state = RawSystemState::from_words(vstd::slice::slice_subrange(words, 0, 1));
        let r = SystemPowerStateGetResponse { system_state };
        assert(r.spec_words() =~= words@);
        r
    }
}

impl Command for SystemPowerStateGet {
    type Response = SystemPowerStateGetResponse;

    open spec fn spec_id() -> MessageId {
        MessageId::SystemPowerManagement(SystemPowerCommandMessageId::StateGet)
    }

    fn id() -> (r: MessageId) {
        MessageId::SystemPowerManagement(SystemPowerCommandMessageId::StateGet)
    }
}

/// `SYSTEM_POWER_STATE_NOTIFY` command.
#[derive(Clone, Copy, Debug, PartialEq, Eq)]
pub struct SystemPowerStateNotify {
    pub notify_enable: NotifyEnable,
}

impl Payload for SystemPowerStateNotify {
    open spec fn spec_word_count() -> nat {
        1
    }

    open spec fn spec_words(&self) -> Seq<u32> {
        self.notify_enable.spec_words()
    }

    proof fn lemma_words(&self, other: &Self) {
        self.notify_enable.lemma_words(&other.notify_enable);
        if self.spec_words() == other.spec_words() {
            assert(self.spec_words().subrange(0, 1) == self.notify_enable.spec_words());
            assert(other.spec_words().subrange(0, 1) == other.notify_enable.spec_words());
        }
    }

    fn word_count() -> (r: usize) {
        1
    }

    fn carried_word_count(first: u32) -> (r: u64) {
        1
    }

    fn to_words(&self) -> (r: Vec<u32>) {
        let mut v: Vec<u32> = Vec::new();
        let mut w = self.notify_enable.to_words();
        v.append(&mut w);
        assert(v@ =~= self.spec_words());
        v
    }

    fn from_words(words: &[u32]) -> (r: Self) {
        let notify_enable = NotifyEnable::from_words(vstd::slice::slice_subrange(words, 0, 1));
        let r = SystemPowerStateNotify { notify_enable };
        assert(r.spec_words() =~= words@);
        r
    }
}

/// `SYSTEM_POWER_STATE_NOTIFY` command response.
#[derive(Clone, Copy, Debug, PartialEq, Eq)]
pub struct SystemPowerStateNotifyResponse {}

impl Payload for SystemPowerStateNotifyResponse {
    open spec fn spec_word_count() -> nat {
        0
    }

    open spec fn spec_words(&self) -> Seq<u32> {
        Seq::<u32>::empty()
    }

    proof fn lemma_words(&self, other: &Self) {
    }

    fn word_count() -> (r: usize) {
        0
    }

    fn carried_word_count(first: u32) -> (r: u64) {
        0
    }

    fn to_words(&self) -> (r: Vec<u32>) {
        let v: Vec<u32> = Vec::new();
        assert(v@ =~= self.spec_words());
        v
    }

    fn from_words(words: &[u32]) -> (r: Self) {
        let r = SystemPowerStateNotifyResponse {  };
        assert(r.spec_words() =~= words@);
        r
    }
}

impl Command for SystemPowerStateNotify {
    type Response = SystemPowerStateNotifyResponse;

    open spec fn spec_id() -> MessageId {
        MessageId::SystemPowerManagement(SystemPowerCommandMessageId::StateNotify)
    }

    fn id() -> (r: MessageId) {
        MessageId::SystemPowerManagement(SystemPowerCommandMessageId::StateNotify)
    }
}

} // verus!
