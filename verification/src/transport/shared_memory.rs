use vstd::prelude::*;

use crate::Error;
use crate::protocol::base::{lemma_list_carried_word_count, DiscoverListProtocol, DiscoverListProtocolResponse};
use crate::protocol::{
    byte_of_word, decode, lemma_decode_words, lemma_header_encode_decode, lemma_status_code_roundtrip,
    Command, MessageHeader, MessageId, Payload, StandardStatusCode, StatusCode,
};

verus! {

/// Shared memory channel status.
///
/// See Table 33: Layout of the shared memory area
///
/// The flag constants are the masks of their bits.
#[derive(Clone, Copy, Debug, Default, PartialEq, Eq, Structural)]
pub struct ChannelStatus(u32);

impl View for ChannelStatus {
    type V = u32;

    closed spec fn view(&self) -> u32 {
        self.0
    }
}

impl ChannelStatus {
    /// Channel error
    pub const ERROR: u32 = 1 << 1;

    /// Channel free
    pub const FREE: u32 = 1 << 0;

    /// No flag set.
    pub fn empty() -> (r: Self)
        ensures
            r@ == 0,
    {
        ChannelStatus(0)
    }

    /// The raw bits.
    pub fn bits(&self) -> (r: u32)
        ensures
            r == self@,
    {
        self.0
    }

    /// The flags with these raw bits, unknown bits included.
    pub fn from_bits_retain(bits: u32) -> (r: Self)
        ensures
            r@ == bits,
    {
        ChannelStatus(bits)
    }

    /// All bits of `mask` are set.
    pub fn contains(&self, mask: u32) -> (r: bool)
        ensures
            r == (self@ & mask == mask),
    {
        self.0 & mask == mask
    }

    /// Sets the bits of `mask` when `value` holds and clears them otherwise; the other bits are
    /// kept.
    pub fn set(&mut self, mask: u32, value: bool)
        ensures
            final(self)@ == (if value { old(self)@ | mask } else { old(self)@ & !mask }),
    {
        if value {
            self.0 = self.0 | mask;
        } else {
            self.0 = self.0 & !mask;
        }
    }
}

impl Payload for ChannelStatus {
    open spec fn spec_word_count() -> nat {
        1
    }

    open spec fn spec_words(&self) -> Seq<u32> {
        seq![self@]
    }

    proof fn lemma_words(&self, other: &Self) {
        if self.spec_words() == other.spec_words() {
            assert(self.spec_words()[0] == other.spec_words()[0]);
        }
    }

    fn word_count() -> (r: usize) {
        1
    }

    fn carried_word_count(first: u32) -> (r: u64) {
        1
    }

    fn to_words(&self) -> (r: Vec<u32>) {
        let mut v: Vec<u32> = Vec::new();
        v.push(self.0);
        v
    }

    fn from_words(words: &[u32]) -> (r: Self) {
        ChannelStatus(words[0])
    }
}


/// Shared memory channel flags.
///
/// See Table 34: Channel flags
///
/// The flag constants are the masks of their bits.
#[derive(Clone, Copy, Debug, Default, PartialEq, Eq, Structural)]
pub struct ChannelFlags(u32);

impl View for ChannelFlags {
    type V = u32;

    closed spec fn view(&self) -> u32 {
        self.0
    }
}

impl ChannelFlags {
    /// The command should complete via an interrupt.
    pub const INTERRUPT: u32 = 1 << 0;

    /// No flag set.
    pub fn empty() -> (r: Self)
        ensures
            r@ == 0,
    {
        ChannelFlags(0)
    }

    /// The raw bits.
    pub fn bits(&self) -> (r: u32)
        ensures
            r == self@,
    {
        self.0
    }

    /// The flags with these raw bits, unknown bits included.
    pub fn from_bits_retain(bits: u32) -> (r: Self)
        ensures
            r@ == bits,
    {
        ChannelFlags(bits)
    }

    /// All bits of `mask` are set.
    pub fn contains(&self, mask: u32) -> (r: bool)
        ensures
            r == (self@ & mask == mask),
    {
        self.0 & mask == mask
    }

    /// Sets the bits of `mask` when `value` holds and clears them otherwise; the other bits are
    /// kept.
    pub fn set(&mut self, mask: u32, value: bool)
        ensures
            final(self)@ == (if value { old(self)@ | mask } else { old(self)@ & !mask }),
    {
        if value {
            self.0 = self.0 | mask;
        } else {
            self.0 = self.0 & !mask;
        }
    }
}

impl Payload for ChannelFlags {
    open spec fn spec_word_count() -> nat {
        1
    }

    open spec fn spec_words(&self) -> Seq<u32> {
        seq![self@]
    }

    proof fn lemma_words(&self, other: &Self) {
        if self.spec_words() == other.spec_words() {
            assert(self.spec_words()[0] == other.spec_words()[0]);
        }
    }

    fn word_count() -> (r: usize) {
        1
    }

    fn carried_word_count(first: u32) -> (r: u64) {
        1
    }

    fn to_words(&self) -> (r: Vec<u32>) {
        let mut v: Vec<u32> = Vec::new();
        v.push(self.0);
        v
    }

    fn from_words(words: &[u32]) -> (r: Self) {
        ChannelFlags(words[0])
    }
}


/// Shared memory header structure.
///
/// See Table 33: Layout of the shared memory area. Its wire form is seven words: a reserved
/// word, the channel status, two reserved words, the channel flags, the length of the message
/// in bytes (the message header included) and the message header.
#[derive(Clone, Copy, Debug, PartialEq, Eq)]
pub struct SharedMemoryHeader {
    reserved_0: u32,
    channel_status: ChannelStatus,
    reserved_8: [u32; 2],
    channel_flags: ChannelFlags,
    length: u32,
    message_header: u32,
}

/// The size of the shared memory header in bytes.
pub const HEADER_SIZE: usize = 0x1c;

/// The token of every command sent on a channel.
pub const TOKEN: u16 = 0;

impl SharedMemoryHeader {
    /// The channel status field.
    pub closed spec fn spec_channel_status(&self) -> ChannelStatus {
        self.channel_status
    }

    /// The channel flags field.
    pub closed spec fn spec_channel_flags(&self) -> ChannelFlags {
        self.channel_flags
    }

    /// The length field: the length of the message in bytes, message header included.
    pub closed spec fn spec_length(&self) -> u32 {
        self.length
    }

    /// The raw message header field.
    pub closed spec fn spec_message_header(&self) -> u32 {
        self.message_header
    }

    /// The reserved fields are zero.
    pub closed spec fn spec_reserved_clear(&self) -> bool {
        self.reserved_0 == 0 && self.reserved_8@ == seq![0u32, 0u32]
    }

    /// The wire form of the header.
    pub closed spec fn spec_words(&self) -> Seq<u32> {
        seq![self.reserved_0, self.channel_status@] + self.reserved_8@ + seq![
            self.channel_flags@,
            self.length,
            self.message_header,
        ]
    }

    /// The header of a message with this length and raw message header, that marks the channel
    /// busy (status 0) and asks for no interrupt.
    pub open spec fn is_busy_header(&self, length: u32, message_header: u32) -> bool {
        &&& self.spec_reserved_clear()
        &&& self.spec_channel_status()@ == 0
        &&& self.spec_channel_flags()@ == 0
        &&& self.spec_length() == length
        &&& self.spec_message_header() == message_header
    }

    /// Creates an empty header, marking the channel as free and configures the command such that
    /// it won't raise an an interrupt when complete.
    pub fn new_free() -> (r: Self)
        ensures
            r.spec_reserved_clear(),
            r.spec_channel_status()@ == ChannelStatus::FREE,
            r.spec_channel_flags()@ == 0,
            r.spec_length() == 4,
            r.spec_message_header() == 0,
    {
        let r = Self {
            reserved_0: 0,
            channel_status: ChannelStatus::from_bits_retain(ChannelStatus::FREE),
            reserved_8: [0u32; 2],
            channel_flags: ChannelFlags::empty(),
            length: 4,
            message_header: 0,
        };
        assert(r.reserved_8@ =~= seq![0u32, 0u32]);
        r
    }

    /// Creates a new instance that sets the passed fields and marks the channel busy.
    pub fn new_mark_busy(message_id: MessageId, length: u32, token: u16) -> (r: Self)
        requires
            length >= 4,
            token <= 0x3ff,
        ensures
            r.is_busy_header(length, MessageHeader { token, message_id }.spec_into_u32()),
    {
        let r = Self {
            reserved_0: 0,
            channel_status: ChannelStatus::empty(),
            reserved_8: [0u32; 2],
            channel_flags: ChannelFlags::empty(),
            length,
            message_header: u32::from(MessageHeader { token, message_id }),
        };
        assert(r.reserved_8@ =~= seq![0u32, 0u32]);
        r
    }

    /// The message header: refused when the length is too short to hold it, or as
    /// `MessageHeader::try_from` refuses it.
    pub open spec fn spec_header(&self) -> Result<MessageHeader, Error> {
        if self.spec_length() >= 4 {
            MessageHeader::spec_try_from_u32(self.spec_message_header())
        } else {
            Err(Error::ResponseTooShort)
        }
    }

    /// Returns message header field or error if the message is too short or the field is
    /// invalid.
    pub fn message_header(&self) -> (r: Result<MessageHeader, Error>)
        ensures
            r == self.spec_header(),
    {
        if self.length >= 4 {
            MessageHeader::try_from(self.message_header)
        } else {
            Err(Error::ResponseTooShort)
        }
    }

    /// The channel status field.
    pub fn channel_status(&self) -> (r: ChannelStatus)
        ensures
            r == self.spec_channel_status(),
    {
        self.channel_status
    }

    /// The length field.
    pub fn length(&self) -> (r: u32)
        ensures
            r == self.spec_length(),
    {
        self.length
    }

    /// Encodes the header in its seven words.
    pub fn to_words(&self) -> (r: Vec<u32>)
        ensures
            r@ == self.spec_words(),
            r@.len() == 7,
    {
        let mut v: Vec<u32> = Vec::new();
        v.push(self.reserved_0);
        v.push(self.channel_status.bits());
        v.push(self.reserved_8[0]);
        v.push(self.reserved_8[1]);
        v.push(self.channel_flags.bits());
        v.push(self.length);
        v.push(self.message_header);
        assert(v@ =~= self.spec_words());
        v
    }

    /// Decodes a header from its seven words.
    pub fn from_words(words: &[u32]) -> (r: Self)
        requires
            words@.len() == 7,
        ensures
            r.spec_words() == words@,
            r.spec_channel_status()@ == words@[1],
            r.spec_channel_flags()@ == words@[4],
            r.spec_length() == words@[5],
            r.spec_message_header() == words@[6],
            r.spec_reserved_clear() <==> (words@[0] == 0 && words@[2] == 0 && words@[3] == 0),
    {
        let mut reserved_8 = [0u32; 2];
        reserved_8[0] = words[2];
        reserved_8[1] = words[3];
        let r = Self {
            reserved_0: words[0],
            channel_status: ChannelStatus::from_bits_retain(words[1]),
            reserved_8,
            channel_flags: ChannelFlags::from_bits_retain(words[4]),
            length: words[5],
            message_header: words[6],
        };
        assert(r.spec_words() =~= words@);
        assert(r.reserved_8@ =~= seq![words@[2], words@[3]]);
        r
    }
}

/// The number of payload words of a shared memory area of `size` bytes: what follows the
/// header. `None` unless the area holds the header and at least one payload word and its size is
/// a whole number of words.
pub fn payload_word_count(size: usize) -> (r: Option<usize>)
    ensures
        match r {
            Some(n) => size >= HEADER_SIZE + 4 && size % 4 == 0 && n == (size - HEADER_SIZE) / 4,
            None => !(size >= HEADER_SIZE + 4 && size % 4 == 0),
        },
{
    if size < HEADER_SIZE + 4 || size % 4 != 0 {
        return None;
    }
    Some((size - HEADER_SIZE) / 4)
}

/// The length field of the message that carries a command payload of `size` bytes: the payload
/// and the message header. Refused with `LengthOverflow` when the payload size does not fit in
/// 32 bits, with `PayloadExceedsMaxSize` when it exceeds the payload area, and with
/// `LengthOverflow` when the length does not fit in 32 bits.
pub open spec fn command_length(size: int, max_payload_length: int) -> Result<u32, Error> {
    if size > u32::MAX {
        Err(Error::LengthOverflow)
    } else if size > max_payload_length {
        Err(Error::PayloadExceedsMaxSize)
    } else if size + 4 > u32::MAX {
        Err(Error::LengthOverflow)
    } else {
        Ok((size + 4) as u32)
    }
}

/// Frames `command` for a shared memory channel whose payload area holds `max_payload_length`
/// bytes: the header to write, which marks the channel busy, and the payload words to write
/// before it.
pub fn prepare_command<C: Command>(command: &C, max_payload_length: usize) -> (r: Result<
    (SharedMemoryHeader, Vec<u32>),
    Error,
>)
    ensures
        match r {
            Ok((header, payload)) => {
                &&& command_length(4 * command.spec_words().len() as int, max_payload_length as int) == Ok::<u32, Error>(header.spec_length())
                &&& header.is_busy_header(
                    header.spec_length(),
                    MessageHeader { token: TOKEN, message_id: C::spec_id() }.spec_into_u32(),
                )
                &&& payload@ == command.spec_words()
            },
            Err(e) => command_length(4 * command.spec_words().len() as int, max_payload_length as int) == Err::<u32, Error>(e),
        },
{
    let payload = command.to_words();
    let n = payload.len();
    if n > 0x3fff_ffff {
        return Err(Error::LengthOverflow);
    }
    let mut length: u32 = (n * 4) as u32;
    if length as usize > max_payload_length {
        return Err(Error::PayloadExceedsMaxSize);
    }
    length = match length.checked_add(4) {
        Some(l) => l,
        None => return Err(Error::LengthOverflow),
    };
    let header = SharedMemoryHeader::new_mark_busy(C::id(), length, TOKEN);
    Ok((header, payload))
}

/// `words` followed by zero words up to `n` words.
pub open spec fn zero_padded(words: Seq<u32>, n: nat) -> Seq<u32> {
    words + Seq::new((n - words.len()) as nat, |i: int| 0u32)
}

/// The response to a command with identifier `expected`, read from a channel whose header has
/// the given length and raw message header fields and whose payload area holds `payload`: the
/// status word then the words that the response carries (`spec_carried_word_count` of its first
/// word; fewer than the full wire form for a variable-length response, whose missing words are
/// zero). It is refused, in this order:
/// - with `LengthOverflow` when the length is shorter than the message header;
/// - with `PayloadExceedsMaxSize` when the rest exceeds the payload area, or is neither the size
///   of a status alone nor that of a status and the words that the response carries, or those
///   words exceed the wire form of an `R`;
/// - when the message header is refused, when it is not that of the command, when its token is
///   not `TOKEN`, and when the status word is not a status code;
/// - with the status when it is not success; so a response that holds only a status that is not
///   success reports that status;
/// - with `PayloadExceedsMaxSize` when a success status comes alone where an `R` has words.
pub open spec fn spec_read_response<R: Payload>(
    expected: MessageId,
    length: u32,
    message_header: u32,
    payload: Seq<u32>,
) -> Result<R, Error> {
    if length < 4 {
        Err(Error::LengthOverflow)
    } else if length - 4 > 4 * payload.len() || (length - 4 != 4 && (length - 4 != 4 + 4
        * R::spec_carried_word_count(payload[1]) || R::spec_carried_word_count(payload[1])
        > R::spec_word_count())) {
        Err(Error::PayloadExceedsMaxSize)
    } else {
        match MessageHeader::spec_try_from_u32(message_header) {
            Err(e) => Err(e),
            Ok(h) => if h.message_id != expected {
                Err(Error::UnexpectedResponse(h.message_id))
            } else if h.token != TOKEN {
                Err(Error::UnexpectedToken(h.token))
            } else {
                match StatusCode::spec_try_from_i32(payload[0] as i32) {
                    Err(e) => Err(e),
                    Ok(status) => if status != StatusCode::Standard(StandardStatusCode::Success) {
                        Err(Error::Status(status))
                    } else if length - 4 == 4 && R::spec_word_count() != 0 {
                        Err(Error::PayloadExceedsMaxSize)
                    } else {
                        let carried = (length - 8) / 4;
                        Ok(
                            decode::<R>(
                                zero_padded(payload.subrange(1, 1 + carried), R::spec_word_count()),
                            ),
                        )
                    },
                }
            },
        }
    }
}

/// Reads the response to a `C` command from a channel with this header and payload area.
pub fn read_response<C: Command>(header: &SharedMemoryHeader, payload: &[u32]) -> (r: Result<
    C::Response,
    Error,
>)
    requires
        4 * payload@.len() <= usize::MAX,
    ensures
        r == spec_read_response::<C::Response>(
            C::spec_id(),
            header.spec_length(),
            header.spec_message_header(),
            payload@,
        ),
{
    let max_payload_length = payload.len() * 4;
    let length = match header.length().checked_sub(4) {
        Some(l) => l,
        None => return Err(Error::LengthOverflow),
    };
    let n = C::Response::word_count();
    if length as usize > max_payload_length || length < 4 || length % 4 != 0 {
        return Err(Error::PayloadExceedsMaxSize);
    }
    let status_only = length == 4;
    let carried: u64 = if status_only {
        0
    } else {
        C::Response::carried_word_count(payload[1])
    };
    if !status_only && (carried > n as u64 || carried > 0x3fff_ffff || length as u64 != 4 + 4
        * carried) {
        return Err(Error::PayloadExceedsMaxSize);
    }
    let msg_header = match header.message_header() {
        Ok(h) => h,
        Err(e) => return Err(e),
    };
    if msg_header.message_id != C::id() {
        return Err(Error::UnexpectedResponse(msg_header.message_id));
    }
    if msg_header.token != TOKEN {
        return Err(Error::UnexpectedToken(msg_header.token));
    }
    let status = match StatusCode::try_from(payload[0] as i32) {
        Ok(s) => s,
        Err(e) => return Err(e),
    };
    if status != StatusCode::Standard(StandardStatusCode::Success) {
        return Err(Error::Status(status));
    }
    if status_only && n != 0 {
        return Err(Error::PayloadExceedsMaxSize);
    }
    let carried = carried as usize;
    let ghost expected = zero_padded(payload@.subrange(1, 1 + carried), n as nat);
    let mut words: Vec<u32> = Vec::new();
    let mut i: usize = 0;
    while i < carried
        invariant
            carried <= n,
            1 + carried <= payload.len(),
            i <= carried,
            words@ =~= payload@.subrange(1, 1 + i as int),
        decreases carried - i,
    {
        words.push(payload[1 + i]);
        i = i + 1;
    }
    assert(expected.subrange(0, carried as int) =~= payload@.subrange(1, 1 + carried as int));
    while i < n
        invariant
            carried <= i <= n,
            words@ =~= expected.subrange(0, i as int),
            expected.len() == n,
            forall|j: int| carried <= j < n ==> expected[j] == 0u32,
        decreases n - i,
    {
        words.push(0u32);
        i = i + 1;
    }
    assert(words@ =~= expected);
    let response = C::Response::from_words(words.as_slice());
    proof {
        lemma_decode_words(response);
    }
    Ok(response)
}

/// How a `C` command ends once the platform has handed the channel back with this header and
/// payload area. When the platform flagged a channel error, the command fails with
/// `ChannelError`, and the channel status to write back is the one read with the error flag
/// cleared. Otherwise the result is the response read from the channel, and the channel status
/// is left as it is.
pub fn complete_command<C: Command>(header: &SharedMemoryHeader, payload: &[u32]) -> (r: (
    Result<C::Response, Error>,
    Option<ChannelStatus>,
))
    requires
        4 * payload@.len() <= usize::MAX,
    ensures
        if header.spec_channel_status()@ & ChannelStatus::ERROR == ChannelStatus::ERROR {
            &&& r.0 == Err::<C::Response, Error>(Error::ChannelError)
            &&& r.1 matches Some(status) && status@ == header.spec_channel_status()@ & !ChannelStatus::ERROR
        } else {
            &&& r.0 == spec_read_response::<C::Response>(
                C::spec_id(),
                header.spec_length(),
                header.spec_message_header(),
                payload@,
            )
            &&& r.1 is None
        },
{
    let mut status = header.channel_status();
    if status.contains(ChannelStatus::ERROR) {
        status.set(ChannelStatus::ERROR, false);
        return (Err(Error::ChannelError), Some(status));
    }
    (read_response::<C>(header, payload), None)
}

/// A success response to a command, on a free channel with the command's message header, whose
/// status word is followed by the words that the response carries, is read back as the response
/// whose wire form is those words padded with zero words.
pub proof fn lemma_read_success_response<C: Command>(words: Seq<u32>, payload: Seq<u32>)
    requires
        words.len() <= C::Response::spec_word_count(),
        words.len() == 0 ==> C::Response::spec_word_count() == 0,
        words.len() > 0 ==> C::Response::spec_carried_word_count(words[0]) == words.len(),
        payload.len() >= 1 + words.len(),
        payload[0] == 0,
        payload.subrange(1, 1 + words.len() as int) == words,
        8 + 4 * words.len() <= u32::MAX,
        C::spec_id().is_valid(),
    ensures
        spec_read_response::<C::Response>(
            C::spec_id(),
            (8 + 4 * words.len()) as u32,
            MessageHeader { token: TOKEN, message_id: C::spec_id() }.spec_into_u32(),
            payload,
        ) == Ok::<C::Response, Error>(
            decode::<C::Response>(zero_padded(words, C::Response::spec_word_count())),
        ),
{
    lemma_header_encode_decode(MessageHeader { token: TOKEN, message_id: C::spec_id() });
    lemma_status_code_roundtrip(StatusCode::Standard(StandardStatusCode::Success), 0);
    if words.len() > 0 {
        assert(payload[1] == words[0]);
    }
    let length = (8 + 4 * words.len()) as u32;
    assert((length - 8) / 4 == words.len());
}

} // verus!

verus! {

/// Doorbell interface.
pub trait Doorbell {
    /// Rings the doorbell.
    fn ring(&mut self);
}

/// The header that `prepare_command` writes for a command is read back as the command's message
/// header, with token `TOKEN`.
pub proof fn lemma_prepared_header<C: Command>(header: SharedMemoryHeader)
    requires
        C::spec_id().is_valid(),
        header.spec_length() >= 4,
        header.is_busy_header(
            header.spec_length(),
            MessageHeader { token: TOKEN, message_id: C::spec_id() }.spec_into_u32(),
        ),
    ensures
        header.spec_header() == Ok::<MessageHeader, Error>(MessageHeader { token: TOKEN, message_id: C::spec_id() }),
{
    lemma_header_encode_decode(MessageHeader { token: TOKEN, message_id: C::spec_id() });
}

} // verus!

verus! {

/// A success response to `BASE_DISCOVER_LIST_PROTOCOLS` that lists `n` protocols, at most 16,
/// and carries its count and the fewest identifier words `ids` that hold them, is read back as
/// the list of those `n` protocols, the `i`th being byte `i` % 4 of word `i` / 4 of `ids`.
pub proof fn lemma_read_protocol_list(n: u32, ids: Seq<u32>, payload: Seq<u32>)
    requires
        n <= 16,
        4 * ids.len() >= n,
        4 * (ids.len() - 1) < n,
        payload.len() >= 2 + ids.len(),
        payload[0] == 0,
        payload[1] == n,
        payload.subrange(2, 2 + ids.len() as int) == ids,
    ensures
        spec_read_response::<DiscoverListProtocolResponse>(
            DiscoverListProtocol::spec_id(),
            (12 + 4 * ids.len()) as u32,
            MessageHeader { token: TOKEN, message_id: DiscoverListProtocol::spec_id() }.spec_into_u32(),
            payload,
        ) matches Ok(list) && list.listed_count() == n && forall|i: int|
            0 <= i < n ==> #[trigger] list.listed_protocol(i) == byte_of_word(ids[i / 4], i % 4),
{
    lemma_list_carried_word_count(n);
    let words = seq![n] + ids;
    assert(payload.subrange(1, 1 + words.len() as int) =~= words);
    lemma_read_success_response::<DiscoverListProtocol>(words, payload);
    let padded = zero_padded(words, 5);
    let protocols: [u32; 4] = [padded[1], padded[2], padded[3], padded[4]];
    let p = DiscoverListProtocolResponse { num_protocols: n, protocols };
    assert(p.spec_words() =~= padded);
    let list = decode::<DiscoverListProtocolResponse>(padded);
    assert(list.spec_words() == padded);
    list.lemma_words(&p);
    assert forall|i: int| 0 <= i < n implies #[trigger] list.listed_protocol(i) == byte_of_word(
        ids[i / 4],
        i % 4,
    ) by {
        assert(padded[1 + i / 4] == ids[i / 4]);
    }
}

} // verus!
