//! The ICMPv6 Echo Request that carries every pixel.
//!
//! One request is built per run and sent unchanged to every destination: the
//! address, not the payload, says what to paint.

use vstd::prelude::*;
use pnet::packet::icmpv6::echo_request::MutableEchoRequestPacket;
use pnet::packet::icmpv6::{Icmpv6Code, Icmpv6Type};
use pnet::packet::Packet;
use crate::checksum::{
    checksum, fold, internet_checksum, lemma_checksum_verifies, ones_complement_sum, word,
    word_count, word_sum, MAX_SUMMED_LEN,
};

verus! {

/// Length of the request in bytes: the 8-byte header and 56 bytes of zeros.
pub const REQUEST_LEN: usize = 64;

/// Length of the Echo Request header in bytes.
pub const HEADER_LEN: usize = 8;

/// ICMPv6 type of an Echo Request.
pub const ECHO_REQUEST: u8 = 128;

/// The only code of an Echo Request.
pub const NO_CODE: u8 = 0;

/// Index, in 16-bit words, of the checksum field.
pub const CHECKSUM_WORD: usize = 1;

/// `pnet`'s `MutableEchoRequestPacket`: a buffer read and written as an Echo
/// Request. Nothing is known of it but through `packet_bytes`.
#[verifier::external_type_specification]
#[verifier::external_body]
pub struct ExMutableEchoRequestPacket<'p>(MutableEchoRequestPacket<'p>);

/// The bytes of the buffer behind a packet, header first.
pub uninterp spec fn packet_bytes(packet: MutableEchoRequestPacket<'static>) -> Seq<u8>;

/// The more significant byte of `value`.
pub open spec fn high_byte(value: u16) -> u8 {
    (value / 0x100) as u8
}

/// The less significant byte of `value`.
pub open spec fn low_byte(value: u16) -> u8 {
    (value % 0x100) as u8
}

/// `value` written big-endian over bytes `at` and `at + 1` of `bytes`.
pub open spec fn with_u16(bytes: Seq<u8>, at: int, value: u16) -> Seq<u8> {
    bytes.update(at, high_byte(value)).update(at + 1, low_byte(value))
}

/// `MutableEchoRequestPacket::owned`: a packet over `buffer`, or `None` where
/// the buffer is shorter than the 8-byte header.
#[verifier::external_body]
fn packet_over(buffer: Vec<u8>) -> (packet: Option<MutableEchoRequestPacket<'static>>)
    ensures
        packet is Some <==> buffer@.len() >= HEADER_LEN,
        packet matches Some(p) ==> packet_bytes(p) == buffer@,
{
    MutableEchoRequestPacket::owned(buffer)
}

/// `MutableEchoRequestPacket::set_icmpv6_type`: stores the type in byte 0.
#[verifier::external_body]
fn set_icmpv6_type(packet: &mut MutableEchoRequestPacket<'static>, value: u8)
    requires
        packet_bytes(*old(packet)).len() >= HEADER_LEN,
    ensures
        packet_bytes(*final(packet)) == packet_bytes(*old(packet)).update(0, value),
{
    packet.set_icmpv6_type(Icmpv6Type::new(value));
}

/// `MutableEchoRequestPacket::set_icmpv6_code`: stores the code in byte 1.
#[verifier::external_body]
fn set_icmpv6_code(packet: &mut MutableEchoRequestPacket<'static>, value: u8)
    requires
        packet_bytes(*old(packet)).len() >= HEADER_LEN,
    ensures
        packet_bytes(*final(packet)) == packet_bytes(*old(packet)).update(1, value),
{
    packet.set_icmpv6_code(Icmpv6Code::new(value));
}

/// `MutableEchoRequestPacket::set_checksum`: stores the checksum big-endian in
/// bytes 2 and 3.
#[verifier::external_body]
fn set_checksum(packet: &mut MutableEchoRequestPacket<'static>, value: u16)
    requires
        packet_bytes(*old(packet)).len() >= HEADER_LEN,
    ensures
        packet_bytes(*final(packet)) == with_u16(packet_bytes(*old(packet)), 2, value),
{
    packet.set_checksum(value);
}

/// `MutableEchoRequestPacket::set_identifier`: stores the identifier
/// big-endian in bytes 4 and 5.
#[verifier::external_body]
fn set_identifier(packet: &mut MutableEchoRequestPacket<'static>, value: u16)
    requires
        packet_bytes(*old(packet)).len() >= HEADER_LEN,
    ensures
        packet_bytes(*final(packet)) == with_u16(packet_bytes(*old(packet)), 4, value),
{
    packet.set_identifier(value);
}

/// `MutableEchoRequestPacket::set_sequence_number`: stores the sequence number
/// big-endian in bytes 6 and 7.
#[verifier::external_body]
fn set_sequence_number(packet: &mut MutableEchoRequestPacket<'static>, value: u16)
    requires
        packet_bytes(*old(packet)).len() >= HEADER_LEN,
    ensures
        packet_bytes(*final(packet)) == with_u16(packet_bytes(*old(packet)), 6, value),
{
    packet.set_sequence_number(value);
}

/// `Packet::packet` of a `MutableEchoRequestPacket`: the whole buffer, copied out.
#[verifier::external_body]
fn packet_contents(packet: &MutableEchoRequestPacket<'static>) -> (bytes: Vec<u8>)
    ensures
        bytes@ == packet_bytes(*packet),
{
    packet.packet().to_vec()
}

/// Why a buffer cannot hold an Echo Request.
#[derive(Clone, Copy, Debug, PartialEq, Eq, Structural)]
pub enum PacketError {
    /// The buffer is shorter than the header.
    TooShort,
    /// The buffer is longer than a checksum can be taken of.
    TooLong,
}

/// `buffer` with the header of an Echo Request written over its first eight
/// bytes, the checksum still zero: type 128, code 0, identifier 0, sequence
/// number 0. What follows the header stays.
pub open spec fn with_header(buffer: Seq<u8>) -> Seq<u8> {
    Seq::new(
        buffer.len(),
        |i: int|
            if i == 0 {
                ECHO_REQUEST
            } else if i < HEADER_LEN {
                0u8
            } else {
                buffer[i]
            },
    )
}

/// The Echo Request over `buffer`: the header, and in it the checksum of the
/// whole.
pub open spec fn echo_request_over(buffer: Seq<u8>) -> Seq<u8> {
    with_u16(
        with_header(buffer),
        2,
        internet_checksum(with_header(buffer), CHECKSUM_WORD as int) as u16,
    )
}

/// The bytes of the request that is sent: type 128, code 0, checksum `0x7fff`,
/// identifier 0, sequence number 0, and zeros up to `REQUEST_LEN`.
pub open spec fn echo_request_bytes() -> Seq<u8> {
    Seq::new(
        REQUEST_LEN as nat,
        |i: int|
            if i == 0 {
                ECHO_REQUEST
            } else if i == 2 {
                0x7fu8
            } else if i == 3 {
                0xffu8
            } else {
                0u8
            },
    )
}

/// An Echo Request ready to be sent, the same for every pixel.
pub struct EchoRequestTemplate {
    bytes: Vec<u8>,
}

impl View for EchoRequestTemplate {
    type V = Seq<u8>;

    closed spec fn view(&self) -> Seq<u8> {
        self.bytes@
    }
}

impl EchoRequestTemplate {
    /// The bytes to hand to the socket.
    pub fn as_bytes(&self) -> (bytes: &[u8])
        ensures
            bytes@ == self@,
    {
        self.bytes.as_slice()
    }
}

/// The sum of the words of a buffer does not depend on the word left out.
proof fn lemma_skipped_word_is_free(a: Seq<u8>, b: Seq<u8>, n: nat, skip: int)
    requires
        forall|i: int| 0 <= i < n && i != skip ==> word(a, i) == word(b, i),
    ensures
        word_sum(a, n, skip) == word_sum(b, n, skip),
    decreases n,
{
    if n > 0 {
        lemma_skipped_word_is_free(a, b, (n - 1) as nat, skip);
    }
}

/// In a buffer whose words from the third on are all zero, the sum of the
/// words other than the second is the first word.
proof fn lemma_sum_of_header_only(data: Seq<u8>, n: nat)
    requires
        forall|i: int| 2 <= i < n ==> #[trigger] word(data, i) == 0,
    ensures
        word_sum(data, n, 1) == if n == 0 {
            0
        } else {
            word(data, 0)
        },
    decreases n,
{
    if n > 0 {
        lemma_sum_of_header_only(data, (n - 1) as nat);
    }
}

/// Writes an Echo Request over `buffer`: type 128, code 0, identifier 0 and
/// sequence number 0 into the first eight bytes, then the checksum of the
/// whole buffer into bytes 2 and 3. What follows the header is sent as it is.
/// A buffer shorter than the header, or longer than `MAX_SUMMED_LEN`, is
/// refused.
pub fn write_echo_request(buffer: Vec<u8>) -> (written: Result<EchoRequestTemplate, PacketError>)
    ensures
        buffer@.len() < HEADER_LEN ==> written == Err::<EchoRequestTemplate, _>(
            PacketError::TooShort,
        ),
        buffer@.len() > MAX_SUMMED_LEN ==> written == Err::<EchoRequestTemplate, _>(
            PacketError::TooLong,
        ),
        HEADER_LEN <= buffer@.len() <= MAX_SUMMED_LEN ==> written is Ok && written->Ok_0@
            == echo_request_over(buffer@) && ones_complement_sum(written->Ok_0@) == 0xffff
            && internet_checksum(written->Ok_0@, -1) == 0,
{
    if buffer.len() > MAX_SUMMED_LEN {
        return Err(PacketError::TooLong);
    }
    let mut packet = match packet_over(buffer) {
        Some(packet) => packet,
        None => {
            return Err(PacketError::TooShort);
        },
    };
    set_icmpv6_code(&mut packet, NO_CODE);
    set_icmpv6_type(&mut packet, ECHO_REQUEST);
    set_identifier(&mut packet, 0);
    set_sequence_number(&mut packet, 0);
    let unsummed = packet_contents(&packet);
    let sum = checksum(unsummed.as_slice(), CHECKSUM_WORD);
    set_checksum(&mut packet, sum);
    let bytes = packet_contents(&packet);
    proof {
        let header = with_header(buffer@);
        let n = word_count(header);
        assert(bytes@.len() == header.len() == unsummed@.len());
        assert forall|i: int| 0 <= i < n && i != 1 implies word(unsummed@, i) == word(
            header,
            i,
        ) by {
            if i > 0 {
                assert(2 * i >= 4);
            }
        }
        lemma_skipped_word_is_free(unsummed@, header, n, 1);
        assert(bytes@ =~= echo_request_over(buffer@));
        assert forall|i: int| 0 <= i < n && i != 1 implies word(bytes@, i) == word(header, i) by {
            if i > 0 {
                assert(2 * i >= 4);
            }
        }
        lemma_skipped_word_is_free(bytes@, header, n, 1);
        assert(word(bytes@, 1) == sum) by {
            assert(bytes@[2] == high_byte(sum));
            assert(bytes@[3] == low_byte(sum));
        }
        lemma_checksum_verifies(bytes@, 1);
    }
    Ok(EchoRequestTemplate { bytes })
}

/// Builds the request that is sent for every pixel: an Echo Request over
/// `REQUEST_LEN` zero bytes.
pub fn build_echo_request() -> (template: EchoRequestTemplate)
    ensures
        template@ == echo_request_bytes(),
        ones_complement_sum(template@) == 0xffff,
        internet_checksum(template@, -1) == 0,
{
    let mut buffer: Vec<u8> = Vec::new();
    while buffer.len() < REQUEST_LEN
        invariant
            buffer@.len() <= REQUEST_LEN,
            forall|i: int| 0 <= i < buffer@.len() ==> buffer@[i] == 0,
        decreases REQUEST_LEN - buffer@.len(),
    {
        buffer.push(0);
    }
    proof {
        let header = with_header(buffer@);
        assert(word(header, 0) == 0x8000);
        assert forall|i: int| 2 <= i < 32 implies #[trigger] word(header, i) == 0 by {
            assert(header[2 * i] == 0);
            assert(header[2 * i + 1] == 0);
        }
        lemma_sum_of_header_only(header, 32);
        assert(fold(0x8000) == 0x8000);
        assert(internet_checksum(header, 1) == 0x7fff);
        assert(echo_request_over(buffer@) =~= echo_request_bytes());
    }
    write_echo_request(buffer).unwrap()
}

} // verus!
