//! The fixed 12-byte DNS header: transaction id, flag bits, and the four
//! big-endian section counts.

use vstd::prelude::*;

use crate::message::DNSParseError;
use crate::wire::be16;
use crate::wire::read_u16_be;

verus! {

/// The decoded DNS header: the first 12 bytes of every message.
#[derive(Debug, Clone, PartialEq, Eq, Structural)]
pub struct Header {
    pub transaction_id: u16,
    pub flags: Flags,
    pub question_count: u16,
    pub answer_count: u16,
    pub authority_count: u16,
    pub additional_count: u16,
}

/// The flag bits of header bytes 2 and 3.
#[derive(Debug, Clone, PartialEq, Eq, Structural)]
pub struct Flags {
    /// Query (`false`) or response (`true`): bit 7 of byte 2.
    pub qr: bool,
    /// Operation code: bits 3..=6 of byte 2.
    pub opcode: u8,
    /// Authoritative answer: bit 2 of byte 2.
    pub aa: bool,
    /// Truncated message: bit 1 of byte 2.
    pub tc: bool,
    /// Recursion desired: bit 0 of byte 2.
    pub rd: bool,
    /// Recursion available: bit 7 of byte 3.
    pub ra: bool,
    /// Reserved bits 4..=6 of byte 3, kept opaque, never validated.
    pub z: u8,
    /// Response code: bits 0..=3 of byte 3.
    pub rcode: u8,
}

/// The flag set held in header bytes 2 and 3.
pub open spec fn flags_form(byte2: u8, byte3: u8) -> Flags {
    Flags {
        qr: byte2 & 0x80 != 0,
        opcode: (byte2 >> 3) & 0x0F,
        aa: byte2 & 0x04 != 0,
        tc: byte2 & 0x02 != 0,
        rd: byte2 & 0x01 != 0,
        ra: byte3 & 0x80 != 0,
        z: (byte3 >> 4) & 0x07,
        rcode: byte3 & 0x0F,
    }
}

/// The header held in the first 12 bytes of `buf`, or `None` when the
/// buffer is shorter than 12 bytes.
pub open spec fn header_form(buf: Seq<u8>) -> Option<Header> {
    if buf.len() < 12 {
        None
    } else {
        Some(
            Header {
                transaction_id: be16(buf[0], buf[1]),
                flags: flags_form(buf[2], buf[3]),
                question_count: be16(buf[4], buf[5]),
                answer_count: be16(buf[6], buf[7]),
                authority_count: be16(buf[8], buf[9]),
                additional_count: be16(buf[10], buf[11]),
            },
        )
    }
}

/// Decoding the header is total on buffers of at least 12 bytes and
/// rejects every shorter buffer. The decoded fields are a pure function
/// of the bytes — `Header::parse` promises its result equals
/// `header_form` of them — so decoding the same buffer twice yields the
/// same header.
pub proof fn lemma_header_decode_total(buf: Seq<u8>)
    ensures
        buf.len() >= 12 <==> header_form(buf) is Some,
{
}

impl Header {
    /// Decodes the first 12 bytes of `buf`: bytes 0-1 are the big-endian
    /// transaction id, bytes 2-3 the flag bits, and bytes 4-11 the four
    /// big-endian section counts in the order question, answer, authority,
    /// additional. A buffer shorter than 12 bytes is rejected.
    pub fn parse(buf: &[u8]) -> (r: Result<Self, DNSParseError>)
        ensures
            r matches Ok(h) ==> header_form(buf@) == Some(h),
            r matches Err(e) ==> buf@.len() < 12 && e == DNSParseError::BufferTooShort,
            r is Ok <==> buf@.len() >= 12,
    {
        if buf.len() < 12 {
            return Err(DNSParseError::BufferTooShort);
        }

        let transaction_id = read_u16_be(buf[0], buf[1]);
        let flags_byte1 = buf[2];
        let flags_byte2 = buf[3];
        let question_count = read_u16_be(buf[4], buf[5]);
        let answer_count = read_u16_be(buf[6], buf[7]);
        let authority_count = read_u16_be(buf[8], buf[9]);
        let additional_count = read_u16_be(buf[10], buf[11]);

        let flags = Flags {
            qr: flags_byte1 & 0x80 != 0,
            opcode: (flags_byte1 >> 3) & 0x0F,
            aa: flags_byte1 & 0x04 != 0,
            tc: flags_byte1 & 0x02 != 0,
            rd: flags_byte1 & 0x01 != 0,
            ra: flags_byte2 & 0x80 != 0,
            z: (flags_byte2 >> 4) & 0x07,
            rcode: flags_byte2 & 0x0F,
        };

        Ok(
            Header {
                transaction_id,
                flags,
                question_count,
                answer_count,
                authority_count,
                additional_count,
            },
        )
    }
}

} // verus!
