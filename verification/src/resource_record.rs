//! Generic resource records: the name-then-fixed-fields shape shared by
//! every record section, and the closed type and class code tables.

use vstd::prelude::*;
use vstd::slice::slice_subrange;
use vstd::slice::slice_to_vec;

use crate::message::DNSParseError;
use crate::name::decode_name;
use crate::name::dotted;
use crate::name::lemma_name_labels_bounds;
use crate::name::name_labels;
use crate::name::utf8_dotted;
use crate::name::utf8_labels;
use crate::wire::be16;
use crate::wire::be32;
use crate::wire::read_u16_be;
use crate::wire::read_u32_be;

verus! {

/// A DNS record class code, with an `Unknown` fallback carrying any
/// unrecognized raw value.
#[derive(Debug, Clone, Copy, PartialEq, Eq, Structural)]
pub enum RecordClass {
    /// Internet (code 1).
    IN,
    /// Chaos (code 3).
    CH,
    /// Hesiod (code 4).
    HS,
    /// None (code 254).
    NONE,
    /// Any class (code 255).
    ANY,
    /// Option pseudo-class used for EDNS (code 41).
    OPT,
    /// Any code outside the closed table, carrying the raw value.
    Unknown(u16),
}

/// The class that a 16-bit class code decodes to.
pub open spec fn record_class_of(value: u16) -> RecordClass {
    match value {
        1 => RecordClass::IN,
        3 => RecordClass::CH,
        4 => RecordClass::HS,
        254 => RecordClass::NONE,
        255 => RecordClass::ANY,
        41 => RecordClass::OPT,
        _ => RecordClass::Unknown(value),
    }
}

/// The class codes of the closed table.
pub open spec fn known_class_code(value: u16) -> bool {
    ||| value == 1
    ||| value == 3
    ||| value == 4
    ||| value == 254
    ||| value == 41
    ||| value == 255
}

/// A class code outside the closed table decodes to the `Unknown` variant
/// carrying the raw code, never to a failure.
pub proof fn lemma_unrecognized_class_code(value: u16)
    ensures
        record_class_of(value) is Unknown <==> !known_class_code(value),
        !known_class_code(value) ==> record_class_of(value) == RecordClass::Unknown(value),
{
}

impl RecordClass {
    /// Maps a 16-bit class code through the closed table, defaulting to
    /// `Unknown` with the raw value for unrecognized codes.
    pub fn from_u16(value: u16) -> (r: Self)
        ensures
            r == record_class_of(value),
    {
        match value {
            1 => RecordClass::IN,
            3 => RecordClass::CH,
            4 => RecordClass::HS,
            254 => RecordClass::NONE,
            255 => RecordClass::ANY,
            41 => RecordClass::OPT,
            _ => RecordClass::Unknown(value),
        }
    }
}

/// A DNS record type code, with an `Unknown` fallback carrying any
/// unrecognized raw value.
#[derive(Debug, Clone, Copy, PartialEq, Eq, Structural)]
pub enum RecordType {
    /// IPv4 address (code 1).
    A,
    /// Name server (code 2).
    NS,
    /// Mail destination (obsolete) (code 3).
    MD,
    /// Mail forwarder (obsolete) (code 4).
    MF,
    /// Canonical name for an alias (code 5).
    CNAME,
    /// Start of a zone of authority (code 6).
    SOA,
    /// Mailbox domain name (experimental) (code 7).
    MB,
    /// Mail group member (experimental) (code 8).
    MG,
    /// Mail rename domain name (experimental) (code 9).
    MR,
    /// Null resource record (experimental) (code 10).
    Null,
    /// Domain name pointer (code 12).
    PTR,
    /// Host information (code 13).
    HINFO,
    /// Mailbox or mail list information (code 14).
    MINFO,
    /// Mail exchange (code 15).
    MX,
    /// Text strings (code 16).
    TXT,
    /// Responsible person (code 17).
    RP,
    /// AFS database record (code 18).
    AFSDB,
    /// X.25 PSDN address (code 19).
    X25,
    /// ISDN address (code 20).
    ISDN,
    /// Route through (code 21).
    RT,
    /// NSAP pointer (code 23).
    NSAPPTR,
    /// Signature (code 24).
    SIG,
    /// Key record (code 25).
    KEY,
    /// Pointer to X.400 mail mapping information (code 26).
    PX,
    /// Geographical position (code 27).
    GPOS,
    /// IPv6 address (code 28).
    AAAA,
    /// Location information (code 29).
    LOC,
    /// Next domain (obsolete) (code 30).
    NXT,
    /// Endpoint identifier (code 31).
    EID,
    /// Nimrod locator (code 32).
    NIMLOC,
    /// Service locator (code 33).
    SRV,
    /// ATM address (code 34).
    ATMA,
    /// Naming authority pointer (code 35).
    NAPTR,
    /// Key exchanger (code 36).
    KX,
    /// Certificate (code 37).
    CERT,
    /// Delegation name (code 39).
    DNAME,
    /// Option (used for EDNS) (code 41).
    OPT,
    /// Address prefix list (code 42).
    APL,
    /// Delegation signer (code 43).
    DS,
    /// SSH fingerprint (code 44).
    SSHFP,
    /// IPSEC key (code 45).
    IPSECKEY,
    /// Resource record signature (code 46).
    RRSIG,
    /// Next secure record (code 47).
    NSEC,
    /// DNS key record (code 48).
    DNSKEY,
    /// DHCP identifier (code 49).
    DHCID,
    /// Next secure record version 3 (code 50).
    NSEC3,
    /// NSEC3 parameters (code 51).
    NSEC3PARAM,
    /// TLS authentication (code 52).
    TLSA,
    /// S/MIME cert association (code 53).
    SMIMEA,
    /// Host identity protocol (code 55).
    HIP,
    /// Zone information (code 56).
    NINFO,
    /// RKEY record (code 57).
    RKEY,
    /// Trust anchor link (code 58).
    TALINK,
    /// Child DS (code 59).
    CDS,
    /// Child DNSKEY (code 60).
    CDNSKEY,
    /// OpenPGP key (code 61).
    OPENPGPKEY,
    /// Child-to-parent synchronization (code 62).
    CSYNC,
    /// Zone MD record (code 63).
    ZONEMD,
    /// Service binding (code 64).
    SVCB,
    /// HTTPS binding (code 65).
    HTTPS,
    /// Sender policy framework (code 99).
    SPF,
    /// User information (experimental) (code 100).
    UINFO,
    /// User ID (experimental) (code 101).
    UID,
    /// Group ID (experimental) (code 102).
    GID,
    /// Unspecified format (experimental) (code 103).
    UNSPEC,
    /// Node identifier (code 104).
    NID,
    /// Locator 32-bit (code 105).
    L32,
    /// Locator 64-bit (code 106).
    L64,
    /// Locator pointer (code 107).
    LP,
    /// MAC address (EUI-48) (code 108).
    EUI48,
    /// MAC address (EUI-64) (code 109).
    EUI64,
    /// Non-existent domain (code 128).
    NXNAME,
    /// Uniform resource identifier (code 256).
    URI,
    /// Certification authority authorization (code 257).
    CAA,
    /// Application visibility and control (code 258).
    AVC,
    /// Automatic multicast tunneling relay (code 260).
    AMTRELAY,
    /// Transaction key (code 249).
    TKEY,
    /// Transaction signature (code 250).
    TSIG,
    /// Incremental zone transfer (code 251).
    IXFR,
    /// Authoritative zone transfer (code 252).
    AXFR,
    /// Mailbox-related RRs (code 253).
    MAILB,
    /// Mail agent RRs (code 254).
    MAILA,
    /// Any type of record (code 255).
    ANY,
    /// Trust authority (code 32768).
    TA,
    /// DNSSEC lookaside validation (code 32769).
    DLV,
    /// Reserved (code 65535).
    Reserved,
    /// Any code outside the closed table, carrying the raw value.
    Unknown(u16),
}

/// The type that a 16-bit record type code decodes to.
pub open spec fn record_type_of(value: u16) -> RecordType {
    match value {
        1 => RecordType::A,
        2 => RecordType::NS,
        3 => RecordType::MD,
        4 => RecordType::MF,
        5 => RecordType::CNAME,
        6 => RecordType::SOA,
        7 => RecordType::MB,
        8 => RecordType::MG,
        9 => RecordType::MR,
        10 => RecordType::Null,
        12 => RecordType::PTR,
        13 => RecordType::HINFO,
        14 => RecordType::MINFO,
        15 => RecordType::MX,
        16 => RecordType::TXT,
        17 => RecordType::RP,
        18 => RecordType::AFSDB,
        19 => RecordType::X25,
        20 => RecordType::ISDN,
        21 => RecordType::RT,
        23 => RecordType::NSAPPTR,
        24 => RecordType::SIG,
        25 => RecordType::KEY,
        26 => RecordType::PX,
        27 => RecordType::GPOS,
        28 => RecordType::AAAA,
        29 => RecordType::LOC,
        30 => RecordType::NXT,
        31 => RecordType::EID,
        32 => RecordType::NIMLOC,
        33 => RecordType::SRV,
        34 => RecordType::ATMA,
        35 => RecordType::NAPTR,
        36 => RecordType::KX,
        37 => RecordType::CERT,
        39 => RecordType::DNAME,
        41 => RecordType::OPT,
        42 => RecordType::APL,
        43 => RecordType::DS,
        44 => RecordType::SSHFP,
        45 => RecordType::IPSECKEY,
        46 => RecordType::RRSIG,
        47 => RecordType::NSEC,
        48 => RecordType::DNSKEY,
        49 => RecordType::DHCID,
        50 => RecordType::NSEC3,
        51 => RecordType::NSEC3PARAM,
        52 => RecordType::TLSA,
        53 => RecordType::SMIMEA,
        55 => RecordType::HIP,
        56 => RecordType::NINFO,
        57 => RecordType::RKEY,
        58 => RecordType::TALINK,
        59 => RecordType::CDS,
        60 => RecordType::CDNSKEY,
        61 => RecordType::OPENPGPKEY,
        62 => RecordType::CSYNC,
        63 => RecordType::ZONEMD,
        64 => RecordType::SVCB,
        65 => RecordType::HTTPS,
        99 => RecordType::SPF,
        100 => RecordType::UINFO,
        101 => RecordType::UID,
        102 => RecordType::GID,
        103 => RecordType::UNSPEC,
        104 => RecordType::NID,
        105 => RecordType::L32,
        106 => RecordType::L64,
        107 => RecordType::LP,
        108 => RecordType::EUI48,
        109 => RecordType::EUI64,
        128 => RecordType::NXNAME,
        256 => RecordType::URI,
        257 => RecordType::CAA,
        258 => RecordType::AVC,
        260 => RecordType::AMTRELAY,
        249 => RecordType::TKEY,
        250 => RecordType::TSIG,
        251 => RecordType::IXFR,
        252 => RecordType::AXFR,
        253 => RecordType::MAILB,
        254 => RecordType::MAILA,
        255 => RecordType::ANY,
        32768 => RecordType::TA,
        32769 => RecordType::DLV,
        65535 => RecordType::Reserved,
        _ => RecordType::Unknown(value),
    }
}

/// The record type codes of the closed table.
pub open spec fn known_type_code(value: u16) -> bool {
    ||| value == 1
    ||| value == 2
    ||| value == 3
    ||| value == 4
    ||| value == 5
    ||| value == 6
    ||| value == 7
    ||| value == 8
    ||| value == 9
    ||| value == 10
    ||| value == 12
    ||| value == 13
    ||| value == 14
    ||| value == 15
    ||| value == 16
    ||| value == 17
    ||| value == 18
    ||| value == 19
    ||| value == 20
    ||| value == 21
    ||| value == 23
    ||| value == 24
    ||| value == 25
    ||| value == 26
    ||| value == 27
    ||| value == 28
    ||| value == 29
    ||| value == 30
    ||| value == 31
    ||| value == 32
    ||| value == 33
    ||| value == 34
    ||| value == 35
    ||| value == 36
    ||| value == 37
    ||| value == 39
    ||| value == 41
    ||| value == 42
    ||| value == 43
    ||| value == 44
    ||| value == 45
    ||| value == 46
    ||| value == 47
    ||| value == 48
    ||| value == 49
    ||| value == 50
    ||| value == 51
    ||| value == 52
    ||| value == 53
    ||| value == 55
    ||| value == 56
    ||| value == 57
    ||| value == 58
    ||| value == 59
    ||| value == 60
    ||| value == 61
    ||| value == 62
    ||| value == 63
    ||| value == 64
    ||| value == 65
    ||| value == 99
    ||| value == 100
    ||| value == 101
    ||| value == 102
    ||| value == 103
    ||| value == 104
    ||| value == 105
    ||| value == 106
    ||| value == 107
    ||| value == 108
    ||| value == 109
    ||| value == 128
    ||| value == 256
    ||| value == 257
    ||| value == 258
    ||| value == 260
    ||| value == 249
    ||| value == 250
    ||| value == 251
    ||| value == 252
    ||| value == 253
    ||| value == 254
    ||| value == 255
    ||| value == 32768
    ||| value == 32769
    ||| value == 65535
}

/// A type code outside the closed table decodes to the `Unknown` variant
/// carrying the raw code, never to a failure.
pub proof fn lemma_unrecognized_type_code(value: u16)
    ensures
        record_type_of(value) is Unknown <==> !known_type_code(value),
        !known_type_code(value) ==> record_type_of(value) == RecordType::Unknown(value),
{
}

impl RecordType {
    /// Maps a 16-bit record type code through the closed table, defaulting
    /// to `Unknown` with the raw value for unrecognized codes.
    pub fn from_u16(value: u16) -> (r: Self)
        ensures
            r == record_type_of(value),
    {
        match value {
            1 => RecordType::A,
            2 => RecordType::NS,
            3 => RecordType::MD,
            4 => RecordType::MF,
            5 => RecordType::CNAME,
            6 => RecordType::SOA,
            7 => RecordType::MB,
            8 => RecordType::MG,
            9 => RecordType::MR,
            10 => RecordType::Null,
            12 => RecordType::PTR,
            13 => RecordType::HINFO,
            14 => RecordType::MINFO,
            15 => RecordType::MX,
            16 => RecordType::TXT,
            17 => RecordType::RP,
            18 => RecordType::AFSDB,
            19 => RecordType::X25,
            20 => RecordType::ISDN,
            21 => RecordType::RT,
            23 => RecordType::NSAPPTR,
            24 => RecordType::SIG,
            25 => RecordType::KEY,
            26 => RecordType::PX,
            27 => RecordType::GPOS,
            28 => RecordType::AAAA,
            29 => RecordType::LOC,
            30 => RecordType::NXT,
            31 => RecordType::EID,
            32 => RecordType::NIMLOC,
            33 => RecordType::SRV,
            34 => RecordType::ATMA,
            35 => RecordType::NAPTR,
            36 => RecordType::KX,
            37 => RecordType::CERT,
            39 => RecordType::DNAME,
            41 => RecordType::OPT,
            42 => RecordType::APL,
            43 => RecordType::DS,
            44 => RecordType::SSHFP,
            45 => RecordType::IPSECKEY,
            46 => RecordType::RRSIG,
            47 => RecordType::NSEC,
            48 => RecordType::DNSKEY,
            49 => RecordType::DHCID,
            50 => RecordType::NSEC3,
            51 => RecordType::NSEC3PARAM,
            52 => RecordType::TLSA,
            53 => RecordType::SMIMEA,
            55 => RecordType::HIP,
            56 => RecordType::NINFO,
            57 => RecordType::RKEY,
            58 => RecordType::TALINK,
            59 => RecordType::CDS,
            60 => RecordType::CDNSKEY,
            61 => RecordType::OPENPGPKEY,
            62 => RecordType::CSYNC,
            63 => RecordType::ZONEMD,
            64 => RecordType::SVCB,
            65 => RecordType::HTTPS,
            99 => RecordType::SPF,
            100 => RecordType::UINFO,
            101 => RecordType::UID,
            102 => RecordType::GID,
            103 => RecordType::UNSPEC,
            104 => RecordType::NID,
            105 => RecordType::L32,
            106 => RecordType::L64,
            107 => RecordType::LP,
            108 => RecordType::EUI48,
            109 => RecordType::EUI64,
            128 => RecordType::NXNAME,
            256 => RecordType::URI,
            257 => RecordType::CAA,
            258 => RecordType::AVC,
            260 => RecordType::AMTRELAY,
            249 => RecordType::TKEY,
            250 => RecordType::TSIG,
            251 => RecordType::IXFR,
            252 => RecordType::AXFR,
            253 => RecordType::MAILB,
            254 => RecordType::MAILA,
            255 => RecordType::ANY,
            32768 => RecordType::TA,
            32769 => RecordType::DLV,
            65535 => RecordType::Reserved,
            _ => RecordType::Unknown(value),
        }
    }
}

/// A generic resource record: the shared name/type/class shape plus a
/// 32-bit TTL and a raw data slice of exactly `data_length` bytes, copied
/// into an owned buffer.
#[derive(Debug, Clone, PartialEq, Eq)]
pub struct ResourceRecord {
    pub name: String,
    pub record_type: RecordType,
    pub class: RecordClass,
    pub ttl: u32,
    pub data_length: u16,
    pub data: Vec<u8>,
}

impl ResourceRecord {
    /// The record's fields as mathematical values.
    pub open spec fn model(self) -> (Seq<char>, RecordType, RecordClass, u32, u16, Seq<u8>) {
        (self.name@, self.record_type, self.class, self.ttl, self.data_length, self.data@)
    }
}

/// The resource record held at the start of `buf`, with the number of
/// bytes it occupies: a name, a 16-bit type code, a 16-bit class code, a
/// 32-bit TTL, a 16-bit data length, and exactly that many data bytes,
/// every integer big-endian. `None` when the buffer is exhausted
/// mid-field.
pub open spec fn resource_record_form(buf: Seq<u8>) -> Option<
    ((Seq<char>, RecordType, RecordClass, u32, u16, Seq<u8>), int),
> {
    match name_labels(buf, 0) {
        Some((labels, end)) => {
            if end + 10 <= buf.len() {
                let data_length = be16(buf[end + 8], buf[end + 9]);
                if end + 10 + data_length <= buf.len() {
                    Some(
                        (
                            (
                                dotted(labels),
                                record_type_of(be16(buf[end], buf[end + 1])),
                                record_class_of(be16(buf[end + 2], buf[end + 3])),
                                be32(buf[end + 4], buf[end + 5], buf[end + 6], buf[end + 7]),
                                data_length,
                                buf.subrange(end + 10, end + 10 + data_length),
                            ),
                            end + 10 + data_length,
                        ),
                    )
                } else {
                    None
                }
            } else {
                None
            }
        },
        None => None,
    }
}

impl ResourceRecord {
    /// Decodes one resource record from the start of `buf`: the name, the
    /// big-endian type, class, TTL and data length, and an owned copy of
    /// the data bytes. Returns the record and the number of bytes it
    /// occupied, or `InvalidResourceRecord` when the buffer is exhausted
    /// mid-field or the name is malformed.
    pub fn parse(query_buffer: &[u8]) -> (r: Result<(Self, usize), DNSParseError>)
        ensures
            r is Ok <==> resource_record_form(query_buffer@) is Some,
            r matches Ok((record, used)) ==> resource_record_form(query_buffer@) == Some(
                (record.model(), used as int),
            ),
            r matches Ok((record, used)) ==> name_labels(query_buffer@, 0) matches Some(
                (labels, e),
            ) && (utf8_labels(labels) ==> record.name@ == utf8_dotted(labels)),
            r matches Err(e) ==> e == DNSParseError::InvalidResourceRecord,
    {
        let name_part = decode_name(query_buffer, 0);
        match name_part {
            None => Err(DNSParseError::InvalidResourceRecord),
            Some((name, end)) => {
                proof {
                    lemma_name_labels_bounds(query_buffer@, 0);
                }
                if query_buffer.len() - end < 10 {
                    return Err(DNSParseError::InvalidResourceRecord);
                }
                let record_type = RecordType::from_u16(
                    read_u16_be(query_buffer[end], query_buffer[end + 1]),
                );
                let class = RecordClass::from_u16(
                    read_u16_be(query_buffer[end + 2], query_buffer[end + 3]),
                );
                let ttl = read_u32_be(
                    query_buffer[end + 4],
                    query_buffer[end + 5],
                    query_buffer[end + 6],
                    query_buffer[end + 7],
                );
                let data_length = read_u16_be(query_buffer[end + 8], query_buffer[end + 9]);
                if (data_length as usize) > query_buffer.len() - end - 10 {
                    return Err(DNSParseError::InvalidResourceRecord);
                }
                let data = slice_to_vec(
                    slice_subrange(query_buffer, end + 10, end + 10 + data_length as usize),
                );
                Ok(
                    (
                        ResourceRecord {
                            name,
                            record_type,
                            class,
                            ttl,
                            data_length,
                            data,
                        },
                        end + 10 + data_length as usize,
                    ),
                )
            },
        }
    }
}

} // verus!
