//! A standalone query entry: a name, a query type mapped through the
//! closed table, and the raw 16-bit class code left unmapped.

use vstd::prelude::*;

use crate::message::DNSParseError;
use crate::name::decode_name;
use crate::name::dotted;
use crate::name::lemma_name_labels_bounds;
use crate::name::name_labels;
use crate::name::utf8_dotted;
use crate::name::utf8_labels;
use crate::wire::be16;
use crate::wire::read_u16_be;

verus! {

/// A DNS query type code, with an `Unknown` fallback carrying any
/// unrecognized raw value.
#[derive(Debug, Clone, Copy, PartialEq, Eq, Structural)]
pub enum QueryType {
    /// IPv4 address (code 1).
    A,
    /// Name server (code 2).
    NS,
    /// Mail destination (obsolete) (code 3).
    MD,
    /// Mail forwarder (obsolete) (code 4).
    MF,
    /// Canonical name for an alias (code 5).
    CNAME,
    /// Start of a zone of authority (code 6).
    SOA,
    /// Mailbox domain name (experimental) (code 7).
    MB,
    /// Mail group member (experimental) (code 8).
    MG,
    /// Mail rename domain name (experimental) (code 9).
    MR,
    /// Null resource record (experimental) (code 10).
    Null,
    /// Domain name pointer (code 12).
    PTR,
    /// Host information (code 13).
    HINFO,
    /// Mailbox or mail list information (code 14).
    MINFO,
    /// Mail exchange (code 15).
    MX,
    /// Text strings (code 16).
    TXT,
    /// Responsible person (code 17).
    RP,
    /// AFS database record (code 18).
    AFSDB,
    /// X.25 PSDN address (code 19).
    X25,
    /// ISDN address (code 20).
    ISDN,
    /// Route through (code 21).
    RT,
    /// NSAP pointer (code 23).
    NSAPPTR,
    /// Signature (code 24).
    SIG,
    /// Key record (code 25).
    KEY,
    /// Pointer to X.400 mail mapping information (code 26).
    PX,
    /// Geographical position (code 27).
    GPOS,
    /// IPv6 address (code 28).
    AAAA,
    /// Location information (code 29).
    LOC,
    /// Next domain (obsolete) (code 30).
    NXT,
    /// Endpoint identifier (code 31).
    EID,
    /// Nimrod locator (code 32).
    NIMLOC,
    /// Service locator (code 33).
    SRV,
    /// ATM address (code 34).
    ATMA,
    /// Naming authority pointer (code 35).
    NAPTR,
    /// Key exchanger (code 36).
    KX,
    /// Certificate (code 37).
    CERT,
    /// Delegation name (code 39).
    DNAME,
    /// Option (used for EDNS) (code 41).
    OPT,
    /// Address prefix list (code 42).
    APL,
    /// Delegation signer (code 43).
    DS,
    /// SSH fingerprint (code 44).
    SSHFP,
    /// IPSEC key (code 45).
    IPSECKEY,
    /// Resource record signature (code 46).
    RRSIG,
    /// Next secure record (code 47).
    NSEC,
    /// DNS key record (code 48).
    DNSKEY,
    /// DHCP identifier (code 49).
    DHCID,
    /// Next secure record version 3 (code 50).
    NSEC3,
    /// NSEC3 parameters (code 51).
    NSEC3PARAM,
    /// TLS authentication (code 52).
    TLSA,
    /// S/MIME cert association (code 53).
    SMIMEA,
    /// Host identity protocol (code 55).
    HIP,
    /// Zone information (code 56).
    NINFO,
    /// RKEY record (code 57).
    RKEY,
    /// Trust anchor link (code 58).
    TALINK,
    /// Child DS (code 59).
    CDS,
    /// Child DNSKEY (code 60).
    CDNSKEY,
    /// OpenPGP key (code 61).
    OPENPGPKEY,
    /// Child-to-parent synchronization (code 62).
    CSYNC,
    /// Zone MD record (code 63).
    ZONEMD,
    /// Service binding (code 64).
    SVCB,
    /// HTTPS binding (code 65).
    HTTPS,
    /// Sender policy framework (code 99).
    SPF,
    /// User information (experimental) (code 100).
    UINFO,
    /// User ID (experimental) (code 101).
    UID,
    /// Group ID (experimental) (code 102).
    GID,
    /// Unspecified format (experimental) (code 103).
    UNSPEC,
    /// Node identifier (code 104).
    NID,
    /// Locator 32-bit (code 105).
    L32,
    /// Locator 64-bit (code 106).
    L64,
    /// Locator pointer (code 107).
    LP,
    /// MAC address (EUI-48) (code 108).
    EUI48,
    /// MAC address (EUI-64) (code 109).
    EUI64,
    /// Non-existent domain (code 128).
    NXNAME,
    /// Uniform resource identifier (code 256).
    URI,
    /// Certification authority authorization (code 257).
    CAA,
    /// Application visibility and control (code 258).
    AVC,
    /// Automatic multicast tunneling relay (code 260).
    AMTRELAY,
    /// Transaction key (code 249).
    TKEY,
    /// Transaction signature (code 250).
    TSIG,
    /// Incremental zone transfer (code 251).
    IXFR,
    /// Authoritative zone transfer (code 252).
    AXFR,
    /// Mailbox-related RRs (code 253).
    MAILB,
    /// Mail agent RRs (code 254).
    MAILA,
    /// Any type of record (code 255).
    ANY,
    /// Trust authority (code 32768).
    TA,
    /// DNSSEC lookaside validation (code 32769).
    DLV,
    /// Reserved (code 65535).
    Reserved,
    /// Any code outside the closed table, carrying the raw value.
    Unknown(u16),
}

/// The query type that a 16-bit code decodes to.
pub open spec fn query_type_of(value: u16) -> QueryType {
    match value {
        1 => QueryType::A,
        2 => QueryType::NS,
        3 => QueryType::MD,
        4 => QueryType::MF,
        5 => QueryType::CNAME,
        6 => QueryType::SOA,
        7 => QueryType::MB,
        8 => QueryType::MG,
        9 => QueryType::MR,
        10 => QueryType::Null,
        12 => QueryType::PTR,
        13 => QueryType::HINFO,
        14 => QueryType::MINFO,
        15 => QueryType::MX,
        16 => QueryType::TXT,
        17 => QueryType::RP,
        18 => QueryType::AFSDB,
        19 => QueryType::X25,
        20 => QueryType::ISDN,
        21 => QueryType::RT,
        23 => QueryType::NSAPPTR,
        24 => QueryType::SIG,
        25 => QueryType::KEY,
        26 => QueryType::PX,
        27 => QueryType::GPOS,
        28 => QueryType::AAAA,
        29 => QueryType::LOC,
        30 => QueryType::NXT,
        31 => QueryType::EID,
        32 => QueryType::NIMLOC,
        33 => QueryType::SRV,
        34 => QueryType::ATMA,
        35 => QueryType::NAPTR,
        36 => QueryType::KX,
        37 => QueryType::CERT,
        39 => QueryType::DNAME,
        41 => QueryType::OPT,
        42 => QueryType::APL,
        43 => QueryType::DS,
        44 => QueryType::SSHFP,
        45 => QueryType::IPSECKEY,
        46 => QueryType::RRSIG,
        47 => QueryType::NSEC,
        48 => QueryType::DNSKEY,
        49 => QueryType::DHCID,
        50 => QueryType::NSEC3,
        51 => QueryType::NSEC3PARAM,
        52 => QueryType::TLSA,
        53 => QueryType::SMIMEA,
        55 => QueryType::HIP,
        56 => QueryType::NINFO,
        57 => QueryType::RKEY,
        58 => QueryType::TALINK,
        59 => QueryType::CDS,
        60 => QueryType::CDNSKEY,
        61 => QueryType::OPENPGPKEY,
        62 => QueryType::CSYNC,
        63 => QueryType::ZONEMD,
        64 => QueryType::SVCB,
        65 => QueryType::HTTPS,
        99 => QueryType::SPF,
        100 => QueryType::UINFO,
        101 => QueryType::UID,
        102 => QueryType::GID,
        103 => QueryType::UNSPEC,
        104 => QueryType::NID,
        105 => QueryType::L32,
        106 => QueryType::L64,
        107 => QueryType::LP,
        108 => QueryType::EUI48,
        109 => QueryType::EUI64,
        128 => QueryType::NXNAME,
        256 => QueryType::URI,
        257 => QueryType::CAA,
        258 => QueryType::AVC,
        260 => QueryType::AMTRELAY,
        249 => QueryType::TKEY,
        250 => QueryType::TSIG,
        251 => QueryType::IXFR,
        252 => QueryType::AXFR,
        253 => QueryType::MAILB,
        254 => QueryType::MAILA,
        255 => QueryType::ANY,
        32768 => QueryType::TA,
        32769 => QueryType::DLV,
        65535 => QueryType::Reserved,
        _ => QueryType::Unknown(value),
    }
}

/// The query type codes of the closed table.
pub open spec fn known_query_type_code(value: u16) -> bool {
    ||| value == 1
    ||| value == 2
    ||| value == 3
    ||| value == 4
    ||| value == 5
    ||| value == 6
    ||| value == 7
    ||| value == 8
    ||| value == 9
    ||| value == 10
    ||| value == 12
    ||| value == 13
    ||| value == 14
    ||| value == 15
    ||| value == 16
    ||| value == 17
    ||| value == 18
    ||| value == 19
    ||| value == 20
    ||| value == 21
    ||| value == 23
    ||| value == 24
    ||| value == 25
    ||| value == 26
    ||| value == 27
    ||| value == 28
    ||| value == 29
    ||| value == 30
    ||| value == 31
    ||| value == 32
    ||| value == 33
    ||| value == 34
    ||| value == 35
    ||| value == 36
    ||| value == 37
    ||| value == 39
    ||| value == 41
    ||| value == 42
    ||| value == 43
    ||| value == 44
    ||| value == 45
    ||| value == 46
    ||| value == 47
    ||| value == 48
    ||| value == 49
    ||| value == 50
    ||| value == 51
    ||| value == 52
    ||| value == 53
    ||| value == 55
    ||| value == 56
    ||| value == 57
    ||| value == 58
    ||| value == 59
    ||| value == 60
    ||| value == 61
    ||| value == 62
    ||| value == 63
    ||| value == 64
    ||| value == 65
    ||| value == 99
    ||| value == 100
    ||| value == 101
    ||| value == 102
    ||| value == 103
    ||| value == 104
    ||| value == 105
    ||| value == 106
    ||| value == 107
    ||| value == 108
    ||| value == 109
    ||| value == 128
    ||| value == 256
    ||| value == 257
    ||| value == 258
    ||| value == 260
    ||| value == 249
    ||| value == 250
    ||| value == 251
    ||| value == 252
    ||| value == 253
    ||| value == 254
    ||| value == 255
    ||| value == 32768
    ||| value == 32769
    ||| value == 65535
}

/// A query type code outside the closed table decodes to the `Unknown`
/// variant carrying the raw code, never to a failure.
pub proof fn lemma_unrecognized_query_type_code(value: u16)
    ensures
        query_type_of(value) is Unknown <==> !known_query_type_code(value),
        !known_query_type_code(value) ==> query_type_of(value) == QueryType::Unknown(value),
{
}

impl QueryType {
    /// Maps a 16-bit query type code through the closed table, defaulting
    /// to `Unknown` with the raw value for unrecognized codes.
    pub fn from_u16(value: u16) -> (r: Self)
        ensures
            r == query_type_of(value),
    {
        match value {
            1 => QueryType::A,
            2 => QueryType::NS,
            3 => QueryType::MD,
            4 => QueryType::MF,
            5 => QueryType::CNAME,
            6 => QueryType::SOA,
            7 => QueryType::MB,
            8 => QueryType::MG,
            9 => QueryType::MR,
            10 => QueryType::Null,
            12 => QueryType::PTR,
            13 => QueryType::HINFO,
            14 => QueryType::MINFO,
            15 => QueryType::MX,
            16 => QueryType::TXT,
            17 => QueryType::RP,
            18 => QueryType::AFSDB,
            19 => QueryType::X25,
            20 => QueryType::ISDN,
            21 => QueryType::RT,
            23 => QueryType::NSAPPTR,
            24 => QueryType::SIG,
            25 => QueryType::KEY,
            26 => QueryType::PX,
            27 => QueryType::GPOS,
            28 => QueryType::AAAA,
            29 => QueryType::LOC,
            30 => QueryType::NXT,
            31 => QueryType::EID,
            32 => QueryType::NIMLOC,
            33 => QueryType::SRV,
            34 => QueryType::ATMA,
            35 => QueryType::NAPTR,
            36 => QueryType::KX,
            37 => QueryType::CERT,
            39 => QueryType::DNAME,
            41 => QueryType::OPT,
            42 => QueryType::APL,
            43 => QueryType::DS,
            44 => QueryType::SSHFP,
            45 => QueryType::IPSECKEY,
            46 => QueryType::RRSIG,
            47 => QueryType::NSEC,
            48 => QueryType::DNSKEY,
            49 => QueryType::DHCID,
            50 => QueryType::NSEC3,
            51 => QueryType::NSEC3PARAM,
            52 => QueryType::TLSA,
            53 => QueryType::SMIMEA,
            55 => QueryType::HIP,
            56 => QueryType::NINFO,
            57 => QueryType::RKEY,
            58 => QueryType::TALINK,
            59 => QueryType::CDS,
            60 => QueryType::CDNSKEY,
            61 => QueryType::OPENPGPKEY,
            62 => QueryType::CSYNC,
            63 => QueryType::ZONEMD,
            64 => QueryType::SVCB,
            65 => QueryType::HTTPS,
            99 => QueryType::SPF,
            100 => QueryType::UINFO,
            101 => QueryType::UID,
            102 => QueryType::GID,
            103 => QueryType::UNSPEC,
            104 => QueryType::NID,
            105 => QueryType::L32,
            106 => QueryType::L64,
            107 => QueryType::LP,
            108 => QueryType::EUI48,
            109 => QueryType::EUI64,
            128 => QueryType::NXNAME,
            256 => QueryType::URI,
            257 => QueryType::CAA,
            258 => QueryType::AVC,
            260 => QueryType::AMTRELAY,
            249 => QueryType::TKEY,
            250 => QueryType::TSIG,
            251 => QueryType::IXFR,
            252 => QueryType::AXFR,
            253 => QueryType::MAILB,
            254 => QueryType::MAILA,
            255 => QueryType::ANY,
            32768 => QueryType::TA,
            32769 => QueryType::DLV,
            65535 => QueryType::Reserved,
            _ => QueryType::Unknown(value),
        }
    }
}

/// A standalone query entry; unlike a question, the class code is kept as
/// its raw 16-bit value.
#[derive(Debug, Clone, PartialEq, Eq)]
pub struct Query {
    pub name: String,
    pub query_type: QueryType,
    pub query_class: u16,
}

impl Query {
    /// The query's fields as mathematical values.
    pub open spec fn model(self) -> (Seq<char>, QueryType, u16) {
        (self.name@, self.query_type, self.query_class)
    }
}

/// The query held at the start of `buf`, with the number of bytes it
/// occupies: a name, then a big-endian 16-bit type code mapped through the
/// closed query type table, then the raw big-endian 16-bit class code.
/// `None` when the buffer is exhausted mid-field.
pub open spec fn query_form(buf: Seq<u8>) -> Option<((Seq<char>, QueryType, u16), int)> {
    match name_labels(buf, 0) {
        Some((labels, end)) => {
            if end + 4 <= buf.len() {
                Some(
                    (
                        (
                            dotted(labels),
                            query_type_of(be16(buf[end], buf[end + 1])),
                            be16(buf[end + 2], buf[end + 3]),
                        ),
                        end + 4,
                    ),
                )
            } else {
                None
            }
        },
        None => None,
    }
}

impl Query {
    /// Decodes one query from the start of `buf`: the name, then the
    /// big-endian type code mapped through the closed table, then the raw
    /// class code. Returns the query and the number of bytes it occupied,
    /// or `InvalidQuestion` when the buffer is exhausted mid-field or the
    /// name is malformed.
    pub fn parse(query_buffer: &[u8]) -> (r: Result<(Self, usize), DNSParseError>)
        ensures
            r is Ok <==> query_form(query_buffer@) is Some,
            r matches Ok((query, used)) ==> query_form(query_buffer@) == Some(
                (query.model(), used as int),
            ),
            r matches Ok((query, used)) ==> name_labels(query_buffer@, 0) matches Some(
                (labels, e),
            ) && (utf8_labels(labels) ==> query.name@ == utf8_dotted(labels)),
            r matches Err(e) ==> e == DNSParseError::InvalidQuestion,
    {
        let name_part = decode_name(query_buffer, 0);
        match name_part {
            None => Err(DNSParseError::InvalidQuestion),
            Some((name, end)) => {
                proof {
                    lemma_name_labels_bounds(query_buffer@, 0);
                }
                if query_buffer.len() - end < 4 {
                    return Err(DNSParseError::InvalidQuestion);
                }
                let query_type = QueryType::from_u16(
                    read_u16_be(query_buffer[end], query_buffer[end + 1]),
                );
                let query_class = read_u16_be(query_buffer[end + 2], query_buffer[end + 3]);
                Ok((Query { name, query_type, query_class }, end + 4))
            },
        }
    }
}

} // verus!
