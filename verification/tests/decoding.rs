use tinydns::DNSMessage;
use tinydns::DNSParseError;
use tinydns::Header;
use tinydns::Query;
use tinydns::QueryType;
use tinydns::Question;
use tinydns::RecordClass;
use tinydns::RecordType;
use tinydns::ResourceRecord;
use tinydns::decode_name;

#[test]
fn header_decode_flag_bits() {
    let buf = [0x12, 0x34, 0x81, 0x80, 0x00, 0x01, 0x00, 0x02, 0x00, 0x03, 0x00, 0x04];
    let header = Header::parse(&buf).unwrap();
    assert_eq!(header.transaction_id, 0x1234);
    assert!(header.flags.qr);
    assert_eq!(header.flags.opcode, 0);
    assert!(!header.flags.aa);
    assert!(!header.flags.tc);
    assert!(header.flags.rd);
    assert!(header.flags.ra);
    assert_eq!(header.flags.z, 0);
    assert_eq!(header.flags.rcode, 0);
    assert_eq!(header.question_count, 1);
    assert_eq!(header.answer_count, 2);
    assert_eq!(header.authority_count, 3);
    assert_eq!(header.additional_count, 4);
}

#[test]
fn header_decode_every_flag_field() {
    let buf = [0x00, 0x00, 0x7D, 0x75, 0x00, 0x00, 0x00, 0x00, 0x00, 0x00, 0x00, 0x00];
    let header = Header::parse(&buf).unwrap();
    assert!(!header.flags.qr);
    assert_eq!(header.flags.opcode, 0x0F);
    assert!(header.flags.aa);
    assert!(!header.flags.tc);
    assert!(header.flags.rd);
    assert!(!header.flags.ra);
    assert_eq!(header.flags.z, 7);
    assert_eq!(header.flags.rcode, 5);
}

#[test]
fn header_decode_is_deterministic() {
    let buf = [0xAB, 0xCD, 0x01, 0x20, 0x00, 0x01, 0x00, 0x00, 0x00, 0x00, 0x00, 0x01, 0xFF];
    let first = Header::parse(&buf).unwrap();
    let second = Header::parse(&buf).unwrap();
    assert_eq!(first, second);
}

#[test]
fn header_rejects_short_buffer() {
    for len in 0..12 {
        let buf = vec![0u8; len];
        assert_eq!(Header::parse(&buf), Err(DNSParseError::BufferTooShort));
    }
}

#[test]
fn name_decode_round_trip() {
    let buf = [
        7, b'e', b'x', b'a', b'm', b'p', b'l', b'e', 3, b'c', b'o', b'm', 0,
    ];
    let (name, consumed) = decode_name(&buf, 0).unwrap();
    assert_eq!(name, "example.com");
    assert_eq!(consumed, 13);
}

#[test]
fn name_decode_root() {
    let buf = [0u8];
    let (name, consumed) = decode_name(&buf, 0).unwrap();
    assert_eq!(name, "");
    assert_eq!(consumed, 1);
}

#[test]
fn name_decode_at_offset() {
    let buf = [0xFF, 0xFF, 2, b'i', b'o', 0, 9, 9];
    let (name, consumed) = decode_name(&buf, 2).unwrap();
    assert_eq!(name, "io");
    assert_eq!(consumed, 6);
}

#[test]
fn name_decode_rejects_compression_pointer() {
    assert!(decode_name(&[0xC0, 0x0C], 0).is_none());
    let buf = [1, b'a', 0xC0, 0x0C];
    assert!(decode_name(&buf, 0).is_none());
}

#[test]
fn name_decode_rejects_truncated_label() {
    assert!(decode_name(&[3, b'a', b'b'], 0).is_none());
}

#[test]
fn name_decode_rejects_missing_terminator() {
    assert!(decode_name(&[1, b'a'], 0).is_none());
    assert!(decode_name(&[], 0).is_none());
}

#[test]
fn name_decode_substitutes_invalid_utf8() {
    let buf = [2, 0xFF, 0xFE, 0];
    let (name, consumed) = decode_name(&buf, 0).unwrap();
    assert_eq!(name, "\u{FFFD}\u{FFFD}");
    assert_eq!(consumed, 4);
}

#[test]
fn question_decode() {
    let buf = [1, b'a', 2, b'i', b'o', 0, 0x00, 0x01, 0x00, 0x01];
    let (question, consumed) = Question::parse(&buf).unwrap();
    assert_eq!(question.name, "a.io");
    assert_eq!(question.record_type, RecordType::A);
    assert_eq!(question.class, RecordClass::IN);
    assert_eq!(consumed, 10);
}

#[test]
fn question_decode_unknown_codes() {
    let buf = [1, b'a', 0, 0xFF, 0xFE, 0xFF, 0xFE];
    let (question, _) = Question::parse(&buf).unwrap();
    assert_eq!(question.record_type, RecordType::Unknown(0xFFFE));
    assert_eq!(question.class, RecordClass::Unknown(0xFFFE));
}

#[test]
fn question_rejects_truncated_fields() {
    let buf = [1, b'a', 0, 0x00, 0x01, 0x00];
    assert_eq!(Question::parse(&buf), Err(DNSParseError::InvalidQuestion));
}

#[test]
fn question_rejects_bad_name() {
    let buf = [9, b'a', 0, 0x00, 0x01, 0x00, 0x01];
    assert_eq!(Question::parse(&buf), Err(DNSParseError::InvalidQuestion));
}

#[test]
fn query_decode_keeps_raw_class() {
    let buf = [1, b'a', 2, b'i', b'o', 0, 0x00, 0x01, 0x00, 0x03];
    let (query, consumed) = Query::parse(&buf).unwrap();
    assert_eq!(query.name, "a.io");
    assert_eq!(query.query_type, QueryType::A);
    assert_eq!(query.query_class, 3);
    assert_eq!(consumed, 10);
}

#[test]
fn query_decode_unknown_type() {
    let buf = [1, b'a', 0, 0xFF, 0xFE, 0x00, 0x01];
    let (query, _) = Query::parse(&buf).unwrap();
    assert_eq!(query.query_type, QueryType::Unknown(0xFFFE));
}

#[test]
fn record_type_table() {
    assert_eq!(RecordType::from_u16(1), RecordType::A);
    assert_eq!(RecordType::from_u16(2), RecordType::NS);
    assert_eq!(RecordType::from_u16(5), RecordType::CNAME);
    assert_eq!(RecordType::from_u16(28), RecordType::AAAA);
    assert_eq!(RecordType::from_u16(33), RecordType::SRV);
    assert_eq!(RecordType::from_u16(249), RecordType::TKEY);
    assert_eq!(RecordType::from_u16(255), RecordType::ANY);
    assert_eq!(RecordType::from_u16(256), RecordType::URI);
    assert_eq!(RecordType::from_u16(32768), RecordType::TA);
    assert_eq!(RecordType::from_u16(65535), RecordType::Reserved);
}

#[test]
fn record_type_unknown_codes_carry_value() {
    assert_eq!(RecordType::from_u16(0), RecordType::Unknown(0));
    assert_eq!(RecordType::from_u16(11), RecordType::Unknown(11));
    assert_eq!(RecordType::from_u16(38), RecordType::Unknown(38));
    assert_eq!(RecordType::from_u16(0xFFFE), RecordType::Unknown(0xFFFE));
}

#[test]
fn record_class_table() {
    assert_eq!(RecordClass::from_u16(1), RecordClass::IN);
    assert_eq!(RecordClass::from_u16(3), RecordClass::CH);
    assert_eq!(RecordClass::from_u16(4), RecordClass::HS);
    assert_eq!(RecordClass::from_u16(41), RecordClass::OPT);
    assert_eq!(RecordClass::from_u16(254), RecordClass::NONE);
    assert_eq!(RecordClass::from_u16(255), RecordClass::ANY);
    assert_eq!(RecordClass::from_u16(2), RecordClass::Unknown(2));
    assert_eq!(RecordClass::from_u16(0xFFFE), RecordClass::Unknown(0xFFFE));
}

#[test]
fn query_type_table() {
    assert_eq!(QueryType::from_u16(1), QueryType::A);
    assert_eq!(QueryType::from_u16(12), QueryType::PTR);
    assert_eq!(QueryType::from_u16(16), QueryType::TXT);
    assert_eq!(QueryType::from_u16(65), QueryType::HTTPS);
    assert_eq!(QueryType::from_u16(32769), QueryType::DLV);
    assert_eq!(QueryType::from_u16(0xFFFE), QueryType::Unknown(0xFFFE));
}

#[test]
fn message_decode_header_only() {
    let buf = [0x12, 0x34, 0x01, 0x00, 0x00, 0x00, 0x00, 0x00, 0x00, 0x00, 0x00, 0x00];
    let message = DNSMessage::parse(&buf).unwrap();
    assert_eq!(message.header.transaction_id, 0x1234);
    assert_eq!(message.header.question_count, 0);
    assert!(message.questions.is_empty());
}

#[test]
fn message_decode_single_question() {
    let mut buf = vec![0xBE, 0xEF, 0x01, 0x00, 0x00, 0x01, 0x00, 0x00, 0x00, 0x00, 0x00, 0x00];
    buf.extend_from_slice(&[1, b'a', 2, b'i', b'o', 0, 0x00, 0x01, 0x00, 0x01]);
    let message = DNSMessage::parse(&buf).unwrap();
    assert_eq!(message.questions.len(), 1);
    assert_eq!(message.questions[0].name, "a.io");
    assert_eq!(message.questions[0].record_type, RecordType::A);
    assert_eq!(message.questions[0].class, RecordClass::IN);
}

#[test]
fn message_decode_advances_past_each_question() {
    let mut buf = vec![0x00, 0x01, 0x01, 0x00, 0x00, 0x02, 0x00, 0x00, 0x00, 0x00, 0x00, 0x00];
    buf.extend_from_slice(&[1, b'a', 2, b'i', b'o', 0, 0x00, 0x01, 0x00, 0x01]);
    buf.extend_from_slice(&[
        7, b'e', b'x', b'a', b'm', b'p', b'l', b'e', 3, b'c', b'o', b'm', 0, 0x00, 0x1C, 0x00,
        0x01,
    ]);
    let message = DNSMessage::parse(&buf).unwrap();
    assert_eq!(message.questions.len(), 2);
    assert_eq!(message.questions[0].name, "a.io");
    assert_eq!(message.questions[0].record_type, RecordType::A);
    assert_eq!(message.questions[1].name, "example.com");
    assert_eq!(message.questions[1].record_type, RecordType::AAAA);
}

#[test]
fn message_rejects_short_header() {
    let buf = [0x12, 0x34, 0x01];
    assert_eq!(DNSMessage::parse(&buf), Err(DNSParseError::InvalidHeader));
}

#[test]
fn message_rejects_missing_question() {
    let buf = [0x12, 0x34, 0x01, 0x00, 0x00, 0x01, 0x00, 0x00, 0x00, 0x00, 0x00, 0x00];
    assert_eq!(DNSMessage::parse(&buf), Err(DNSParseError::InvalidQuestion));
}

#[test]
fn message_rejects_overclaimed_question_count() {
    let mut buf = vec![0x12, 0x34, 0x01, 0x00, 0x00, 0x03, 0x00, 0x00, 0x00, 0x00, 0x00, 0x00];
    buf.extend_from_slice(&[1, b'a', 0, 0x00, 0x01, 0x00, 0x01]);
    assert_eq!(DNSMessage::parse(&buf), Err(DNSParseError::InvalidQuestion));
}

#[test]
fn resource_record_decode() {
    let buf = [
        3, b'w', b'w', b'w', 0, 0x00, 0x01, 0x00, 0x01, 0x00, 0x00, 0x0E, 0x10, 0x00, 0x04, 1, 2,
        3, 4,
    ];
    let (record, consumed) = ResourceRecord::parse(&buf).unwrap();
    assert_eq!(record.name, "www");
    assert_eq!(record.record_type, RecordType::A);
    assert_eq!(record.class, RecordClass::IN);
    assert_eq!(record.ttl, 3600);
    assert_eq!(record.data_length, 4);
    assert_eq!(record.data, vec![1, 2, 3, 4]);
    assert_eq!(consumed, 19);
}

#[test]
fn resource_record_rejects_truncated_data() {
    let buf = [
        3, b'w', b'w', b'w', 0, 0x00, 0x01, 0x00, 0x01, 0x00, 0x00, 0x0E, 0x10, 0x00, 0x05, 1, 2,
        3, 4,
    ];
    assert_eq!(
        ResourceRecord::parse(&buf),
        Err(DNSParseError::InvalidResourceRecord)
    );
}

#[test]
fn resource_record_rejects_missing_fixed_fields() {
    let buf = [3, b'w', b'w', b'w', 0, 0x00, 0x01];
    assert_eq!(
        ResourceRecord::parse(&buf),
        Err(DNSParseError::InvalidResourceRecord)
    );
}

#[test]
fn error_messages() {
    assert_eq!(DNSParseError::InvalidHeader.message(), "Invalid DNS Header");
    assert_eq!(DNSParseError::InvalidQuestion.message(), "Invalid DNS Question");
    assert_eq!(
        DNSParseError::InvalidResourceRecord.message(),
        "Invalid DNS Resource Record"
    );
    assert_eq!(DNSParseError::BufferTooShort.message(), "Buffer is too short");
}

#[test]
fn parse_questions_directly() {
    let mut buf = vec![0x00, 0x01, 0x01, 0x00, 0x00, 0x02, 0x00, 0x00, 0x00, 0x00, 0x00, 0x00];
    buf.extend_from_slice(&[1, b'a', 0, 0x00, 0x01, 0x00, 0x01]);
    buf.extend_from_slice(&[2, b'i', b'o', 0, 0x00, 0x10, 0x00, 0x03]);
    let questions = DNSMessage::parse_questions(&buf, 2).unwrap();
    assert_eq!(questions.len(), 2);
    assert_eq!(questions[0].name, "a");
    assert_eq!(questions[0].class, RecordClass::IN);
    assert_eq!(questions[1].name, "io");
    assert_eq!(questions[1].record_type, RecordType::TXT);
    assert_eq!(questions[1].class, RecordClass::CH);
    assert_eq!(
        DNSMessage::parse_questions(&buf, 3),
        Err(DNSParseError::InvalidQuestion)
    );
}
