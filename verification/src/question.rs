//! One question-section entry: a name followed by big-endian 16-bit type
//! and class codes.

use vstd::prelude::*;

use crate::message::DNSParseError;
use crate::name::decode_name;
use crate::name::dotted;
use crate::name::lemma_name_labels_bounds;
use crate::name::name_labels;
use crate::name::utf8_dotted;
use crate::name::utf8_labels;
use crate::resource_record::RecordClass;
use crate::resource_record::RecordType;
use crate::resource_record::record_class_of;
use crate::resource_record::record_type_of;
use crate::wire::be16;
use crate::wire::read_u16_be;

verus! {

/// One entry of the question section.
#[derive(Debug, Clone, PartialEq, Eq)]
pub struct Question {
    pub name: String,
    pub record_type: RecordType,
    pub class: RecordClass,
}

impl Question {
    /// The question's fields as mathematical values.
    pub open spec fn model(self) -> (Seq<char>, RecordType, RecordClass) {
        (self.name@, self.record_type, self.class)
    }
}

/// The question held at the start of `buf`, with the number of bytes it
/// occupies: a name, then a big-endian 16-bit type code mapped through the
/// closed type table, then a big-endian 16-bit class code mapped through
/// the closed class table. `None` when the buffer is exhausted mid-field.
pub open spec fn question_form(buf: Seq<u8>) -> Option<
    ((Seq<char>, RecordType, RecordClass), int),
> {
    match name_labels(buf, 0) {
        Some((labels, end)) => {
            if end + 4 <= buf.len() {
                Some(
                    (
                        (
                            dotted(labels),
                            record_type_of(be16(buf[end], buf[end + 1])),
                            record_class_of(be16(buf[end + 2], buf[end + 3])),
                        ),
                        end + 4,
                    ),
                )
            } else {
                None
            }
        },
        None => None,
    }
}

impl Question {
    /// Decodes one question from the start of `buf`: the name, then the
    /// big-endian type and class codes, each mapped through its closed
    /// table with an `Unknown` fallback. Returns the question and the
    /// number of bytes it occupied, or `InvalidQuestion` when the buffer
    /// is exhausted mid-field or the name is malformed.
    pub fn parse(query_buffer: &[u8]) -> (r: Result<(Self, usize), DNSParseError>)
        ensures
            r is Ok <==> question_form(query_buffer@) is Some,
            r matches Ok((question, used)) ==> question_form(query_buffer@) == Some(
                (question.model(), used as int),
            ),
            r matches Ok((question, used)) ==> name_labels(query_buffer@, 0) matches Some(
                (labels, e),
            ) && (utf8_labels(labels) ==> question.name@ == utf8_dotted(labels)),
            r matches Err(e) ==> e == DNSParseError::InvalidQuestion,
    {
        let name_part = decode_name(query_buffer, 0);
        match name_part {
            None => Err(DNSParseError::InvalidQuestion),
            Some((name, end)) => {
                proof {
                    lemma_name_labels_bounds(query_buffer@, 0);
                }
                if query_buffer.len() - end < 4 {
                    return Err(DNSParseError::InvalidQuestion);
                }
                let record_type = RecordType::from_u16(
                    read_u16_be(query_buffer[end], query_buffer[end + 1]),
                );
                let class = RecordClass::from_u16(
                    read_u16_be(query_buffer[end + 2], query_buffer[end + 3]),
                );
                Ok((Question { name, record_type, class }, end + 4))
            },
        }
    }
}

} // verus!
