//! The decoded request envelope: one header followed by the question
//! section, and the closed set of decode errors.

use vstd::prelude::*;
use vstd::slice::slice_subrange;

use crate::header::Header;
use crate::header::header_form;
use crate::question::Question;
use crate::question::question_form;
use crate::resource_record::RecordClass;
use crate::resource_record::RecordType;

verus! {

/// The decode errors: a closed set of kinds carrying no further context.
#[derive(Debug, Clone, Copy, PartialEq, Eq, Structural)]
pub enum DNSParseError {
    InvalidHeader,
    InvalidQuestion,
    InvalidResourceRecord,
    BufferTooShort,
}

impl DNSParseError {
    /// A short description of the error, suitable for logging.
    pub fn message(&self) -> (r: &'static str)
        ensures
            self is InvalidHeader ==> r@ == "Invalid DNS Header"@,
            self is InvalidQuestion ==> r@ == "Invalid DNS Question"@,
            self is InvalidResourceRecord ==> r@ == "Invalid DNS Resource Record"@,
            self is BufferTooShort ==> r@ == "Buffer is too short"@,
    {
        match self {
            DNSParseError::InvalidHeader => "Invalid DNS Header",
            DNSParseError::InvalidQuestion => "Invalid DNS Question",
            DNSParseError::InvalidResourceRecord => "Invalid DNS Resource Record",
            DNSParseError::BufferTooShort => "Buffer is too short",
        }
    }
}

/// A fully decoded request envelope: the header and the question section,
/// in wire order. Answer, authority and additional sections are never
/// parsed.
#[derive(Debug, Clone, PartialEq, Eq)]
pub struct DNSMessage {
    pub header: Header,
    pub questions: Vec<Question>,
}

/// The first `count` questions held in `buf`, each starting where the one
/// before it ended; `None` when any of them is exhausted mid-field.
pub open spec fn questions_form(buf: Seq<u8>, count: nat) -> Option<
    Seq<(Seq<char>, RecordType, RecordClass)>,
>
    decreases count,
{
    if count == 0 {
        Some(Seq::empty())
    } else {
        match question_form(buf) {
            Some((model, used)) => {
                match questions_form(buf.subrange(used, buf.len() as int), (count - 1) as nat) {
                    Some(rest) => Some(seq![model] + rest),
                    None => None,
                }
            },
            None => None,
        }
    }
}

/// The message held in `buf`: the header of the first 12 bytes, then as
/// many questions as the header's question count claims, read back to
/// back from offset 12. `None` when the header or any question fails to
/// decode.
pub open spec fn message_form(buf: Seq<u8>) -> Option<
    (
        Header,
        Seq<(Seq<char>, RecordType, RecordClass)>,
    ),
> {
    match header_form(buf) {
        Some(header) => {
            match questions_form(buf.subrange(12, buf.len() as int), header.question_count as nat) {
                Some(questions) => Some((header, questions)),
                None => None,
            }
        },
        None => None,
    }
}

impl DNSMessage {
    /// Decodes the question section: `question_count` questions read back
    /// to back from offset 12, each starting where the one before it
    /// ended. Returns the questions in wire order, or `InvalidQuestion`
    /// as soon as one of them fails to decode.
    pub fn parse_questions(query_buffer: &[u8], question_count: u16) -> (r: Result<
        Vec<Question>,
        DNSParseError,
    >)
        requires
            query_buffer@.len() >= 12,
        ensures
            r is Ok <==> questions_form(
                query_buffer@.subrange(12, query_buffer@.len() as int),
                question_count as nat,
            ) is Some,
            r matches Ok(questions) ==> questions_form(
                query_buffer@.subrange(12, query_buffer@.len() as int),
                question_count as nat,
            ) == Some(questions@.map_values(|q: Question| q.model())),
            r matches Err(e) ==> e == DNSParseError::InvalidQuestion,
    {
        let ghost len: int = query_buffer@.len() as int;
        let mut questions: Vec<Question> = Vec::new();
        let mut index: usize = 12;
        let mut parsed: u16 = 0;

        proof {
            assert(questions@.map_values(|q: Question| q.model()) =~= Seq::empty());
        }

        while parsed < question_count
            invariant
                12 <= index <= query_buffer@.len(),
                parsed <= question_count,
                questions_form(query_buffer@.subrange(12, len), question_count as nat) == (
                match questions_form(
                    query_buffer@.subrange(index as int, len),
                    (question_count - parsed) as nat,
                ) {
                    Some(rest) => Some(questions@.map_values(|q: Question| q.model()) + rest),
                    None => None::<
                        Seq<
                            (
                                Seq<char>,
                                RecordType,
                                RecordClass,
                            ),
                        >,
                    >,
                }),
                len == query_buffer@.len(),
            decreases question_count - parsed,
        {
            let sub = slice_subrange(query_buffer, index, query_buffer.len());
            let ghost cur = query_buffer@.subrange(index as int, len);
            match Question::parse(sub) {
                Ok((question, used)) => {
                    proof {
                        let (model, spec_used) = question_form(cur)->Some_0;
                        assert(cur.subrange(used as int, cur.len() as int) =~= query_buffer@
                            .subrange(index as int + used as int, len));
                        let old_models = questions@.map_values(|q: Question| q.model());
                        assert(questions@.push(question).map_values(|q: Question| q.model())
                            =~= old_models.push(question.model()));
                        let deeper = questions_form(
                            query_buffer@.subrange(index as int + used as int, len),
                            (question_count - parsed - 1) as nat,
                        );
                        if deeper is Some {
                            let rest = deeper->Some_0;
                            assert(old_models + (seq![question.model()] + rest) =~= old_models.push(
                                question.model(),
                            ) + rest);
                        }
                    }
                    questions.push(question);
                    index = index + used;
                    parsed = parsed + 1;
                },
                Err(_) => {
                    return Err(DNSParseError::InvalidQuestion);
                },
            }
        }
        proof {
            assert(questions_form(query_buffer@.subrange(index as int, len), 0) == Some(
                Seq::<
                    (
                        Seq<char>,
                        RecordType,
                        RecordClass,
                    ),
                >::empty(),
            ));
            assert(questions@.map_values(|q: Question| q.model()) + Seq::empty() =~= questions@
                .map_values(|q: Question| q.model()));
        }
        Ok(questions)
    }

    /// Decodes a full datagram: the header first, then the question
    /// section it announces. A buffer shorter than 12 bytes fails with
    /// `InvalidHeader`; a question that is exhausted mid-field fails with
    /// `InvalidQuestion`; no partial message is ever returned.
    pub fn parse(query_buffer: &[u8]) -> (r: Result<Self, DNSParseError>)
        ensures
            r is Ok <==> message_form(query_buffer@) is Some,
            r matches Ok(message) ==> message_form(query_buffer@) == Some(
                (message.header, message.questions@.map_values(|q: Question| q.model())),
            ),
            r matches Err(e) ==> {
                &&& e == DNSParseError::InvalidHeader <==> query_buffer@.len() < 12
                &&& e == DNSParseError::InvalidQuestion <==> query_buffer@.len() >= 12
            },
    {
        let header = match Header::parse(query_buffer) {
            Ok(header) => header,
            Err(_) => {
                return Err(DNSParseError::InvalidHeader);
            },
        };
        let question_count = header.question_count;
        match Self::parse_questions(query_buffer, question_count) {
            Ok(questions) => Ok(DNSMessage { header, questions }),
            Err(_) => Err(DNSParseError::InvalidQuestion),
        }
    }
}

} // verus!
