//! A minimal DNS forwarding relay library.
//!
//! The crate decodes the DNS wire format far enough to inspect a query —
//! the fixed 12-byte header, length-prefixed domain names, the question
//! section, and the generic resource-record shape — and models the
//! forward-and-wait relay protocol that sends the raw query bytes to an
//! upstream resolver and returns the raw reply verbatim.

mod header;
mod message;
mod name;
mod query;
mod question;
mod resource_record;
mod server;
mod wire;

pub use header::Flags;
pub use header::Header;
pub use header::flags_form;
pub use header::header_form;
pub use header::lemma_header_decode_total;
pub use message::DNSMessage;
pub use message::DNSParseError;
pub use message::message_form;
pub use message::questions_form;
pub use name::all_ascii;
pub use name::ascii_chars;
pub use name::decode_name;
pub use name::dotted;
pub use name::lemma_ascii_decode;
pub use name::encodable_labels;
pub use name::encode_name;
pub use name::lemma_name_round_trip;
pub use name::lemma_name_labels_bounds;
pub use name::lossy_chars;
pub use name::name_labels;
pub use name::utf8_dotted;
pub use name::utf8_labels;
pub use query::Query;
pub use query::QueryType;
pub use query::known_query_type_code;
pub use query::lemma_unrecognized_query_type_code;
pub use query::query_form;
pub use query::query_type_of;
pub use question::Question;
pub use question::question_form;
pub use resource_record::RecordClass;
pub use resource_record::RecordType;
pub use resource_record::ResourceRecord;
pub use resource_record::known_class_code;
pub use resource_record::known_type_code;
pub use resource_record::lemma_unrecognized_class_code;
pub use resource_record::lemma_unrecognized_type_code;
pub use resource_record::record_class_of;
pub use resource_record::record_type_of;
pub use resource_record::resource_record_form;
pub use server::MAX_DATAGRAM_LEN;
pub use server::RELAY_TIMEOUT_SECS;
pub use server::RelayError;
pub use server::ServerAction;
pub use server::ServerEvent;
pub use server::ServerState;
pub use server::relay_reply;
pub use server::reply_for;
pub use server::server_step;
pub use wire::be16;
pub use wire::be32;
pub use wire::read_u16_be;
pub use wire::read_u32_be;
