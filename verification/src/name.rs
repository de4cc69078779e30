//! Domain names on the wire: a run of length-prefixed labels ended by a
//! zero-length label, decoded into a dotted name.
//!
//! Label bytes are decoded permissively: invalid UTF-8 sequences are
//! substituted, never rejected. A length byte with the two high bits set
//! (a compression pointer, 192 and above) is outside this decoder's
//! contract and is rejected.

use vstd::assert_seqs_equal;
use vstd::prelude::*;
use vstd::slice::slice_subrange;
use vstd::string::StringExecFns;
use vstd::utf8::decode_utf8;
use vstd::utf8::valid_utf8;

verus! {

/// The characters that `String::from_utf8_lossy` decodes the given bytes
/// to; a function of the bytes alone.
pub uninterp spec fn lossy_chars(bytes: Seq<u8>) -> Seq<char>;

/// Relies on `String::from_utf8_lossy`: the result depends on the bytes
/// alone, and bytes that form valid UTF-8 decode to exactly the characters
/// they encode (invalid sequences are substituted instead of rejected).
#[verifier::external_body]
fn utf8_lossy(bytes: &[u8]) -> (r: String)
    ensures
        r@ == lossy_chars(bytes@),
        valid_utf8(bytes@) ==> r@ == decode_utf8(bytes@),
{
    String::from_utf8_lossy(bytes).into_owned()
}

/// The labels of the name that starts at offset `start` of `buf`, together
/// with the offset just past the terminating zero byte; `None` when the
/// name runs past the end of the buffer or a length byte carries the
/// compression-pointer bits (192 and above).
pub open spec fn name_labels(buf: Seq<u8>, start: int) -> Option<(Seq<Seq<u8>>, int)>
    decreases buf.len() - start,
{
    if start < 0 || start >= buf.len() {
        None
    } else if buf[start] == 0 {
        Some((Seq::empty(), start + 1))
    } else if buf[start] >= 192 {
        None
    } else if start + 1 + buf[start] > buf.len() {
        None
    } else {
        match name_labels(buf, start + 1 + buf[start]) {
            Some((rest, end)) => Some(
                (seq![buf.subrange(start + 1, start + 1 + buf[start])] + rest, end),
            ),
            None => None,
        }
    }
}

/// The dotted name formed by the given label byte sequences: each label
/// decoded permissively, the labels joined by `'.'`, with no trailing
/// separator.
pub open spec fn dotted(labels: Seq<Seq<u8>>) -> Seq<char>
    decreases labels.len(),
{
    if labels.len() == 0 {
        Seq::empty()
    } else if labels.len() == 1 {
        lossy_chars(labels[0])
    } else {
        lossy_chars(labels[0]) + seq!['.'] + dotted(labels.drop_first())
    }
}

/// A decoded name lies inside the buffer: it starts at `start`, consumes
/// at least the terminating zero byte, and ends within the buffer.
pub proof fn lemma_name_labels_bounds(buf: Seq<u8>, start: int)
    requires
        name_labels(buf, start) is Some,
    ensures
        name_labels(buf, start) matches Some((labels, end)) ==> start < end <= buf.len(),
    decreases buf.len() - start,
{
    if 0 <= start < buf.len() && buf[start] != 0 && buf[start] < 192 && start + 1 + buf[start]
        <= buf.len() {
        lemma_name_labels_bounds(buf, start + 1 + buf[start]);
    }
}

/// Appending one more label to a dotted name appends a separator (when the
/// name is not empty so far) and the label's characters.
proof fn lemma_dotted_push(labels: Seq<Seq<u8>>, label: Seq<u8>)
    ensures
        labels.len() == 0 ==> dotted(labels.push(label)) == lossy_chars(label),
        labels.len() > 0 ==> dotted(labels.push(label)) == dotted(labels) + seq!['.']
            + lossy_chars(label),
    decreases labels.len(),
{
    let pushed = labels.push(label);
    if labels.len() == 0 {
        assert(pushed.len() == 1);
        assert(pushed[0] == label);
    } else {
        assert(pushed[0] == labels[0]);
        assert(pushed.drop_first() =~= labels.drop_first().push(label));
        lemma_dotted_push(labels.drop_first(), label);
        if labels.len() == 1 {
            assert(dotted(pushed) == lossy_chars(labels[0]) + seq!['.'] + lossy_chars(label));
        } else {
            assert(dotted(labels) == lossy_chars(labels[0]) + seq!['.'] + dotted(
                labels.drop_first(),
            ));
            assert(dotted(labels) + seq!['.'] + lossy_chars(label) == lossy_chars(labels[0])
                + seq!['.'] + (dotted(labels.drop_first()) + seq!['.'] + lossy_chars(label))) by {
                assert(dotted(labels) + seq!['.'] + lossy_chars(label) =~= lossy_chars(labels[0])
                    + seq!['.'] + (dotted(labels.drop_first()) + seq!['.'] + lossy_chars(label)));
            }
        }
    }
}

/// Labels whose bytes each form valid UTF-8; permissive decoding leaves
/// such labels unchanged.
pub open spec fn utf8_labels(labels: Seq<Seq<u8>>) -> bool {
    forall|i: int| 0 <= i < labels.len() ==> valid_utf8(#[trigger] labels[i])
}

/// The dotted name formed by labels of valid UTF-8: each label's encoded
/// characters, the labels joined by `'.'`.
pub open spec fn utf8_dotted(labels: Seq<Seq<u8>>) -> Seq<char>
    decreases labels.len(),
{
    if labels.len() == 0 {
        Seq::empty()
    } else if labels.len() == 1 {
        decode_utf8(labels[0])
    } else {
        decode_utf8(labels[0]) + seq!['.'] + utf8_dotted(labels.drop_first())
    }
}

/// Appending one more label of valid UTF-8 to a dotted name appends a
/// separator (when the name is not empty so far) and the label's
/// characters.
proof fn lemma_utf8_dotted_push(labels: Seq<Seq<u8>>, label: Seq<u8>)
    ensures
        labels.len() == 0 ==> utf8_dotted(labels.push(label)) == decode_utf8(label),
        labels.len() > 0 ==> utf8_dotted(labels.push(label)) == utf8_dotted(labels) + seq!['.']
            + decode_utf8(label),
    decreases labels.len(),
{
    let pushed = labels.push(label);
    if labels.len() == 0 {
        assert(pushed.len() == 1);
        assert(pushed[0] == label);
    } else {
        assert(pushed[0] == labels[0]);
        assert(pushed.drop_first() =~= labels.drop_first().push(label));
        lemma_utf8_dotted_push(labels.drop_first(), label);
        if labels.len() == 1 {
            assert(utf8_dotted(pushed) == decode_utf8(labels[0]) + seq!['.'] + decode_utf8(label));
        } else {
            assert(utf8_dotted(labels) == decode_utf8(labels[0]) + seq!['.'] + utf8_dotted(
                labels.drop_first(),
            ));
            assert(utf8_dotted(labels) + seq!['.'] + decode_utf8(label) =~= decode_utf8(labels[0])
                + seq!['.'] + (utf8_dotted(labels.drop_first()) + seq!['.'] + decode_utf8(label)));
        }
    }
}

/// Bytes that are all ASCII (below 128).
pub open spec fn all_ascii(bytes: Seq<u8>) -> bool {
    forall|i: int| 0 <= i < bytes.len() ==> #[trigger] bytes[i] < 128
}

/// The characters that ASCII bytes spell, one character per byte.
pub open spec fn ascii_chars(bytes: Seq<u8>) -> Seq<char> {
    bytes.map_values(|b: u8| b as char)
}

/// ASCII bytes are valid UTF-8 and decode to themselves, one character
/// per byte.
pub proof fn lemma_ascii_decode(bytes: Seq<u8>)
    requires
        all_ascii(bytes),
    ensures
        valid_utf8(bytes),
        decode_utf8(bytes) == ascii_chars(bytes),
    decreases bytes.len(),
{
    if bytes.len() == 0 {
        assert(decode_utf8(bytes) =~= ascii_chars(bytes));
    } else {
        let b = bytes[0];
        assert(b < 128);
        assert(b & 0x7F == b) by (bit_vector)
            requires
                b < 128,
        ;
        assert(vstd::utf8::is_leading_byte_width_1(b));
        assert(vstd::utf8::valid_first_scalar(bytes));
        assert(vstd::utf8::length_of_first_scalar(bytes) == 1);
        let rest = vstd::utf8::pop_first_scalar(bytes);
        assert(rest =~= bytes.drop_first());
        assert(all_ascii(rest)) by {
            assert(forall|i: int| 0 <= i < rest.len() ==> rest[i] == bytes[i + 1]);
        }
        lemma_ascii_decode(rest);
        assert(vstd::utf8::decode_first_scalar(bytes) == b as u32);
        assert(decode_utf8(bytes) =~= ascii_chars(bytes));
    }
}

/// The wire encoding of the given labels: each label preceded by its
/// length byte, the run ended by a zero-length label.
pub open spec fn encode_name(labels: Seq<Seq<u8>>) -> Seq<u8>
    decreases labels.len(),
{
    if labels.len() == 0 {
        seq![0u8]
    } else {
        seq![labels[0].len() as u8] + labels[0] + encode_name(labels.drop_first())
    }
}

/// Labels that the wire format can carry: each nonempty, and short enough
/// that its length byte stays clear of the compression-pointer bits.
pub open spec fn encodable_labels(labels: Seq<Seq<u8>>) -> bool {
    forall|i: int| 0 <= i < labels.len() ==> 1 <= (#[trigger] labels[i]).len() < 192
}

proof fn lemma_decode_encoded_at(buf: Seq<u8>, start: int, labels: Seq<Seq<u8>>)
    requires
        encodable_labels(labels),
        0 <= start,
        start + encode_name(labels).len() <= buf.len(),
        buf.subrange(start, start + encode_name(labels).len() as int) == encode_name(labels),
    ensures
        name_labels(buf, start) == Some((labels, start + encode_name(labels).len())),
    decreases labels.len(),
{
    let enc = encode_name(labels);
    let sub = buf.subrange(start, start + enc.len() as int);
    if labels.len() == 0 {
        assert(buf[start] == enc[0]) by {
            assert(sub[0] == buf[start]);
        }
        assert(labels =~= Seq::<Seq<u8>>::empty());
    } else {
        let label = labels[0];
        let n = label.len() as int;
        let rest = labels.drop_first();
        let enc_rest = encode_name(rest);
        assert(1 <= n < 192);
        assert(enc == seq![label.len() as u8] + label + enc_rest);
        assert(enc.len() == 1 + n + enc_rest.len());
        assert(buf[start] == enc[0]) by {
            assert(sub[0] == buf[start]);
        }
        assert(enc[0] == n as u8);
        let next = start + 1 + n;
        assert_seqs_equal!(buf.subrange(next, next + enc_rest.len() as int), enc_rest, k => {
            assert(sub[1 + n + k] == buf[start + 1 + n + k]);
            assert(enc[1 + n + k] == enc_rest[k]);
        });
        lemma_decode_encoded_at(buf, next, rest);
        assert_seqs_equal!(buf.subrange(start + 1, start + 1 + n), label, k => {
            assert(sub[1 + k] == buf[start + 1 + k]);
            assert(enc[1 + k] == label[k]);
        });
        assert(seq![label] + rest =~= labels);
    }
}

/// Round trip of the name codec: decoding the wire encoding of any run of
/// encodable labels yields exactly those labels back, consuming exactly
/// the encoded bytes (label bytes, length bytes, and the terminating zero
/// byte); the decoded name is their dotted join.
pub proof fn lemma_name_round_trip(labels: Seq<Seq<u8>>)
    requires
        encodable_labels(labels),
    ensures
        name_labels(encode_name(labels), 0) == Some(
            (labels, encode_name(labels).len() as int),
        ),
{
    let enc = encode_name(labels);
    assert(enc.subrange(0, enc.len() as int) =~= enc);
    lemma_decode_encoded_at(enc, 0, labels);
}

/// Decodes the name that starts at offset `start` of `buf`: reads one
/// length byte, takes that many bytes as a label, and repeats until a
/// zero length byte ends the name. Returns the dotted name and the offset
/// just past the terminating zero byte, or `None` when the name runs past
/// the buffer or a length byte carries the compression-pointer bits.
pub fn decode_name(buf: &[u8], start: usize) -> (r: Option<(String, usize)>)
    ensures
        r is Some <==> name_labels(buf@, start as int) is Some,
        r matches Some((name, end)) ==> name_labels(buf@, start as int) matches Some(
            (labels, e),
        ) && name@ == dotted(labels) && end as int == e && (utf8_labels(labels) ==> name@
            == utf8_dotted(labels)),
{
    let mut i: usize = start;
    let mut name = String::new();
    let ghost mut labels: Seq<Seq<u8>> = Seq::empty();
    let mut first: bool = true;

    loop
        invariant
            start <= i,
            i <= buf@.len() || i == start,
            name@ == dotted(labels),
            utf8_labels(labels) ==> name@ == utf8_dotted(labels),
            first <==> labels.len() == 0,
            name_labels(buf@, start as int) == (match name_labels(buf@, i as int) {
                Some((rest, end)) => Some((labels + rest, end)),
                None => None::<(Seq<Seq<u8>>, int)>,
            }),
        decreases buf@.len() - i,
    {
        if i >= buf.len() {
            assert(name_labels(buf@, i as int) is None);
            return None;
        }
        let length = buf[i];
        if length == 0 {
            assert(name_labels(buf@, i as int) == Some((Seq::<Seq<u8>>::empty(), i + 1 as int)));
            assert(labels + Seq::<Seq<u8>>::empty() =~= labels);
            return Some((name, i + 1));
        }
        if length >= 192 {
            assert(name_labels(buf@, i as int) is None);
            return None;
        }
        let remaining = buf.len() - i - 1;
        if (length as usize) > remaining {
            assert(name_labels(buf@, i as int) is None);
            return None;
        }
        let label = slice_subrange(buf, i + 1, i + 1 + length as usize);
        let text = utf8_lossy(label);
        if first {
            name.append(text.as_str());
        } else {
            name.append(".");
            proof {
                reveal_strlit(".");
                assert("."@ =~= seq!['.']);
            }
            name.append(text.as_str());
        }
        proof {
            lemma_dotted_push(labels, label@);
            lemma_utf8_dotted_push(labels, label@);
            if utf8_labels(labels.push(label@)) {
                assert(labels.push(label@)[labels.len() as int] == label@);
                assert(valid_utf8(label@));
                assert(utf8_labels(labels)) by {
                    assert(forall|j: int| 0 <= j < labels.len() ==> labels.push(label@)[j]
                        == labels[j]);
                }
            }
            let next = i + 1 + length as int;
            assert(name_labels(buf@, i as int) == (match name_labels(buf@, next) {
                Some((rest, end)) => Some((seq![label@] + rest, end)),
                None => None::<(Seq<Seq<u8>>, int)>,
            }));
            if name_labels(buf@, next) is Some {
                let (rest, end) = name_labels(buf@, next)->Some_0;
                assert(labels + (seq![label@] + rest) =~= labels.push(label@) + rest);
            }
        }
        proof {
            labels = labels.push(label@);
        }
        first = false;
        i = i + 1 + length as usize;
    }
}

} // verus!
