//! The data exchange codec: every value that crosses the runtime boundary
//! travels in a versioned envelope, and large payloads travel in chunks.

use crate::error::native_failure;
use crate::error::ErrorKind;
use crate::error::ErrorRecord;
use crate::error::KindView;
use crate::text::decode_text;
use crate::text::encode_text;
use crate::value::lemma_list_view;
use crate::value::value_views;
use crate::value::Value;
use crate::value::ValueType;
use crate::value::ValueView;
use crate::wire::be32;
use crate::wire::be64;
use crate::wire::from_be32;
use crate::wire::from_be64;
use crate::wire::get_u32;
use crate::wire::get_u64;
use crate::wire::lemma_be32_round_trip;
use crate::wire::lemma_be64_round_trip;
use crate::wire::put_bytes;
use crate::wire::put_u32;
use crate::wire::put_u64;
use vstd::prelude::*;
use vstd::slice::slice_subrange;
use vstd::slice::slice_to_vec;
use vstd::utf8::*;

verus! {

/// The one schema version this codec writes and reads.
pub const SCHEMA_VERSION: u32 = 1;

/// The wrapper around every value that crosses the boundary.
#[derive(Debug, Clone, PartialEq, Eq)]
pub struct ExchangeEnvelope {
    pub schema_version: u32,
    pub type_tag: String,
    pub body: Vec<u8>,
}

/// Mathematical model of an [`ExchangeEnvelope`].
pub struct EnvelopeView {
    pub schema_version: u32,
    pub type_tag: Seq<char>,
    pub body: Seq<u8>,
}

impl View for ExchangeEnvelope {
    type V = EnvelopeView;

    open spec fn view(&self) -> EnvelopeView {
        EnvelopeView {
            schema_version: self.schema_version,
            type_tag: self.type_tag@,
            body: self.body@,
        }
    }
}

/// A signed integer as the unsigned 64-bit word that holds it in two's
/// complement.
pub open spec fn int_word(i: i64) -> int {
    if i >= 0 {
        i as int
    } else {
        i + 0x1_0000_0000_0000_0000
    }
}

/// The signed integer that a 64-bit word holds in two's complement.
pub open spec fn word_int(word: int) -> i64 {
    if word < 0x8000_0000_0000_0000 {
        word as i64
    } else {
        (word - 0x1_0000_0000_0000_0000) as i64
    }
}

/// The code that names a type in front of a list item.
pub open spec fn type_code(t: ValueType) -> u8 {
    match t {
        ValueType::Null => 0,
        ValueType::Bool => 1,
        ValueType::Int => 2,
        ValueType::Text => 3,
        ValueType::Bytes => 4,
        ValueType::List => 5,
    }
}

/// The type that a code names, if it names one.
pub open spec fn code_type(code: u8) -> Option<ValueType> {
    if code == 0 {
        Some(ValueType::Null)
    } else if code == 1 {
        Some(ValueType::Bool)
    } else if code == 2 {
        Some(ValueType::Int)
    } else if code == 3 {
        Some(ValueType::Text)
    } else if code == 4 {
        Some(ValueType::Bytes)
    } else if code == 5 {
        Some(ValueType::List)
    } else {
        None
    }
}

/// One item of a list as it stands in the list's body: the code of its
/// type, the length of its own body in eight bytes, and that body.
pub open spec fn item_frame(t: ValueType, body: Seq<u8>) -> Seq<u8> {
    seq![type_code(t)] + be64(body.len() as int) + body
}

/// The body bytes of a value: nothing for null, one byte 0 or 1 for a
/// boolean, eight big-endian bytes for an integer, UTF-8 for text, the
/// bytes themselves for a byte string, and for a list the number of its
/// items in eight bytes followed by the items, each in its frame.
pub open spec fn encode_body(value: ValueView) -> Seq<u8>
    decreases value, 0int,
{
    match value {
        ValueView::Null => Seq::<u8>::empty(),
        ValueView::Bool(b) => seq![if b { 1u8 } else { 0u8 }],
        ValueView::Int(i) => be64(int_word(i)),
        ValueView::Text(s) => encode_utf8(s),
        ValueView::Bytes(b) => b,
        ValueView::List(items) => be64(items.len() as int) + encode_items(items),
    }
}

/// The items of a list, each in its frame, one after the other.
pub open spec fn encode_items(items: Seq<ValueView>) -> Seq<u8>
    decreases items, 1int,
{
    if items.len() == 0 {
        Seq::<u8>::empty()
    } else {
        encode_items(items.drop_last()) + item_frame(
            items.last().value_type(),
            encode_body(items.last()),
        )
    }
}

/// The value of the given type that a body spells, if it spells one.
pub open spec fn decode_body(requested: ValueType, body: Seq<u8>) -> Option<ValueView>
    decreases body.len(), 1int,
{
    match requested {
        ValueType::Null => if body.len() == 0 {
            Some(ValueView::Null)
        } else {
            None
        },
        ValueType::Bool => if body.len() == 1 && body[0] == 0u8 {
            Some(ValueView::Bool(false))
        } else if body.len() == 1 && body[0] == 1u8 {
            Some(ValueView::Bool(true))
        } else {
            None
        },
        ValueType::Int => if body.len() == 8 {
            Some(ValueView::Int(word_int(from_be64(body))))
        } else {
            None
        },
        ValueType::Text => if valid_utf8(body) {
            Some(ValueView::Text(decode_utf8(body)))
        } else {
            None
        },
        ValueType::Bytes => Some(ValueView::Bytes(body)),
        ValueType::List => if body.len() < 8 {
            None
        } else {
            match decode_items(
                body.subrange(8, body.len() as int),
                from_be64(body.subrange(0, 8)),
            ) {
                Some(items) => Some(ValueView::List(items)),
                None => None,
            }
        },
    }
}

/// The `count` items that a run of bytes spells, if it spells exactly that
/// many and nothing else.
pub open spec fn decode_items(bytes: Seq<u8>, count: int) -> Option<Seq<ValueView>>
    decreases bytes.len(), 0int,
{
    if count <= 0 {
        if bytes.len() == 0 {
            Some(Seq::<ValueView>::empty())
        } else {
            None
        }
    } else if bytes.len() < 9 {
        None
    } else {
        let len = from_be64(bytes.subrange(1, 9));
        if len < 0 || len > bytes.len() - 9 || code_type(bytes[0]) is None {
            None
        } else {
            match decode_body(code_type(bytes[0])->0, bytes.subrange(9, 9 + len)) {
                None => None,
                Some(item) => match decode_items(
                    bytes.subrange(9 + len, bytes.len() as int),
                    count - 1,
                ) {
                    None => None,
                    Some(rest) => Some(seq![item] + rest),
                },
            }
        }
    }
}

/// A value is representable when every count and every length that its
/// encoding writes down fits the eight bytes it is given.
pub open spec fn representable(value: ValueView) -> bool
    decreases value,
{
    match value {
        ValueView::List(items) => {
            &&& items.len() < 0x1_0000_0000_0000_0000
            &&& forall|k: int|
                0 <= k < items.len() ==> {
                    &&& representable(#[trigger] items[k])
                    &&& encode_body(items[k]).len() < 0x1_0000_0000_0000_0000
                }
        },
        _ => true,
    }
}

/// The envelope that carries a value.
pub open spec fn encode_spec(value: ValueView) -> EnvelopeView {
    EnvelopeView {
        schema_version: SCHEMA_VERSION,
        type_tag: value.value_type().spec_tag(),
        body: encode_body(value),
    }
}

/// What decoding an envelope as the requested type gives. The schema version
/// is judged first, then the type tag, then the body.
pub open spec fn decode_spec(envelope: EnvelopeView, requested: ValueType) -> Result<
    ValueView,
    KindView,
> {
    if envelope.schema_version != SCHEMA_VERSION {
        Err(KindView::UnsupportedSchema)
    } else if envelope.type_tag != requested.spec_tag() {
        Err(KindView::TypeMismatch)
    } else {
        match decode_body(requested, envelope.body) {
            Some(value) => Ok(value),
            None => Err(KindView::DecodeError),
        }
    }
}

/// The message of the error record that reports a failed decode.
pub open spec fn decode_message(kind: KindView) -> Seq<char> {
    match kind {
        KindView::UnsupportedSchema => "unsupported schema version"@,
        KindView::TypeMismatch => "type tag does not match the requested type"@,
        _ => "malformed body"@,
    }
}

/// Items put in front of a run of items come first in its encoding.
pub proof fn lemma_encode_items_front(first: ValueView, rest: Seq<ValueView>)
    ensures
        encode_items(seq![first] + rest) == item_frame(first.value_type(), encode_body(first))
            + encode_items(rest),
    decreases rest.len(),
{
    let all = seq![first] + rest;
    let head = item_frame(first.value_type(), encode_body(first));
    if rest.len() == 0 {
        assert(all.drop_last() =~= Seq::<ValueView>::empty());
        assert(rest =~= Seq::<ValueView>::empty());
        assert(encode_items(all.drop_last()) =~= Seq::<u8>::empty());
        assert(all.last() == first);
        assert(encode_items(all) =~= head + encode_items(rest));
    } else {
        assert(all.drop_last() =~= seq![first] + rest.drop_last());
        assert(all.last() == rest.last());
        lemma_encode_items_front(first, rest.drop_last());
        assert(encode_items(all) =~= head + encode_items(rest));
    }
}

/// The body of every representable value decodes, as its own type, to the
/// value.
pub proof fn lemma_body_round_trip(value: ValueView)
    requires
        representable(value),
    ensures
        decode_body(value.value_type(), encode_body(value)) == Some(value),
    decreases value, 0int,
{
    match value {
        ValueView::Null => {},
        ValueView::Bool(b) => {},
        ValueView::Int(i) => {
            lemma_be64_round_trip(int_word(i));
        },
        ValueView::Text(s) => {
            encode_utf8_valid_utf8(s);
            encode_utf8_decode_utf8(s);
        },
        ValueView::Bytes(b) => {},
        ValueView::List(items) => {
            let body = encode_body(value);
            lemma_be64_round_trip(items.len() as int);
            assert(body.subrange(0, 8) =~= be64(items.len() as int));
            assert(body.subrange(8, body.len() as int) =~= encode_items(items));
            lemma_items_round_trip(items);
        },
    }
}

/// The encoding of a run of representable items decodes to the run.
pub proof fn lemma_items_round_trip(items: Seq<ValueView>)
    requires
        forall|k: int|
            0 <= k < items.len() ==> {
                &&& representable(#[trigger] items[k])
                &&& encode_body(items[k]).len() < 0x1_0000_0000_0000_0000
            },
    ensures
        decode_items(encode_items(items), items.len() as int) == Some(items),
    decreases items, 1int,
{
    if items.len() == 0 {
    } else {
        let first = items[0];
        let rest = items.drop_first();
        let inner = encode_body(first);
        let bytes = encode_items(items);
        assert(items =~= seq![first] + rest);
        lemma_encode_items_front(first, rest);
        lemma_be64_round_trip(inner.len() as int);
        assert(bytes[0] == type_code(first.value_type()));
        assert(bytes.subrange(1, 9) =~= be64(inner.len() as int));
        assert(bytes.subrange(9, 9 + inner.len() as int) =~= inner);
        assert(bytes.subrange(9 + inner.len() as int, bytes.len() as int) =~= encode_items(rest));
        assert(code_type(bytes[0]) == Some(first.value_type()));
        lemma_body_round_trip(first);
        assert forall|k: int| 0 <= k < rest.len() implies {
            &&& representable(#[trigger] rest[k])
            &&& encode_body(rest[k]).len() < 0x1_0000_0000_0000_0000
        } by {
            assert(rest[k] == items[k + 1]);
        }
        lemma_items_round_trip(rest);
    }
}

/// Decoding undoes encoding: every representable value comes back from its
/// own envelope when it is decoded as its own type.
pub proof fn lemma_decode_encode(value: ValueView)
    requires
        representable(value),
    ensures
        decode_spec(encode_spec(value), value.value_type()) == Ok::<ValueView, KindView>(value),
{
    lemma_body_round_trip(value);
}

/// The bytes in which an envelope travels: the schema version in four
/// bytes, the length of the type tag's UTF-8 form in eight, that form, the
/// length of the body in eight, and the body. All numbers are big-endian.
pub open spec fn frame(envelope: EnvelopeView) -> Seq<u8> {
    let tag = encode_utf8(envelope.type_tag);
    be32(envelope.schema_version as int) + be64(tag.len() as int) + tag + be64(
        envelope.body.len() as int,
    ) + envelope.body
}

/// The envelope that a frame spells, if it spells one. Nothing may be
/// missing and nothing may follow the body.
pub open spec fn parse_frame(bytes: Seq<u8>) -> Option<EnvelopeView> {
    if bytes.len() < 12 {
        None
    } else {
        let tag_len = from_be64(bytes.subrange(4, 12));
        if tag_len > bytes.len() - 12 {
            None
        } else {
            let tag = bytes.subrange(12, 12 + tag_len);
            let after_tag = 12 + tag_len;
            if !valid_utf8(tag) || bytes.len() - after_tag < 8 {
                None
            } else {
                let body_len = from_be64(bytes.subrange(after_tag, after_tag + 8));
                if body_len != bytes.len() - after_tag - 8 {
                    None
                } else {
                    Some(
                        EnvelopeView {
                            schema_version: from_be32(bytes.subrange(0, 4)) as u32,
                            type_tag: decode_utf8(tag),
                            body: bytes.subrange(after_tag + 8, bytes.len() as int),
                        },
                    )
                }
            }
        }
    }
}

/// Parsing undoes framing, for every envelope whose lengths fit the eight
/// bytes the frame gives them.
pub proof fn lemma_parse_frame(envelope: EnvelopeView)
    requires
        encode_utf8(envelope.type_tag).len() < 0x1_0000_0000_0000_0000,
        envelope.body.len() < 0x1_0000_0000_0000_0000,
    ensures
        parse_frame(frame(envelope)) == Some(envelope),
{
    let tag = encode_utf8(envelope.type_tag);
    let version = be32(envelope.schema_version as int);
    let tag_len = be64(tag.len() as int);
    let body_len = be64(envelope.body.len() as int);
    let bytes = frame(envelope);
    lemma_be32_round_trip(envelope.schema_version as int);
    lemma_be64_round_trip(tag.len() as int);
    lemma_be64_round_trip(envelope.body.len() as int);
    encode_utf8_valid_utf8(envelope.type_tag);
    encode_utf8_decode_utf8(envelope.type_tag);
    assert(version.len() == 4 && tag_len.len() == 8 && body_len.len() == 8);
    assert(bytes == version + tag_len + tag + body_len + envelope.body);
    lemma_five_parts(version, tag_len, tag, body_len, envelope.body);
}

/// Where each of five runs of bytes lies in their concatenation.
proof fn lemma_five_parts(a: Seq<u8>, b: Seq<u8>, c: Seq<u8>, d: Seq<u8>, e: Seq<u8>)
    ensures
        ({
            let all = a + b + c + d + e;
            let b_at = a.len() as int;
            let c_at = b_at + b.len();
            let d_at = c_at + c.len();
            let e_at = d_at + d.len();
            &&& all.len() == e_at + e.len()
            &&& all.subrange(0, b_at) == a
            &&& all.subrange(b_at, c_at) == b
            &&& all.subrange(c_at, d_at) == c
            &&& all.subrange(d_at, e_at) == d
            &&& all.subrange(e_at, all.len() as int) == e
        }),
{
    let all = a + b + c + d + e;
    let b_at = a.len() as int;
    let c_at = b_at + b.len();
    let d_at = c_at + c.len();
    let e_at = d_at + d.len();
    assert(all.subrange(0, b_at) =~= a);
    assert(all.subrange(b_at, c_at) =~= b);
    assert(all.subrange(c_at, d_at) =~= c);
    assert(all.subrange(d_at, e_at) =~= d);
    assert(all.subrange(e_at, all.len() as int) =~= e);
}

impl ExchangeEnvelope {
    /// The frame in which this envelope travels.
    pub fn to_bytes(&self) -> (bytes: Vec<u8>)
        ensures
            bytes@ == frame(self@),
    {
        let tag = encode_text(self.type_tag.as_str());
        let mut bytes: Vec<u8> = Vec::new();
        put_u32(&mut bytes, self.schema_version);
        put_u64(&mut bytes, tag.len() as u64);
        put_bytes(&mut bytes, tag.as_slice());
        put_u64(&mut bytes, self.body.len() as u64);
        put_bytes(&mut bytes, self.body.as_slice());
        bytes
    }

    /// Reads an envelope back from its frame. A frame that is cut short, that
    /// goes on after the body, or whose type tag is not UTF-8 is refused as
    /// `DecodeError`.
    pub fn from_bytes(bytes: &[u8]) -> (r: Result<ExchangeEnvelope, ErrorRecord>)
        ensures
            match r {
                Ok(envelope) => parse_frame(bytes@) == Some(envelope@),
                Err(e) => parse_frame(bytes@) is None && e@ == native_failure(
                    KindView::DecodeError,
                    "malformed frame"@,
                ),
            },
    {
        let n = bytes.len();
        if n < 12 {
            return Err(ErrorRecord::new(ErrorKind::DecodeError, "malformed frame"));
        }
        let schema_version = get_u32(bytes, 0);
        let tag_len = get_u64(bytes, 4);
        if tag_len > (n - 12) as u64 {
            return Err(ErrorRecord::new(ErrorKind::DecodeError, "malformed frame"));
        }
        let after_tag: usize = 12 + tag_len as usize;
        let type_tag = match decode_text(slice_subrange(bytes, 12, after_tag)) {
            Some(text) => text,
            None => {
                return Err(ErrorRecord::new(ErrorKind::DecodeError, "malformed frame"));
            },
        };
        if n - after_tag < 8 {
            return Err(ErrorRecord::new(ErrorKind::DecodeError, "malformed frame"));
        }
        let body_len = get_u64(bytes, after_tag);
        if body_len != (n - after_tag - 8) as u64 {
            return Err(ErrorRecord::new(ErrorKind::DecodeError, "malformed frame"));
        }
        let body = slice_to_vec(slice_subrange(bytes, after_tag + 8, n));
        proof {
            crate::wire::lemma_from_be32_bounds(bytes@.subrange(0, 4));
        }
        Ok(ExchangeEnvelope { schema_version, type_tag, body })
    }
}

/// The code that names the type of a list item.
fn code_for(t: ValueType) -> (code: u8)
    ensures
        code == type_code(t),
{
    match t {
        ValueType::Null => 0,
        ValueType::Bool => 1,
        ValueType::Int => 2,
        ValueType::Text => 3,
        ValueType::Bytes => 4,
        ValueType::List => 5,
    }
}

/// The type that a code names.
fn type_for(code: u8) -> (t: Option<ValueType>)
    ensures
        t == code_type(code),
{
    if code == 0 {
        Some(ValueType::Null)
    } else if code == 1 {
        Some(ValueType::Bool)
    } else if code == 2 {
        Some(ValueType::Int)
    } else if code == 3 {
        Some(ValueType::Text)
    } else if code == 4 {
        Some(ValueType::Bytes)
    } else if code == 5 {
        Some(ValueType::List)
    } else {
        None
    }
}

/// A decoded run of items put behind the items decoded before it.
spec fn behind(done: Seq<ValueView>, rest: Option<Seq<ValueView>>) -> Option<Seq<ValueView>> {
    match rest {
        Some(items) => Some(done + items),
        None => None,
    }
}

/// Writes the body of a value.
fn encode_value(value: &Value) -> (body: Vec<u8>)
    ensures
        body@ == encode_body(value@),
        representable(value@),
    decreases value, 0int,
{
    let mut body: Vec<u8> = Vec::new();
    match value {
        Value::Null => {},
        Value::Bool(b) => {
            body.push(if *b { 1u8 } else { 0u8 });
            assert(body@ =~= encode_body(value@));
        },
        Value::Int(i) => {
            let word: u64 = if *i >= 0 {
                *i as u64
            } else {
                (*i as i128 + 0x1_0000_0000_0000_0000i128) as u64
            };
            put_u64(&mut body, word);
            assert(body@ =~= encode_body(value@));
        },
        Value::Text(s) => {
            body = encode_text(s.as_str());
        },
        Value::Bytes(b) => {
            body = slice_to_vec(b.as_slice());
        },
        Value::List(items) => {
            proof {
                lemma_list_view(*items);
            }
            put_u64(&mut body, items.len() as u64);
            encode_list(items, &mut body);
            assert(body@ =~= encode_body(value@));
        },
    }
    body
}

/// Writes the items of a list, each in its frame.
fn encode_list(items: &Vec<Value>, body: &mut Vec<u8>)
    ensures
        final(body)@ == old(body)@ + encode_items(value_views(items@)),
        forall|k: int|
            0 <= k < items@.len() ==> {
                &&& representable(#[trigger] value_views(items@)[k])
                &&& encode_body(value_views(items@)[k]).len() < 0x1_0000_0000_0000_0000
            },
    decreases items, 1int,
{
    let ghost views = value_views(items@);
    let ghost start = body@;
    let mut i: usize = 0;
    assert(views.subrange(0, 0) =~= Seq::<ValueView>::empty());
    assert(start + encode_items(views.subrange(0, 0)) =~= start);
    while i < items.len()
        invariant
            i <= items.len(),
            views == value_views(items@),
            body@ == start + encode_items(views.subrange(0, i as int)),
            forall|k: int|
                0 <= k < i ==> {
                    &&& representable(#[trigger] views[k])
                    &&& encode_body(views[k]).len() < 0x1_0000_0000_0000_0000
                },
        decreases items.len() - i,
    {
        let item = &items[i];
        let inner = encode_value(item);
        let ghost before = body@;
        body.push(code_for(item.value_type()));
        put_u64(body, inner.len() as u64);
        put_bytes(body, inner.as_slice());
        proof {
            let done = views.subrange(0, i + 1);
            assert(views[i as int] == item@);
            assert(done.drop_last() =~= views.subrange(0, i as int));
            assert(done.last() == item@);
            assert(body@ =~= before + item_frame(item@.value_type(), inner@));
            assert(encode_items(done) == encode_items(done.drop_last()) + item_frame(
                item@.value_type(),
                encode_body(item@),
            ));
            assert(body@ =~= start + encode_items(done));
        }
        i += 1;
    }
    assert(views.subrange(0, i as int) =~= views);
}

/// Reads the body of a value of the requested type.
fn decode_value(requested: ValueType, body: &[u8]) -> (r: Option<Value>)
    ensures
        match r {
            Some(value) => decode_body(requested, body@) == Some(value@),
            None => decode_body(requested, body@) is None,
        },
    decreases body@.len(), 1int,
{
    match requested {
        ValueType::Null => if body.len() == 0 {
            Some(Value::Null)
        } else {
            None
        },
        ValueType::Bool => if body.len() == 1 && body[0] == 0 {
            Some(Value::Bool(false))
        } else if body.len() == 1 && body[0] == 1 {
            Some(Value::Bool(true))
        } else {
            None
        },
        ValueType::Int => if body.len() == 8 {
            let word = get_u64(body, 0);
            assert(body@.subrange(0, 8) =~= body@);
            let i: i64 = if word < 0x8000_0000_0000_0000 {
                word as i64
            } else {
                (word as i128 - 0x1_0000_0000_0000_0000i128) as i64
            };
            Some(Value::Int(i))
        } else {
            None
        },
        ValueType::Text => match decode_text(body) {
            Some(s) => Some(Value::Text(s)),
            None => None,
        },
        ValueType::Bytes => Some(Value::Bytes(slice_to_vec(body))),
        ValueType::List => {
            let n = body.len();
            if n < 8 {
                return None;
            }
            let count = get_u64(body, 0);
            match decode_list(slice_subrange(body, 8, n), count) {
                Some(items) => {
                    proof {
                        lemma_list_view(items);
                    }
                    Some(Value::List(items))
                },
                None => None,
            }
        },
    }
}

/// Reads the `count` items of a list.
fn decode_list(bytes: &[u8], count: u64) -> (r: Option<Vec<Value>>)
    ensures
        match r {
            Some(items) => decode_items(bytes@, count as int) == Some(value_views(items@)),
            None => decode_items(bytes@, count as int) is None,
        },
    decreases bytes@.len(), 0int,
{
    let n = bytes.len();
    let ghost all = decode_items(bytes@, count as int);
    let mut items: Vec<Value> = Vec::new();
    let mut pos: usize = 0;
    let mut i: u64 = 0;
    assert(bytes@.subrange(0, n as int) =~= bytes@);
    assert(value_views(items@) =~= Seq::<ValueView>::empty());
    assert(behind(value_views(items@), all) =~= all);
    while i < count
        invariant
            pos <= n,
            n == bytes@.len(),
            i <= count,
            all == decode_items(bytes@, count as int),
            all == behind(
                value_views(items@),
                decode_items(bytes@.subrange(pos as int, n as int), count - i),
            ),
        decreases count - i,
    {
        let ghost rest = bytes@.subrange(pos as int, n as int);
        let ghost done = value_views(items@);
        if n - pos < 9 {
            assert(decode_items(rest, count - i) is None);
            return None;
        }
        let code = bytes[pos];
        let len = get_u64(bytes, pos + 1);
        assert(rest[0] == code);
        assert(rest.subrange(1, 9) =~= bytes@.subrange(pos + 1, pos + 9));
        if len > (n - pos - 9) as u64 {
            assert(decode_items(rest, count - i) is None);
            return None;
        }
        let t = match type_for(code) {
            Some(t) => t,
            None => {
                assert(decode_items(rest, count - i) is None);
                return None;
            },
        };
        let start: usize = pos + 9;
        let end: usize = start + len as usize;
        assert(rest.subrange(9, 9 + len) =~= bytes@.subrange(start as int, end as int));
        assert(rest.subrange(9 + len, rest.len() as int) =~= bytes@.subrange(end as int, n as int));
        let item = match decode_value(t, slice_subrange(bytes, start, end)) {
            Some(item) => item,
            None => {
                assert(decode_items(rest, count - i) is None);
                return None;
            },
        };
        let ghost tail = decode_items(bytes@.subrange(end as int, n as int), count - i - 1);
        assert(decode_items(rest, count - i) == behind(seq![item@], tail));
        items.push(item);
        proof {
            assert(value_views(items@) =~= done.push(item@));
            if tail is Some {
                assert(done + (seq![item@] + tail->0) =~= done.push(item@) + tail->0);
            }
        }
        pos = end;
        i += 1;
    }
    if pos != n {
        return None;
    }
    proof {
        assert(bytes@.subrange(pos as int, n as int) =~= Seq::<u8>::empty());
        assert(value_views(items@) + Seq::<ValueView>::empty() =~= value_views(items@));
    }
    Some(items)
}

/// A value on its way across the boundary.
#[derive(Debug, Clone, PartialEq, Eq)]
pub struct DataExchange {
    pub data: Value,
}

impl View for DataExchange {
    type V = ValueView;

    open spec fn view(&self) -> ValueView {
        self.data@
    }
}

impl DataExchange {
    pub fn new(data: Value) -> (r: Self)
        ensures
            r.data == data,
    {
        DataExchange { data }
    }

    /// Encodes the value into an envelope of the current schema version.
    /// Every value that can be held is representable, so the envelope
    /// decodes to the value again.
    pub fn serialize(&self) -> (envelope: ExchangeEnvelope)
        ensures
            envelope@ == encode_spec(self@),
            representable(self@),
    {
        ExchangeEnvelope {
            schema_version: SCHEMA_VERSION,
            type_tag: self.data.value_type().tag().to_owned(),
            body: encode_value(&self.data),
        }
    }

    /// Decodes an envelope as the requested type. An envelope of another
    /// schema version is refused as `UnsupportedSchema`, one whose type tag
    /// is not that of the requested type as `TypeMismatch`, and one whose
    /// body does not spell a value of that type as `DecodeError`.
    pub fn deserialize(envelope: &ExchangeEnvelope, requested: ValueType) -> (r: Result<
        DataExchange,
        ErrorRecord,
    >)
        ensures
            match r {
                Ok(d) => decode_spec(envelope@, requested) == Ok::<ValueView, KindView>(d@),
                Err(e) => decode_spec(envelope@, requested) == Err::<ValueView, KindView>(e.kind@)
                    && e@ == native_failure(e.kind@, decode_message(e.kind@)),
            },
    {
        if envelope.schema_version != SCHEMA_VERSION {
            return Err(ErrorRecord::new(ErrorKind::UnsupportedSchema, "unsupported schema version"));
        }
        let tag = requested.tag().to_owned();
        if !(envelope.type_tag == tag) {
            return Err(
                ErrorRecord::new(
                    ErrorKind::TypeMismatch,
                    "type tag does not match the requested type",
                ),
            );
        }
        match decode_value(requested, envelope.body.as_slice()) {
            Some(data) => Ok(DataExchange { data }),
            None => Err(ErrorRecord::new(ErrorKind::DecodeError, "malformed body")),
        }
    }
}

} // verus!
