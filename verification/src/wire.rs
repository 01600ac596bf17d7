//! Wire format of the TCP page protocol.
//!
//! A frame is a 4-byte big-endian payload length followed by the payload;
//! the length may not exceed [`MAX_FRAME_LEN`]. The payload is one
//! [`Message`]: a 4-byte little-endian variant tag, then the fields of the
//! variant in order. An integer field is 8 bytes little-endian; a byte string
//! or a text is its length as such an integer, then its bytes (a text in
//! UTF-8). Bytes behind a complete message are ignored.

use crate::error::{ProtocolViolation, TransportError};
use vstd::prelude::*;
use vstd::slice::slice_subrange;
use vstd::utf8::{
    decode_utf8, encode_utf8, encode_utf8_decode_utf8, encode_utf8_valid_utf8, valid_utf8,
};

verus! {

/// Largest payload that a frame may carry: 10 MiB.
pub const MAX_FRAME_LEN: usize = 10485760;

/// Length of the frame header.
pub const FRAME_HEADER_LEN: usize = 4;

/// The four bytes of `v`, least significant first.
#[verifier::opaque]
pub open spec fn u32_le(v: u32) -> Seq<u8> {
    seq![
        (v % 256) as u8,
        (v / 256 % 256) as u8,
        (v / 65536 % 256) as u8,
        (v / 16777216) as u8,
    ]
}

/// The four bytes of `v`, most significant first.
#[verifier::opaque]
pub open spec fn u32_be(v: u32) -> Seq<u8> {
    seq![
        (v / 16777216) as u8,
        (v / 65536 % 256) as u8,
        (v / 256 % 256) as u8,
        (v % 256) as u8,
    ]
}

/// The number that four bytes spell, least significant first.
#[verifier::opaque]
pub open spec fn u32_from_le(b: Seq<u8>) -> int
    recommends
        b.len() == 4,
{
    b[0] + 256 * b[1] + 65536 * b[2] + 16777216 * b[3]
}

/// The number that four bytes spell, most significant first.
#[verifier::opaque]
pub open spec fn u32_from_be(b: Seq<u8>) -> int
    recommends
        b.len() == 4,
{
    b[3] + 256 * b[2] + 65536 * b[1] + 16777216 * b[0]
}

/// The eight bytes of `v`, least significant first.
pub open spec fn u64_le(v: u64) -> Seq<u8> {
    u32_le((v % 4294967296) as u32) + u32_le((v / 4294967296) as u32)
}

/// The number that eight bytes spell, least significant first.
pub open spec fn u64_from_le(b: Seq<u8>) -> int
    recommends
        b.len() == 8,
{
    u32_from_le(b.subrange(0, 4)) + 4294967296 * u32_from_le(b.subrange(4, 8))
}

/// Four bytes spell a number that fits in 32 bits.
pub proof fn lemma_u32_from_bytes_range(b: Seq<u8>)
    requires
        b.len() == 4,
    ensures
        0 <= u32_from_le(b) <= u32::MAX,
        0 <= u32_from_be(b) <= u32::MAX,
{
    reveal(u32_from_le);
    reveal(u32_from_be);
}

/// Eight bytes spell a number that fits in 64 bits.
pub proof fn lemma_u64_from_bytes_range(b: Seq<u8>)
    requires
        b.len() == 8,
    ensures
        0 <= u64_from_le(b) <= u64::MAX,
{
    lemma_u32_from_bytes_range(b.subrange(0, 4));
    lemma_u32_from_bytes_range(b.subrange(4, 8));
}

/// Reading back the bytes of a 32-bit number gives the number.
pub proof fn lemma_u32_round_trip(v: u32)
    ensures
        u32_le(v).len() == 4,
        u32_be(v).len() == 4,
        u32_from_le(u32_le(v)) == v,
        u32_from_be(u32_be(v)) == v,
{
    reveal(u32_le);
    reveal(u32_be);
    reveal(u32_from_le);
    reveal(u32_from_be);
}

/// Reading back the bytes of a 64-bit number gives the number.
pub proof fn lemma_u64_round_trip(v: u64)
    ensures
        u64_le(v).len() == 8,
        u64_from_le(u64_le(v)) == v,
{
    let low = (v % 4294967296) as u32;
    let high = (v / 4294967296) as u32;
    lemma_u32_round_trip(low);
    lemma_u32_round_trip(high);
    assert(u64_le(v).subrange(0, 4) =~= u32_le(low));
    assert(u64_le(v).subrange(4, 8) =~= u32_le(high));
}

/// Appends the little-endian bytes of `v` to `out`.
fn put_u32_le(out: &mut Vec<u8>, v: u32)
    ensures
        final(out)@ == old(out)@ + u32_le(v),
{
    out.push((v % 256) as u8);
    out.push((v / 256 % 256) as u8);
    out.push((v / 65536 % 256) as u8);
    out.push((v / 16777216) as u8);
    proof {
        reveal(u32_le);
    }
    assert(out@ =~= old(out)@ + u32_le(v));
}

/// Appends the big-endian bytes of `v` to `out`.
fn put_u32_be(out: &mut Vec<u8>, v: u32)
    ensures
        final(out)@ == old(out)@ + u32_be(v),
{
    out.push((v / 16777216) as u8);
    out.push((v / 65536 % 256) as u8);
    out.push((v / 256 % 256) as u8);
    out.push((v % 256) as u8);
    proof {
        reveal(u32_be);
    }
    assert(out@ =~= old(out)@ + u32_be(v));
}

/// Appends the little-endian bytes of `v` to `out`.
fn put_u64_le(out: &mut Vec<u8>, v: u64)
    ensures
        final(out)@ == old(out)@ + u64_le(v),
{
    put_u32_le(out, (v % 4294967296) as u32);
    put_u32_le(out, (v / 4294967296) as u32);
    proof {
        lemma_u32_round_trip((v % 4294967296) as u32);
        lemma_u32_round_trip((v / 4294967296) as u32);
    }
    assert(out@ =~= old(out)@ + u64_le(v));
}

/// Appends `bytes` to `out`.
fn put_bytes(out: &mut Vec<u8>, bytes: &[u8])
    ensures
        final(out)@ == old(out)@ + bytes@,
{
    let mut i: usize = 0;
    while i < bytes.len()
        invariant
            i <= bytes.len(),
            out@ == old(out)@ + bytes@.subrange(0, i as int),
        decreases bytes.len() - i,
    {
        out.push(bytes[i]);
        i = i + 1;
        assert(out@ =~= old(out)@ + bytes@.subrange(0, i as int));
    }
    assert(bytes@.subrange(0, i as int) =~= bytes@);
}

/// The little-endian number in the four bytes of `bytes` from `at` on.
fn get_u32_le(bytes: &[u8], at: usize) -> (v: u32)
    requires
        at + 4 <= bytes.len(),
    ensures
        v == u32_from_le(bytes@.subrange(at as int, at + 4)),
{
    let b0: u32 = bytes[at] as u32;
    let b1: u32 = bytes[at + 1] as u32;
    let b2: u32 = bytes[at + 2] as u32;
    let b3: u32 = bytes[at + 3] as u32;
    proof {
        reveal(u32_from_le);
    }
    b0 + 256 * b1 + 65536 * b2 + 16777216 * b3
}

/// The big-endian number in the four bytes of `bytes` from `at` on.
fn get_u32_be(bytes: &[u8], at: usize) -> (v: u32)
    requires
        at + 4 <= bytes.len(),
    ensures
        v == u32_from_be(bytes@.subrange(at as int, at + 4)),
{
    let b0: u32 = bytes[at] as u32;
    let b1: u32 = bytes[at + 1] as u32;
    let b2: u32 = bytes[at + 2] as u32;
    let b3: u32 = bytes[at + 3] as u32;
    proof {
        reveal(u32_from_be);
    }
    b3 + 256 * b2 + 65536 * b1 + 16777216 * b0
}

/// The little-endian number in the eight bytes of `bytes` from `at` on.
fn get_u64_le(bytes: &[u8], at: usize) -> (v: u64)
    requires
        at + 8 <= bytes.len(),
    ensures
        v == u64_from_le(bytes@.subrange(at as int, at + 8)),
{
    let low: u64 = get_u32_le(bytes, at) as u64;
    let high: u64 = get_u32_le(bytes, at + 4) as u64;
    proof {
        let field = bytes@.subrange(at as int, at + 8);
        lemma_u32_from_bytes_range(bytes@.subrange(at as int, at + 4));
        lemma_u32_from_bytes_range(bytes@.subrange(at + 4, at + 8));
        assert(field.subrange(0, 4) =~= bytes@.subrange(at as int, at + 4));
        assert(field.subrange(4, 8) =~= bytes@.subrange(at + 4, at + 8));
    }
    low + 4294967296 * high
}


/// Tag of [`Message::FetchPage`].
pub const TAG_FETCH_PAGE: u32 = 0;

/// Tag of [`Message::PageData`].
pub const TAG_PAGE_DATA: u32 = 1;

/// Tag of [`Message::SendPage`].
pub const TAG_SEND_PAGE: u32 = 2;

/// Tag of [`Message::Ack`].
pub const TAG_ACK: u32 = 3;

/// Tag of [`Message::Ping`].
pub const TAG_PING: u32 = 4;

/// Tag of [`Message::Pong`].
pub const TAG_PONG: u32 = 5;

/// Tag of [`Message::Error`].
pub const TAG_ERROR: u32 = 6;

/// A message of the page protocol.
#[derive(Debug, Clone, PartialEq, Eq)]
pub enum Message {
    /// Asks for the page at `gpa`.
    FetchPage { gpa: u64 },
    /// Answers `FetchPage` with the bytes of the page.
    PageData { gpa: u64, data: Vec<u8> },
    /// Hands the page at `gpa` over.
    SendPage { gpa: u64, data: Vec<u8> },
    /// Answers `SendPage`.
    Ack,
    /// Round-trip probe.
    Ping { timestamp: u64 },
    /// Answers `Ping` with the timestamp it carried.
    Pong { timestamp: u64 },
    /// Reports that a request failed.
    Error { message: String },
}

/// A message as a mathematical value.
pub enum MessageView {
    FetchPage { gpa: u64 },
    PageData { gpa: u64, data: Seq<u8> },
    SendPage { gpa: u64, data: Seq<u8> },
    Ack,
    Ping { timestamp: u64 },
    Pong { timestamp: u64 },
    Error { message: Seq<char> },
}

impl View for Message {
    type V = MessageView;

    open spec fn view(&self) -> MessageView {
        match *self {
            Message::FetchPage { gpa } => MessageView::FetchPage { gpa },
            Message::PageData { gpa, data } => MessageView::PageData { gpa, data: data@ },
            Message::SendPage { gpa, data } => MessageView::SendPage { gpa, data: data@ },
            Message::Ack => MessageView::Ack,
            Message::Ping { timestamp } => MessageView::Ping { timestamp },
            Message::Pong { timestamp } => MessageView::Pong { timestamp },
            Message::Error { message } => MessageView::Error { message: message@ },
        }
    }
}

/// A byte string on the wire: its length, then its bytes.
pub open spec fn byte_string(data: Seq<u8>) -> Seq<u8> {
    u64_le(data.len() as u64) + data
}

/// Whether the lengths in `m` fit the 64-bit length fields.
pub open spec fn encodable(m: MessageView) -> bool {
    match m {
        MessageView::PageData { gpa, data } => data.len() <= u64::MAX,
        MessageView::SendPage { gpa, data } => data.len() <= u64::MAX,
        MessageView::Error { message } => encode_utf8(message).len() <= u64::MAX,
        _ => true,
    }
}

/// The payload bytes of message `m`.
pub open spec fn message_bytes(m: MessageView) -> Seq<u8> {
    match m {
        MessageView::FetchPage { gpa } => u32_le(TAG_FETCH_PAGE) + u64_le(gpa),
        MessageView::PageData { gpa, data } => u32_le(TAG_PAGE_DATA) + u64_le(gpa) + byte_string(
            data,
        ),
        MessageView::SendPage { gpa, data } => u32_le(TAG_SEND_PAGE) + u64_le(gpa) + byte_string(
            data,
        ),
        MessageView::Ack => u32_le(TAG_ACK),
        MessageView::Ping { timestamp } => u32_le(TAG_PING) + u64_le(timestamp),
        MessageView::Pong { timestamp } => u32_le(TAG_PONG) + u64_le(timestamp),
        MessageView::Error { message } => u32_le(TAG_ERROR) + byte_string(encode_utf8(message)),
    }
}

/// The integer field that starts at `at`, if `b` holds all of it.
pub open spec fn field_u64(b: Seq<u8>, at: int) -> Option<u64> {
    if 0 <= at && at + 8 <= b.len() {
        Some(u64_from_le(b.subrange(at, at + 8)) as u64)
    } else {
        None
    }
}

/// The byte string that starts at `at`, if `b` holds all of it.
pub open spec fn field_bytes(b: Seq<u8>, at: int) -> Option<Seq<u8>> {
    match field_u64(b, at) {
        Some(n) => if at + 8 + n <= b.len() {
            Some(b.subrange(at + 8, at + 8 + n))
        } else {
            None
        },
        None => None,
    }
}

/// The message that the payload `b` starts with, if it starts with one.
pub open spec fn parse_message(b: Seq<u8>) -> Option<MessageView> {
    if b.len() < 4 {
        None
    } else {
        let tag = u32_from_le(b.subrange(0, 4));
        if tag == TAG_FETCH_PAGE {
            match field_u64(b, 4) {
                Some(gpa) => Some(MessageView::FetchPage { gpa }),
                None => None,
            }
        } else if tag == TAG_PAGE_DATA {
            match (field_u64(b, 4), field_bytes(b, 12)) {
                (Some(gpa), Some(data)) => Some(MessageView::PageData { gpa, data }),
                _ => None,
            }
        } else if tag == TAG_SEND_PAGE {
            match (field_u64(b, 4), field_bytes(b, 12)) {
                (Some(gpa), Some(data)) => Some(MessageView::SendPage { gpa, data }),
                _ => None,
            }
        } else if tag == TAG_ACK {
            Some(MessageView::Ack)
        } else if tag == TAG_PING {
            match field_u64(b, 4) {
                Some(timestamp) => Some(MessageView::Ping { timestamp }),
                None => None,
            }
        } else if tag == TAG_PONG {
            match field_u64(b, 4) {
                Some(timestamp) => Some(MessageView::Pong { timestamp }),
                None => None,
            }
        } else if tag == TAG_ERROR {
            match field_bytes(b, 4) {
                Some(raw) => if valid_utf8(raw) {
                    Some(MessageView::Error { message: decode_utf8(raw) })
                } else {
                    None
                },
                None => None,
            }
        } else {
            None
        }
    }
}

/// An integer field is read back from where it was written, whatever
/// stands before and behind it.
pub proof fn lemma_field_u64_at(before: Seq<u8>, v: u64, behind: Seq<u8>)
    ensures
        field_u64(before + u64_le(v) + behind, before.len() as int) == Some(v),
{
    lemma_u64_round_trip(v);
    let b = before + u64_le(v) + behind;
    let at = before.len() as int;
    assert(b.subrange(at, at + 8) =~= u64_le(v));
}

/// A byte string is read back from where it was written, whatever stands
/// before and behind it.
pub proof fn lemma_field_bytes_at(before: Seq<u8>, data: Seq<u8>, behind: Seq<u8>)
    requires
        data.len() <= u64::MAX,
    ensures
        field_bytes(before + byte_string(data) + behind, before.len() as int) == Some(data),
{
    let n = data.len() as u64;
    let b = before + byte_string(data) + behind;
    let at = before.len() as int;
    lemma_u64_round_trip(n);
    assert(b =~= before + u64_le(n) + (data + behind));
    lemma_field_u64_at(before, n, data + behind);
    assert(b.subrange(at + 8, at + 8 + n) =~= data);
}

/// Every message is read back from its bytes, and bytes behind it are
/// ignored.
pub proof fn lemma_message_round_trip(m: MessageView, behind: Seq<u8>)
    requires
        encodable(m),
    ensures
        parse_message(message_bytes(m) + behind) == Some(m),
        parse_message(message_bytes(m)) == Some(m),
{
    lemma_parse_with_trailing(m, behind);
    lemma_parse_with_trailing(m, Seq::<u8>::empty());
    assert(message_bytes(m) + Seq::<u8>::empty() =~= message_bytes(m));
}

proof fn lemma_parse_with_trailing(m: MessageView, behind: Seq<u8>)
    requires
        encodable(m),
    ensures
        parse_message(message_bytes(m) + behind) == Some(m),
{
    match m {
        MessageView::FetchPage { gpa } => {
            lemma_read_scalar_message(TAG_FETCH_PAGE, gpa, behind);
        },
        MessageView::PageData { gpa, data } => {
            lemma_read_page_message(TAG_PAGE_DATA, gpa, data, behind);
        },
        MessageView::SendPage { gpa, data } => {
            lemma_read_page_message(TAG_SEND_PAGE, gpa, data, behind);
        },
        MessageView::Ack => {
            lemma_read_tag(TAG_ACK, behind);
        },
        MessageView::Ping { timestamp } => {
            lemma_read_scalar_message(TAG_PING, timestamp, behind);
        },
        MessageView::Pong { timestamp } => {
            lemma_read_scalar_message(TAG_PONG, timestamp, behind);
        },
        MessageView::Error { message } => {
            lemma_read_text_message(encode_utf8(message), behind);
            encode_utf8_valid_utf8(message);
            encode_utf8_decode_utf8(message);
        },
    }
}

proof fn lemma_read_tag(tag: u32, rest: Seq<u8>)
    ensures
        (u32_le(tag) + rest).len() == 4 + rest.len(),
        u32_from_le((u32_le(tag) + rest).subrange(0, 4)) == tag,
{
    lemma_u32_round_trip(tag);
    assert((u32_le(tag) + rest).subrange(0, 4) =~= u32_le(tag));
}

proof fn lemma_read_scalar_message(tag: u32, v: u64, behind: Seq<u8>)
    ensures
        ({
            let b = u32_le(tag) + u64_le(v) + behind;
            &&& b.len() == 12 + behind.len()
            &&& u32_from_le(b.subrange(0, 4)) == tag
            &&& field_u64(b, 4) == Some(v)
        }),
{
    let b = u32_le(tag) + u64_le(v) + behind;
    lemma_u32_round_trip(tag);
    lemma_u64_round_trip(v);
    assert(b =~= u32_le(tag) + (u64_le(v) + behind));
    lemma_read_tag(tag, u64_le(v) + behind);
    lemma_field_u64_at(u32_le(tag), v, behind);
}

proof fn lemma_read_page_message(tag: u32, gpa: u64, data: Seq<u8>, behind: Seq<u8>)
    requires
        data.len() <= u64::MAX,
    ensures
        ({
            let b = u32_le(tag) + u64_le(gpa) + byte_string(data) + behind;
            &&& b.len() == 20 + data.len() + behind.len()
            &&& u32_from_le(b.subrange(0, 4)) == tag
            &&& field_u64(b, 4) == Some(gpa)
            &&& field_bytes(b, 12) == Some(data)
        }),
{
    let b = u32_le(tag) + u64_le(gpa) + byte_string(data) + behind;
    let head = u32_le(tag) + u64_le(gpa);
    lemma_u32_round_trip(tag);
    lemma_u64_round_trip(gpa);
    lemma_u64_round_trip(data.len() as u64);
    assert(b =~= u32_le(tag) + (u64_le(gpa) + byte_string(data) + behind));
    lemma_read_tag(tag, u64_le(gpa) + byte_string(data) + behind);
    assert(b =~= u32_le(tag) + u64_le(gpa) + (byte_string(data) + behind));
    lemma_field_u64_at(u32_le(tag), gpa, byte_string(data) + behind);
    assert(head.len() == 12);
    lemma_field_bytes_at(head, data, behind);
}

proof fn lemma_read_text_message(raw: Seq<u8>, behind: Seq<u8>)
    requires
        raw.len() <= u64::MAX,
    ensures
        ({
            let b = u32_le(TAG_ERROR) + byte_string(raw) + behind;
            &&& b.len() == 12 + raw.len() + behind.len()
            &&& u32_from_le(b.subrange(0, 4)) == TAG_ERROR
            &&& field_bytes(b, 4) == Some(raw)
        }),
{
    let b = u32_le(TAG_ERROR) + byte_string(raw) + behind;
    lemma_u32_round_trip(TAG_ERROR);
    lemma_u64_round_trip(raw.len() as u64);
    assert(b =~= u32_le(TAG_ERROR) + (byte_string(raw) + behind));
    lemma_read_tag(TAG_ERROR, byte_string(raw) + behind);
    lemma_field_bytes_at(u32_le(TAG_ERROR), raw, behind);
}

/// The number of payload bytes of each kind of message.
pub open spec fn message_len(m: MessageView) -> nat {
    match m {
        MessageView::FetchPage { gpa } => 12,
        MessageView::PageData { gpa, data } => 20 + data.len(),
        MessageView::SendPage { gpa, data } => 20 + data.len(),
        MessageView::Ack => 4,
        MessageView::Ping { timestamp } => 12,
        MessageView::Pong { timestamp } => 12,
        MessageView::Error { message } => 12 + encode_utf8(message).len(),
    }
}

/// The payload of a message has `message_len` bytes.
pub proof fn lemma_message_len(m: MessageView)
    ensures
        message_bytes(m).len() == message_len(m),
{
    lemma_u32_round_trip(TAG_FETCH_PAGE);
    lemma_u32_round_trip(TAG_PAGE_DATA);
    lemma_u32_round_trip(TAG_SEND_PAGE);
    lemma_u32_round_trip(TAG_ACK);
    lemma_u32_round_trip(TAG_PING);
    lemma_u32_round_trip(TAG_PONG);
    lemma_u32_round_trip(TAG_ERROR);
    match m {
        MessageView::FetchPage { gpa } => {
            lemma_u64_round_trip(gpa);
        },
        MessageView::PageData { gpa, data } => {
            lemma_u64_round_trip(gpa);
            lemma_u64_round_trip(data.len() as u64);
        },
        MessageView::SendPage { gpa, data } => {
            lemma_u64_round_trip(gpa);
            lemma_u64_round_trip(data.len() as u64);
        },
        MessageView::Ack => {},
        MessageView::Ping { timestamp } => {
            lemma_u64_round_trip(timestamp);
        },
        MessageView::Pong { timestamp } => {
            lemma_u64_round_trip(timestamp);
        },
        MessageView::Error { message } => {
            lemma_u64_round_trip(encode_utf8(message).len() as u64);
        },
    }
}

/// A message that was cut short is no message.
pub proof fn lemma_truncated_message_rejected(m: MessageView, k: int)
    requires
        encodable(m),
        0 <= k < message_bytes(m).len(),
    ensures
        parse_message(message_bytes(m).take(k)) is None,
{
    lemma_message_len(m);
    if k >= 4 {
        match m {
            MessageView::FetchPage { gpa } => {
                lemma_cut_scalar_message(TAG_FETCH_PAGE, gpa, k);
            },
            MessageView::PageData { gpa, data } => {
                lemma_cut_page_message(TAG_PAGE_DATA, gpa, data, k);
            },
            MessageView::SendPage { gpa, data } => {
                lemma_cut_page_message(TAG_SEND_PAGE, gpa, data, k);
            },
            MessageView::Ack => {},
            MessageView::Ping { timestamp } => {
                lemma_cut_scalar_message(TAG_PING, timestamp, k);
            },
            MessageView::Pong { timestamp } => {
                lemma_cut_scalar_message(TAG_PONG, timestamp, k);
            },
            MessageView::Error { message } => {
                lemma_cut_text_message(encode_utf8(message), k);
            },
        }
    }
}

proof fn lemma_cut_scalar_message(tag: u32, v: u64, k: int)
    requires
        4 <= k < 12,
    ensures
        ({
            let cut = (u32_le(tag) + u64_le(v)).take(k);
            &&& cut.len() == k
            &&& u32_from_le(cut.subrange(0, 4)) == tag
            &&& field_u64(cut, 4) is None
        }),
{
    let cut = (u32_le(tag) + u64_le(v)).take(k);
    lemma_u32_round_trip(tag);
    lemma_u64_round_trip(v);
    assert(cut.subrange(0, 4) =~= u32_le(tag));
}

proof fn lemma_cut_page_message(tag: u32, gpa: u64, data: Seq<u8>, k: int)
    requires
        data.len() <= u64::MAX,
        4 <= k < 20 + data.len(),
    ensures
        ({
            let cut = (u32_le(tag) + u64_le(gpa) + byte_string(data)).take(k);
            &&& cut.len() == k
            &&& u32_from_le(cut.subrange(0, 4)) == tag
            &&& (field_u64(cut, 4) is None || field_bytes(cut, 12) is None)
        }),
{
    let n = data.len() as u64;
    let cut = (u32_le(tag) + u64_le(gpa) + byte_string(data)).take(k);
    lemma_u32_round_trip(tag);
    lemma_u64_round_trip(gpa);
    lemma_u64_round_trip(n);
    assert(cut.subrange(0, 4) =~= u32_le(tag));
    if k >= 20 {
        assert(cut.subrange(12, 20) =~= u64_le(n));
        assert(field_u64(cut, 12) == Some(n));
        assert(field_bytes(cut, 12) is None);
    } else {
        assert(field_u64(cut, 12) is None);
    }
}

proof fn lemma_cut_text_message(raw: Seq<u8>, k: int)
    requires
        raw.len() <= u64::MAX,
        4 <= k < 12 + raw.len(),
    ensures
        ({
            let cut = (u32_le(TAG_ERROR) + byte_string(raw)).take(k);
            &&& cut.len() == k
            &&& u32_from_le(cut.subrange(0, 4)) == TAG_ERROR
            &&& field_bytes(cut, 4) is None
        }),
{
    let n = raw.len() as u64;
    let cut = (u32_le(TAG_ERROR) + byte_string(raw)).take(k);
    lemma_u32_round_trip(TAG_ERROR);
    lemma_u64_round_trip(n);
    assert(cut.subrange(0, 4) =~= u32_le(TAG_ERROR));
    if k >= 12 {
        assert(cut.subrange(4, 12) =~= u64_le(n));
        assert(field_u64(cut, 4) == Some(n));
    } else {
        assert(field_u64(cut, 4) is None);
    }
}

/// Converts bytes to a text with `String::from_utf8` of the standard
/// library, which succeeds exactly on valid UTF-8 and then yields the text
/// that those bytes encode.
#[verifier::external_body]
fn text_from_utf8(bytes: Vec<u8>) -> (text: Option<String>)
    ensures
        match text {
            Some(s) => valid_utf8(bytes@) && s@ == decode_utf8(bytes@),
            None => !valid_utf8(bytes@),
        },
{
    match String::from_utf8(bytes) {
        Ok(text) => Some(text),
        Err(_) => None,
    }
}

/// The payload bytes of `msg`.
pub fn encode_message(msg: &Message) -> (bytes: Vec<u8>)
    ensures
        bytes@ == message_bytes(msg@),
        encodable(msg@),
{
    let mut out: Vec<u8> = Vec::new();
    match msg {
        Message::FetchPage { gpa } => {
            put_u32_le(&mut out, TAG_FETCH_PAGE);
            put_u64_le(&mut out, *gpa);
        },
        Message::PageData { gpa, data } => {
            put_u32_le(&mut out, TAG_PAGE_DATA);
            put_u64_le(&mut out, *gpa);
            put_u64_le(&mut out, data.len() as u64);
            put_bytes(&mut out, data.as_slice());
        },
        Message::SendPage { gpa, data } => {
            put_u32_le(&mut out, TAG_SEND_PAGE);
            put_u64_le(&mut out, *gpa);
            put_u64_le(&mut out, data.len() as u64);
            put_bytes(&mut out, data.as_slice());
        },
        Message::Ack => {
            put_u32_le(&mut out, TAG_ACK);
        },
        Message::Ping { timestamp } => {
            put_u32_le(&mut out, TAG_PING);
            put_u64_le(&mut out, *timestamp);
        },
        Message::Pong { timestamp } => {
            put_u32_le(&mut out, TAG_PONG);
            put_u64_le(&mut out, *timestamp);
        },
        Message::Error { message } => {
            let raw = message.as_str().as_bytes();
            put_u32_le(&mut out, TAG_ERROR);
            put_u64_le(&mut out, raw.len() as u64);
            put_bytes(&mut out, raw);
        },
    }
    assert(out@ =~= message_bytes(msg@));
    out
}

/// The integer field of `bytes` that starts at `at`.
fn get_field_u64(bytes: &[u8], at: usize) -> (field: Option<u64>)
    requires
        at <= bytes.len(),
    ensures
        field == field_u64(bytes@, at as int),
{
    if bytes.len() - at < 8 {
        return None;
    }
    proof {
        lemma_u64_from_bytes_range(bytes@.subrange(at as int, at + 8));
    }
    Some(get_u64_le(bytes, at))
}

/// The byte string of `bytes` that starts at `at`.
fn get_field_bytes(bytes: &[u8], at: usize) -> (field: Option<Vec<u8>>)
    requires
        at <= bytes.len(),
    ensures
        match field {
            Some(data) => field_bytes(bytes@, at as int) == Some(data@),
            None => field_bytes(bytes@, at as int) is None,
        },
{
    match get_field_u64(bytes, at) {
        None => None,
        Some(n) => {
            let rest: usize = bytes.len() - at - 8;
            if n > rest as u64 {
                None
            } else {
                let start: usize = at + 8;
                let end: usize = start + n as usize;
                let field = slice_subrange(bytes, start, end);
                let mut data: Vec<u8> = Vec::new();
                put_bytes(&mut data, field);
                assert(data@ =~= bytes@.subrange(at + 8, at + 8 + n));
                Some(data)
            }
        },
    }
}

/// The message that the payload `bytes` starts with. Anything else is a
/// malformed message.
pub fn decode_message(bytes: &[u8]) -> (result: Result<Message, TransportError>)
    ensures
        match result {
            Ok(msg) => parse_message(bytes@) == Some(msg@),
            Err(e) => parse_message(bytes@) is None && e == TransportError::ProtocolError(
                ProtocolViolation::MalformedMessage,
            ),
        },
{
    let malformed = TransportError::ProtocolError(ProtocolViolation::MalformedMessage);
    if bytes.len() < 4 {
        return Err(malformed);
    }
    let tag = get_u32_le(bytes, 0);
    if tag == TAG_FETCH_PAGE {
        match get_field_u64(bytes, 4) {
            Some(gpa) => Ok(Message::FetchPage { gpa }),
            None => Err(malformed),
        }
    } else if tag == TAG_PAGE_DATA {
        match get_field_u64(bytes, 4) {
            Some(gpa) => match get_field_bytes(bytes, 12) {
                Some(data) => Ok(Message::PageData { gpa, data }),
                None => Err(malformed),
            },
            None => Err(malformed),
        }
    } else if tag == TAG_SEND_PAGE {
        match get_field_u64(bytes, 4) {
            Some(gpa) => match get_field_bytes(bytes, 12) {
                Some(data) => Ok(Message::SendPage { gpa, data }),
                None => Err(malformed),
            },
            None => Err(malformed),
        }
    } else if tag == TAG_ACK {
        Ok(Message::Ack)
    } else if tag == TAG_PING {
        match get_field_u64(bytes, 4) {
            Some(timestamp) => Ok(Message::Ping { timestamp }),
            None => Err(malformed),
        }
    } else if tag == TAG_PONG {
        match get_field_u64(bytes, 4) {
            Some(timestamp) => Ok(Message::Pong { timestamp }),
            None => Err(malformed),
        }
    } else if tag == TAG_ERROR {
        match get_field_bytes(bytes, 4) {
            Some(raw) => match text_from_utf8(raw) {
                Some(message) => Ok(Message::Error { message }),
                None => Err(malformed),
            },
            None => Err(malformed),
        }
    } else {
        Err(malformed)
    }
}


/// The frame that carries `payload`: its length, most significant byte
/// first, then the payload.
pub open spec fn frame_bytes(payload: Seq<u8>) -> Seq<u8> {
    u32_be(payload.len() as u32) + payload
}

/// The payload length that a frame header announces, or the violation where
/// it is above the limit.
pub open spec fn parse_frame_header(header: Seq<u8>) -> Result<int, ProtocolViolation>
    recommends
        header.len() == 4,
{
    if u32_from_be(header) > MAX_FRAME_LEN {
        Err(ProtocolViolation::FrameTooLarge)
    } else {
        Ok(u32_from_be(header))
    }
}

/// The payload of the frame that `b` starts with. Fewer bytes than the
/// header, or than the header announces, are a truncated frame.
pub open spec fn parse_frame(b: Seq<u8>) -> Result<Seq<u8>, ProtocolViolation> {
    if b.len() < 4 {
        Err(ProtocolViolation::Truncated)
    } else {
        match parse_frame_header(b.subrange(0, 4)) {
            Err(violation) => Err(violation),
            Ok(n) => if b.len() < 4 + n {
                Err(ProtocolViolation::Truncated)
            } else {
                Ok(b.subrange(4, 4 + n))
            },
        }
    }
}

/// The message in the frame that `b` starts with.
pub open spec fn parse_framed_message(b: Seq<u8>) -> Result<MessageView, ProtocolViolation> {
    match parse_frame(b) {
        Err(violation) => Err(violation),
        Ok(payload) => match parse_message(payload) {
            Some(m) => Ok(m),
            None => Err(ProtocolViolation::MalformedMessage),
        },
    }
}

/// A frame within the limit is read back, whatever follows it.
pub proof fn lemma_frame_round_trip(payload: Seq<u8>, behind: Seq<u8>)
    requires
        payload.len() <= MAX_FRAME_LEN,
    ensures
        parse_frame(frame_bytes(payload) + behind) == Ok::<Seq<u8>, ProtocolViolation>(payload),
        parse_frame(frame_bytes(payload)) == Ok::<Seq<u8>, ProtocolViolation>(payload),
{
    let n = payload.len() as u32;
    lemma_u32_round_trip(n);
    let b = frame_bytes(payload) + behind;
    assert(b.subrange(0, 4) =~= u32_be(n));
    assert(b.subrange(4, 4 + n) =~= payload);
    let c = frame_bytes(payload);
    assert(c.subrange(0, 4) =~= u32_be(n));
    assert(c.subrange(4, 4 + n) =~= payload);
}

/// A frame that was cut short is reported as truncated.
pub proof fn lemma_truncated_frame_rejected(payload: Seq<u8>, k: int)
    requires
        payload.len() <= MAX_FRAME_LEN,
        0 <= k < frame_bytes(payload).len(),
    ensures
        parse_frame(frame_bytes(payload).take(k)) == Err::<Seq<u8>, ProtocolViolation>(
            ProtocolViolation::Truncated,
        ),
{
    let n = payload.len() as u32;
    lemma_u32_round_trip(n);
    let cut = frame_bytes(payload).take(k);
    if k >= 4 {
        assert(cut.subrange(0, 4) =~= u32_be(n));
    }
}

/// A header that announces more than the limit is refused on the header
/// alone: what follows it plays no part.
pub proof fn lemma_oversized_frame_rejected(header: Seq<u8>, behind: Seq<u8>)
    requires
        header.len() == 4,
        u32_from_be(header) > MAX_FRAME_LEN,
    ensures
        parse_frame_header(header) == Err::<int, ProtocolViolation>(
            ProtocolViolation::FrameTooLarge,
        ),
        parse_frame(header + behind) == Err::<Seq<u8>, ProtocolViolation>(
            ProtocolViolation::FrameTooLarge,
        ),
{
    assert((header + behind).subrange(0, 4) =~= header);
}

/// Every message whose bytes fit a frame is read back from its frame.
pub proof fn lemma_framed_message_round_trip(m: MessageView, behind: Seq<u8>)
    requires
        encodable(m),
        message_bytes(m).len() <= MAX_FRAME_LEN,
    ensures
        parse_framed_message(frame_bytes(message_bytes(m)) + behind) == Ok::<
            MessageView,
            ProtocolViolation,
        >(m),
{
    lemma_frame_round_trip(message_bytes(m), behind);
    lemma_message_round_trip(m, Seq::<u8>::empty());
}

/// The payload length that the frame header `header` announces. A length
/// above [`MAX_FRAME_LEN`] is refused here, before any payload is read.
pub fn frame_payload_len(header: &[u8; 4]) -> (result: Result<usize, TransportError>)
    ensures
        match result {
            Ok(len) => parse_frame_header(header@) == Ok::<int, ProtocolViolation>(len as int)
                && len <= MAX_FRAME_LEN,
            Err(e) => parse_frame_header(header@) == Err::<int, ProtocolViolation>(
                ProtocolViolation::FrameTooLarge,
            ) && e == TransportError::ProtocolError(ProtocolViolation::FrameTooLarge),
        },
{
    let b0: u32 = header[0] as u32;
    let b1: u32 = header[1] as u32;
    let b2: u32 = header[2] as u32;
    let b3: u32 = header[3] as u32;
    proof {
        reveal(u32_from_be);
    }
    let len: u32 = b3 + 256 * b2 + 65536 * b1 + 16777216 * b0;
    if len > MAX_FRAME_LEN as u32 {
        Err(TransportError::ProtocolError(ProtocolViolation::FrameTooLarge))
    } else {
        Ok(len as usize)
    }
}

/// The frame that carries `payload`. A payload above [`MAX_FRAME_LEN`] is
/// refused.
pub fn encode_frame(payload: &[u8]) -> (result: Result<Vec<u8>, TransportError>)
    ensures
        match result {
            Ok(frame) => payload@.len() <= MAX_FRAME_LEN && frame@ == frame_bytes(payload@),
            Err(e) => payload@.len() > MAX_FRAME_LEN && e == TransportError::ProtocolError(
                ProtocolViolation::FrameTooLarge,
            ),
        },
{
    if payload.len() > MAX_FRAME_LEN {
        return Err(TransportError::ProtocolError(ProtocolViolation::FrameTooLarge));
    }
    let mut frame: Vec<u8> = Vec::new();
    put_u32_be(&mut frame, payload.len() as u32);
    put_bytes(&mut frame, payload);
    assert(frame@ =~= frame_bytes(payload@));
    Ok(frame)
}

/// The payload of the frame that `bytes` starts with.
pub fn decode_frame(bytes: &[u8]) -> (result: Result<Vec<u8>, TransportError>)
    ensures
        match result {
            Ok(payload) => parse_frame(bytes@) == Ok::<Seq<u8>, ProtocolViolation>(payload@),
            Err(e) => parse_frame(bytes@) is Err && e == TransportError::ProtocolError(
                parse_frame(bytes@)->Err_0,
            ),
        },
{
    if bytes.len() < 4 {
        return Err(TransportError::ProtocolError(ProtocolViolation::Truncated));
    }
    let announced: u32 = get_u32_be(bytes, 0);
    if announced > MAX_FRAME_LEN as u32 {
        return Err(TransportError::ProtocolError(ProtocolViolation::FrameTooLarge));
    }
    let len: usize = announced as usize;
    if bytes.len() - 4 < len {
        return Err(TransportError::ProtocolError(ProtocolViolation::Truncated));
    }
    let field = slice_subrange(bytes, 4, 4 + len);
    let mut payload: Vec<u8> = Vec::new();
    put_bytes(&mut payload, field);
    assert(payload@ =~= bytes@.subrange(4, 4 + len));
    Ok(payload)
}

/// The frame that carries `msg`.
pub fn encode_framed_message(msg: &Message) -> (result: Result<Vec<u8>, TransportError>)
    ensures
        match result {
            Ok(frame) => message_bytes(msg@).len() <= MAX_FRAME_LEN && frame@ == frame_bytes(
                message_bytes(msg@),
            ),
            Err(e) => message_bytes(msg@).len() > MAX_FRAME_LEN && e
                == TransportError::ProtocolError(ProtocolViolation::FrameTooLarge),
        },
{
    let payload = encode_message(msg);
    encode_frame(payload.as_slice())
}

/// The message in the frame that `bytes` starts with.
pub fn decode_framed_message(bytes: &[u8]) -> (result: Result<Message, TransportError>)
    ensures
        match result {
            Ok(msg) => parse_framed_message(bytes@) == Ok::<MessageView, ProtocolViolation>(msg@),
            Err(e) => parse_framed_message(bytes@) is Err && e == TransportError::ProtocolError(
                parse_framed_message(bytes@)->Err_0,
            ),
        },
{
    match decode_frame(bytes) {
        Err(e) => Err(e),
        Ok(payload) => decode_message(payload.as_slice()),
    }
}

} // verus!
