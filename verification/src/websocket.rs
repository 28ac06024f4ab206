//! Websocket (version 13) framing: reading frames from the bytes of a connection, writing
//! frames as bytes, and the opening handshake.

use base64::Engine;
use sha1::Digest;
use vstd::prelude::*;

use crate::action::{is_status_response, Action, IntoAction, IntoResponse};
use crate::error::Error;
use crate::http_utils::{text_header, text_header_value, Request, Version};
use crate::resolve::{RequestState, Resolve, ResolveGuard};
use crate::response::{RawResponse, Response};
use crate::routing::Captures;
use crate::text::{
    chars_eq, chars_eq_ignore_case, lower_chars, split_chars, split_on, str_chars, string_bytes, string_from_chars, trim_ows,
    trim_ows_from, utf8_str, views,
};
use vstd::utf8::{decode_utf8, encode_utf8, valid_utf8};

verus! {

/// A websocket frame.
#[derive(Debug)]
pub enum Frame {
    Text(String),
    Binary(Vec<u8>),
    Close(Option<u16>),
}

/// A frame as mathematical values.
pub enum FrameView {
    Text(Seq<char>),
    Binary(Seq<u8>),
    Close(Option<u16>),
}

impl View for Frame {
    type V = FrameView;

    open spec fn view(&self) -> FrameView {
        match self {
            Frame::Text(s) => FrameView::Text(s@),
            Frame::Binary(b) => FrameView::Binary(b@),
            Frame::Close(c) => FrameView::Close(*c),
        }
    }
}

/// Why a frame could not be read or written.
#[derive(Clone, Copy, Debug, PartialEq, Eq, Structural)]
pub enum FrameError {
    /// A text frame whose payload is not UTF-8.
    InvalidUtf8,
    /// A frame of an opcode other than text, binary and close.
    Unsupported,
    /// A payload longer than 65535 bytes, which is not written.
    TooLong,
}

impl FrameError {
    /// The human readable text of the error.
    pub fn message(&self) -> (r: String)
        ensures
            r@ == match *self {
                FrameError::InvalidUtf8 => "Invalid UTF-8 in text frame"@,
                FrameError::Unsupported => "Unsupported frame type"@,
                FrameError::TooLong => "Payload length exceeds maximum supported length"@,
            },
    {
        match self {
            FrameError::InvalidUtf8 => "Invalid UTF-8 in text frame".to_owned(),
            FrameError::Unsupported => "Unsupported frame type".to_owned(),
            FrameError::TooLong => "Payload length exceeds maximum supported length".to_owned(),
        }
    }
}

/// The number that big-endian bytes stand for.
pub open spec fn be_value(b: Seq<u8>) -> nat
    decreases b.len(),
{
    if b.len() == 0 {
        0
    } else {
        be_value(b.drop_last()) * 256 + (b.last() as nat)
    }
}

/// `256` to the power `n`.
pub open spec fn pow256(n: nat) -> nat
    decreases n,
{
    if n == 0 {
        1
    } else {
        pow256((n - 1) as nat) * 256
    }
}

proof fn lemma_be_value_bound(b: Seq<u8>)
    ensures
        be_value(b) < pow256(b.len()),
    decreases b.len(),
{
    if b.len() > 0 {
        lemma_be_value_bound(b.drop_last());
        let v = be_value(b.drop_last());
        let p = pow256(b.drop_last().len());
        let x = b.last() as nat;
        assert(v * 256 + x < p * 256) by (nonlinear_arith)
            requires
                v < p,
                x < 256,
        ;
    }
}

/// The opcode of a frame: the low four bits of its first byte.
pub open spec fn opcode_of(b: Seq<u8>) -> u8 {
    b[0] % 16
}

/// Whether the payload of a frame is masked: the high bit of its second byte.
pub open spec fn is_masked(b: Seq<u8>) -> bool {
    b[1] >= 128
}

/// The seven-bit length field of a frame.
pub open spec fn short_len(b: Seq<u8>) -> u8 {
    b[1] % 128
}

/// The size of the extended length field: 2 bytes after 126, 8 after 127, none otherwise.
pub open spec fn ext_size(b: Seq<u8>) -> nat {
    if short_len(b) == 126 {
        2
    } else if short_len(b) == 127 {
        8
    } else {
        0
    }
}

/// The size of the masking key.
pub open spec fn key_size(b: Seq<u8>) -> nat {
    if is_masked(b) {
        4
    } else {
        0
    }
}

/// The length of the payload.
pub open spec fn payload_size(b: Seq<u8>) -> nat {
    if short_len(b) == 126 {
        be_value(b.subrange(2, 4))
    } else if short_len(b) == 127 {
        be_value(b.subrange(2, 10))
    } else {
        short_len(b) as nat
    }
}

/// Where the payload starts.
pub open spec fn payload_start(b: Seq<u8>) -> nat {
    2 + ext_size(b) + key_size(b)
}

/// The number of bytes the frame takes.
pub open spec fn frame_size(b: Seq<u8>) -> nat {
    payload_start(b) + payload_size(b)
}

/// `p` with each byte combined by exclusive or with the key byte at its index modulo four.
pub open spec fn unmask(p: Seq<u8>, key: Seq<u8>) -> Seq<u8> {
    Seq::new(p.len(), |i: int| p[i] ^ key[i % 4])
}

/// The payload of a frame, unmasked.
pub open spec fn frame_payload(b: Seq<u8>) -> Seq<u8> {
    let raw = b.subrange(payload_start(b) as int, frame_size(b) as int);
    if is_masked(b) {
        unmask(raw, b.subrange(2 + ext_size(b) as int, 2 + ext_size(b) as int + 4))
    } else {
        raw
    }
}

/// The frame that the bytes of a whole frame stand for: text (when its payload is UTF-8),
/// binary, or close with the status code of its first two payload bytes, if any.
pub open spec fn decode_frame(b: Seq<u8>) -> Result<FrameView, FrameError> {
    let p = frame_payload(b);
    let op = opcode_of(b);
    if op == 1 {
        if valid_utf8(p) {
            Ok(FrameView::Text(decode_utf8(p)))
        } else {
            Err(FrameError::InvalidUtf8)
        }
    } else if op == 2 {
        Ok(FrameView::Binary(p))
    } else if op == 8 {
        Ok(
            FrameView::Close(
                if p.len() >= 2 {
                    Some((p[0] * 256 + p[1]) as u16)
                } else {
                    None
                },
            ),
        )
    } else {
        Err(FrameError::Unsupported)
    }
}

/// The size of the next piece to read after the bytes `b` of a frame were read: the two
/// header bytes, the extended length, the masking key, then the payload.
pub open spec fn next_piece(b: Seq<u8>) -> nat {
    if b.len() == 0 {
        2
    } else if b.len() == 2 && ext_size(b) > 0 {
        ext_size(b)
    } else if b.len() == 2 + ext_size(b) && key_size(b) > 0 {
        4
    } else {
        payload_size(b)
    }
}

/// Whether the next piece after `b` is the payload.
pub open spec fn payload_next(b: Seq<u8>) -> bool {
    &&& b.len() > 0
    &&& !(b.len() == 2 && ext_size(b) > 0)
    &&& !(b.len() == 2 + ext_size(b) && key_size(b) > 0)
}

/// Reads one frame from the pieces of a connection's bytes: the reader says how many bytes
/// it wants next, and is given exactly that many.
pub struct FrameReader {
    bytes: Vec<u8>,
    finished: bool,
}

impl FrameReader {
    #[verifier::type_invariant]
    spec fn inv(&self) -> bool {
        let b = self.bytes@;
        if self.finished {
            &&& b.len() >= 2
            &&& b.len() == frame_size(b)
        } else {
            ||| b.len() == 0
            ||| b.len() == 2
            ||| b.len() >= 2 && b.len() == 2 + ext_size(b)
            ||| b.len() >= 2 && b.len() == 2 + ext_size(b) + key_size(b)
        }
    }

    /// The bytes read so far.
    pub closed spec fn consumed(&self) -> Seq<u8> {
        self.bytes@
    }

    /// Whether the frame has been read whole.
    pub closed spec fn finished(&self) -> bool {
        self.finished
    }

    /// A reader that has read nothing.
    pub fn new() -> (r: Self)
        ensures
            r.consumed() == Seq::<u8>::empty(),
            !r.finished(),
    {
        FrameReader { bytes: Vec::new(), finished: false }
    }

    /// The number of bytes to read next.
    pub fn wanted(&self) -> (n: u64)
        requires
            !self.finished(),
        ensures
            n == next_piece(self.consumed()),
    {
        proof {
            use_type_invariant(self);
        }
        let b = &self.bytes;
        if b.len() == 0 {
            return 2;
        }
        let short = b[1] % 128;
        let ext: usize = if short == 126 {
            2
        } else if short == 127 {
            8
        } else {
            0
        };
        let key: usize = if b[1] >= 128 {
            4
        } else {
            0
        };
        if b.len() == 2 && ext > 0 {
            ext as u64
        } else if b.len() == 2 + ext && key > 0 {
            4
        } else {
            payload_len(b)
        }
    }

    /// Takes the next piece, which must have the size `wanted` gave. When it was the payload,
    /// gives the frame read, or why it cannot be read.
    pub fn feed(&mut self, piece: &[u8]) -> (r: Option<Result<Frame, FrameError>>)
        requires
            !old(self).finished(),
            piece@.len() == next_piece(old(self).consumed()),
        ensures
            final(self).consumed() == old(self).consumed() + piece@,
            r is Some <==> payload_next(old(self).consumed()),
            r is Some <==> final(self).finished(),
            r matches Some(res) ==> {
                &&& final(self).consumed().len() == frame_size(final(self).consumed())
                &&& match (res, decode_frame(final(self).consumed())) {
                    (Ok(f), Ok(g)) => f@ == g,
                    (Err(e), Err(g)) => e == g,
                    _ => false,
                }
            },
    {
        proof {
            use_type_invariant(&*self);
        }
        let ghost before = self.bytes@;
        let is_payload = self.bytes.len() > 0 && !(self.bytes.len() == 2 && ext_len(&self.bytes) > 0)
            && !(self.bytes.len() == 2 + ext_len(&self.bytes) && self.bytes[1] >= 128);
        let mut bytes: Vec<u8> = Vec::new();
        std::mem::swap(&mut bytes, &mut self.bytes);
        let mut i: usize = 0;
        while i < piece.len()
            invariant
                i <= piece@.len(),
                bytes@ == before + piece@.take(i as int),
            decreases piece@.len() - i,
        {
            bytes.push(piece[i]);
            assert(piece@.take(i + 1) == piece@.take(i as int).push(piece@[i as int]));
            i = i + 1;
        }
        assert(piece@.take(piece@.len() as int) == piece@);
        let ghost after = bytes@;
        assert(after.subrange(0, before.len() as int) == before);
        proof {
            if before.len() >= 2 {
                assert(after[0] == before[0] && after[1] == before[1]);
            }
            if before.len() >= 10 {
                assert(after.subrange(2, 10) == before.subrange(2, 10));
            } else if before.len() >= 4 {
                assert(after.subrange(2, 4) == before.subrange(2, 4));
            }
        }
        if !is_payload {
            self.bytes = bytes;
            return None;
        }
        let result = decode(&bytes);
        *self = FrameReader { bytes, finished: true };
        Some(result)
    }
}

/// The size of the extended length field of a frame whose two header bytes were read.
fn ext_len(b: &Vec<u8>) -> (n: usize)
    requires
        b@.len() >= 2,
    ensures
        n == ext_size(b@),
{
    let short = b[1] % 128;
    if short == 126 {
        2
    } else if short == 127 {
        8
    } else {
        0
    }
}

/// The number that big-endian bytes stand for.
fn be_number(b: &[u8]) -> (n: u64)
    requires
        b@.len() <= 8,
    ensures
        n == be_value(b@),
{
    let mut v: u64 = 0;
    let mut i: usize = 0;
    while i < b.len()
        invariant
            i <= b@.len() <= 8,
            v == be_value(b@.take(i as int)),
        decreases b@.len() - i,
    {
        proof {
            lemma_be_value_bound(b@.take(i as int));
            assert(pow256(8) == 18446744073709551616) by {
                reveal_with_fuel(pow256, 9);
            }
            lemma_pow256_mono(i as nat, 7);
            assert(b@.take(i + 1).drop_last() == b@.take(i as int));
        }
        assert(v * 256 + b[i as int] < pow256(i as nat) * 256) by (nonlinear_arith)
            requires
                v < pow256(i as nat),
                b[i as int] < 256,
        ;
        v = v * 256 + b[i] as u64;
        i = i + 1;
    }
    assert(b@.take(b@.len() as int) == b@);
    v
}

proof fn lemma_pow256_mono(i: nat, j: nat)
    requires
        i <= j,
    ensures
        pow256(i) <= pow256(j),
    decreases j,
{
    if i < j {
        lemma_pow256_mono(i, (j - 1) as nat);
    }
}

/// The payload length of a frame whose length fields were read.
fn payload_len(b: &Vec<u8>) -> (n: u64)
    requires
        b@.len() >= 2,
        b@.len() >= 2 + ext_size(b@),
    ensures
        n == payload_size(b@),
{
    let short = b[1] % 128;
    if short == 126 {
        let field = slice_of(b, 2, 4);
        be_number(&field)
    } else if short == 127 {
        let field = slice_of(b, 2, 10);
        be_number(&field)
    } else {
        short as u64
    }
}

/// The bytes `b[from..to]`.
fn slice_of(b: &Vec<u8>, from: usize, to: usize) -> (r: Vec<u8>)
    requires
        from <= to <= b@.len(),
    ensures
        r@ == b@.subrange(from as int, to as int),
{
    let mut r: Vec<u8> = Vec::new();
    let mut i: usize = from;
    while i < to
        invariant
            from <= i <= to <= b@.len(),
            r@ == b@.subrange(from as int, i as int),
        decreases to - i,
    {
        r.push(b[i]);
        assert(b@.subrange(from as int, i + 1) == b@.subrange(from as int, i as int).push(b@[i as int]));
        i = i + 1;
    }
    r
}

/// Decodes the bytes of a whole frame.
fn decode(b: &Vec<u8>) -> (r: Result<Frame, FrameError>)
    requires
        b@.len() >= 2,
        b@.len() == frame_size(b@),
    ensures
        match (r, decode_frame(b@)) {
            (Ok(f), Ok(g)) => f@ == g,
            (Err(e), Err(g)) => e == g,
            _ => false,
        },
{
    let ext = ext_len(b);
    let masked = b[1] >= 128;
    let key_len: usize = if masked {
        4
    } else {
        0
    };
    let start = 2 + ext + key_len;
    let raw = slice_of(b, start, b.len());
    let payload = if masked {
        let key = slice_of(b, 2 + ext, 2 + ext + 4);
        unmask_bytes(&raw, &key)
    } else {
        raw
    };
    assert(payload@ == frame_payload(b@));
    let opcode = b[0] % 16;
    if opcode == 1 {
        match utf8_str(payload.as_slice()) {
            Some(s) => Ok(Frame::Text(s.to_owned())),
            None => Err(FrameError::InvalidUtf8),
        }
    } else if opcode == 2 {
        Ok(Frame::Binary(payload))
    } else if opcode == 8 {
        if payload.len() >= 2 {
            let code: u16 = payload[0] as u16 * 256 + payload[1] as u16;
            Ok(Frame::Close(Some(code)))
        } else {
            Ok(Frame::Close(None))
        }
    } else {
        Err(FrameError::Unsupported)
    }
}

/// Unmasks a payload with a four byte key.
fn unmask_bytes(p: &Vec<u8>, key: &Vec<u8>) -> (r: Vec<u8>)
    requires
        key@.len() == 4,
    ensures
        r@ == unmask(p@, key@),
{
    let mut r: Vec<u8> = Vec::new();
    let mut i: usize = 0;
    while i < p.len()
        invariant
            i <= p@.len(),
            key@.len() == 4,
            r@.len() == i,
            forall|j: int| 0 <= j < i ==> r@[j] == p@[j] ^ key@[j % 4],
        decreases p@.len() - i,
    {
        r.push(p[i] ^ key[i % 4]);
        i = i + 1;
    }
    assert(r@ == unmask(p@, key@));
    r
}

/// The bytes of a payload length as frames are written (RFC 6455): the length itself up to
/// 125; up to 65535, the byte 126 and then the length in two bytes, big-endian.
pub open spec fn length_field(n: nat) -> Option<Seq<u8>> {
    if n <= 125 {
        Some(seq![n as u8])
    } else if n <= 65535 {
        Some(seq![126u8, (n / 256) as u8, (n % 256) as u8])
    } else {
        None
    }
}

/// The bytes written for a data frame with the first byte `first`, and the error reported
/// after writing them: the first byte alone when the payload is too long.
pub open spec fn data_encoding(first: u8, p: Seq<u8>) -> (Seq<u8>, Option<FrameError>) {
    match length_field(p.len()) {
        Some(h) => (seq![first] + h + p, None),
        None => (seq![first], Some(FrameError::TooLong)),
    }
}

/// The bytes written for a frame (final, unmasked), and the error reported after them.
pub open spec fn frame_encoding(f: FrameView) -> (Seq<u8>, Option<FrameError>) {
    match f {
        FrameView::Text(s) => data_encoding(0x81, encode_utf8(s)),
        FrameView::Binary(p) => data_encoding(0x82, p),
        FrameView::Close(Some(c)) => (seq![0x88u8, 2u8, (c / 256) as u8, (c % 256) as u8], None),
        FrameView::Close(None) => (seq![0x88u8, 0u8], None),
    }
}

/// The bytes that encode a payload length, or `TooLong` beyond 65535.
pub fn length_header(len: usize) -> (r: Result<Vec<u8>, FrameError>)
    ensures
        match length_field(len as nat) {
            Some(h) => r is Ok && r->Ok_0@ == h,
            None => r == Err::<Vec<u8>, FrameError>(FrameError::TooLong),
        },
{
    if len <= 125 {
        let mut v: Vec<u8> = Vec::new();
        v.push(len as u8);
        assert(v@ == seq![len as u8]);
        Ok(v)
    } else if len <= 65535 {
        let mut v: Vec<u8> = Vec::new();
        v.push(126u8);
        v.push((len / 256) as u8);
        v.push((len % 256) as u8);
        assert(v@ == seq![126u8, (len / 256) as u8, (len % 256) as u8]);
        Ok(v)
    } else {
        Err(FrameError::TooLong)
    }
}

/// Appends the bytes of `b` to `v`.
fn append_bytes(v: &mut Vec<u8>, b: &Vec<u8>)
    ensures
        final(v)@ == old(v)@ + b@,
{
    let ghost start = v@;
    let mut i: usize = 0;
    while i < b.len()
        invariant
            i <= b@.len(),
            v@ == start + b@.take(i as int),
        decreases b@.len() - i,
    {
        v.push(b[i]);
        assert(b@.take(i + 1) == b@.take(i as int).push(b@[i as int]));
        i = i + 1;
    }
    assert(b@.take(b@.len() as int) == b@);
}

/// The bytes written for a data frame.
fn encode_data(first: u8, p: Vec<u8>) -> (r: (Vec<u8>, Option<FrameError>))
    ensures
        (r.0@, r.1) == data_encoding(first, p@),
{
    let mut out: Vec<u8> = Vec::new();
    out.push(first);
    match length_header(p.len()) {
        Err(e) => {
            assert(out@ == seq![first]);
            (out, Some(e))
        },
        Ok(h) => {
            append_bytes(&mut out, &h);
            append_bytes(&mut out, &p);
            assert(out@ == seq![first] + h@ + p@);
            (out, None)
        },
    }
}

/// The bytes to write for a frame, final and unmasked, and the error to report after writing
/// them: a text or binary payload longer than 65535 bytes is refused after its first byte.
pub fn encode_frame(frame: Frame) -> (r: (Vec<u8>, Option<FrameError>))
    ensures
        (r.0@, r.1) == frame_encoding(frame@),
{
    match frame {
        Frame::Text(s) => {
            let p = string_bytes(&s);
            encode_data(0x81, p)
        },
        Frame::Binary(p) => encode_data(0x82, p),
        Frame::Close(Some(code)) => {
            let mut out: Vec<u8> = Vec::new();
            out.push(0x88u8);
            out.push(2u8);
            out.push((code / 256) as u8);
            out.push((code % 256) as u8);
            assert(out@ == seq![0x88u8, 2u8, (code / 256) as u8, (code % 256) as u8]);
            (out, None)
        },
        Frame::Close(None) => {
            let mut out: Vec<u8> = Vec::new();
            out.push(0x88u8);
            out.push(0u8);
            assert(out@ == seq![0x88u8, 0u8]);
            (out, None)
        },
    }
}

/// The length of the payload a frame is written with.
pub open spec fn payload_len_of(f: FrameView) -> nat {
    match f {
        FrameView::Text(s) => encode_utf8(s).len(),
        FrameView::Binary(p) => p.len(),
        FrameView::Close(Some(_)) => 2,
        FrameView::Close(None) => 0,
    }
}

proof fn lemma_data_frame(first: u8, p: Seq<u8>)
    requires
        p.len() <= 65535,
        first == 0x81 || first == 0x82,
    ensures
        data_encoding(first, p).1 is None,
        frame_size(data_encoding(first, p).0) == data_encoding(first, p).0.len(),
        frame_payload(data_encoding(first, p).0) == p,
        opcode_of(data_encoding(first, p).0) == first % 16,
        p.len() <= 125 ==> payload_next(data_encoding(first, p).0.take(2)),
        p.len() <= 125 ==> next_piece(data_encoding(first, p).0.take(2)) == p.len(),
        p.len() > 125 ==> !payload_next(data_encoding(first, p).0.take(2)),
        p.len() > 125 ==> next_piece(data_encoding(first, p).0.take(2)) == 2,
        p.len() > 125 ==> payload_next(data_encoding(first, p).0.take(4)),
        p.len() > 125 ==> next_piece(data_encoding(first, p).0.take(4)) == p.len(),
{
    let b = data_encoding(first, p).0;
    if p.len() <= 125 {
        assert(b == seq![first] + seq![p.len() as u8] + p);
        assert(b.take(2) =~= seq![first, p.len() as u8]);
        assert(frame_payload(b) =~= p);
    } else {
        let hi = (p.len() / 256) as u8;
        let lo = (p.len() % 256) as u8;
        assert(b == seq![first] + seq![126u8, hi, lo] + p);
        assert(b.subrange(2, 4) =~= seq![hi, lo]);
        assert(b.take(2) =~= seq![first, 126u8]);
        assert(b.take(4) =~= seq![first, 126u8, hi, lo]);
        assert(b.take(4).subrange(2, 4) =~= seq![hi, lo]);
        assert(be_value(seq![hi, lo]) == hi * 256 + lo) by {
            reveal_with_fuel(be_value, 3);
            assert(seq![hi, lo].drop_last() =~= seq![hi]);
            assert(seq![hi].drop_last() =~= Seq::<u8>::empty());
            assert(be_value(Seq::<u8>::empty()) == 0);
            assert(be_value(seq![hi]) == hi);
        }
        assert(hi * 256 + lo == p.len());
        assert(frame_payload(b) =~= p);
    }
}

/// The bytes of a data frame as a client sends it: the first byte, the length field with
/// the mask bit set, the masking key, and the payload with each byte combined by exclusive or
/// with the key byte at its index modulo four.
pub open spec fn masked_data_encoding(first: u8, p: Seq<u8>, key: Seq<u8>) -> Seq<u8> {
    let h = length_field(p.len())->Some_0;
    seq![first, (h[0] + 128) as u8] + h.drop_first() + key + Seq::new(p.len(), |i: int| p[i] ^ key[i % 4])
}

proof fn lemma_xor_twice(x: u8, k: u8)
    ensures
        (x ^ k) ^ k == x,
{
    assert((x ^ k) ^ k == x) by (bit_vector);
}

/// Masking law: a data frame of at most 65535 payload bytes that a client masks with any
/// four-byte key is read back, unmasked, as its payload: the key is the four bytes after the
/// length field (after the extended length when there is one), so short and long frames
/// alike give back what was sent.
pub proof fn lemma_masked_frame_round_trip(first: u8, p: Seq<u8>, key: Seq<u8>)
    requires
        p.len() <= 65535,
        key.len() == 4,
    ensures
        is_masked(masked_data_encoding(first, p, key)),
        frame_size(masked_data_encoding(first, p, key)) == masked_data_encoding(first, p, key).len(),
        frame_payload(masked_data_encoding(first, p, key)) == p,
        first == 0x82 ==> decode_frame(masked_data_encoding(first, p, key)) == Ok::<FrameView, FrameError>(
            FrameView::Binary(p),
        ),
        p.len() <= 125 ==> next_piece(masked_data_encoding(first, p, key).take(2)) == 4 && !payload_next(
            masked_data_encoding(first, p, key).take(2),
        ),
        p.len() <= 125 ==> next_piece(masked_data_encoding(first, p, key).take(6)) == p.len() && payload_next(
            masked_data_encoding(first, p, key).take(6),
        ),
        p.len() > 125 ==> next_piece(masked_data_encoding(first, p, key).take(2)) == 2 && !payload_next(
            masked_data_encoding(first, p, key).take(2),
        ),
        p.len() > 125 ==> next_piece(masked_data_encoding(first, p, key).take(4)) == 4 && !payload_next(
            masked_data_encoding(first, p, key).take(4),
        ),
        p.len() > 125 ==> next_piece(masked_data_encoding(first, p, key).take(8)) == p.len() && payload_next(
            masked_data_encoding(first, p, key).take(8),
        ),
{
    let b = masked_data_encoding(first, p, key);
    let m = Seq::new(p.len(), |i: int| p[i] ^ key[i % 4]);
    if p.len() <= 125 {
        let l = p.len() as u8;
        assert(b == seq![first, (l + 128) as u8] + seq![] + key + m) by {
            assert(length_field(p.len()) == Some(seq![l]));
            assert(seq![l].drop_first() =~= Seq::<u8>::empty());
        }
        assert(b[1] == (l + 128) as u8);
        assert(((l + 128) as u8) % 128 == l);
        assert(b.subrange(2, 6) =~= key);
        assert(b.subrange(6, 6 + p.len() as int) =~= m);
        assert(b.take(2) =~= seq![first, (l + 128) as u8]);
        assert(b.take(6)[1] == b[1]);
    } else {
        let hi = (p.len() / 256) as u8;
        let lo = (p.len() % 256) as u8;
        assert(b == seq![first, 254u8] + seq![hi, lo] + key + m) by {
            assert(length_field(p.len()) == Some(seq![126u8, hi, lo]));
            assert(seq![126u8, hi, lo].drop_first() =~= seq![hi, lo]);
        }
        assert(b[1] == 254u8);
        assert(b.subrange(2, 4) =~= seq![hi, lo]);
        assert(be_value(seq![hi, lo]) == hi * 256 + lo) by {
            reveal_with_fuel(be_value, 3);
            assert(seq![hi, lo].drop_last() =~= seq![hi]);
            assert(seq![hi].drop_last() =~= Seq::<u8>::empty());
        }
        assert(b.subrange(4, 8) =~= key);
        assert(b.subrange(8, 8 + p.len() as int) =~= m);
        assert(b.take(2) =~= seq![first, 254u8]);
        assert(b.take(4) =~= seq![first, 254u8, hi, lo]);
        assert(b.take(4).subrange(2, 4) =~= seq![hi, lo]);
        assert(b.take(8).subrange(2, 4) =~= seq![hi, lo]);
        assert(b.take(8)[1] == 254u8);
    }
    assert forall|i: int| 0 <= i < p.len() implies #[trigger] unmask(m, key)[i] == p[i] by {
        lemma_xor_twice(p[i], key[i % 4]);
    }
    assert(unmask(m, key) =~= p);
}

/// A frame with a payload of at most 65535 bytes is written whole and reads back as the same
/// frame. With at most 125 bytes it is read in two pieces (header, payload); with more, in
/// three (header, two length bytes, payload).
pub proof fn lemma_frame_round_trip(f: FrameView)
    requires
        payload_len_of(f) <= 65535,
    ensures
        frame_encoding(f).1 is None,
        next_piece(Seq::<u8>::empty()) == 2,
        frame_size(frame_encoding(f).0) == frame_encoding(f).0.len(),
        decode_frame(frame_encoding(f).0) == Ok::<FrameView, FrameError>(f),
        payload_len_of(f) <= 125 ==> payload_next(frame_encoding(f).0.take(2)),
        payload_len_of(f) <= 125 ==> next_piece(frame_encoding(f).0.take(2)) == payload_len_of(f),
        payload_len_of(f) > 125 ==> !payload_next(frame_encoding(f).0.take(2)),
        payload_len_of(f) > 125 ==> next_piece(frame_encoding(f).0.take(2)) == 2,
        payload_len_of(f) > 125 ==> payload_next(frame_encoding(f).0.take(4)),
        payload_len_of(f) > 125 ==> next_piece(frame_encoding(f).0.take(4)) == payload_len_of(f),
{
    let b = frame_encoding(f).0;
    match f {
        FrameView::Text(s) => {
            vstd::utf8::encode_utf8_valid_utf8(s);
            vstd::utf8::encode_utf8_decode_utf8(s);
            lemma_data_frame(0x81, encode_utf8(s));
        },
        FrameView::Binary(p) => {
            lemma_data_frame(0x82, p);
        },
        FrameView::Close(Some(c)) => {
            assert(b.take(2) =~= seq![0x88u8, 2u8]);
            assert(frame_payload(b) =~= seq![(c / 256) as u8, (c % 256) as u8]);
        },
        FrameView::Close(None) => {
            assert(b.take(2) =~= seq![0x88u8, 0u8]);
            assert(frame_payload(b) =~= Seq::<u8>::empty());
        },
    }
}

/// The GUID that RFC 6455 appends to a client's key.
pub const GUID: &'static str = "258EAFA5-E914-47DA-95CA-C5AB0DC85B11";

/// The SHA-1 digest of some bytes, as the `sha1` crate computes it.
pub uninterp spec fn sha1_digest(data: Seq<u8>) -> Seq<u8>;

/// The base64 text of some bytes, as the `STANDARD` engine of the `base64` crate writes it
/// (standard alphabet, with padding).
pub uninterp spec fn base64_standard(data: Seq<u8>) -> Seq<char>;

/// The characters of the standard base64 alphabet and its padding.
pub open spec fn is_base64_char(c: char) -> bool {
    ||| 'A' <= c && c <= 'Z'
    ||| 'a' <= c && c <= 'z'
    ||| '0' <= c && c <= '9'
    ||| c == '+' || c == '/' || c == '='
}

/// `sha1::Sha1`: `new`, `update` with the bytes, `finalize`. The digest is 20 bytes long.
#[verifier::external_body]
fn sha1(data: &[u8]) -> (r: Vec<u8>)
    ensures
        r@ == sha1_digest(data@),
        r@.len() == 20,
{
    let mut hasher = sha1::Sha1::new();
    hasher.update(data);
    hasher.finalize().to_vec()
}

/// `base64::engine::general_purpose::STANDARD.encode`: the text is made of the characters of
/// the standard alphabet and the padding `=`, four for every three bytes or part of three.
/// The length bound keeps the computation of the output size from overflowing, where
/// `encode` panics.
#[verifier::external_body]
fn base64_encode(data: &[u8]) -> (r: String)
    requires
        data@.len() <= usize::MAX / 2,
    ensures
        r@ == base64_standard(data@),
        r@.len() == 4 * ((data@.len() + 2) / 3),
        forall|i: int| 0 <= i < r@.len() ==> is_base64_char(#[trigger] r@[i]),
{
    base64::engine::general_purpose::STANDARD.encode(data)
}

/// The `sec-websocket-accept` value for a client's key: the base64 text of the SHA-1 digest
/// of the key followed by the GUID.
pub open spec fn accept_value(key: Seq<char>) -> Seq<char> {
    base64_standard(sha1_digest(encode_utf8(key + GUID@)))
}

/// Computes the `sec-websocket-accept` value for a client's key.
pub fn encode_key(key: &str) -> (r: String)
    ensures
        r@ == accept_value(key@),
        r@.len() == 28,
        forall|i: int| 0 <= i < r@.len() ==> is_base64_char(#[trigger] r@[i]),
{
    let mut cs = str_chars(key);
    let guid = str_chars(GUID);
    let mut i: usize = 0;
    while i < guid.len()
        invariant
            i <= guid@.len(),
            guid@ == GUID@,
            cs@ == key@ + guid@.take(i as int),
        decreases guid@.len() - i,
    {
        cs.push(guid[i]);
        assert(guid@.take(i + 1) == guid@.take(i as int).push(guid@[i as int]));
        i = i + 1;
    }
    assert(guid@.take(guid@.len() as int) == guid@);
    let concatenated = string_from_chars(&cs);
    let bytes = string_bytes(&concatenated);
    let digest = sha1(bytes.as_slice());
    base64_encode(digest.as_slice())
}

/// Whether a header value offers websocket version 13: one of its comma-separated items is
/// `13`, spaces and tabs around it aside.
pub open spec fn offers_version_13(v: Seq<char>) -> bool {
    exists|i: int| 0 <= i < split_on(v, ',').len() && trim_ows(#[trigger] split_on(v, ',')[i]) == "13"@
}

/// The client offers version 13 in its `sec-websocket-version` header.
pub open spec fn supports_version_13<B>(req: &Request<B>) -> bool {
    match text_header(req, "sec-websocket-version"@) {
        Some(v) => offers_version_13(v),
        None => false,
    }
}

/// Whether a header value offers websocket version 13.
fn offers_13(v: &String) -> (r: bool)
    ensures
        r == offers_version_13(v@),
{
    let cs = str_chars(v.as_str());
    let items = split_chars(&cs, ',');
    let thirteen = str_chars("13");
    let mut i: usize = 0;
    while i < items.len()
        invariant
            i <= items@.len(),
            views(items@) == split_on(v@, ','),
            thirteen@ == "13"@,
            forall|j: int| 0 <= j < i ==> trim_ows(#[trigger] split_on(v@, ',')[j]) != "13"@,
        decreases items@.len() - i,
    {
        let item = &items[i];
        let trimmed = trim_ows_from(item.as_slice(), 0);
        assert(item@.skip(0) == item@);
        assert(split_on(v@, ',')[i as int] == item@);
        if chars_eq(&trimmed, &thirteen) {
            return true;
        }
        i = i + 1;
    }
    false
}

/// The answer to a websocket opening request: 426 naming the supported version when version
/// 13 is not offered, 400 without a readable `sec-websocket-key`, and otherwise 101 with the
/// accept value and the upgrade headers.
pub open spec fn handshake_response<B>(req: &Request<B>, r: RawResponse) -> bool {
    &&& !supports_version_13(req) ==> {
        &&& r.spec_version() == Version::HTTP_11
        &&& r.spec_status() == 426
        &&& r.spec_headers() == seq![("sec-websocket-version"@, "13"@)]
        &&& r.spec_body()@ == Seq::<u8>::empty()
    }
    &&& supports_version_13(req) && text_header(req, "sec-websocket-key"@) is None ==> is_status_response(r, 400)
    &&& supports_version_13(req) && text_header(req, "sec-websocket-key"@) is Some ==> {
        &&& r.spec_version() == Version::HTTP_11
        &&& r.spec_status() == 101
        &&& r.spec_headers() == seq![
            ("sec-websocket-accept"@, accept_value(text_header(req, "sec-websocket-key"@)->Some_0)),
            ("upgrade"@, "websocket"@),
            ("connection"@, "upgrade"@),
        ]
        &&& r.spec_body()@ == Seq::<u8>::empty()
    }
}

/// Answers a websocket opening request: 426 naming the supported version when version 13 is
/// not offered, 400 without a readable `sec-websocket-key`, and otherwise 101 with the accept
/// value and the upgrade headers.
pub fn respond_handshake<B>(req: &Request<B>) -> (r: RawResponse)
    ensures
        handshake_response(req, r),
{
    let supported = match text_header_value(req, "sec-websocket-version") {
        None => false,
        Some(v) => offers_13(&v),
    };
    if !supported {
        let r = Response::new(426, Vec::new()).push_header("sec-websocket-version".to_owned(), "13".to_owned());
        assert(r.spec_headers() =~= seq![("sec-websocket-version"@, "13"@)]);
        return r;
    }
    let key = match text_header_value(req, "sec-websocket-key") {
        None => {
            return 400u16.response();
        },
        Some(k) => k,
    };
    let accept = encode_key(key.as_str());
    let r = Response::new(101, Vec::new()).push_header("sec-websocket-accept".to_owned(), accept).push_header(
        "upgrade".to_owned(),
        "websocket".to_owned(),
    ).push_header("connection".to_owned(), "upgrade".to_owned());
    assert(r.spec_headers() =~= seq![
        ("sec-websocket-accept"@, accept_value(key@)),
        ("upgrade"@, "websocket"@),
        ("connection"@, "upgrade"@),
    ]);
    r
}

/// Whether the request asks for a connection upgrade: its `connection` header reads, as
/// text, `upgrade` in any case.
pub open spec fn asks_upgrade<B>(req: &Request<B>) -> bool {
    match text_header(req, "connection"@) {
        Some(v) => lower_chars(v) == "upgrade"@,
        None => false,
    }
}

/// Whether the request asks for a connection upgrade.
pub fn asks_for_upgrade<B>(req: &Request<B>) -> (r: bool)
    ensures
        r == asks_upgrade(req),
{
    let upgrade = str_chars("upgrade");
    proof {
        lemma_lower_upgrade();
    }
    match text_header_value(req, "connection") {
        None => false,
        Some(v) => {
            let cs = str_chars(v.as_str());
            chars_eq_ignore_case(&cs, &upgrade)
        },
    }
}

/// Guards on the `connection: upgrade` header; gives the way to answer with a websocket.
pub struct Upgrade;

impl<C> Resolve<C> for Upgrade {
    open spec fn resolves(
        ctx: &RequestState<C>,
        captures: Seq<String>,
        guard: ResolveGuard<Self>,
        rest: Seq<String>,
    ) -> bool {
        &&& rest == captures
        &&& guard == if asks_upgrade(&ctx.request) {
            ResolveGuard::Value(Upgrade)
        } else {
            ResolveGuard::<Upgrade>::Fail(Error::NotFound)
        }
    }

    /// The value when the request asks for an upgrade; otherwise the system does not run.
    fn resolve(ctx: &RequestState<C>, captures: &mut Captures) -> (r: ResolveGuard<Self>) {
        if asks_for_upgrade(&ctx.request) {
            ResolveGuard::Value(Upgrade)
        } else {
            ResolveGuard::Fail(Error::NotFound)
        }
    }
}

proof fn lemma_lower_upgrade()
    ensures
        lower_chars("upgrade"@) == "upgrade"@,
{
    reveal_strlit("upgrade");
    assert(lower_chars("upgrade"@) =~= "upgrade"@);
}

/// The byte stream of a connection handed over to a websocket handler; the application
/// supplies it.
pub trait ByteStream: Send {
    /// Reads exactly `n` bytes; `None` when the stream fails or ends first.
    fn read_exact_bytes(&mut self, n: usize) -> Option<Vec<u8>>;

    /// Writes all of `bytes`; whether it succeeded.
    fn write_all_bytes(&mut self, bytes: &[u8]) -> bool;

    /// Sets the read and write timeout, in milliseconds (`None`: no timeout); whether it
    /// succeeded.
    fn set_timeout_millis(&mut self, millis: Option<u64>) -> bool;
}

/// A websocket (version 13) connection over the stream of an upgraded request.
pub struct WebsocketConnection {
    pub stream: Box<dyn ByteStream>,
}

impl WebsocketConnection {
    /// The connection over `stream`. (Verus keeps no identity for a boxed trait object moved
    /// into a field, so nothing is stated of the result.)
    pub fn new(stream: Box<dyn ByteStream>) -> Self {
        WebsocketConnection { stream }
    }
}

/// What takes over the stream of an upgraded connection.
pub trait StreamHandler: Send + Sync {
    /// Whether taking over may have run on the connection `conn`.
    spec fn handles(&self, conn: WebsocketConnection) -> bool;

    fn take_over(&self, conn: WebsocketConnection)
        ensures
            self.handles(conn),
    ;
}

/// A function run on the websocket connection of an upgraded request.
struct RunOn<F: Fn(WebsocketConnection)> {
    f: F,
}

impl<F: Fn(WebsocketConnection)> RunOn<F> {
    #[verifier::type_invariant]
    spec fn inv(&self) -> bool {
        forall|c: WebsocketConnection| #[trigger] call_requires(self.f, (c,))
    }
}

impl<F: Fn(WebsocketConnection) + Send + Sync> StreamHandler for RunOn<F> {
    closed spec fn handles(&self, conn: WebsocketConnection) -> bool {
        call_ensures(self.f, (conn,), ())
    }

    /// Runs the function once, on the connection.
    fn take_over(&self, conn: WebsocketConnection) {
        proof {
            use_type_invariant(self);
        }
        (self.f)(conn)
    }
}

/// The handler of an upgraded connection: what runs once the handshake is answered.
pub struct UpgradeHandler {
    inner: Box<dyn StreamHandler>,
}

impl UpgradeHandler {
    /// Whether handing the stream over may have run the handler on the connection `conn`.
    pub closed spec fn handles(&self, conn: WebsocketConnection) -> bool {
        self.inner.handles(conn)
    }

    /// Hands the connection over to the handler.
    pub fn take_over(&self, conn: WebsocketConnection)
        ensures
            self.handles(conn),
    {
        self.inner.take_over(conn)
    }
}

/// The way to answer a request with a websocket connection, run by `f`.
pub struct Websocket<F>(pub F);

impl<F: Fn(WebsocketConnection) + Send + Sync + 'static> IntoAction for Websocket<F> {
    open spec fn action_ok(&self) -> bool {
        forall|c: WebsocketConnection| #[trigger] call_requires(self.0, (c,))
    }

    /// The upgrade: the handshake is answered, then `f` runs once on the connection.
    open spec fn acts_as(&self, a: Action) -> bool {
        a matches Action::Upgrade(h) && forall|c: WebsocketConnection|
            #[trigger] h.handles(c) == call_ensures(self.0, (c,), ())
    }

    fn action(self) -> (r: Action) {
        let run = RunOn { f: self.0 };
        let h = UpgradeHandler { inner: Box::new(run) };
        assert(forall|c: WebsocketConnection| #[trigger] h.inner.handles(c) == run.handles(c));
        Action::Upgrade(h)
    }
}

impl Upgrade {
    /// Answers with a websocket connection, handled by `f`.
    pub fn handle<F>(&self, f: F) -> (r: Websocket<F>)
        ensures
            r.0 == f,
    {
        Websocket(f)
    }
}

} // verus!
