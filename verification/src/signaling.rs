//! Signaling wire protocol: one JSON text frame per envelope, exchanged with
//! the relay.
//!
//! An envelope is the tagged union of an offer and an answer, each carrying a
//! session descriptor and the identifier of the peer it is addressed to:
//!
//! ```text
//! {"type":"Offer","offer":{"type":"offer","sdp":"..."},"target_id":"..."}
//! {"type":"Answer","answer":{"type":"answer","sdp":"..."},"target_id":"..."}
//! ```
//!
//! Frames are byte sequences; the SDP payload and the peer identifier are
//! arbitrary bytes, escaped on the wire (`\"`, `\\`, `\n`, `\r`, `\t`).
//! Encoding and decoding round-trip exactly; a frame of any other shape
//! decodes to nothing and is filtered out, never surfaced as an error.

use vstd::prelude::*;

use crate::errors::SignalError;

verus! {

/// Byte value of `"`.
pub const QUOTE: u8 = 34;
/// Byte value of `\`.
pub const BACKSLASH: u8 = 92;
/// Byte value of `}`.
pub const RBRACE: u8 = 125;
/// Byte value of a line feed.
pub const LF: u8 = 10;
/// Byte value of a carriage return.
pub const CR: u8 = 13;
/// Byte value of a horizontal tab.
pub const TAB: u8 = 9;
/// Byte value of `n`.
pub const LOWER_N: u8 = 110;
/// Byte value of `r`.
pub const LOWER_R: u8 = 114;
/// Byte value of `t`.
pub const LOWER_T: u8 = 116;

/// Kind of a session descriptor: the two negotiation roles.
#[derive(Clone, Copy, Debug, PartialEq, Eq, Structural)]
pub enum SdpKind {
    Offer,
    Answer,
}

/// Model of the transport engine's session description: its kind and its
/// payload bytes (the SDP text), opaque to this core.
#[derive(Clone, Debug, PartialEq, Eq)]
pub struct SessionDesc {
    pub kind: SdpKind,
    pub sdp: Vec<u8>,
}

/// Mathematical view of a session descriptor.
pub struct SessionDescView {
    pub kind: SdpKind,
    pub sdp: Seq<u8>,
}

impl View for SessionDesc {
    type V = SessionDescView;

    open spec fn view(&self) -> SessionDescView {
        SessionDescView { kind: self.kind, sdp: self.sdp@ }
    }
}

/// A signaling envelope: a descriptor addressed to a peer.
#[derive(Clone, Debug, PartialEq, Eq)]
pub enum Envelope {
    Offer { offer: SessionDesc, target_id: Vec<u8> },
    Answer { answer: SessionDesc, target_id: Vec<u8> },
}

/// Mathematical view of an envelope.
pub enum EnvelopeView {
    Offer { offer: SessionDescView, target_id: Seq<u8> },
    Answer { answer: SessionDescView, target_id: Seq<u8> },
}

impl View for Envelope {
    type V = EnvelopeView;

    open spec fn view(&self) -> EnvelopeView {
        match self {
            Envelope::Offer { offer, target_id } => EnvelopeView::Offer {
                offer: offer@,
                target_id: target_id@,
            },
            Envelope::Answer { answer, target_id } => EnvelopeView::Answer {
                answer: answer@,
                target_id: target_id@,
            },
        }
    }
}

// ---------------------------------------------------------------------------
// The fixed chunks of the wire format.
// ---------------------------------------------------------------------------

/// `{"type":"` — opening of an envelope or a descriptor object.
pub open spec fn lit_obj_head() -> Seq<u8> {
    seq![123u8, 34, 116, 121, 112, 101, 34, 58, 34]
}

/// `Offer` — envelope tag.
pub open spec fn lit_offer_tag() -> Seq<u8> {
    seq![79u8, 102, 102, 101, 114]
}

/// `Answer` — envelope tag.
pub open spec fn lit_answer_tag() -> Seq<u8> {
    seq![65u8, 110, 115, 119, 101, 114]
}

/// `offer` — descriptor kind.
pub open spec fn lit_offer_kind() -> Seq<u8> {
    seq![111u8, 102, 102, 101, 114]
}

/// `answer` — descriptor kind.
pub open spec fn lit_answer_kind() -> Seq<u8> {
    seq![97u8, 110, 115, 119, 101, 114]
}

/// `","offer":` — closes the tag, names the offer field.
pub open spec fn lit_offer_key() -> Seq<u8> {
    seq![34u8, 44, 34, 111, 102, 102, 101, 114, 34, 58]
}

/// `","answer":` — closes the tag, names the answer field.
pub open spec fn lit_answer_key() -> Seq<u8> {
    seq![34u8, 44, 34, 97, 110, 115, 119, 101, 114, 34, 58]
}

/// `","sdp":"` — closes the kind, names the payload field.
pub open spec fn lit_sdp_key() -> Seq<u8> {
    seq![34u8, 44, 34, 115, 100, 112, 34, 58, 34]
}

/// `,"target_id":"` — names the routing field.
pub open spec fn lit_target_key() -> Seq<u8> {
    seq![44u8, 34, 116, 97, 114, 103, 101, 116, 95, 105, 100, 34, 58, 34]
}

/// `"}` — closes the last string field and the object.
pub open spec fn lit_obj_end() -> Seq<u8> {
    seq![34u8, 125]
}

/// Kind bytes of a descriptor of the given kind.
pub open spec fn kind_of(kind: SdpKind) -> Seq<u8> {
    match kind {
        SdpKind::Offer => lit_offer_kind(),
        SdpKind::Answer => lit_answer_kind(),
    }
}

// ---------------------------------------------------------------------------
// String escaping.
// ---------------------------------------------------------------------------

/// Whether a byte needs escaping on the wire.
pub open spec fn needs_escape(b: u8) -> bool {
    b == QUOTE || b == BACKSLASH || b == LF || b == CR || b == TAB
}

/// The escape code written after a backslash for an escaped byte.
pub open spec fn escape_code(b: u8) -> u8 {
    if b == LF {
        LOWER_N
    } else if b == CR {
        LOWER_R
    } else if b == TAB {
        LOWER_T
    } else {
        b
    }
}

/// Whether a byte is a valid escape code (what may follow a backslash).
pub open spec fn is_escape_code(c: u8) -> bool {
    c == QUOTE || c == BACKSLASH || c == LOWER_N || c == LOWER_R || c == LOWER_T
}

/// The byte a valid escape code stands for.
pub open spec fn unescape_code(c: u8) -> u8 {
    if c == LOWER_N {
        LF
    } else if c == LOWER_R {
        CR
    } else if c == LOWER_T {
        TAB
    } else {
        c
    }
}

/// Wire bytes of one payload byte.
pub open spec fn escape_byte(b: u8) -> Seq<u8> {
    if needs_escape(b) {
        seq![BACKSLASH, escape_code(b)]
    } else {
        seq![b]
    }
}

/// Wire bytes of a payload: each byte escaped as needed.
pub open spec fn escape(s: Seq<u8>) -> Seq<u8>
    decreases s.len(),
{
    if s.len() == 0 {
        Seq::empty()
    } else {
        escape_byte(s[0]) + escape(s.drop_first())
    }
}

// ---------------------------------------------------------------------------
// Encoding.
// ---------------------------------------------------------------------------

/// Wire bytes of a session descriptor: `{"type":"<kind>","sdp":"<escaped>"}`.
pub open spec fn encode_desc(d: SessionDescView) -> Seq<u8> {
    lit_obj_head() + kind_of(d.kind) + lit_sdp_key() + escape(d.sdp) + lit_obj_end()
}

/// Wire bytes of an envelope:
/// `{"type":"<Tag>","<tag>":<descriptor>,"target_id":"<escaped>"}`.
pub open spec fn encode_envelope(e: EnvelopeView) -> Seq<u8> {
    match e {
        EnvelopeView::Offer { offer, target_id } => lit_obj_head() + lit_offer_tag()
            + lit_offer_key() + encode_desc(offer) + lit_target_key() + escape(target_id)
            + lit_obj_end(),
        EnvelopeView::Answer { answer, target_id } => lit_obj_head() + lit_answer_tag()
            + lit_answer_key() + encode_desc(answer) + lit_target_key() + escape(target_id)
            + lit_obj_end(),
    }
}

// ---------------------------------------------------------------------------
// Decoding.
// ---------------------------------------------------------------------------

/// Strip a fixed chunk off the front of the input, or fail.
pub open spec fn strip_lit(s: Seq<u8>, lit: Seq<u8>) -> Option<Seq<u8>> {
    if lit.len() <= s.len() && s.take(lit.len() as int) == lit {
        Some(s.skip(lit.len() as int))
    } else {
        None
    }
}

/// Parse the body of a wire string up to and including its closing quote;
/// yields the unescaped payload and the bytes after the quote. Fails on a
/// dangling or unknown escape and on a missing closing quote.
pub open spec fn parse_str(s: Seq<u8>) -> Option<(Seq<u8>, Seq<u8>)>
    decreases s.len(),
{
    if s.len() == 0 {
        None
    } else if s[0] == QUOTE {
        Some((Seq::empty(), s.drop_first()))
    } else if s[0] == BACKSLASH {
        if s.len() >= 2 && is_escape_code(s[1]) {
            match parse_str(s.skip(2)) {
                Some(p) => Some((seq![unescape_code(s[1])] + p.0, p.1)),
                None => None,
            }
        } else {
            None
        }
    } else {
        match parse_str(s.drop_first()) {
            Some(p) => Some((seq![s[0]] + p.0, p.1)),
            None => None,
        }
    }
}

/// Parse a session descriptor off the front of the input; yields it and the
/// remaining bytes.
pub open spec fn decode_desc(s: Seq<u8>) -> Option<(SessionDescView, Seq<u8>)> {
    let head_offer = lit_obj_head() + lit_offer_kind() + lit_sdp_key();
    let head_answer = lit_obj_head() + lit_answer_kind() + lit_sdp_key();
    let parsed = match strip_lit(s, head_offer) {
        Some(s1) => Some((SdpKind::Offer, s1)),
        None => match strip_lit(s, head_answer) {
            Some(s1) => Some((SdpKind::Answer, s1)),
            None => None,
        },
    };
    match parsed {
        Some(ks) => match parse_str(ks.1) {
            Some(p) => match strip_lit(p.1, seq![RBRACE]) {
                Some(rest) => Some((SessionDescView { kind: ks.0, sdp: p.0 }, rest)),
                None => None,
            },
            None => None,
        },
        None => None,
    }
}

/// Parse the part of an envelope after its tag: the descriptor field, the
/// target field, and the closing brace, with nothing after them.
pub open spec fn decode_envelope_body(s1: Seq<u8>) -> Option<(SessionDescView, Seq<u8>)> {
    match decode_desc(s1) {
        Some(ds) => match strip_lit(ds.1, lit_target_key()) {
            Some(s2) => match parse_str(s2) {
                Some(p) => if p.1 == seq![RBRACE] {
                    Some((ds.0, p.0))
                } else {
                    None
                },
                None => None,
            },
            None => None,
        },
        None => None,
    }
}

/// Decode one frame. A frame that is not exactly an encoded envelope decodes
/// to nothing.
pub open spec fn decode_envelope(s: Seq<u8>) -> Option<EnvelopeView> {
    match strip_lit(s, lit_obj_head() + lit_offer_tag() + lit_offer_key()) {
        Some(s1) => match decode_envelope_body(s1) {
            Some(dt) => Some(EnvelopeView::Offer { offer: dt.0, target_id: dt.1 }),
            None => None,
        },
        None => match strip_lit(s, lit_obj_head() + lit_answer_tag() + lit_answer_key()) {
            Some(s1) => match decode_envelope_body(s1) {
                Some(dt) => Some(EnvelopeView::Answer { answer: dt.0, target_id: dt.1 }),
                None => None,
            },
            None => None,
        },
    }
}

// ---------------------------------------------------------------------------
// Round trip: decoding inverts encoding.
// ---------------------------------------------------------------------------

/// Stripping a chunk off an input that starts with it yields the rest.
pub proof fn lemma_strip_lit_prefix(lit: Seq<u8>, rest: Seq<u8>)
    ensures
        strip_lit(lit + rest, lit) == Some(rest),
{
    assert((lit + rest).take(lit.len() as int) =~= lit);
    assert((lit + rest).skip(lit.len() as int) =~= rest);
}

/// Escaping distributes over concatenation.
pub proof fn lemma_escape_concat(a: Seq<u8>, b: Seq<u8>)
    ensures
        escape(a + b) == escape(a) + escape(b),
    decreases a.len(),
{
    if a.len() == 0 {
        assert(a + b =~= b);
        assert(escape(a) + escape(b) =~= escape(b));
    } else {
        lemma_escape_concat(a.drop_first(), b);
        assert((a + b).drop_first() =~= a.drop_first() + b);
        assert((a + b)[0] == a[0]);
        assert(escape_byte(a[0]) + (escape(a.drop_first()) + escape(b)) =~= (escape_byte(a[0])
            + escape(a.drop_first())) + escape(b));
    }
}

/// Parsing a wire string made of an escaped payload, its closing quote and a
/// remainder yields exactly that payload and that remainder.
pub proof fn lemma_parse_escaped(s: Seq<u8>, rest: Seq<u8>)
    ensures
        parse_str(escape(s) + seq![QUOTE] + rest) == Some((s, rest)),
    decreases s.len(),
{
    let input = escape(s) + seq![QUOTE] + rest;
    if s.len() == 0 {
        assert(input =~= seq![QUOTE] + rest);
        assert(input[0] == QUOTE);
        assert(input.drop_first() =~= rest);
        assert(s =~= Seq::<u8>::empty());
    } else {
        let b = s[0];
        let tail = s.drop_first();
        lemma_parse_escaped(tail, rest);
        assert(escape(s) == escape_byte(b) + escape(tail));
        if needs_escape(b) {
            let code = escape_code(b);
            assert(input[0] == BACKSLASH);
            assert(input[1] == code);
            assert(is_escape_code(code));
            assert(input.skip(2) =~= escape(tail) + seq![QUOTE] + rest);
            assert(unescape_code(code) == b);
            assert(seq![b] + tail =~= s);
        } else {
            assert(input[0] == b);
            assert(b != QUOTE && b != BACKSLASH);
            assert(input.drop_first() =~= escape(tail) + seq![QUOTE] + rest);
            assert(seq![b] + tail =~= s);
        }
    }
}

/// Decoding a descriptor off an input that starts with an encoded descriptor
/// yields that descriptor and the rest of the input.
pub proof fn lemma_decode_desc_inverts(d: SessionDescView, rest: Seq<u8>)
    ensures
        decode_desc(encode_desc(d) + rest) == Some((d, rest)),
{
    let s = encode_desc(d) + rest;
    let head = lit_obj_head() + kind_of(d.kind) + lit_sdp_key();
    let head_offer = lit_obj_head() + lit_offer_kind() + lit_sdp_key();
    let head_answer = lit_obj_head() + lit_answer_kind() + lit_sdp_key();
    let tail1 = escape(d.sdp) + seq![QUOTE] + (seq![RBRACE] + rest);
    assert(s =~= head + tail1);
    lemma_strip_lit_prefix(head, tail1);
    match d.kind {
        SdpKind::Offer => {
            assert(strip_lit(s, head_offer) == Some(tail1));
        },
        SdpKind::Answer => {
            assert(strip_lit(s, head_offer) is None) by {
                assert(s[9] == 97);
                assert(head_offer[9] == 111);
                if head_offer.len() <= s.len() && s.take(head_offer.len() as int) == head_offer {
                    assert(s.take(head_offer.len() as int)[9] == s[9]);
                    assert(false);
                }
            }
            assert(strip_lit(s, head_answer) == Some(tail1));
        },
    }
    lemma_parse_escaped(d.sdp, seq![RBRACE] + rest);
    assert(parse_str(tail1) == Some((d.sdp, seq![RBRACE] + rest)));
    lemma_strip_lit_prefix(seq![RBRACE], rest);
    assert(SessionDescView { kind: d.kind, sdp: d.sdp } == d);
}

/// Law of the signaling wire format: decoding an encoded envelope yields that
/// envelope, fields equal. Nothing is lost or altered on the wire.
pub proof fn lemma_envelope_round_trip(e: EnvelopeView)
    ensures
        decode_envelope(encode_envelope(e)) == Some(e),
{
    let s = encode_envelope(e);
    let head_o = lit_obj_head() + lit_offer_tag() + lit_offer_key();
    let head_a = lit_obj_head() + lit_answer_tag() + lit_answer_key();
    match e {
        EnvelopeView::Offer { offer, target_id } => {
            let tail1 = encode_desc(offer) + (lit_target_key() + escape(target_id) + lit_obj_end());
            assert(s =~= head_o + tail1);
            lemma_strip_lit_prefix(head_o, tail1);
            let tail2 = lit_target_key() + (escape(target_id) + seq![QUOTE] + seq![RBRACE]);
            assert(tail1 =~= encode_desc(offer) + tail2);
            lemma_decode_desc_inverts(offer, tail2);
            lemma_strip_lit_prefix(lit_target_key(), escape(target_id) + seq![QUOTE] + seq![RBRACE]);
            lemma_parse_escaped(target_id, seq![RBRACE]);
        },
        EnvelopeView::Answer { answer, target_id } => {
            let tail1 = encode_desc(answer) + (lit_target_key() + escape(target_id) + lit_obj_end());
            assert(s =~= head_a + tail1);
            assert(strip_lit(s, head_o) is None) by {
                assert(s[9] == 65);
                assert(head_o[9] == 79);
                if head_o.len() <= s.len() && s.take(head_o.len() as int) == head_o {
                    assert(s.take(head_o.len() as int)[9] == s[9]);
                    assert(false);
                }
            }
            lemma_strip_lit_prefix(head_a, tail1);
            let tail2 = lit_target_key() + (escape(target_id) + seq![QUOTE] + seq![RBRACE]);
            assert(tail1 =~= encode_desc(answer) + tail2);
            lemma_decode_desc_inverts(answer, tail2);
            lemma_strip_lit_prefix(lit_target_key(), escape(target_id) + seq![QUOTE] + seq![RBRACE]);
            lemma_parse_escaped(target_id, seq![RBRACE]);
        },
    }
}

// ---------------------------------------------------------------------------
// Executable builders for the fixed chunks.
// ---------------------------------------------------------------------------

/// Bytes of `{"type":"`.
fn obj_head_bytes() -> (v: Vec<u8>)
    ensures
        v@ == lit_obj_head(),
{
    let mut v: Vec<u8> = Vec::new();
    v.push(123);
    v.push(34);
    v.push(116);
    v.push(121);
    v.push(112);
    v.push(101);
    v.push(34);
    v.push(58);
    v.push(34);
    proof {
        assert(v@ =~= lit_obj_head());
    }
    v
}

/// Bytes of `Offer`.
fn offer_tag_bytes() -> (v: Vec<u8>)
    ensures
        v@ == lit_offer_tag(),
{
    let mut v: Vec<u8> = Vec::new();
    v.push(79);
    v.push(102);
    v.push(102);
    v.push(101);
    v.push(114);
    proof {
        assert(v@ =~= lit_offer_tag());
    }
    v
}

/// Bytes of `Answer`.
fn answer_tag_bytes() -> (v: Vec<u8>)
    ensures
        v@ == lit_answer_tag(),
{
    let mut v: Vec<u8> = Vec::new();
    v.push(65);
    v.push(110);
    v.push(115);
    v.push(119);
    v.push(101);
    v.push(114);
    proof {
        assert(v@ =~= lit_answer_tag());
    }
    v
}

/// Bytes of `offer`.
fn offer_kind_bytes() -> (v: Vec<u8>)
    ensures
        v@ == lit_offer_kind(),
{
    let mut v: Vec<u8> = Vec::new();
    v.push(111);
    v.push(102);
    v.push(102);
    v.push(101);
    v.push(114);
    proof {
        assert(v@ =~= lit_offer_kind());
    }
    v
}

/// Bytes of `answer`.
fn answer_kind_bytes() -> (v: Vec<u8>)
    ensures
        v@ == lit_answer_kind(),
{
    let mut v: Vec<u8> = Vec::new();
    v.push(97);
    v.push(110);
    v.push(115);
    v.push(119);
    v.push(101);
    v.push(114);
    proof {
        assert(v@ =~= lit_answer_kind());
    }
    v
}

/// Bytes of `","offer":`.
fn offer_key_bytes() -> (v: Vec<u8>)
    ensures
        v@ == lit_offer_key(),
{
    let mut v: Vec<u8> = Vec::new();
    v.push(34);
    v.push(44);
    v.push(34);
    v.push(111);
    v.push(102);
    v.push(102);
    v.push(101);
    v.push(114);
    v.push(34);
    v.push(58);
    proof {
        assert(v@ =~= lit_offer_key());
    }
    v
}

/// Bytes of `","answer":`.
fn answer_key_bytes() -> (v: Vec<u8>)
    ensures
        v@ == lit_answer_key(),
{
    let mut v: Vec<u8> = Vec::new();
    v.push(34);
    v.push(44);
    v.push(34);
    v.push(97);
    v.push(110);
    v.push(115);
    v.push(119);
    v.push(101);
    v.push(114);
    v.push(34);
    v.push(58);
    proof {
        assert(v@ =~= lit_answer_key());
    }
    v
}

/// Bytes of `","sdp":"`.
fn sdp_key_bytes() -> (v: Vec<u8>)
    ensures
        v@ == lit_sdp_key(),
{
    let mut v: Vec<u8> = Vec::new();
    v.push(34);
    v.push(44);
    v.push(34);
    v.push(115);
    v.push(100);
    v.push(112);
    v.push(34);
    v.push(58);
    v.push(34);
    proof {
        assert(v@ =~= lit_sdp_key());
    }
    v
}

/// Bytes of `,"target_id":"`.
fn target_key_bytes() -> (v: Vec<u8>)
    ensures
        v@ == lit_target_key(),
{
    let mut v: Vec<u8> = Vec::new();
    v.push(44);
    v.push(34);
    v.push(116);
    v.push(97);
    v.push(114);
    v.push(103);
    v.push(101);
    v.push(116);
    v.push(95);
    v.push(105);
    v.push(100);
    v.push(34);
    v.push(58);
    v.push(34);
    proof {
        assert(v@ =~= lit_target_key());
    }
    v
}

/// Bytes of `"}`.
fn obj_end_bytes() -> (v: Vec<u8>)
    ensures
        v@ == lit_obj_end(),
{
    let mut v: Vec<u8> = Vec::new();
    v.push(34);
    v.push(125);
    proof {
        assert(v@ =~= lit_obj_end());
    }
    v
}

// ---------------------------------------------------------------------------
// Executable encoding.
// ---------------------------------------------------------------------------

/// Copy a byte vector.
pub fn copy_bytes(src: &Vec<u8>) -> (out: Vec<u8>)
    ensures
        out@ == src@,
{
    let mut out: Vec<u8> = Vec::new();
    let mut i: usize = 0;
    while i < src.len()
        invariant
            i <= src@.len(),
            out@ == src@.take(i as int),
        decreases src@.len() - i,
    {
        out.push(src[i]);
        proof {
            assert(out@ =~= src@.take(i as int + 1));
        }
        i = i + 1;
    }
    proof {
        assert(src@.take(src@.len() as int) =~= src@);
    }
    out
}

/// Escape a payload for the wire.
pub fn escape_bytes(src: &Vec<u8>) -> (out: Vec<u8>)
    ensures
        out@ == escape(src@),
{
    let mut out: Vec<u8> = Vec::new();
    let mut i: usize = 0;
    while i < src.len()
        invariant
            i <= src@.len(),
            out@ == escape(src@.take(i as int)),
        decreases src@.len() - i,
    {
        let b = src[i];
        if b == QUOTE || b == BACKSLASH || b == LF || b == CR || b == TAB {
            out.push(BACKSLASH);
            out.push(
                if b == LF {
                    LOWER_N
                } else if b == CR {
                    LOWER_R
                } else if b == TAB {
                    LOWER_T
                } else {
                    b
                },
            );
        } else {
            out.push(b);
        }
        proof {
            lemma_escape_concat(src@.take(i as int), seq![src@[i as int]]);
            assert(src@.take(i as int) + seq![src@[i as int]] =~= src@.take(i as int + 1));
            reveal_with_fuel(escape, 2);
            assert(seq![src@[i as int]].drop_first() =~= Seq::<u8>::empty());
            assert(escape(seq![src@[i as int]]) =~= escape_byte(src@[i as int]));
            assert(out@ =~= escape(src@.take(i as int)) + escape_byte(src@[i as int]));
        }
        i = i + 1;
    }
    proof {
        assert(src@.take(src@.len() as int) =~= src@);
    }
    out
}

/// Encode a session descriptor for the wire.
pub fn encode_desc_bytes(d: &SessionDesc) -> (out: Vec<u8>)
    ensures
        out@ == encode_desc(d@),
{
    let mut out = obj_head_bytes();
    let mut kind = match d.kind {
        SdpKind::Offer => offer_kind_bytes(),
        SdpKind::Answer => answer_kind_bytes(),
    };
    out.append(&mut kind);
    let mut key = sdp_key_bytes();
    out.append(&mut key);
    let mut body = escape_bytes(&d.sdp);
    out.append(&mut body);
    let mut end = obj_end_bytes();
    out.append(&mut end);
    proof {
        assert(out@ =~= encode_desc(d@));
    }
    out
}

/// Encode an envelope as one wire frame.
pub fn encode_envelope_bytes(e: &Envelope) -> (out: Vec<u8>)
    ensures
        out@ == encode_envelope(e@),
{
    let mut out = obj_head_bytes();
    match e {
        Envelope::Offer { offer, target_id } => {
            let mut tag = offer_tag_bytes();
            out.append(&mut tag);
            let mut key = offer_key_bytes();
            out.append(&mut key);
            let mut desc = encode_desc_bytes(offer);
            out.append(&mut desc);
            let mut tkey = target_key_bytes();
            out.append(&mut tkey);
            let mut tid = escape_bytes(target_id);
            out.append(&mut tid);
            let mut end = obj_end_bytes();
            out.append(&mut end);
        },
        Envelope::Answer { answer, target_id } => {
            let mut tag = answer_tag_bytes();
            out.append(&mut tag);
            let mut key = answer_key_bytes();
            out.append(&mut key);
            let mut desc = encode_desc_bytes(answer);
            out.append(&mut desc);
            let mut tkey = target_key_bytes();
            out.append(&mut tkey);
            let mut tid = escape_bytes(target_id);
            out.append(&mut tid);
            let mut end = obj_end_bytes();
            out.append(&mut end);
        },
    }
    proof {
        assert(out@ =~= encode_envelope(e@));
    }
    out
}

// ---------------------------------------------------------------------------
// Executable decoding.
// ---------------------------------------------------------------------------

/// Match a fixed chunk at position `i`; on success the position after it.
fn eat_lit(s: &Vec<u8>, i: usize, lit: &Vec<u8>) -> (r: Option<usize>)
    requires
        i <= s@.len(),
    ensures
        match r {
            Some(j) => {
                &&& strip_lit(s@.skip(i as int), lit@) == Some(s@.skip(j as int))
                &&& j == i + lit@.len()
                &&& j <= s@.len()
            },
            None => strip_lit(s@.skip(i as int), lit@) is None,
        },
{
    let n = s.len();
    if n - i < lit.len() {
        return None;
    }
    let mut k: usize = 0;
    while k < lit.len()
        invariant
            k <= lit@.len(),
            n == s@.len(),
            i + lit@.len() <= n,
            forall|m: int| 0 <= m < k ==> s@[i + m] == lit@[m],
        decreases lit@.len() - k,
    {
        if s[i + k] != lit[k] {
            proof {
                assert(s@.skip(i as int)[k as int] == s@[i + k]);
                assert(s@.skip(i as int).take(lit@.len() as int) != lit@);
            }
            return None;
        }
        k = k + 1;
    }
    proof {
        assert(s@.skip(i as int).take(lit@.len() as int) =~= lit@);
        assert(s@.skip(i as int).skip(lit@.len() as int) =~= s@.skip(i + lit@.len()));
    }
    Some(i + lit.len())
}

/// What a partial parse yields once the remainder parses: the already-read
/// bytes go in front.
pub open spec fn prepend_parse(pre: Seq<u8>, r: Option<(Seq<u8>, Seq<u8>)>) -> Option<
    (Seq<u8>, Seq<u8>),
> {
    match r {
        Some(p) => Some((pre + p.0, p.1)),
        None => None,
    }
}

/// Parse a wire string starting at position `i`: the unescaped payload and
/// the position after the closing quote.
fn parse_str_bytes(s: &Vec<u8>, i: usize) -> (r: Option<(Vec<u8>, usize)>)
    requires
        i <= s@.len(),
    ensures
        match r {
            Some(p) => {
                &&& parse_str(s@.skip(i as int)) == Some((p.0@, s@.skip(p.1 as int)))
                &&& i <= p.1 <= s@.len()
            },
            None => parse_str(s@.skip(i as int)) is None,
        },
{
    let n = s.len();
    let mut out: Vec<u8> = Vec::new();
    let mut k: usize = i;
    while k < n
        invariant
            i <= k <= n,
            n == s@.len(),
            parse_str(s@.skip(i as int)) == prepend_parse(out@, parse_str(s@.skip(k as int))),
        decreases n - k,
    {
        let b = s[k];
        if b == QUOTE {
            proof {
                assert(s@.skip(k as int)[0] == QUOTE);
                assert(s@.skip(k as int).drop_first() =~= s@.skip(k as int + 1));
                assert(out@ + Seq::<u8>::empty() =~= out@);
            }
            return Some((out, k + 1));
        } else if b == BACKSLASH {
            if k + 1 >= n {
                proof {
                    assert(s@.skip(k as int)[0] == BACKSLASH);
                    assert(s@.skip(k as int).len() < 2);
                }
                return None;
            }
            let c = s[k + 1];
            if c == QUOTE || c == BACKSLASH || c == LOWER_N || c == LOWER_R || c == LOWER_T {
                let u = if c == LOWER_N {
                    LF
                } else if c == LOWER_R {
                    CR
                } else if c == LOWER_T {
                    TAB
                } else {
                    c
                };
                proof {
                    let skips = s@.skip(k as int);
                    assert(skips[0] == BACKSLASH);
                    assert(skips[1] == c);
                    assert(is_escape_code(c));
                    assert(unescape_code(c) == u);
                    assert(skips.skip(2) =~= s@.skip(k as int + 2));
                    let inner = parse_str(s@.skip(k as int + 2));
                    match inner {
                        Some(p) => {
                            assert(parse_str(skips) == Some((seq![u] + p.0, p.1)));
                            assert(out@ + (seq![u] + p.0) =~= out@.push(u) + p.0);
                        },
                        None => {
                            assert(parse_str(skips) is None);
                        },
                    }
                }
                out.push(u);
                k = k + 2;
            } else {
                proof {
                    assert(s@.skip(k as int)[0] == BACKSLASH);
                    assert(s@.skip(k as int)[1] == c);
                    assert(!is_escape_code(c));
                }
                return None;
            }
        } else {
            proof {
                let skips = s@.skip(k as int);
                assert(skips[0] == b);
                assert(skips.drop_first() =~= s@.skip(k as int + 1));
                let inner = parse_str(s@.skip(k as int + 1));
                match inner {
                    Some(p) => {
                        assert(parse_str(skips) == Some((seq![b] + p.0, p.1)));
                        assert(out@ + (seq![b] + p.0) =~= out@.push(b) + p.0);
                    },
                    None => {
                        assert(parse_str(skips) is None);
                    },
                }
            }
            out.push(b);
            k = k + 1;
        }
    }
    proof {
        assert(s@.skip(n as int) =~= Seq::<u8>::empty());
    }
    None
}

/// Parse a session descriptor starting at position `i`.
fn decode_desc_bytes(s: &Vec<u8>, i: usize) -> (r: Option<(SessionDesc, usize)>)
    requires
        i <= s@.len(),
    ensures
        match r {
            Some(p) => {
                &&& decode_desc(s@.skip(i as int)) == Some((p.0@, s@.skip(p.1 as int)))
                &&& i <= p.1 <= s@.len()
            },
            None => decode_desc(s@.skip(i as int)) is None,
        },
{
    let mut head_o = obj_head_bytes();
    let mut ko = offer_kind_bytes();
    head_o.append(&mut ko);
    let mut sk = sdp_key_bytes();
    head_o.append(&mut sk);
    let mut head_a = obj_head_bytes();
    let mut ka = answer_kind_bytes();
    head_a.append(&mut ka);
    let mut sk2 = sdp_key_bytes();
    head_a.append(&mut sk2);

    let (kind, j) = match eat_lit(s, i, &head_o) {
        Some(j) => (SdpKind::Offer, j),
        None => match eat_lit(s, i, &head_a) {
            Some(j) => (SdpKind::Answer, j),
            None => {
                return None;
            },
        },
    };
    match parse_str_bytes(s, j) {
        Some(p) => {
            let (sdp, j2) = p;
            let mut rb: Vec<u8> = Vec::new();
            rb.push(RBRACE);
            proof {
                assert(rb@ =~= seq![RBRACE]);
            }
            match eat_lit(s, j2, &rb) {
                Some(j3) => Some((SessionDesc { kind, sdp }, j3)),
                None => None,
            }
        },
        None => None,
    }
}

/// Parse what follows an envelope tag: the descriptor, the target, the close.
fn decode_body_bytes(s: &Vec<u8>, i: usize) -> (r: Option<(SessionDesc, Vec<u8>)>)
    requires
        i <= s@.len(),
    ensures
        match r {
            Some(p) => decode_envelope_body(s@.skip(i as int)) == Some((p.0@, p.1@)),
            None => decode_envelope_body(s@.skip(i as int)) is None,
        },
{
    let (desc, j) = match decode_desc_bytes(s, i) {
        Some(p) => p,
        None => {
            return None;
        },
    };
    let tk = target_key_bytes();
    let j2 = match eat_lit(s, j, &tk) {
        Some(j2) => j2,
        None => {
            return None;
        },
    };
    let (tid, j3) = match parse_str_bytes(s, j2) {
        Some(p) => p,
        None => {
            return None;
        },
    };
    let mut rb: Vec<u8> = Vec::new();
    rb.push(RBRACE);
    proof {
        assert(rb@ =~= seq![RBRACE]);
    }
    match eat_lit(s, j3, &rb) {
        Some(j4) => {
            if j4 == s.len() {
                proof {
                    assert(s@.skip(j3 as int) =~= seq![RBRACE]);
                }
                Some((desc, tid))
            } else {
                proof {
                    assert(s@.skip(j3 as int).len() > 1);
                    assert(s@.skip(j3 as int) != seq![RBRACE]);
                }
                None
            }
        },
        None => {
            proof {
                if s@.skip(j3 as int) == seq![RBRACE] {
                    lemma_strip_lit_prefix(seq![RBRACE], Seq::<u8>::empty());
                    assert(seq![RBRACE] + Seq::<u8>::empty() =~= seq![RBRACE]);
                    assert(false);
                }
            }
            None
        },
    }
}

/// Decode one wire frame into an envelope; a frame of any other shape yields
/// nothing.
pub fn decode_envelope_bytes(s: &Vec<u8>) -> (r: Option<Envelope>)
    ensures
        match r {
            Some(e) => decode_envelope(s@) == Some(e@),
            None => decode_envelope(s@) is None,
        },
{
    let mut head_o = obj_head_bytes();
    let mut to = offer_tag_bytes();
    head_o.append(&mut to);
    let mut keyo = offer_key_bytes();
    head_o.append(&mut keyo);
    let mut head_a = obj_head_bytes();
    let mut ta = answer_tag_bytes();
    head_a.append(&mut ta);
    let mut keya = answer_key_bytes();
    head_a.append(&mut keya);

    proof {
        assert(s@.skip(0) =~= s@);
    }
    match eat_lit(s, 0, &head_o) {
        Some(j) => match decode_body_bytes(s, j) {
            Some(p) => Some(Envelope::Offer { offer: p.0, target_id: p.1 }),
            None => None,
        },
        None => match eat_lit(s, 0, &head_a) {
            Some(j) => match decode_body_bytes(s, j) {
                Some(p) => Some(Envelope::Answer { answer: p.0, target_id: p.1 }),
                None => None,
            },
            None => None,
        },
    }
}


// ---------------------------------------------------------------------------
// The signaling client.
// ---------------------------------------------------------------------------

/// Bytes of the fixed relay address, `ws://localhost:8080`.
pub open spec fn relay_url() -> Seq<u8> {
    seq![119u8, 115, 58, 47, 47, 108, 111, 99, 97, 108, 104, 111, 115, 116, 58, 56, 48, 56, 48]
}

/// How the relay network answered one interaction: whether the connection
/// could be opened and whether the write completed.
#[derive(Clone, Copy, Debug, PartialEq, Eq, Structural)]
pub struct RelayStub {
    pub reachable: bool,
    pub write_completes: bool,
}

/// The signaling client: the fixed, process-wide relay address, and the
/// frames it has successfully handed to the relay, oldest first.
pub struct SignalingClient {
    pub ws_url: Vec<u8>,
    pub sent: Vec<Vec<u8>>,
}

/// The views of a sequence of frames.
pub open spec fn frame_views(frames: Seq<Vec<u8>>) -> Seq<Seq<u8>> {
    frames.map_values(|f: Vec<u8>| f@)
}

/// The answers carried by a sequence of frames: each frame that decodes to an
/// Answer envelope contributes its descriptor, in order. Malformed frames and
/// frames of any other type contribute nothing.
pub open spec fn answers_in(frames: Seq<Seq<u8>>) -> Seq<SessionDescView>
    decreases frames.len(),
{
    if frames.len() == 0 {
        Seq::empty()
    } else {
        let rest = answers_in(frames.drop_last());
        match decode_envelope(frames.last()) {
            Some(e) => match e {
                EnvelopeView::Answer { answer, .. } => rest.push(answer),
                EnvelopeView::Offer { .. } => rest,
            },
            None => rest,
        }
    }
}

impl SignalingClient {
    /// The client points at the fixed relay address.
    pub open spec fn wf(&self) -> bool {
        self.ws_url@ == relay_url()
    }

    /// A fresh client with nothing sent yet.
    pub fn new() -> (c: SignalingClient)
        ensures
            c.wf(),
            c.sent@.len() == 0,
    {
        let mut url: Vec<u8> = Vec::new();
        url.push(119);
        url.push(115);
        url.push(58);
        url.push(47);
        url.push(47);
        url.push(108);
        url.push(111);
        url.push(99);
        url.push(97);
        url.push(108);
        url.push(104);
        url.push(111);
        url.push(115);
        url.push(116);
        url.push(58);
        url.push(56);
        url.push(48);
        url.push(56);
        url.push(48);
        proof {
            assert(url@ =~= relay_url());
        }
        SignalingClient { ws_url: url, sent: Vec::new() }
    }

    /// Open a fresh relay connection, frame the offer addressed to
    /// `remote_id`, and write it as a single text frame; `relay` is how the
    /// network answered. On success exactly one frame — the encoded Offer
    /// envelope — is appended to `sent`; on failure nothing is. The codec is
    /// total, so `SerializationError` cannot arise here.
    pub fn send_offer(
        &mut self,
        remote_id: &Vec<u8>,
        offer: &SessionDesc,
        relay: RelayStub,
    ) -> (r: Result<(), SignalError>)
        requires
            old(self).wf(),
        ensures
            final(self).wf(),
            r is Ok <==> relay.reachable && relay.write_completes,
            !relay.reachable ==> r == Err::<(), SignalError>(SignalError::RelayUnreachable),
            relay.reachable && !relay.write_completes ==> r == Err::<(), SignalError>(
                SignalError::SendFailed,
            ),
            !(relay.reachable && relay.write_completes) ==> final(self).sent == old(self).sent,
            r is Ok ==> {
                &&& final(self).sent@.len() == old(self).sent@.len() + 1
                &&& final(self).sent@.last()@ == encode_envelope(
                    EnvelopeView::Offer { offer: offer@, target_id: remote_id@ },
                )
                &&& forall|k: int|
                    0 <= k < old(self).sent@.len() ==> final(self).sent@[k] == old(self).sent@[k]
            },
    {
        if !relay.reachable {
            return Err(SignalError::RelayUnreachable);
        }
        let env = Envelope::Offer {
            offer: SessionDesc { kind: offer.kind, sdp: copy_bytes(&offer.sdp) },
            target_id: copy_bytes(remote_id),
        };
        let frame = encode_envelope_bytes(&env);
        if !relay.write_completes {
            return Err(SignalError::SendFailed);
        }
        self.sent.push(frame);
        Ok(())
    }

    /// Decode a stream of received frames into the sequence of answers it
    /// carries. Malformed and non-Answer frames are silently filtered out —
    /// the relay may carry unrelated traffic — never surfaced as errors.
    pub fn listen_for_answers(&self, frames: &Vec<Vec<u8>>) -> (r: Vec<SessionDesc>)
        ensures
            r@.len() == answers_in(frame_views(frames@)).len(),
            forall|k: int|
                0 <= k < r@.len() ==> r@[k]@ == answers_in(frame_views(frames@))[k],
    {
        let ghost all = frame_views(frames@);
        let mut out: Vec<SessionDesc> = Vec::new();
        let mut i: usize = 0;
        while i < frames.len()
            invariant
                i <= frames@.len(),
                out@.len() == answers_in(all.take(i as int)).len(),
                forall|k: int|
                    0 <= k < out@.len() ==> out@[k]@ == answers_in(all.take(i as int))[k],
                all == frame_views(frames@),
            decreases frames@.len() - i,
        {
            let decoded = decode_envelope_bytes(&frames[i]);
            proof {
                assert(all.take(i as int + 1).drop_last() =~= all.take(i as int));
                assert(all.take(i as int + 1).last() == frames@[i as int]@);
            }
            match decoded {
                Some(e) => match e {
                    Envelope::Answer { answer, .. } => {
                        out.push(answer);
                    },
                    Envelope::Offer { .. } => {},
                },
                None => {},
            }
            i = i + 1;
        }
        proof {
            assert(all.take(frames@.len() as int) =~= all);
        }
        out
    }
}

} // verus!
