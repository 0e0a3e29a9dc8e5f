//! Decoding of one flag-delimited frame: boundary search, byte destuffing,
//! control-byte classification and check-sequence validation.

use vstd::prelude::*;
use crate::fcs::{
    fcs_of, lemma_bit_flip_changes_fcs, lemma_good_fcs_len, FrameCheckSequence, FCS_GOOD, FCS_INIT,
};

verus! {

/// Byte that opens and closes every frame.
pub const FLAG_SEQUENCE: u8 = 0x7E;

/// Byte announcing that the next byte was transformed by `ESCAPE_MASK`.
pub const CONTROL_ESCAPE: u8 = 0x7D;

/// Bits flipped in an escaped byte.
pub const ESCAPE_MASK: u8 = 0x20;

/// Kind of a frame, read from its control byte.
#[derive(Clone, Copy, Debug, PartialEq, Eq, Structural)]
pub enum FrameType {
    Data,
    Acknowledge,
    NegativeAcknowledge,
}

/// What a control byte says about its frame.
#[derive(Clone, Copy, Debug, PartialEq, Eq, Structural)]
pub struct Control {
    pub frame_type: FrameType,
    pub sequence_no: u8,
}

/// A raw control byte as it stands in a frame.
#[derive(Clone, Copy, Debug, PartialEq, Eq, Structural)]
pub struct ControlByte(pub u8);

/// Ways a frame can fail to decode.
#[derive(Clone, Copy, Debug, PartialEq, Eq, Structural)]
pub enum Error {
    /// The check sequence of the frame is not the value of an intact frame.
    FrameCheckSequenceInvalid,
    /// No opening flag with a matching closing flag was found.
    NoMessage,
    /// The frame is too short to hold an address, a control byte and a check sequence.
    TooShort,
}

/// Bit 0 clear marks an information frame; set, a supervisory one whose bits 2..3
/// give its kind (0 is "receive ready", an acknowledgement). The sequence number is
/// the byte shifted right by one.
pub open spec fn control_of(b: u8) -> Control {
    if b & 1u8 == 0 {
        Control { frame_type: FrameType::Data, sequence_no: b >> 1u8 }
    } else if (b >> 2u8) & 3u8 == 0 {
        Control { frame_type: FrameType::Acknowledge, sequence_no: b >> 1u8 }
    } else {
        Control { frame_type: FrameType::NegativeAcknowledge, sequence_no: b >> 1u8 }
    }
}

impl From<ControlByte> for Control {
    fn from(value: ControlByte) -> (r: Control) {
        let b = value.0;
        let sequence_no = b >> 1;
        let frame_type = if b & 1 == 0 {
            FrameType::Data
        } else if (b >> 2) & 3 == 0 {
            FrameType::Acknowledge
        } else {
            FrameType::NegativeAcknowledge
        };
        Control { frame_type, sequence_no }
    }
}

impl vstd::std_specs::convert::FromSpecImpl<ControlByte> for Control {
    open spec fn obeys_from_spec() -> bool {
        true
    }

    open spec fn from_spec(v: ControlByte) -> Control {
        control_of(v.0)
    }
}

/// The control byte that announces `c`: an information frame carries its sequence
/// number from bit 1 and the poll bit 4; a supervisory frame sets bit 0, carries its
/// sequence number from bit 5, and a negative acknowledgement marks "reject" in bits 2..3.
pub open spec fn control_byte_of(c: Control) -> u8 {
    match c.frame_type {
        FrameType::Data => (c.sequence_no << 1u8) | (1u8 << 4u8),
        FrameType::Acknowledge => (c.sequence_no << 5u8) | 1u8,
        FrameType::NegativeAcknowledge => (c.sequence_no << 5u8) | (2u8 << 2u8) | 1u8,
    }
}

impl From<Control> for ControlByte {
    fn from(value: Control) -> (r: ControlByte) {
        let seq = value.sequence_no;
        ControlByte(
            match value.frame_type {
                FrameType::Data => (seq << 1) | (1 << 4),
                FrameType::Acknowledge => (seq << 5) | 1,
                FrameType::NegativeAcknowledge => (seq << 5) | (2 << 2) | 1,
            },
        )
    }
}

impl vstd::std_specs::convert::FromSpecImpl<Control> for ControlByte {
    open spec fn obeys_from_spec() -> bool {
        true
    }

    open spec fn from_spec(v: Control) -> ControlByte {
        ControlByte(control_byte_of(v))
    }
}

/// Reading back the control byte that announces a frame gives the same kind of frame.
pub proof fn lemma_control_byte_round_trip(c: Control)
    ensures
        control_of(control_byte_of(c)).frame_type == c.frame_type,
{
    let s = c.sequence_no;
    assert(((s << 1u8) | (1u8 << 4u8)) & 1u8 == 0u8) by (bit_vector);
    assert(((s << 5u8) | 1u8) & 1u8 != 0u8 && (((s << 5u8) | 1u8) >> 2u8) & 3u8 == 0u8) by (bit_vector);
    assert(((s << 5u8) | (2u8 << 2u8) | 1u8) & 1u8 != 0u8
        && (((s << 5u8) | (2u8 << 2u8) | 1u8) >> 2u8) & 3u8 != 0u8) by (bit_vector);
}

/// A flag at `i` opens a frame unless another flag follows it at once.
pub open spec fn is_opening(d: Seq<u8>, i: int) -> bool {
    d[i] == FLAG_SEQUENCE && !(i + 1 < d.len() && d[i + 1] == FLAG_SEQUENCE)
}

/// The first opening flag at or after `i`, or `d.len()` when there is none.
pub open spec fn first_opening(d: Seq<u8>, i: int) -> int
    decreases d.len() - i,
{
    if i < 0 || i >= d.len() {
        d.len() as int
    } else if is_opening(d, i) {
        i
    } else {
        first_opening(d, i + 1)
    }
}

/// The bytes other than flags strictly between the opening flag at `a` and index `j`.
pub open spec fn inner(d: Seq<u8>, a: int, j: int) -> Seq<u8>
    decreases j - a,
{
    if j <= a + 1 {
        Seq::empty()
    } else if d[j - 1] == FLAG_SEQUENCE {
        inner(d, a, j - 1)
    } else {
        inner(d, a, j - 1).push(d[j - 1])
    }
}

/// A flag at `j` closes the frame opened at `a` when it is the last byte, or when it
/// is followed by a byte other than a flag and some byte other than a flag stands
/// between the two.
pub open spec fn is_closing(d: Seq<u8>, a: int, j: int) -> bool {
    d[j] == FLAG_SEQUENCE && (j + 1 >= d.len() || (d[j + 1] != FLAG_SEQUENCE && inner(d, a, j).len() > 0))
}

/// The first flag at or after `j` that closes the frame opened at `a`, or `d.len()`.
pub open spec fn first_closing(d: Seq<u8>, a: int, j: int) -> int
    decreases d.len() - j,
{
    if j < 0 || j >= d.len() {
        d.len() as int
    } else if is_closing(d, a, j) {
        j
    } else {
        first_closing(d, a, j + 1)
    }
}

/// Removes the escape bytes of `s`, flipping `ESCAPE_MASK` in each byte that follows one.
pub open spec fn destuff(s: Seq<u8>) -> Seq<u8>
    decreases s.len(),
{
    if s.len() == 0 {
        Seq::empty()
    } else {
        let p = s.drop_last();
        if s.last() == CONTROL_ESCAPE {
            destuff(p)
        } else if p.len() > 0 && p.last() == CONTROL_ESCAPE {
            destuff(p).push(s.last() ^ ESCAPE_MASK)
        } else {
            destuff(p).push(s.last())
        }
    }
}

/// The destuffed bytes of the first frame in `d`: address, control, payload and
/// check sequence. Where no closing flag follows the opening one, what follows it
/// up to the end; where no flag opens a frame, nothing.
pub open spec fn frame_body(d: Seq<u8>) -> Seq<u8> {
    let a = first_opening(d, 0);
    if a >= d.len() {
        Seq::empty()
    } else {
        destuff(inner(d, a, first_closing(d, a, a + 1)))
    }
}

/// The payload of a destuffed body: what follows address and control, without the
/// two check-sequence bytes at the end.
pub open spec fn payload_of(body: Seq<u8>) -> Seq<u8> {
    if body.len() >= 4 {
        body.subrange(2, body.len() - 2)
    } else {
        Seq::empty()
    }
}

/// The outcome of decoding the first frame in `d`.
pub open spec fn decode_result(d: Seq<u8>) -> Result<Control, Error> {
    let a = first_opening(d, 0);
    if a >= d.len() {
        Err(Error::NoMessage)
    } else {
        let b = first_closing(d, a, a + 1);
        let body = destuff(inner(d, a, b));
        if b >= d.len() {
            Err(Error::NoMessage)
        } else if inner(d, a, b).len() < 3 {
            Err(Error::TooShort)
        } else if fcs_of(body) != FCS_GOOD {
            Err(Error::FrameCheckSequenceInvalid)
        } else {
            Ok(control_of(body[1]))
        }
    }
}

spec fn body_tail(body: Seq<u8>) -> Seq<u8> {
    if body.len() >= 2 {
        body.subrange(2, body.len() as int)
    } else {
        Seq::empty()
    }
}

/// Decodes the first frame of `data`, appending its payload to `output`.
pub fn decode(data: &[u8], output: &mut Vec<u8>) -> (r: Result<Control, Error>)
    ensures
        r == decode_result(data@),
        final(output)@ == old(output)@ + payload_of(frame_body(data@)),
{
    let ghost d = data@;
    let ghost out0 = output@;
    let n = data.len();
    let mut i: usize = 0;
    let mut fcs = FrameCheckSequence::new();
    let mut escaped = false;
    let mut opened = false;
    let mut a: usize = 0;
    let mut closed = false;
    let mut raw_len: usize = 0;
    let mut body_len: usize = 0;
    let mut control_byte: u8 = 0;
    while i < n && !closed
        invariant
            d == data@,
            n == d.len(),
            i <= n,
            !opened ==> {
                &&& !closed
                &&& first_opening(d, 0) == first_opening(d, i as int)
                &&& output@ == out0
                &&& raw_len == 0
                &&& body_len == 0
                &&& !escaped
                &&& fcs.0 == FCS_INIT
            },
            opened ==> a < i,
            opened ==> first_opening(d, 0) == a,
            opened && closed ==> i < n && first_closing(d, a as int, a + 1) == i,
            opened && !closed ==> first_closing(d, a as int, a + 1) == first_closing(d, a as int, i as int),
            opened ==> raw_len == inner(d, a as int, i as int).len(),
            opened ==> raw_len <= i - a,
            opened ==> body_len == destuff(inner(d, a as int, i as int)).len(),
            body_len <= raw_len,
            opened ==> escaped == (inner(d, a as int, i as int).len() > 0 && inner(d, a as int, i as int).last() == CONTROL_ESCAPE),
            opened ==> fcs.0 == fcs_of(destuff(inner(d, a as int, i as int))),
            opened && body_len >= 2 ==> control_byte == destuff(inner(d, a as int, i as int))[1],
            opened ==> output@ == out0 + body_tail(destuff(inner(d, a as int, i as int))),
        decreases n - i + (if closed { 0int } else { 1int }),
    {
        let byte = data[i];
        if !opened {
            if byte == FLAG_SEQUENCE && !(i + 1 < n && data[i + 1] == FLAG_SEQUENCE) {
                opened = true;
                a = i;
                assert(inner(d, i as int, i + 1) == Seq::<u8>::empty());
                assert(destuff(Seq::<u8>::empty()) == Seq::<u8>::empty());
                assert(out0 + body_tail(Seq::<u8>::empty()) =~= out0);
            } else {
                assert(!is_opening(d, i as int));
                assert(first_opening(d, i as int) == first_opening(d, i + 1));
            }
            i = i + 1;
        } else {
            let ghost s = inner(d, a as int, i as int);
            let ghost body = destuff(s);
            if byte == FLAG_SEQUENCE {
                if i + 1 >= n || (data[i + 1] != FLAG_SEQUENCE && raw_len > 0) {
                    closed = true;
                } else {
                    i = i + 1;
                }
            } else {
                let ghost s2 = s.push(byte);
                assert(s2.drop_last() =~= s);
                assert(inner(d, a as int, i + 1) == s2);
                if byte == CONTROL_ESCAPE {
                    escaped = true;
                } else {
                    let value = if escaped { byte ^ ESCAPE_MASK } else { byte };
                    escaped = false;
                    let ghost body2 = body.push(value);
                    assert(destuff(s2) == body2);
                    assert(body2.drop_last() =~= body);
                    fcs.update(value);
                    if body_len == 1 {
                        control_byte = value;
                    }
                    if body_len >= 2 {
                        output.push(value);
                        assert(body_tail(body2) =~= body_tail(body).push(value));
                    } else {
                        assert(body_tail(body2) =~= Seq::<u8>::empty());
                    }
                    body_len = body_len + 1;
                }
                raw_len = raw_len + 1;
                i = i + 1;
            }
        }
    }
    // The last two destuffed bytes are the check sequence, not payload.
    let ghost body = frame_body(d);
    if body_len >= 4 {
        output.pop();
        output.pop();
        assert(output@ =~= out0 + payload_of(body));
    } else if body_len == 3 {
        output.pop();
        assert(output@ =~= out0 + payload_of(body));
    } else {
        assert(output@ =~= out0 + payload_of(body));
    }
    if !opened || !closed {
        Err(Error::NoMessage)
    } else if raw_len < 3 {
        Err(Error::TooShort)
    } else if !fcs.is_good() {
        Err(Error::FrameCheckSequenceInvalid)
    } else {
        proof {
            lemma_good_fcs_len(destuff(inner(d, a as int, i as int)));
        }
        Ok(Control::from(ControlByte(control_byte)))
    }
}

} // verus!

verus! {

/// A byte as it is sent inside a frame: a flag or an escape byte goes out as an
/// escape byte followed by the byte with `ESCAPE_MASK` flipped.
pub open spec fn stuffed_byte(b: u8) -> Seq<u8> {
    if b == FLAG_SEQUENCE || b == CONTROL_ESCAPE {
        seq![CONTROL_ESCAPE, b ^ ESCAPE_MASK]
    } else {
        seq![b]
    }
}

/// The bytes of `s` as they are sent inside a frame.
pub open spec fn stuff(s: Seq<u8>) -> Seq<u8>
    decreases s.len(),
{
    if s.len() == 0 {
        Seq::empty()
    } else {
        stuff(s.drop_last()) + stuffed_byte(s.last())
    }
}

/// A whole frame around the destuffed bytes `body`: address, control, payload and
/// check sequence.
pub open spec fn framed(body: Seq<u8>) -> Seq<u8> {
    delimited(stuff(body))
}

/// The raw bytes `t` between an opening and a closing flag.
pub open spec fn delimited(t: Seq<u8>) -> Seq<u8> {
    seq![FLAG_SEQUENCE] + t + seq![FLAG_SEQUENCE]
}

/// Destuffing undoes stuffing, and stuffed bytes hold no flag and never end in an
/// escape byte.
pub proof fn lemma_stuff(s: Seq<u8>)
    ensures
        destuff(stuff(s)) == s,
        stuff(s).len() >= s.len(),
        stuff(s).len() > 0 ==> stuff(s).last() != CONTROL_ESCAPE,
        forall|k: int| 0 <= k < stuff(s).len() ==> stuff(s)[k] != FLAG_SEQUENCE,
    decreases s.len(),
{
    if s.len() > 0 {
        let p = s.drop_last();
        let b = s.last();
        let t = stuff(p);
        lemma_stuff(p);
        if b == FLAG_SEQUENCE || b == CONTROL_ESCAPE {
            let z = b ^ ESCAPE_MASK;
            assert(z != CONTROL_ESCAPE && z != FLAG_SEQUENCE && z ^ ESCAPE_MASK == b) by (bit_vector)
                requires
                    b == 0x7Eu8 || b == 0x7Du8,
                    z == b ^ 0x20u8,
            ;
            let u = stuff(s);
            let q = t.push(CONTROL_ESCAPE);
            assert(u =~= q.push(z));
            assert(u.drop_last() =~= q);
            assert(q.drop_last() =~= t);
            assert(destuff(q) == destuff(t));
            assert(destuff(u) == destuff(t).push(z ^ ESCAPE_MASK));
            assert(destuff(u) =~= s);
        } else {
            let u = stuff(s);
            assert(u =~= t.push(b));
            assert(u.drop_last() =~= t);
            assert(destuff(u) =~= s);
        }
    }
}

proof fn lemma_inner_plain(d: Seq<u8>, a: int, j: int)
    requires
        0 <= a < j <= d.len(),
        forall|k: int| a < k < j ==> d[k] != FLAG_SEQUENCE,
    ensures
        inner(d, a, j) == d.subrange(a + 1, j),
    decreases j - a,
{
    if j > a + 1 {
        lemma_inner_plain(d, a, j - 1);
        assert(d.subrange(a + 1, j) =~= d.subrange(a + 1, j - 1).push(d[j - 1]));
    } else {
        assert(d.subrange(a + 1, j) =~= Seq::<u8>::empty());
    }
}

proof fn lemma_closing_at_end(d: Seq<u8>, a: int, j: int)
    requires
        0 <= j < d.len(),
        d.last() == FLAG_SEQUENCE,
        forall|k: int| j <= k < d.len() - 1 ==> d[k] != FLAG_SEQUENCE,
    ensures
        first_closing(d, a, j) == d.len() - 1,
    decreases d.len() - j,
{
    if j < d.len() - 1 {
        lemma_closing_at_end(d, a, j + 1);
    }
}

/// A frame of at least three raw bytes with no flag among them decodes to its
/// destuffed bytes: to their control byte when their check sequence is intact,
/// and to `FrameCheckSequenceInvalid` otherwise.
pub proof fn lemma_decode_delimited(t: Seq<u8>)
    requires
        t.len() >= 3,
        forall|k: int| 0 <= k < t.len() ==> t[k] != FLAG_SEQUENCE,
    ensures
        frame_body(delimited(t)) == destuff(t),
        decode_result(delimited(t)) == (if fcs_of(destuff(t)) == FCS_GOOD {
            Ok::<Control, Error>(control_of(destuff(t)[1]))
        } else {
            Err(Error::FrameCheckSequenceInvalid)
        }),
{
    let f = delimited(t);
    let n = f.len();
    assert(n == t.len() + 2);
    assert(forall|k: int| 0 < k < n - 1 ==> f[k] == t[k - 1]);
    assert(f[1] != FLAG_SEQUENCE);
    assert(is_opening(f, 0));
    assert(first_opening(f, 0) == 0);
    lemma_closing_at_end(f, 0, 1);
    lemma_inner_plain(f, 0, n - 1);
    assert(f.subrange(1, n - 1) =~= t);
}

/// Framing a body and decoding the frame gives the body back, and the frame decodes
/// to the control byte of the body exactly when its check sequence is intact.
pub proof fn lemma_decode_framed(body: Seq<u8>)
    requires
        body.len() >= 3,
    ensures
        frame_body(framed(body)) == body,
        decode_result(framed(body)) == (if fcs_of(body) == FCS_GOOD {
            Ok::<Control, Error>(control_of(body[1]))
        } else {
            Err(Error::FrameCheckSequenceInvalid)
        }),
{
    lemma_stuff(body);
    lemma_decode_delimited(stuff(body));
}

/// Flipping bits `m` of a raw byte that is no escape byte, and does not become one,
/// flips the same bits of one destuffed byte: the byte at `destuff(t.take(q)).len()`.
pub proof fn lemma_destuff_flip(t: Seq<u8>, q: int, m: u8)
    requires
        0 <= q < t.len(),
        t[q] != CONTROL_ESCAPE,
        t[q] ^ m != CONTROL_ESCAPE,
    ensures
        destuff(t.take(q)).len() < destuff(t).len(),
        destuff(t.update(q, t[q] ^ m)) == destuff(t).update(
            destuff(t.take(q)).len() as int,
            destuff(t)[destuff(t.take(q)).len() as int] ^ m,
        ),
    decreases t.len(),
{
    let u = t.update(q, t[q] ^ m);
    let p = t.drop_last();
    if q == t.len() - 1 {
        assert(u.drop_last() =~= p);
        assert(t.take(q) =~= p);
        let x = t[q];
        assert((x ^ m) ^ ESCAPE_MASK == (x ^ ESCAPE_MASK) ^ m) by (bit_vector);
        assert(destuff(u) =~= destuff(t).update(destuff(p).len() as int, destuff(t)[destuff(p).len() as int] ^ m));
    } else {
        lemma_destuff_flip(p, q, m);
        assert(u.drop_last() =~= p.update(q, p[q] ^ m));
        assert(p.take(q) =~= t.take(q));
        assert(u.last() == t.last());
        let j = destuff(t.take(q)).len() as int;
        assert(destuff(u) =~= destuff(t).update(j, destuff(t)[j] ^ m));
    }
}

/// An intact frame whose body has one bit flipped in transit, before stuffing,
/// fails to decode with `FrameCheckSequenceInvalid`.
pub proof fn lemma_bit_flip_detected(body: Seq<u8>, p: int, k: u8)
    requires
        body.len() >= 3,
        0 <= p < body.len(),
        k < 8,
        fcs_of(body) == FCS_GOOD,
    ensures
        decode_result(framed(body.update(p, body[p] ^ (1u8 << k)))) == Err::<Control, Error>(
            Error::FrameCheckSequenceInvalid,
        ),
{
    lemma_bit_flip_changes_fcs(body, p, k);
    lemma_decode_framed(body.update(p, body[p] ^ (1u8 << k)));
}

/// An intact frame, sent with stuffing, in which one bit of a byte between its flags
/// flips in transit fails to decode with `FrameCheckSequenceInvalid`, provided the byte
/// neither was nor becomes a flag or an escape byte; a byte that follows an escape
/// byte is covered too.
pub proof fn lemma_raw_bit_flip_detected(t: Seq<u8>, q: int, k: u8)
    requires
        t.len() >= 3,
        forall|i: int| 0 <= i < t.len() ==> t[i] != FLAG_SEQUENCE,
        fcs_of(destuff(t)) == FCS_GOOD,
        0 <= q < t.len(),
        k < 8,
        t[q] != CONTROL_ESCAPE,
        t[q] ^ (1u8 << k) != CONTROL_ESCAPE,
        t[q] ^ (1u8 << k) != FLAG_SEQUENCE,
    ensures
        decode_result(delimited(t.update(q, t[q] ^ (1u8 << k)))) == Err::<Control, Error>(
            Error::FrameCheckSequenceInvalid,
        ),
{
    let m = 1u8 << k;
    let u = t.update(q, t[q] ^ m);
    lemma_destuff_flip(t, q, m);
    let j = destuff(t.take(q)).len() as int;
    lemma_bit_flip_changes_fcs(destuff(t), j, k);
    lemma_decode_delimited(u);
}

} // verus!
