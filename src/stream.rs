//! Walking a buffer of frames: the commands it carries, and the position they
//! lead to once they have gone through the debounce window.

use vstd::prelude::*;
use crate::fcs::{fcs_of, FCS_GOOD};
use crate::yarhdlc::{
    control_of, decode, decode_result, frame_body, framed, lemma_decode_framed, lemma_stuff, payload_of, stuff,
    Error, FrameType, FLAG_SEQUENCE,
};
use crate::moves::{
    debounce_state, debounced, move_of, pending_moves, start_position, trace, Move,
    MoveDebouncer, PlayerPosition,
};

verus! {

/// Ways a buffer of frames can fail.
#[derive(Clone, Copy, Debug, PartialEq, Eq, Structural)]
pub enum MoveIteratorError {
    /// The buffer is not empty and does not begin with a flag.
    NoStartFlag,
    /// The buffer is not empty and does not end with a flag.
    NoEndFlag,
    /// A data frame carries no command byte, or one outside 1 to 4.
    InvalidMove,
    /// A frame failed to decode.
    Yahdlc(Error),
}

/// The command a data frame's payload carries: its first byte.
pub open spec fn payload_move(payload: Seq<u8>) -> Option<Move> {
    if payload.len() > 0 {
        move_of(payload[0])
    } else {
        None
    }
}

/// The commands read from `d` by a scan whose last frame boundary is the flag at
/// `s` and whose cursor stands at `j`, and the error that ended the scan, if any.
/// A flag right after the boundary merges with it; acknowledgement frames carry
/// no command and are passed over; the first failing frame ends the scan.
pub open spec fn moves_scan(d: Seq<u8>, s: int, j: int) -> (Seq<Move>, Option<MoveIteratorError>)
    decreases d.len() - j,
{
    if j < 0 || j >= d.len() {
        (Seq::empty(), None)
    } else if d[j] != FLAG_SEQUENCE {
        moves_scan(d, s, j + 1)
    } else if j == s + 1 {
        moves_scan(d, j, j + 1)
    } else {
        let f = d.subrange(s, j + 1);
        match decode_result(f) {
            Err(e) => (Seq::empty(), Some(MoveIteratorError::Yahdlc(e))),
            Ok(c) => if c.frame_type == FrameType::Data {
                match payload_move(payload_of(frame_body(f))) {
                    Some(m) => {
                        let rest = moves_scan(d, j, j + 1);
                        (seq![m] + rest.0, rest.1)
                    },
                    None => (Seq::empty(), Some(MoveIteratorError::InvalidMove)),
                }
            } else {
                moves_scan(d, j, j + 1)
            },
        }
    }
}

/// Why a buffer cannot be walked at all, if it cannot.
pub open spec fn framing_error(d: Seq<u8>) -> Option<MoveIteratorError> {
    if d.len() > 0 && d[0] != FLAG_SEQUENCE {
        Some(MoveIteratorError::NoStartFlag)
    } else if d.len() > 0 && d.last() != FLAG_SEQUENCE {
        Some(MoveIteratorError::NoEndFlag)
    } else {
        None
    }
}

/// The commands that a whole buffer carries, and the error that ends it, if any.
pub open spec fn moves_of(d: Seq<u8>) -> (Seq<Move>, Option<MoveIteratorError>) {
    moves_scan(d, 0, 1)
}

/// The positions met while the commands of `d` are applied from the starting position,
/// or the first error.
pub open spec fn run_result(d: Seq<u8>) -> Result<Seq<PlayerPosition>, MoveIteratorError> {
    match framing_error(d) {
        Some(e) => Err(e),
        None => match moves_of(d).1 {
            Some(e) => Err(e),
            None => Ok(trace(start_position(), debounced(moves_of(d).0))),
        },
    }
}

/// Reads the commands of a buffer of frames one at a time.
pub struct MoveIterator<'a> {
    start: usize,
    end: usize,
    data: &'a [u8],
    buffer: Vec<u8>,
    finished: bool,
}

impl<'a> MoveIterator<'a> {
    /// The buffer being read.
    pub closed spec fn data(&self) -> Seq<u8> {
        self.data@
    }

    /// The commands not read yet, and the error that will end the reading, if any.
    pub closed spec fn pending(&self) -> (Seq<Move>, Option<MoveIteratorError>) {
        if self.finished {
            (Seq::empty(), None)
        } else {
            moves_scan(self.data@, self.start as int, self.end as int)
        }
    }

    /// The cursor stands past the last frame boundary, at most one past the end.
    pub closed spec fn wf(&self) -> bool {
        self.start < self.end && self.end <= self.data@.len() + 1
    }

    /// Starts reading `data`, which must be empty or begin and end with a flag.
    pub fn new(data: &'a [u8]) -> (r: Result<MoveIterator<'a>, MoveIteratorError>)
        ensures
            match framing_error(data@) {
                Some(e) => r == Err::<MoveIterator<'a>, MoveIteratorError>(e),
                None => r is Ok && r->Ok_0.wf() && r->Ok_0.data() == data@
                    && r->Ok_0.pending() == moves_of(data@),
            },
    {
        let out = MoveIterator { start: 0, end: 1, data, buffer: Vec::new(), finished: false };
        if data.len() == 0 {
            return Ok(out);
        }
        if data[0] != FLAG_SEQUENCE {
            return Err(MoveIteratorError::NoStartFlag);
        }
        if data[data.len() - 1] != FLAG_SEQUENCE {
            return Err(MoveIteratorError::NoEndFlag);
        }
        Ok(out)
    }

    /// The next command, or the error that ends the reading, or `None` once all is read.
    pub fn next_move(&mut self) -> (r: Option<Result<Move, MoveIteratorError>>)
        requires
            old(self).wf(),
        ensures
            final(self).wf(),
            final(self).data() == old(self).data(),
            old(self).pending().0.len() > 0 ==> r == Some(Ok::<Move, MoveIteratorError>(old(self).pending().0[0]))
                && final(self).pending() == (old(self).pending().0.drop_first(), old(self).pending().1),
            old(self).pending().0.len() == 0 ==> final(self).pending() == (Seq::<Move>::empty(), None::<MoveIteratorError>)
                && match old(self).pending().1 {
                    Some(e) => r == Some(Err::<Move, MoveIteratorError>(e)),
                    None => r is None,
                },
    {
        if self.finished {
            return None;
        }
        let ghost total = self.pending();
        let ghost d = self.data@;
        loop
            invariant
                self.data@ == d,
                d == old(self).data@,
                total == old(self).pending(),
                !self.finished,
                self.wf(),
                self.pending() == total,
            decreases d.len() - self.end,
        {
            if self.end >= self.data.len() {
                self.finished = true;
                return None;
            }
            let byte = self.data[self.end];
            if byte != FLAG_SEQUENCE {
                self.end = self.end + 1;
            } else if self.end == self.start + 1 {
                self.start = self.end;
                self.end = self.end + 1;
            } else {
                self.buffer.clear();
                let frame = vstd::slice::slice_subrange(self.data, self.start, self.end + 1);
                let res = decode(frame, &mut self.buffer);
                assert(self.buffer@ =~= payload_of(frame_body(frame@)));
                match res {
                    Err(e) => {
                        self.finished = true;
                        return Some(Err(MoveIteratorError::Yahdlc(e)));
                    },
                    Ok(c) => {
                        self.start = self.end;
                        self.end = self.end + 1;
                        match c.frame_type {
                            FrameType::Data => {
                                if self.buffer.len() == 0 {
                                    self.finished = true;
                                    return Some(Err(MoveIteratorError::InvalidMove));
                                }
                                match Move::from_u8(self.buffer[0]) {
                                    Some(mv) => {
                                        let ghost rest = self.pending();
                                        assert(total.0 =~= seq![mv] + rest.0);
                                        assert(total.0.drop_first() =~= rest.0);
                                        return Some(Ok(mv));
                                    },
                                    None => {
                                        self.finished = true;
                                        return Some(Err(MoveIteratorError::InvalidMove));
                                    },
                                }
                            },
                            _ => {},
                        }
                    },
                }
            }
        }
    }
}

/// Reads every command of `data`, sends it through the debounce window, and applies
/// what comes out to the starting position. Returns the positions met, the starting
/// one first, or the first error; the window is drained when the buffer ends.
pub fn run(data: &[u8]) -> (r: Result<Vec<PlayerPosition>, MoveIteratorError>)
    ensures
        match run_result(data@) {
            Ok(ps) => r is Ok && r->Ok_0@ == ps,
            Err(e) => r == Err::<Vec<PlayerPosition>, MoveIteratorError>(e),
        },
{
    let mut it = match MoveIterator::new(data) {
        Ok(it) => it,
        Err(e) => return Err(e),
    };
    let ghost total = it.pending();
    let ghost mut seen: Seq<Move> = Seq::empty();
    let mut window = MoveDebouncer::new();
    let mut player = PlayerPosition::start();
    let mut positions: Vec<PlayerPosition> = Vec::new();
    positions.push(player);
    let mut done = false;
    assert(seen + it.pending().0 =~= total.0);
    while !done
        invariant
            it.wf(),
            it.data() == data@,
            total == moves_of(data@),
            framing_error(data@) is None,
            !done ==> seen + it.pending().0 == total.0 && it.pending().1 == total.1,
            done ==> seen == total.0 && total.1 is None,
            window.wf(),
            window.slots() == debounce_state(seen).0,
            window.cursor() == debounce_state(seen).1,
            positions@ == trace(start_position(), debounce_state(seen).2),
            player == positions@.last(),
            player.wf(),
        decreases it.pending().0.len() + (if done { 0int } else { 1int }),
    {
        match it.next_move() {
            None => {
                done = true;
                assert(seen =~= total.0);
            },
            Some(Err(e)) => {
                return Err(e);
            },
            Some(Ok(mv)) => {
                let ghost before = seen;
                proof {
                    seen = seen.push(mv);
                    assert(seen.drop_last() =~= before);
                    assert(seen + it.pending().0 =~= total.0);
                }
                let ghost out0 = debounce_state(before).2;
                match window.push(mv) {
                    Some(due) => {
                        player.update(due);
                        positions.push(player);
                        assert(debounce_state(seen).2 == out0.push(due));
                        assert(out0.push(due).drop_last() =~= out0);
                    },
                    None => {
                        assert(debounce_state(seen).2 == out0);
                    },
                }
            },
        }
    }
    let rest = window.drain();
    let ghost applied = debounce_state(seen).2;
    let mut k: usize = 0;
    while k < rest.len()
        invariant
            k <= rest.len(),
            rest@ == pending_moves(debounce_state(seen).0, debounce_state(seen).1),
            positions@ == trace(start_position(), applied + rest@.take(k as int)),
            player == positions@.last(),
            player.wf(),
        decreases rest.len() - k,
    {
        let mv = rest[k];
        player.update(mv);
        positions.push(player);
        assert((applied + rest@.take(k + 1)).drop_last() =~= applied + rest@.take(k as int));
        k = k + 1;
    }
    assert(applied + rest@.take(k as int) =~= debounced(seen));
    Ok(positions)
}

proof fn lemma_scan_skip(d: Seq<u8>, s: int, j: int, k: int)
    requires
        0 <= j <= k <= d.len(),
        forall|i: int| j <= i < k ==> d[i] != FLAG_SEQUENCE,
    ensures
        moves_scan(d, s, j) == moves_scan(d, s, k),
    decreases k - j,
{
    if j < k {
        lemma_scan_skip(d, s, j + 1, k);
    }
}

/// A buffer that begins with a data frame around `body` (address, control byte,
/// command byte, check sequence), whose check sequence is intact: its first command
/// is the one the command byte names, and the rest of the buffer is read from the
/// frame's closing flag on; a command byte that names no command ends the reading
/// with `InvalidMove` at once.
pub proof fn lemma_first_data_frame(body: Seq<u8>, rest: Seq<u8>)
    requires
        body.len() == 5,
        body[1] & 1u8 == 0,
        fcs_of(body) == FCS_GOOD,
    ensures
        ({
            let d = framed(body) + rest;
            let c = framed(body).len() - 1;
            moves_of(d) == match move_of(body[2]) {
                Some(m) => (seq![m] + moves_scan(d, c, c + 1).0, moves_scan(d, c, c + 1).1),
                None => (Seq::<Move>::empty(), Some(MoveIteratorError::InvalidMove)),
            }
        }),
{
    let f = framed(body);
    let d = f + rest;
    let c = f.len() - 1;
    lemma_decode_framed(body);
    lemma_stuff(body);
    assert(forall|i: int| 1 <= i < c ==> f[i] == stuff(body)[i - 1]);
    assert(forall|i: int| 0 <= i < f.len() ==> d[i] == f[i]);
    assert(forall|i: int| 1 <= i < c ==> f[i] != FLAG_SEQUENCE);
    lemma_scan_skip(d, 0, 1, c);
    assert(d.subrange(0, c + 1) =~= f);
    assert(control_of(body[1]).frame_type == FrameType::Data);
    assert(payload_of(body) =~= seq![body[2]]);
}

/// Decoding a buffer that holds one intact data frame whose command byte is 1 to 4
/// yields exactly that command and no error.
pub proof fn lemma_single_data_frame(body: Seq<u8>)
    requires
        body.len() == 5,
        body[1] & 1u8 == 0,
        1 <= body[2] <= 4,
        fcs_of(body) == FCS_GOOD,
    ensures
        moves_of(framed(body)) == (seq![move_of(body[2])->Some_0], None::<MoveIteratorError>),
{
    lemma_first_data_frame(body, Seq::empty());
    let d = framed(body);
    assert(d + Seq::<u8>::empty() =~= d);
    let c = d.len() - 1;
    assert(moves_scan(d, c, c + 1) == (Seq::<Move>::empty(), None::<MoveIteratorError>));
    assert(seq![move_of(body[2])->Some_0] + Seq::<Move>::empty() =~= seq![move_of(body[2])->Some_0]);
}

/// A buffer that begins with an intact data frame whose command byte is 0 or at
/// least 5 yields no command and ends with `InvalidMove`, whatever follows the frame.
pub proof fn lemma_invalid_command_frame(body: Seq<u8>, rest: Seq<u8>)
    requires
        body.len() == 5,
        body[1] & 1u8 == 0,
        body[2] == 0 || body[2] >= 5,
        fcs_of(body) == FCS_GOOD,
    ensures
        moves_of(framed(body) + rest) == (Seq::<Move>::empty(), Some(MoveIteratorError::InvalidMove)),
{
    lemma_first_data_frame(body, rest);
}

} // verus!
