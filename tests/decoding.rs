use veo_task::fcs::{FrameCheckSequence, FCS_GOOD, FCS_INIT};
use veo_task::moves::{Move, MoveDebouncer, PlayerPosition};
use veo_task::stream::{run, MoveIterator, MoveIteratorError};
use veo_task::yarhdlc::{decode, Control, ControlByte, Error, FrameType, FLAG_SEQUENCE};

const UP: [u8; 7] = [0x7e, 0xff, 0x10, 0x01, 0x27, 0x84, 0x7e];
const DOWN: [u8; 7] = [0x7e, 0xff, 0x10, 0x02, 0xbc, 0xb6, 0x7e];
const RIGHT: [u8; 7] = [0x7e, 0xff, 0x10, 0x03, 0x35, 0xa7, 0x7e];
const LEFT: [u8; 7] = [0x7e, 0xff, 0x10, 0x04, 0x8a, 0xd3, 0x7e];
const ZERO: [u8; 7] = [0x7e, 0xff, 0x10, 0x00, 0xae, 0x95, 0x7e];
const FIVE: [u8; 7] = [0x7e, 0xff, 0x10, 0x05, 0x03, 0xc2, 0x7e];
const ACK: [u8; 6] = [0x7e, 0xff, 0x01, 0x0e, 0xe1, 0x7e];
const NAK: [u8; 6] = [0x7e, 0xff, 0x09, 0x46, 0x6d, 0x7e];

fn concat(frames: &[&[u8]]) -> Vec<u8> {
    let mut out = Vec::new();
    for f in frames {
        out.extend_from_slice(f);
    }
    out
}

fn all_moves(data: &[u8]) -> (Vec<Move>, Option<MoveIteratorError>) {
    let mut it = MoveIterator::new(data).unwrap();
    let mut moves = Vec::new();
    loop {
        match it.next_move() {
            None => return (moves, None),
            Some(Ok(m)) => moves.push(m),
            Some(Err(e)) => return (moves, Some(e)),
        }
    }
}

fn debounce(moves: &[Move]) -> Vec<Move> {
    let mut window = MoveDebouncer::new();
    let mut out = Vec::new();
    for m in moves {
        if let Some(due) = window.push(*m) {
            out.push(due);
        }
    }
    out.extend(window.drain());
    out
}

#[test]
fn checksum_update_exact_value() {
    let mut fcs = FrameCheckSequence::new();
    assert_eq!(fcs.0, FCS_INIT);
    fcs.update(0x00);
    assert_eq!(fcs.0, 0x0f87);
    let mut fcs = FrameCheckSequence(0x1234);
    fcs.update(0x56);
    // (0x1234 >> 8) ^ table[0x34 ^ 0x56], which is table[0x62] = 0x4014
    assert_eq!(fcs.0, 0x4006);
}

#[test]
fn checksum_of_intact_frame_is_good() {
    let mut fcs = FrameCheckSequence::new();
    for b in &UP[1..6] {
        fcs.update(*b);
    }
    assert_eq!(fcs.0, FCS_GOOD);
    assert!(fcs.is_good());
}

#[test]
fn control_byte_classification() {
    let c: Control = ControlByte(0x10).into();
    assert_eq!(c, Control { frame_type: FrameType::Data, sequence_no: 8 });
    let c: Control = ControlByte(0x01).into();
    assert_eq!(c, Control { frame_type: FrameType::Acknowledge, sequence_no: 0 });
    let c: Control = ControlByte(0x09).into();
    assert_eq!(c, Control { frame_type: FrameType::NegativeAcknowledge, sequence_no: 4 });
    let c: Control = ControlByte(0x21).into();
    assert_eq!(c, Control { frame_type: FrameType::Acknowledge, sequence_no: 0x10 });
}

#[test]
fn decode_single_data_frames() {
    for (frame, v) in [(UP, 1u8), (DOWN, 2), (RIGHT, 3), (LEFT, 4)] {
        let mut out = Vec::new();
        let c = decode(&frame, &mut out).unwrap();
        assert_eq!(c.frame_type, FrameType::Data);
        assert_eq!(out, vec![v]);
    }
}

#[test]
fn decode_appends_to_output() {
    let mut out = vec![9u8, 9];
    decode(&UP, &mut out).unwrap();
    assert_eq!(out, vec![9, 9, 1]);
}

#[test]
fn decode_acknowledge_frames() {
    let mut out = Vec::new();
    assert_eq!(decode(&ACK, &mut out).unwrap().frame_type, FrameType::Acknowledge);
    assert!(out.is_empty());
    assert_eq!(decode(&NAK, &mut out).unwrap().frame_type, FrameType::NegativeAcknowledge);
    assert!(out.is_empty());
}

#[test]
fn decode_destuffs_escaped_bytes() {
    // payload 11; the first check byte is 0x7d and goes out escaped
    let frame = [0x7e, 0xff, 0x10, 0x0b, 0x7d, 0x5d, 0x2b, 0x7e];
    let mut out = Vec::new();
    assert_eq!(decode(&frame, &mut out).unwrap().frame_type, FrameType::Data);
    assert_eq!(out, vec![0x0b]);
}

#[test]
fn decode_skips_repeated_flags() {
    let frame = [0x7e, 0x7e, 0x7e, 0xff, 0x10, 0x01, 0x27, 0x84, 0x7e];
    let mut out = Vec::new();
    assert_eq!(decode(&frame, &mut out).unwrap().frame_type, FrameType::Data);
    assert_eq!(out, vec![1]);
}

#[test]
fn decode_single_bit_flip_fails_checksum() {
    for pos in 1..6 {
        for bit in 0..8 {
            let mut frame = UP;
            frame[pos] ^= 1 << bit;
            if frame[pos] == FLAG_SEQUENCE || frame[pos] == 0x7d {
                continue;
            }
            let mut out = Vec::new();
            assert_eq!(decode(&frame, &mut out), Err(Error::FrameCheckSequenceInvalid), "{} {}", pos, bit);
        }
    }
}

#[test]
fn decode_too_short() {
    let mut out = Vec::new();
    assert_eq!(decode(&[0x7e, 0x01, 0x02, 0x7e], &mut out), Err(Error::TooShort));
    assert_eq!(decode(&[0x7e, 0x7d, 0x01, 0x7e], &mut out), Err(Error::TooShort));
    // long enough in raw bytes, but too little left after destuffing for a good check sequence
    assert_eq!(decode(&[0x7e, 0x7d, 0x01, 0x7d, 0x7e], &mut out), Err(Error::FrameCheckSequenceInvalid));
    assert_eq!(decode(&[0x7e, 0x7d, 0x7d, 0x7d, 0x7e], &mut out), Err(Error::FrameCheckSequenceInvalid));
}

#[test]
fn decode_no_message() {
    let mut out = Vec::new();
    assert_eq!(decode(&[0x7e, 0x01, 0x02, 0x03], &mut out), Err(Error::NoMessage));
    assert_eq!(decode(&[], &mut out), Err(Error::NoMessage));
    assert_eq!(decode(&[0x01, 0x02], &mut out), Err(Error::NoMessage));
    assert_eq!(decode(&[0x7e, 0x7e], &mut out), Err(Error::NoMessage));
}

#[test]
fn stream_two_flags_is_empty() {
    let data = [FLAG_SEQUENCE, FLAG_SEQUENCE];
    assert_eq!(all_moves(&data), (vec![], None));
    assert_eq!(run(&data).unwrap(), vec![PlayerPosition { x: 0, y: 4 }]);
}

#[test]
fn stream_empty_buffer_is_empty() {
    assert_eq!(all_moves(&[]), (vec![], None));
}

#[test]
fn stream_no_start_flag() {
    assert_eq!(MoveIterator::new(&[1, 62, 35, 7, 31]).err(), Some(MoveIteratorError::NoStartFlag));
    assert_eq!(run(&[1, 62, 35, 7, 31]), Err(MoveIteratorError::NoStartFlag));
}

#[test]
fn stream_no_end_flag() {
    let data = [FLAG_SEQUENCE, 1, 62, 35, 7, 31];
    assert_eq!(MoveIterator::new(&data).err(), Some(MoveIteratorError::NoEndFlag));
    assert_eq!(run(&data), Err(MoveIteratorError::NoEndFlag));
}

#[test]
fn stream_reads_all_commands() {
    let data = concat(&[&UP, &DOWN, &RIGHT, &LEFT]);
    assert_eq!(all_moves(&data), (vec![Move::Up, Move::Down, Move::Right, Move::Left], None));
}

#[test]
fn stream_frames_may_share_flags() {
    let mut data = UP.to_vec();
    data.extend_from_slice(&DOWN[1..]);
    assert_eq!(all_moves(&data), (vec![Move::Up, Move::Down], None));
}

#[test]
fn stream_skips_acknowledgements() {
    let data = concat(&[&ACK, &UP, &NAK, &LEFT, &ACK]);
    assert_eq!(all_moves(&data), (vec![Move::Up, Move::Left], None));
}

#[test]
fn stream_invalid_command_zero_stops() {
    let data = concat(&[&UP, &ZERO, &DOWN]);
    assert_eq!(all_moves(&data), (vec![Move::Up], Some(MoveIteratorError::InvalidMove)));
}

#[test]
fn stream_invalid_command_five_stops() {
    let data = concat(&[&FIVE, &DOWN]);
    assert_eq!(all_moves(&data), (vec![], Some(MoveIteratorError::InvalidMove)));
    assert_eq!(run(&data), Err(MoveIteratorError::InvalidMove));
}

#[test]
fn stream_empty_payload_is_invalid_command() {
    // a data frame with no command byte
    let data = [0x7e, 0xff, 0x10, 0x06, 0xe0, 0x7e];
    let mut out = Vec::new();
    assert_eq!(decode(&data, &mut out).unwrap().frame_type, FrameType::Data);
    assert_eq!(all_moves(&data), (vec![], Some(MoveIteratorError::InvalidMove)));
}

#[test]
fn stream_decode_error_stops() {
    let mut bad = RIGHT;
    bad[3] = 0x02;
    let data = concat(&[&UP, &bad, &DOWN]);
    assert_eq!(
        all_moves(&data),
        (vec![Move::Up], Some(MoveIteratorError::Yahdlc(Error::FrameCheckSequenceInvalid)))
    );
    let data = [FLAG_SEQUENCE, 1, 62, 35, 7, 31, FLAG_SEQUENCE];
    assert_eq!(run(&data), Err(MoveIteratorError::Yahdlc(Error::FrameCheckSequenceInvalid)));
}

#[test]
fn move_from_u8_values() {
    assert_eq!(Move::from_u8(1), Some(Move::Up));
    assert_eq!(Move::from_u8(2), Some(Move::Down));
    assert_eq!(Move::from_u8(3), Some(Move::Right));
    assert_eq!(Move::from_u8(4), Some(Move::Left));
    assert_eq!(Move::from_u8(0), None);
    assert_eq!(Move::from_u8(5), None);
}

#[test]
fn debounce_triplets() {
    let u = Move::Up;
    assert_eq!(debounce(&[u, u, u]), vec![]);
    assert_eq!(debounce(&[u, u, u, u]), vec![u]);
    assert_eq!(debounce(&[u, u, u, u, u]), vec![u, u]);
    assert_eq!(debounce(&[u, u, u, u, u, u]), vec![]);
}

#[test]
fn debounce_keeps_order_and_delays() {
    let mut window = MoveDebouncer::new();
    assert_eq!(window.push(Move::Up), None);
    assert_eq!(window.push(Move::Down), None);
    assert_eq!(window.push(Move::Left), None);
    assert_eq!(window.push(Move::Right), Some(Move::Up));
    assert_eq!(window.drain(), vec![Move::Down, Move::Left, Move::Right]);
    assert_eq!(debounce(&[Move::Up, Move::Up, Move::Down, Move::Up]), vec![Move::Up, Move::Up, Move::Down, Move::Up]);
}

#[test]
fn debounce_drain_does_not_check_triplets() {
    let d = Move::Down;
    let u = Move::Up;
    assert_eq!(debounce(&[d, u, u]), vec![d, u, u]);
    assert_eq!(debounce(&[u, u, d, u, u]), vec![u, u, d, u, u]);
}

#[test]
fn position_clamps_at_top() {
    let mut p = PlayerPosition::start();
    assert_eq!(p, PlayerPosition { x: 0, y: 4 });
    for _ in 0..4 {
        p.update(Move::Up);
    }
    assert_eq!(p, PlayerPosition { x: 0, y: 0 });
    p.update(Move::Up);
    assert_eq!(p, PlayerPosition { x: 0, y: 0 });
}

#[test]
fn position_clamps_each_side() {
    let mut p = PlayerPosition::start();
    p.update(Move::Left);
    assert_eq!(p, PlayerPosition { x: 0, y: 4 });
    p.update(Move::Down);
    assert_eq!(p, PlayerPosition { x: 0, y: 4 });
    for _ in 0..6 {
        p.update(Move::Right);
    }
    assert_eq!(p, PlayerPosition { x: 4, y: 4 });
}

#[test]
fn run_end_to_end() {
    let data = concat(&[&RIGHT, &DOWN, &RIGHT, &DOWN]);
    let trace = run(&data).unwrap();
    assert_eq!(
        trace,
        vec![
            PlayerPosition { x: 0, y: 4 },
            PlayerPosition { x: 1, y: 4 },
            PlayerPosition { x: 1, y: 4 },
            PlayerPosition { x: 2, y: 4 },
            PlayerPosition { x: 2, y: 4 },
        ]
    );
}

#[test]
fn run_suppresses_triplet() {
    let data = concat(&[&RIGHT, &RIGHT, &RIGHT, &DOWN]);
    let trace = run(&data).unwrap();
    assert_eq!(trace.last(), Some(&PlayerPosition { x: 0, y: 4 }));
    assert_eq!(trace.len(), 2);
    let data = concat(&[&UP, &ACK, &UP, &UP, &UP]);
    assert_eq!(run(&data).unwrap(), vec![PlayerPosition { x: 0, y: 4 }, PlayerPosition { x: 0, y: 3 }]);
}

#[test]
fn control_byte_encoding() {
    let b: ControlByte = Control { frame_type: FrameType::Data, sequence_no: 3 }.into();
    assert_eq!(b, ControlByte(0x16));
    let b: ControlByte = Control { frame_type: FrameType::Acknowledge, sequence_no: 2 }.into();
    assert_eq!(b, ControlByte(0x41));
    let b: ControlByte = Control { frame_type: FrameType::NegativeAcknowledge, sequence_no: 1 }.into();
    assert_eq!(b, ControlByte(0x29));
    for t in [FrameType::Data, FrameType::Acknowledge, FrameType::NegativeAcknowledge] {
        for n in 0..8u8 {
            let b: ControlByte = Control { frame_type: t, sequence_no: n }.into();
            let back: Control = b.into();
            assert_eq!(back.frame_type, t);
        }
    }
}

#[test]
fn decode_bit_flip_in_escaped_frame_fails_checksum() {
    // payload 11 with an escaped check byte; flip the payload's low bit
    let frame = [0x7e, 0xff, 0x10, 0x0a, 0x7d, 0x5d, 0x2b, 0x7e];
    let mut out = Vec::new();
    assert_eq!(decode(&frame, &mut out), Err(Error::FrameCheckSequenceInvalid));
}

#[test]
fn decode_bit_flip_after_escape_fails_checksum() {
    // payload 11 with the check byte 0x7d sent as 0x7d 0x5d; flip a bit of the 0x5d
    let frame = [0x7e, 0xff, 0x10, 0x0b, 0x7d, 0x5d, 0x2b, 0x7e];
    for bit in 0..8 {
        let mut bad = frame;
        bad[5] ^= 1 << bit;
        if bad[5] == FLAG_SEQUENCE || bad[5] == 0x7d {
            continue;
        }
        let mut out = Vec::new();
        assert_eq!(decode(&bad, &mut out), Err(Error::FrameCheckSequenceInvalid), "{}", bit);
    }
}

#[test]
fn debounce_long_identical_runs() {
    let l = Move::Left;
    for n in 0..10usize {
        assert_eq!(debounce(&vec![l; n]).len(), n % 3, "{}", n);
    }
    assert_eq!(debounce(&[l, l, l, l, l, l, l]), vec![l]);
}
