//! Commands, the bounded grid position they move, and the debounce window that
//! delays each command and drops runs of three identical ones.

use vstd::prelude::*;

verus! {

/// One step on the grid, carried as the payload byte 1 to 4 of a data frame.
#[derive(Clone, Copy, Debug, PartialEq, Eq, Structural)]
pub enum Move {
    Up,
    Down,
    Right,
    Left,
}

/// The command a payload byte stands for, if any.
pub open spec fn move_of(value: u8) -> Option<Move> {
    if value == 1 {
        Some(Move::Up)
    } else if value == 2 {
        Some(Move::Down)
    } else if value == 3 {
        Some(Move::Right)
    } else if value == 4 {
        Some(Move::Left)
    } else {
        None
    }
}

impl Move {
    /// Reads a command from its payload byte.
    pub fn from_u8(value: u8) -> (r: Option<Move>)
        ensures
            r == move_of(value),
    {
        match value {
            1 => Some(Move::Up),
            2 => Some(Move::Down),
            3 => Some(Move::Right),
            4 => Some(Move::Left),
            _ => None,
        }
    }
}

/// Largest coordinate on either axis; the smallest is 0.
pub const GRID_MAX: i32 = 4;

/// `v` brought back onto `0..=GRID_MAX`.
pub open spec fn clamp_coord(v: int) -> int {
    if v < 0 {
        0
    } else if v > GRID_MAX {
        GRID_MAX as int
    } else {
        v
    }
}

/// Position of the marker; `x` grows to the right and `y` downwards.
#[derive(Clone, Copy, Debug, PartialEq, Eq, Structural)]
pub struct PlayerPosition {
    pub x: i32,
    pub y: i32,
}

/// The position the marker starts from: the lower left corner.
pub open spec fn start_position() -> PlayerPosition {
    PlayerPosition { x: 0, y: GRID_MAX }
}

/// The position after one command: one step along its axis, held on the grid.
pub open spec fn moved(p: PlayerPosition, mv: Move) -> PlayerPosition {
    match mv {
        Move::Up => PlayerPosition { x: p.x, y: clamp_coord(p.y - 1) as i32 },
        Move::Down => PlayerPosition { x: p.x, y: clamp_coord(p.y + 1) as i32 },
        Move::Right => PlayerPosition { x: clamp_coord(p.x + 1) as i32, y: p.y },
        Move::Left => PlayerPosition { x: clamp_coord(p.x - 1) as i32, y: p.y },
    }
}

/// The positions met while applying `ms` in order from `p`: `p` first, then the
/// position after each command.
pub open spec fn trace(p: PlayerPosition, ms: Seq<Move>) -> Seq<PlayerPosition>
    decreases ms.len(),
{
    if ms.len() == 0 {
        seq![p]
    } else {
        let t = trace(p, ms.drop_last());
        t.push(moved(t.last(), ms.last()))
    }
}

fn clamp_i32(v: i32) -> (r: i32)
    requires
        -1 <= v <= GRID_MAX + 1,
    ensures
        r == clamp_coord(v as int),
{
    if v < 0 {
        0
    } else if v > GRID_MAX {
        GRID_MAX
    } else {
        v
    }
}

impl PlayerPosition {
    /// Whether the position lies on the grid.
    pub open spec fn wf(&self) -> bool {
        0 <= self.x <= GRID_MAX && 0 <= self.y <= GRID_MAX
    }

    /// The starting position.
    pub fn start() -> (r: PlayerPosition)
        ensures
            r == start_position(),
    {
        PlayerPosition { x: 0, y: GRID_MAX }
    }

    /// Applies one command; a step that would leave the grid leaves that axis unchanged.
    pub fn update(&mut self, mv: Move)
        requires
            old(self).wf(),
        ensures
            *final(self) == moved(*old(self), mv),
            final(self).wf(),
    {
        match mv {
            Move::Up => self.y = clamp_i32(self.y - 1),
            Move::Down => self.y = clamp_i32(self.y + 1),
            Move::Right => self.x = clamp_i32(self.x + 1),
            Move::Left => self.x = clamp_i32(self.x - 1),
        }
    }
}

/// Number of slots of the debounce window.
pub const WINDOW: usize = 3;

/// The window after `mv` is written at `idx`, emptied when all slots then hold the same command.
pub open spec fn window_after(slots: Seq<Option<Move>>, idx: int, mv: Move) -> Seq<Option<Move>> {
    let s = slots.update(idx, Some(mv));
    if s[0] == s[1] && s[1] == s[2] {
        seq![None, None, None]
    } else {
        s
    }
}

/// State of the debounce window after the commands `ms`: its slots, its cursor and
/// the commands it has let through so far, in order.
pub open spec fn debounce_state(ms: Seq<Move>) -> (Seq<Option<Move>>, int, Seq<Move>)
    decreases ms.len(),
{
    if ms.len() == 0 {
        (seq![None, None, None], 0, Seq::empty())
    } else {
        let (slots, idx, out) = debounce_state(ms.drop_last());
        let out2 = match slots[idx] {
            Some(m) => out.push(m),
            None => out,
        };
        (window_after(slots, idx, ms.last()), (idx + 1) % 3, out2)
    }
}

/// The commands still held in the window, oldest first.
pub open spec fn pending_moves(slots: Seq<Option<Move>>, idx: int) -> Seq<Move> {
    let a = slots[idx % 3];
    let b = slots[(idx + 1) % 3];
    let c = slots[(idx + 2) % 3];
    let s0: Seq<Move> = match a { Some(m) => seq![m], None => Seq::empty() };
    let s1: Seq<Move> = match b { Some(m) => s0.push(m), None => s0 };
    match c { Some(m) => s1.push(m), None => s1 }
}

/// The commands that reach the position, in order, when `ms` goes through the
/// window and the window is drained at the end.
pub open spec fn debounced(ms: Seq<Move>) -> Seq<Move> {
    let (slots, idx, out) = debounce_state(ms);
    out + pending_moves(slots, idx)
}

/// A window of the last three commands that delays each one by three insertions and
/// drops three identical commands that fill it.
pub struct MoveDebouncer {
    slots: [Option<Move>; 3],
    idx: usize,
}

fn same_slot(a: Option<Move>, b: Option<Move>) -> (r: bool)
    ensures
        r == (a == b),
{
    match (a, b) {
        (None, None) => true,
        (Some(x), Some(y)) => x == y,
        _ => false,
    }
}

impl MoveDebouncer {
    /// The window's slots.
    pub closed spec fn slots(&self) -> Seq<Option<Move>> {
        self.slots@
    }

    /// The slot the next command is written to.
    pub closed spec fn cursor(&self) -> int {
        self.idx as int
    }

    /// The cursor points at a slot.
    pub closed spec fn wf(&self) -> bool {
        self.idx < 3
    }

    /// An empty window.
    pub fn new() -> (r: MoveDebouncer)
        ensures
            r.wf(),
            r.slots() == seq![None::<Move>, None, None],
            r.cursor() == 0,
    {
        let r = MoveDebouncer { slots: [None, None, None], idx: 0 };
        assert(r.slots@ =~= seq![None::<Move>, None, None]);
        r
    }

    /// Takes in one command; returns the command that has now left the window and
    /// is due to be applied, if any.
    pub fn push(&mut self, mv: Move) -> (r: Option<Move>)
        requires
            old(self).wf(),
        ensures
            final(self).wf(),
            r == old(self).slots()[old(self).cursor()],
            final(self).slots() == window_after(old(self).slots(), old(self).cursor(), mv),
            final(self).cursor() == (old(self).cursor() + 1) % 3,
    {
        let due = self.slots[self.idx];
        self.slots[self.idx] = Some(mv);
        if same_slot(self.slots[0], self.slots[1]) && same_slot(self.slots[1], self.slots[2]) {
            self.slots = [None, None, None];
            assert(self.slots@ =~= seq![None::<Move>, None, None]);
        }
        self.idx = (self.idx + 1) % 3;
        due
    }

    /// The commands still in the window, oldest first, without the triplet check.
    pub fn drain(&self) -> (r: Vec<Move>)
        requires
            self.wf(),
        ensures
            r@ == pending_moves(self.slots(), self.cursor()),
    {
        let mut out: Vec<Move> = Vec::new();
        let a = self.slots[self.idx % 3];
        let b = self.slots[(self.idx + 1) % 3];
        let c = self.slots[(self.idx + 2) % 3];
        if let Some(m) = a {
            out.push(m);
        }
        if let Some(m) = b {
            out.push(m);
        }
        if let Some(m) = c {
            out.push(m);
        }
        assert(out@ =~= pending_moves(self.slots(), self.cursor()));
        out
    }
}

/// `n` copies of the command `m`.
pub open spec fn repeat_move(m: Move, n: nat) -> Seq<Move> {
    Seq::new(n, |i: int| m)
}

spec fn filled(m: Move, r: int) -> Seq<Option<Move>> {
    seq![
        if r >= 1 { Some(m) } else { None },
        if r >= 2 { Some(m) } else { None },
        None,
    ]
}

proof fn lemma_repeat_state(m: Move, n: nat)
    ensures
        debounce_state(repeat_move(m, n)) == (filled(m, n as int % 3), n as int % 3, Seq::<Move>::empty()),
    decreases n,
{
    if n == 0 {
        assert(filled(m, 0) =~= seq![None::<Move>, None, None]);
    } else {
        let ms = repeat_move(m, n);
        assert(ms.drop_last() =~= repeat_move(m, (n - 1) as nat));
        lemma_repeat_state(m, (n - 1) as nat);
        let r = (n - 1) as int % 3;
        let after = filled(m, r).update(r, Some(m));
        if r == 2 {
            assert(window_after(filled(m, r), r, m) =~= filled(m, 0));
        } else {
            assert(after[0] != after[2] || after[1] != after[2]);
            assert(window_after(filled(m, r), r, m) =~= filled(m, r + 1));
        }
    }
}

/// A run of `n` identical commands lets `n % 3` of them through: each time three
/// fill the window they are dropped, and what is left comes out when it is drained.
pub proof fn lemma_identical_run(m: Move, n: nat)
    ensures
        debounced(repeat_move(m, n)) == repeat_move(m, (n % 3) as nat),
{
    lemma_repeat_state(m, n);
    let r = n as int % 3;
    let pend = pending_moves(filled(m, r), r);
    assert(Seq::<Move>::empty() + pend =~= pend);
    assert(pend =~= repeat_move(m, (n % 3) as nat));
}

} // verus!
