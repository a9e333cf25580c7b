//! The 64 x 32 monochrome frame buffer.
//!
//! A row of the screen is one `u64`; column 0 is its most significant bit.
//! Sprites are eight pixels wide and are combined into the buffer by XOR.
//! Whatever part of a sprite falls below row 31 or right of column 63 is cut
//! off: nothing wraps round to the other edge.

use crate::emu::channel::send;
use std::sync::mpsc::{Receiver, Sender};
use vstd::prelude::*;

verus! {

/// Number of pixel columns.
pub const WIDTH: usize = 64;

/// Number of pixel rows.
pub const HEIGHT: usize = 32;

/// A sprite: rows of eight pixels and the screen position of its top left
/// corner. A set bit flips the pixel under it.
#[derive(Debug)]
pub struct Sprite<'a> {
    pub data: &'a [u8],
    pub x: u8,
    pub y: u8,
}

/// What subscribers are told of the screen.
#[derive(Debug, Clone, PartialEq, Eq)]
pub enum DisplayCmd {
    /// Rows were drawn: for each, the eight pixels from column `x` on as they
    /// look now, then the column `x` and the row `y` of the first.
    Change(Vec<u8>, u8, u8),
    /// The screen was cleared.
    Clear,
}

/// A notification as a mathematical value: what a `DisplayCmd` says.
pub enum Notice {
    /// Rows were drawn: the rows, then the column and the row of the first.
    Change(Seq<u8>, u8, u8),
    /// The screen was cleared.
    Clear,
}

impl View for DisplayCmd {
    type V = Notice;

    open spec fn view(&self) -> Notice {
        match *self {
            DisplayCmd::Change(rows, x, y) => Notice::Change(rows@, x, y),
            DisplayCmd::Clear => Notice::Clear,
        }
    }
}

/// The frame buffer and the subscribers to its changes.
pub struct Display {
    buffer: [u64; 32],
    changes: Vec<Sender<DisplayCmd>>,
    sent: Ghost<Seq<Notice>>,
}

/// A sprite row set at column `x` of a screen row. Columns past 63 are cut off.
pub open spec fn placed(row: u8, x: u8) -> u64 {
    if x <= 56 {
        (row as u64) << ((56 - x) as u64)
    } else if x < 64 {
        (row as u64) >> ((x - 56) as u64)
    } else {
        0
    }
}

/// The eight pixels of a screen row from column `x` on, as a sprite row.
/// Columns past 63 read as unset.
pub open spec fn window(line: u64, x: u8) -> u8 {
    if x <= 56 {
        ((line >> ((56 - x) as u64)) & 0xFF) as u8
    } else if x < 64 {
        ((line << ((x - 56) as u64)) & 0xFF) as u8
    } else {
        0
    }
}

/// Whether screen row `r` lies under one of the sprite's rows.
pub open spec fn covers(rows: int, y: u8, r: int) -> bool {
    y <= r < y + rows && r < HEIGHT
}

/// The screen after a sprite was drawn onto it.
pub open spec fn drawn(screen: Seq<u64>, data: Seq<u8>, x: u8, y: u8) -> Seq<u64> {
    Seq::new(
        HEIGHT as nat,
        |r: int|
            if covers(data.len() as int, y, r) {
                screen[r] ^ placed(data[r - y], x)
            } else {
                screen[r]
            },
    )
}

/// Whether drawing a sprite turns off a pixel that was on.
pub open spec fn collides(screen: Seq<u64>, data: Seq<u8>, x: u8, y: u8) -> bool {
    exists|r: int| covers(data.len() as int, y, r) && #[trigger] screen[r] & placed(data[r - y], x) != 0
}

/// Number of sprite rows that land on the screen.
pub open spec fn visible_rows(rows: int, y: u8) -> int {
    if y >= HEIGHT {
        0
    } else if rows <= HEIGHT - y {
        rows
    } else {
        HEIGHT - y
    }
}

/// What a screen shows where a sprite of `rows` rows lies at `(x, y)`.
pub open spec fn shown(screen: Seq<u64>, rows: int, x: u8, y: u8) -> Seq<u8> {
    Seq::new(visible_rows(rows, y) as nat, |k: int| window(screen[y + k], x))
}

impl View for Display {
    type V = Seq<u64>;

    /// The 32 rows of the screen, top first.
    closed spec fn view(&self) -> Seq<u64> {
        self.buffer@
    }
}

impl Display {
    /// The sending halves of the subscribers' queues, in the order in which
    /// they registered.
    pub closed spec fn feeds(&self) -> Seq<Sender<DisplayCmd>> {
        self.changes@
    }

    /// Every notification that was handed out to the subscribers so far, the
    /// oldest first.
    pub closed spec fn notices(&self) -> Seq<Notice> {
        self.sent@
    }

    /// Number of subscribers registered so far.
    pub open spec fn subscribers(&self) -> nat {
        self.feeds().len()
    }

    /// A screen has `HEIGHT` rows, whatever was done to it.
    pub proof fn lemma_size(&self)
        ensures
            self@.len() == HEIGHT,
    {
    }

    /// A blank screen without subscribers.
    pub fn new() -> (d: Self)
        ensures
            d@ == Seq::new(HEIGHT as nat, |r: int| 0u64),
            d.feeds() == Seq::<Sender<DisplayCmd>>::empty(),
            d.notices() == Seq::<Notice>::empty(),
    {
        let d = Self { buffer: [0x0u64; 32], changes: Vec::new(), sent: Ghost(Seq::empty()) };
        assert(d@ =~= Seq::new(HEIGHT as nat, |r: int| 0u64));
        d
    }

    /// Screen row `y`, column 0 in the most significant bit.
    pub fn row(&self, y: u8) -> (line: u64)
        requires
            y < HEIGHT,
        ensures
            line == self@[y as int],
    {
        self.buffer[y as usize]
    }

    /// Blanks the screen and tells every subscriber.
    pub fn clear(&mut self)
        ensures
            final(self)@ == Seq::new(HEIGHT as nat, |r: int| 0u64),
            final(self).feeds() == old(self).feeds(),
            final(self).notices() == old(self).notices().push(Notice::Clear),
    {
        self.buffer = [0x0u64; 32];
        assert(self@ =~= Seq::new(HEIGHT as nat, |r: int| 0u64));
        self.broadcast(&DisplayCmd::Clear);
    }

    /// Combines a sprite into the buffer, without telling anyone. Returns
    /// whether a lit pixel went dark, and the rows touched as they look now.
    pub fn paint(&mut self, sprite: &Sprite) -> (r: (bool, Vec<u8>))
        ensures
            final(self)@ == drawn(old(self)@, sprite.data@, sprite.x, sprite.y),
            final(self).feeds() == old(self).feeds(),
            final(self).notices() == old(self).notices(),
            r.0 == collides(old(self)@, sprite.data@, sprite.x, sprite.y),
            r.1@ == shown(final(self)@, sprite.data@.len() as int, sprite.x, sprite.y),
    {
        let x: u8 = sprite.x;
        let y: u8 = sprite.y;
        let data: &[u8] = sprite.data;
        let mut updated: bool = false;
        let mut changes: Vec<u8> = Vec::new();
        let mut index: usize = 0;
        while index < data.len() && y as usize + index < HEIGHT
            invariant
                data@ == sprite.data@,
                x == sprite.x,
                y == sprite.y,
                index <= data@.len(),
                index == visible_rows(index as int, y),
                self.feeds() == old(self).feeds(),
                self.notices() == old(self).notices(),
                self@.len() == HEIGHT,
                forall|r: int|
                    0 <= r < HEIGHT ==> self@[r] == if covers(index as int, y, r) {
                        old(self)@[r] ^ placed(data@[r - y], x)
                    } else {
                        old(self)@[r]
                    },
                updated == collides(old(self)@, data@.take(index as int), x, y),
                changes@.len() == index,
                forall|k: int| 0 <= k < index ==> changes@[k] == window(#[trigger] self@[y + k], x),
            decreases data@.len() - index,
        {
            let row: u8 = data[index];
            let at: usize = y as usize + index;
            let buf_row: u64 = if x <= 56 {
                (row as u64) << (56 - x)
            } else if x < 64 {
                (row as u64) >> (x - 56)
            } else {
                0
            };
            assert(buf_row == placed(row, x));
            let before: u64 = self.buffer[at];
            let hit: bool = before & buf_row != 0;
            proof {
                let ghost shorter = data@.take(index as int);
                let ghost longer = data@.take(index + 1);
                if collides(old(self)@, shorter, x, y) {
                    let r = choose|r: int|
                        covers(shorter.len() as int, y, r) && #[trigger] old(self)@[r] & placed(
                            shorter[r - y],
                            x,
                        ) != 0;
                    assert(covers(longer.len() as int, y, r) && old(self)@[r] & placed(
                        longer[r - y],
                        x,
                    ) != 0);
                }
                if hit {
                    assert(covers(longer.len() as int, y, at as int) && old(self)@[at as int]
                        & placed(longer[at - y], x) != 0);
                }
                if collides(old(self)@, longer, x, y) {
                    let r = choose|r: int|
                        covers(longer.len() as int, y, r) && #[trigger] old(self)@[r] & placed(
                            longer[r - y],
                            x,
                        ) != 0;
                    if r != at {
                        assert(covers(shorter.len() as int, y, r) && old(self)@[r] & placed(
                            shorter[r - y],
                            x,
                        ) != 0);
                    }
                }
            }
            updated = updated || hit;
            let after: u64 = before ^ buf_row;
            self.buffer[at] = after;
            let seen: u8 = if x <= 56 {
                (after >> (56 - x) & 0xFF) as u8
            } else if x < 64 {
                (after << (x - 56) & 0xFF) as u8
            } else {
                0
            };
            assert(seen == window(after, x));
            changes.push(seen);
            index = index + 1;
        }
        proof {
            let rows = data@.len() as int;
            assert(index == visible_rows(rows, y));
            assert forall|r: int| covers(rows, y, r) implies covers(index as int, y, r) by {}
            assert(self@ =~= drawn(old(self)@, data@, x, y));
            assert(changes@ =~= shown(self@, rows, x, y));
            let ghost seen_part = data@.take(index as int);
            if collides(old(self)@, seen_part, x, y) {
                let r = choose|r: int|
                    covers(seen_part.len() as int, y, r) && #[trigger] old(self)@[r] & placed(
                        seen_part[r - y],
                        x,
                    ) != 0;
                assert(covers(rows, y, r) && old(self)@[r] & placed(data@[r - y], x) != 0);
            }
            if collides(old(self)@, data@, x, y) {
                let r = choose|r: int|
                    covers(rows, y, r) && #[trigger] old(self)@[r] & placed(data@[r - y], x) != 0;
                assert(covers(seen_part.len() as int, y, r) && old(self)@[r] & placed(
                    seen_part[r - y],
                    x,
                ) != 0);
            }
        }
        (updated, changes)
    }

    /// Draws a sprite and tells every subscriber which rows changed. Returns
    /// whether a lit pixel went dark. Never fails.
    pub fn draw(&mut self, sprite: Sprite) -> (r: Result<bool, ()>)
        ensures
            final(self)@ == drawn(old(self)@, sprite.data@, sprite.x, sprite.y),
            final(self).feeds() == old(self).feeds(),
            final(self).notices() == old(self).notices().push(
                Notice::Change(
                    shown(final(self)@, sprite.data@.len() as int, sprite.x, sprite.y),
                    sprite.x,
                    sprite.y,
                ),
            ),
            r == Ok::<bool, ()>(collides(old(self)@, sprite.data@, sprite.x, sprite.y)),
    {
        let (updated, changes) = self.paint(&sprite);
        self.broadcast(&DisplayCmd::Change(changes, sprite.x, sprite.y));
        Ok(updated)
    }

    /// Registers a new subscriber and returns the end to read its feed from.
    pub fn get_changes_pipe(&mut self) -> (rx: Receiver<DisplayCmd>)
        ensures
            final(self)@ == old(self)@,
            final(self).feeds().len() == old(self).feeds().len() + 1,
            final(self).feeds().drop_last() == old(self).feeds(),
            final(self).notices() == old(self).notices(),
    {
        let (tx, rx) = std::sync::mpsc::channel::<DisplayCmd>();
        self.changes.push(tx);
        rx
    }

    /// Hands `cmd` out: sends a copy of it to every subscriber, in the order
    /// in which they registered. One that has gone away is skipped.
    fn broadcast(&mut self, cmd: &DisplayCmd)
        ensures
            final(self)@ == old(self)@,
            final(self).feeds() == old(self).feeds(),
            final(self).notices() == old(self).notices().push(cmd@),
    {
        let mut i: usize = 0;
        while i < self.changes.len()
            invariant
                i <= self.changes@.len(),
                self@ == old(self)@,
                self.feeds() == old(self).feeds(),
                self.notices() == old(self).notices(),
            decreases self.changes@.len() - i,
        {
            let _ = send(&self.changes[i], cmd.clone());
            i = i + 1;
        }
        proof {
            self.sent = Ghost(self.sent@.push(cmd@));
        }
    }
}

} // verus!
