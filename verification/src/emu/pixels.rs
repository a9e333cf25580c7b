//! What the bit operations of the frame buffer mean pixel by pixel.
//!
//! The buffer is specified row-wise, over shifts and XOR. Here each of those
//! is tied to single pixels: column `c` of a screen row is bit `63 - c` of its
//! `u64`, and dot `k` of a sprite row is bit `7 - k` of its byte.

use crate::emu::display::{
    collides, covers, drawn, placed, shown, visible_rows, window, HEIGHT, WIDTH,
};
use vstd::prelude::*;

verus! {

/// Whether column `c` of a screen row is lit. No column lies outside
/// `0..64`.
pub open spec fn pixel(line: u64, c: int) -> bool {
    0 <= c < WIDTH && (line >> ((63 - c) as u64)) & 1 == 1
}

/// Whether dot `k` of a sprite row is set, the leftmost being dot 0. No dot
/// lies outside `0..8`.
pub open spec fn dot(row: u8, k: int) -> bool {
    0 <= k < 8 && ((row as u64) >> ((7 - k) as u64)) & 1 == 1
}

/// Number of dots of a sprite row set at column `x` that lie on the screen.
pub open spec fn dots_on_screen(x: u8) -> int {
    if x >= WIDTH {
        0
    } else if x + 8 <= WIDTH {
        8
    } else {
        WIDTH - x
    }
}

/// Whether dot `k` of a sprite row is set.
pub fn dot_is_set(row: u8, k: u8) -> (set: bool)
    requires
        k < 8,
    ensures
        set == dot(row, k as int),
{
    let mask: u8 = 0b1000_0000u8 >> k;
    assert(k < 8 ==> ((row & (0b1000_0000u8 >> k) != 0) == (((row as u64) >> ((7 - k) as u64)) & 1
        == 1))) by (bit_vector);
    row & mask != 0
}

/// Number of dots of a sprite row set at column `x` that lie on the screen:
/// dot `k` lies in column `x + k`, and the screen ends at column 63.
pub fn visible_dots(x: u8) -> (dots: u8)
    ensures
        dots == dots_on_screen(x),
{
    if x >= 64 {
        0
    } else if x <= 56 {
        8
    } else {
        64 - x
    }
}

/// A sprite row set at column `x` lights column `c` exactly if its dot
/// `c - x` is set: dots that would lie right of column 63 are lost, none
/// wraps round.
pub proof fn lemma_placed_pixels(row: u8, x: u8, c: int)
    requires
        0 <= c < WIDTH,
    ensures
        pixel(placed(row, x), c) == dot(row, c - x),
{
    let r = row as u64;
    let at = x as u64;
    let col = c as u64;
    if x <= 56 {
        assert(r < 0x100 && at <= 56 && col < 64 ==> (((r << ((56 - at) as u64)) >> ((63 - col) as u64))
            & 1 == 1) == (at <= col && col < at + 8 && (r >> ((7 - (col - at)) as u64)) & 1 == 1))
            by (bit_vector);
    } else if x < 64 {
        assert(r < 0x100 && 56 < at && at < 64 && col < 64 ==> (((r >> ((at - 56) as u64)) >> ((63
            - col) as u64)) & 1 == 1) == (at <= col && (r >> ((7 - (col - at)) as u64)) & 1 == 1))
            by (bit_vector);
    } else {
        assert((0u64 >> ((63 - col) as u64)) & 1 == 0) by (bit_vector);
    }
}

/// The window at column `x` of a screen row shows in dot `k` what the row
/// holds in column `x + k`; past column 63 it shows nothing.
pub proof fn lemma_window_dots(line: u64, x: u8, k: int)
    requires
        0 <= k < 8,
    ensures
        dot(window(line, x), k) == pixel(line, x + k),
{
    let at = x as u64;
    let d = k as u64;
    if x <= 56 {
        assert(at <= 56 && d < 8 ==> {
            let w = (line >> ((56 - at) as u64)) & 0xFF;
            w < 0x100 && ((w >> ((7 - d) as u64)) & 1 == 1) == ((line >> ((63 - (at + d)) as u64)) & 1
                == 1)
        }) by (bit_vector);
    } else if x < 64 {
        assert(56 < at && at < 64 && d < 8 ==> {
            let w = (line << ((at - 56) as u64)) & 0xFF;
            w < 0x100 && ((w >> ((7 - d) as u64)) & 1 == 1) == (at + d < 64 && (line >> ((63 - (at
                + d)) as u64)) & 1 == 1)
        }) by (bit_vector);
    } else {
        assert((0u64 >> ((7 - d) as u64)) & 1 == 0) by (bit_vector);
    }
}

/// XOR flips exactly the pixels that the second row lights.
pub proof fn lemma_xor_flips(line: u64, mask: u64, c: int)
    requires
        0 <= c < WIDTH,
    ensures
        pixel(line ^ mask, c) == (pixel(line, c) != pixel(mask, c)),
{
    let s = (63 - c) as u64;
    assert((((line ^ mask) >> s) & 1 == 1) == (((line >> s) & 1 == 1) != ((mask >> s) & 1 == 1)))
        by (bit_vector);
}

/// Two rows have a common set bit exactly if some column is lit in both.
pub proof fn lemma_overlap(line: u64, mask: u64)
    ensures
        (line & mask != 0) <==> exists|c: int| pixel(line, c) && pixel(mask, c),
{
    if line & mask != 0 {
        let s = lemma_set_bit(line & mask);
        let c = 63 - s;
        assert((((line & mask) >> s) & 1 == 1) ==> ((line >> s) & 1 == 1) && ((mask >> s) & 1 == 1))
            by (bit_vector);
        assert(pixel(line, c) && pixel(mask, c));
    }
    if exists|c: int| pixel(line, c) && pixel(mask, c) {
        let c = choose|c: int| pixel(line, c) && pixel(mask, c);
        let s = (63 - c) as u64;
        assert(((line >> s) & 1 == 1) && ((mask >> s) & 1 == 1) ==> line & mask != 0)
            by (bit_vector);
    }
}

/// Whether the screen is lit at column `c` of row `r`.
pub open spec fn lit(screen: Seq<u64>, c: int, r: int) -> bool {
    0 <= r < screen.len() && pixel(screen[r], c)
}

/// Whether a sprite drawn at `(x, y)` has a set dot over column `c` of row
/// `r` of the screen.
pub open spec fn inked(data: Seq<u8>, x: u8, y: u8, c: int, r: int) -> bool {
    covers(data.len() as int, y, r) && 0 <= c < WIDTH && dot(data[r - y], c - x)
}

/// A screen with no pixel lit.
pub open spec fn blank() -> Seq<u64> {
    Seq::new(HEIGHT as nat, |r: int| 0u64)
}

/// Drawing flips exactly the pixels under the set dots of the sprite.
pub proof fn lemma_draw_flips(screen: Seq<u64>, data: Seq<u8>, x: u8, y: u8, c: int, r: int)
    requires
        screen.len() == HEIGHT,
        0 <= c < WIDTH,
        0 <= r < HEIGHT,
    ensures
        lit(drawn(screen, data, x, y), c, r) == (lit(screen, c, r) != inked(data, x, y, c, r)),
{
    if covers(data.len() as int, y, r) {
        lemma_xor_flips(screen[r], placed(data[r - y], x), c);
        lemma_placed_pixels(data[r - y], x, c);
    }
}

/// A draw reports a collision exactly if some lit pixel lies under a set dot
/// of the sprite, which is where a pixel goes dark.
pub proof fn lemma_collision_is_overlap(screen: Seq<u64>, data: Seq<u8>, x: u8, y: u8)
    requires
        screen.len() == HEIGHT,
    ensures
        collides(screen, data, x, y) <==> exists|c: int, r: int|
            lit(screen, c, r) && #[trigger] inked(data, x, y, c, r),
{
    if collides(screen, data, x, y) {
        let r = choose|r: int|
            covers(data.len() as int, y, r) && #[trigger] screen[r] & placed(data[r - y], x) != 0;
        lemma_overlap(screen[r], placed(data[r - y], x));
        let c = choose|c: int| pixel(screen[r], c) && pixel(placed(data[r - y], x), c);
        lemma_placed_pixels(data[r - y], x, c);
        assert(lit(screen, c, r) && inked(data, x, y, c, r));
    }
    if exists|c: int, r: int| lit(screen, c, r) && #[trigger] inked(data, x, y, c, r) {
        let (c, r) = choose|c: int, r: int| lit(screen, c, r) && #[trigger] inked(data, x, y, c, r);
        lemma_placed_pixels(data[r - y], x, c);
        assert(pixel(screen[r], c) && pixel(placed(data[r - y], x), c));
        lemma_overlap(screen[r], placed(data[r - y], x));
        assert(covers(data.len() as int, y, r) && screen[r] & placed(data[r - y], x) != 0);
    }
}

/// Drawing the same sprite at the same place twice restores the screen.
pub proof fn lemma_draw_twice(screen: Seq<u64>, data: Seq<u8>, x: u8, y: u8)
    requires
        screen.len() == HEIGHT,
    ensures
        drawn(drawn(screen, data, x, y), data, x, y) == screen,
{
    let once = drawn(screen, data, x, y);
    let twice = drawn(once, data, x, y);
    assert forall|r: int| 0 <= r < HEIGHT implies twice[r] == screen[r] by {
        if covers(data.len() as int, y, r) {
            let line = screen[r];
            let mask = placed(data[r - y], x);
            assert((line ^ mask) ^ mask == line) by (bit_vector);
        }
    }
    assert(twice =~= screen);
}

/// On a blank screen a sprite collides with nothing. Drawn once more at the
/// same place it collides exactly if it lights any pixel at all, and the
/// screen is blank again.
pub proof fn lemma_draw_and_erase(data: Seq<u8>, x: u8, y: u8)
    ensures
        !collides(blank(), data, x, y),
        collides(drawn(blank(), data, x, y), data, x, y) <==> exists|c: int, r: int| #[trigger]
            inked(data, x, y, c, r),
        drawn(drawn(blank(), data, x, y), data, x, y) == blank(),
{
    let once = drawn(blank(), data, x, y);
    lemma_draw_twice(blank(), data, x, y);
    lemma_collision_is_overlap(blank(), data, x, y);
    lemma_collision_is_overlap(once, data, x, y);
    assert forall|c: int, r: int| !lit(blank(), c, r) by {
        if 0 <= r < HEIGHT && 0 <= c < WIDTH {
            let s = (63 - c) as u64;
            assert((0u64 >> s) & 1 == 0) by (bit_vector);
        }
    }
    assert forall|c: int, r: int| #[trigger] inked(data, x, y, c, r) implies lit(once, c, r) by {
        lemma_draw_flips(blank(), data, x, y, c, r);
    }
}

/// The rows that a change notification carries show the screen as it is
/// where the sprite lies: dot `j` of its row `k` is the pixel in column
/// `x + j` of row `y + k`.
pub proof fn lemma_shown_pixels(screen: Seq<u64>, rows: int, x: u8, y: u8, j: int, k: int)
    requires
        screen.len() == HEIGHT,
        0 <= j < 8,
        0 <= k < visible_rows(rows, y),
    ensures
        dot(shown(screen, rows, x, y)[k], j) == lit(screen, x + j, y + k),
{
    lemma_window_dots(screen[y + k], x, j);
}

/// A value other than zero has a set bit.
proof fn lemma_set_bit(value: u64) -> (s: u64)
    requires
        value != 0,
    ensures
        s < 64,
        (value >> s) & 1 == 1,
{
    assert(value >> 0 == value) by (bit_vector);
    lemma_set_bit_from(value, 0)
}

/// A value with something left above bit `from` has a set bit there.
proof fn lemma_set_bit_from(value: u64, from: u64) -> (s: u64)
    requires
        from < 64,
        value >> from != 0,
    ensures
        from <= s < 64,
        (value >> s) & 1 == 1,
    decreases 64 - from,
{
    if (value >> from) & 1 == 1 {
        from
    } else {
        assert(from < 64 && value >> from != 0 && (value >> from) & 1 != 1 ==> from < 63 && value >> (
        (from + 1) as u64) != 0) by (bit_vector);
        lemma_set_bit_from(value, (from + 1) as u64)
    }
}

} // verus!
