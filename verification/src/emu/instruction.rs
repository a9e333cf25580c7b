//! Instruction words and their decoding.
//!
//! A word is four nibbles. The first selects a family; families `0`, `8`, `E`
//! and `F` are told apart by their trailing nibbles. `encode` writes the opcode
//! table from instruction to word, `decode` reads it from word to instruction,
//! and the two are proved inverse to each other wherever a word is assigned.

use vstd::prelude::*;

verus! {

/// One decoded instruction. Operands named `x` and `y` are register indices,
/// `nnn` is a 12-bit address, `nn` a byte and `n` a nibble.
#[derive(Debug, Clone, Copy, PartialEq, Eq, Structural)]
pub enum Instruction {
    /// `0nnn`: call a machine code routine (ignored by the interpreter).
    Call(u16),
    /// `00E0`: clear the screen.
    DispClr,
    /// `00EE`: return from a subroutine.
    FlowRet,
    /// `1nnn`: jump to `nnn`.
    FlowJmp(u16),
    /// `2nnn`: call the subroutine at `nnn`.
    FlowCall(u16),
    /// `3xnn`: skip the next instruction if `Vx == nn`.
    CondEqL(u8, u8),
    /// `4xnn`: skip the next instruction if `Vx != nn`.
    CondNoEqL(u8, u8),
    /// `5xy0`: skip the next instruction if `Vx == Vy`.
    CondEqRg(u8, u8),
    /// `6xnn`: `Vx = nn`.
    RegConst(u8, u8),
    /// `7xnn`: `Vx += nn`, without touching the flag.
    RegAdd(u8, u8),
    /// `8xy0`: `Vx = Vy`.
    Assign(u8, u8),
    /// `8xy1`: `Vx |= Vy`.
    BitOr(u8, u8),
    /// `8xy2`: `Vx &= Vy`.
    BitAnd(u8, u8),
    /// `8xy3`: `Vx ^= Vy`.
    BitXor(u8, u8),
    /// `8xy4`: `Vx += Vy`, the flag receives the carry.
    MathAdd(u8, u8),
    /// `8xy5`: `Vx -= Vy`, the flag is set when no borrow occurs.
    MathSub(u8, u8),
    /// `8xy6`: `Vx >>= 1`, the flag receives the bit shifted out.
    BitShiftR(u8, u8),
    /// `8xy7`: `Vx = Vy - Vx`, the flag is set when no borrow occurs.
    InvertSub(u8, u8),
    /// `8xyE`: `Vx <<= 1`, the flag receives the bit shifted out.
    BitShiftL(u8, u8),
    /// `9xy0`: skip the next instruction if `Vx != Vy`.
    CondNoEqRg(u8, u8),
    /// `Annn`: `I = nnn`.
    SetPoint(u16),
    /// `Bnnn`: jump to `nnn + V0`.
    FlowJmpV0(u16),
    /// `Cxnn`: `Vx = random byte & nn`.
    RNG(u8, u8),
    /// `Dxyn`: draw the `n`-row sprite at `I` to column `Vx`, row `Vy`.
    DispDraw(u8, u8, u8),
    /// `Ex9E`: skip the next instruction if the key in `Vx` is pressed.
    CondKey(u8),
    /// `ExA1`: skip the next instruction if the key in `Vx` is not pressed.
    CondNotKey(u8),
    /// `Fx07`: `Vx = delay counter`.
    DelTimrGet(u8),
    /// `Fx0A`: wait for a key and store it in `Vx`.
    WaitKey(u8),
    /// `Fx15`: `delay counter = Vx`.
    DelTimrSet(u8),
    /// `Fx18`: `sound counter = Vx`.
    SndTimrSet(u8),
    /// `Fx1E`: `I += Vx`, without touching the flag.
    PointAdd(u8),
    /// `Fx29`: point `I` at the glyph of the digit in `Vx`.
    PointChar(u8),
    /// `Fx33`: store the three decimal digits of `Vx` at `I`.
    BCDStore(u8),
    /// `Fx55`: store `V0..=Vx` at `I`.
    RegDmp(u8),
    /// `Fx65`: load `V0..=Vx` from `I`.
    RegLoad(u8),
    /// The sentinel for every word that the opcode table leaves unassigned.
    StopExecution,
}

/// The word `op x y n` written out of its four nibbles.
pub open spec fn word(op: int, x: int, y: int, n: int) -> int {
    op * 0x1000 + x * 0x100 + y * 0x10 + n
}

impl Instruction {
    /// Every operand fits the field that the opcode table gives it.
    pub open spec fn wf(self) -> bool {
        match self {
            Instruction::Call(nnn) => nnn < 0x1000 && nnn != 0x0E0 && nnn != 0x0EE,
            Instruction::FlowJmp(nnn)
            | Instruction::FlowCall(nnn)
            | Instruction::SetPoint(nnn)
            | Instruction::FlowJmpV0(nnn) => nnn < 0x1000,
            Instruction::CondEqL(x, _)
            | Instruction::CondNoEqL(x, _)
            | Instruction::RegConst(x, _)
            | Instruction::RegAdd(x, _)
            | Instruction::RNG(x, _) => x < 0x10,
            Instruction::CondEqRg(x, y)
            | Instruction::Assign(x, y)
            | Instruction::BitOr(x, y)
            | Instruction::BitAnd(x, y)
            | Instruction::BitXor(x, y)
            | Instruction::MathAdd(x, y)
            | Instruction::MathSub(x, y)
            | Instruction::BitShiftR(x, y)
            | Instruction::InvertSub(x, y)
            | Instruction::BitShiftL(x, y)
            | Instruction::CondNoEqRg(x, y) => x < 0x10 && y < 0x10,
            Instruction::DispDraw(x, y, n) => x < 0x10 && y < 0x10 && n < 0x10,
            Instruction::CondKey(x)
            | Instruction::CondNotKey(x)
            | Instruction::DelTimrGet(x)
            | Instruction::WaitKey(x)
            | Instruction::DelTimrSet(x)
            | Instruction::SndTimrSet(x)
            | Instruction::PointAdd(x)
            | Instruction::PointChar(x)
            | Instruction::BCDStore(x)
            | Instruction::RegDmp(x)
            | Instruction::RegLoad(x) => x < 0x10,
            Instruction::DispClr | Instruction::FlowRet | Instruction::StopExecution => true,
        }
    }

    /// Whether every operand fits its field.
    pub fn is_wf(&self) -> (ok: bool)
        ensures
            ok == self.wf(),
    {
        match *self {
            Instruction::Call(nnn) => nnn < 0x1000 && nnn != 0x0E0 && nnn != 0x0EE,
            Instruction::FlowJmp(nnn)
            | Instruction::FlowCall(nnn)
            | Instruction::SetPoint(nnn)
            | Instruction::FlowJmpV0(nnn) => nnn < 0x1000,
            Instruction::CondEqL(x, _)
            | Instruction::CondNoEqL(x, _)
            | Instruction::RegConst(x, _)
            | Instruction::RegAdd(x, _)
            | Instruction::RNG(x, _) => x < 0x10,
            Instruction::CondEqRg(x, y)
            | Instruction::Assign(x, y)
            | Instruction::BitOr(x, y)
            | Instruction::BitAnd(x, y)
            | Instruction::BitXor(x, y)
            | Instruction::MathAdd(x, y)
            | Instruction::MathSub(x, y)
            | Instruction::BitShiftR(x, y)
            | Instruction::InvertSub(x, y)
            | Instruction::BitShiftL(x, y)
            | Instruction::CondNoEqRg(x, y) => x < 0x10 && y < 0x10,
            Instruction::DispDraw(x, y, n) => x < 0x10 && y < 0x10 && n < 0x10,
            Instruction::CondKey(x)
            | Instruction::CondNotKey(x)
            | Instruction::DelTimrGet(x)
            | Instruction::WaitKey(x)
            | Instruction::DelTimrSet(x)
            | Instruction::SndTimrSet(x)
            | Instruction::PointAdd(x)
            | Instruction::PointChar(x)
            | Instruction::BCDStore(x)
            | Instruction::RegDmp(x)
            | Instruction::RegLoad(x) => x < 0x10,
            Instruction::DispClr | Instruction::FlowRet | Instruction::StopExecution => true,
        }
    }

    /// The opcode table: the word that stands for an instruction. The sentinel
    /// stands for no single word; `0xFFFF`, which is unassigned, is given for it.
    pub open spec fn encode(self) -> int {
        match self {
            Instruction::Call(nnn) => nnn as int,
            Instruction::DispClr => 0x00E0,
            Instruction::FlowRet => 0x00EE,
            Instruction::FlowJmp(nnn) => 0x1000 + nnn,
            Instruction::FlowCall(nnn) => 0x2000 + nnn,
            Instruction::CondEqL(x, nn) => word(0x3, x as int, 0, nn as int),
            Instruction::CondNoEqL(x, nn) => word(0x4, x as int, 0, nn as int),
            Instruction::CondEqRg(x, y) => word(0x5, x as int, y as int, 0x0),
            Instruction::RegConst(x, nn) => word(0x6, x as int, 0, nn as int),
            Instruction::RegAdd(x, nn) => word(0x7, x as int, 0, nn as int),
            Instruction::Assign(x, y) => word(0x8, x as int, y as int, 0x0),
            Instruction::BitOr(x, y) => word(0x8, x as int, y as int, 0x1),
            Instruction::BitAnd(x, y) => word(0x8, x as int, y as int, 0x2),
            Instruction::BitXor(x, y) => word(0x8, x as int, y as int, 0x3),
            Instruction::MathAdd(x, y) => word(0x8, x as int, y as int, 0x4),
            Instruction::MathSub(x, y) => word(0x8, x as int, y as int, 0x5),
            Instruction::BitShiftR(x, y) => word(0x8, x as int, y as int, 0x6),
            Instruction::InvertSub(x, y) => word(0x8, x as int, y as int, 0x7),
            Instruction::BitShiftL(x, y) => word(0x8, x as int, y as int, 0xE),
            Instruction::CondNoEqRg(x, y) => word(0x9, x as int, y as int, 0x0),
            Instruction::SetPoint(nnn) => 0xA000 + nnn,
            Instruction::FlowJmpV0(nnn) => 0xB000 + nnn,
            Instruction::RNG(x, nn) => word(0xC, x as int, 0, nn as int),
            Instruction::DispDraw(x, y, n) => word(0xD, x as int, y as int, n as int),
            Instruction::CondKey(x) => word(0xE, x as int, 0x9, 0xE),
            Instruction::CondNotKey(x) => word(0xE, x as int, 0xA, 0x1),
            Instruction::DelTimrGet(x) => word(0xF, x as int, 0x0, 0x7),
            Instruction::WaitKey(x) => word(0xF, x as int, 0x0, 0xA),
            Instruction::DelTimrSet(x) => word(0xF, x as int, 0x1, 0x5),
            Instruction::SndTimrSet(x) => word(0xF, x as int, 0x1, 0x8),
            Instruction::PointAdd(x) => word(0xF, x as int, 0x1, 0xE),
            Instruction::PointChar(x) => word(0xF, x as int, 0x2, 0x9),
            Instruction::BCDStore(x) => word(0xF, x as int, 0x3, 0x3),
            Instruction::RegDmp(x) => word(0xF, x as int, 0x5, 0x5),
            Instruction::RegLoad(x) => word(0xF, x as int, 0x6, 0x5),
            Instruction::StopExecution => 0xFFFF,
        }
    }
}

/// The instruction that a word stands for: pattern matching on the leading
/// nibble, then on the trailing ones where a family holds several forms.
pub open spec fn decode_spec(w: u16) -> Instruction {
    let op = w / 0x1000;
    let x = ((w / 0x100) % 0x10) as u8;
    let y = ((w / 0x10) % 0x10) as u8;
    let n = (w % 0x10) as u8;
    let nn = (w % 0x100) as u8;
    let nnn = (w % 0x1000) as u16;
    if w == 0x00E0 {
        Instruction::DispClr
    } else if w == 0x00EE {
        Instruction::FlowRet
    } else if op == 0x0 {
        Instruction::Call(nnn)
    } else if op == 0x1 {
        Instruction::FlowJmp(nnn)
    } else if op == 0x2 {
        Instruction::FlowCall(nnn)
    } else if op == 0x3 {
        Instruction::CondEqL(x, nn)
    } else if op == 0x4 {
        Instruction::CondNoEqL(x, nn)
    } else if op == 0x5 && n == 0x0 {
        Instruction::CondEqRg(x, y)
    } else if op == 0x6 {
        Instruction::RegConst(x, nn)
    } else if op == 0x7 {
        Instruction::RegAdd(x, nn)
    } else if op == 0x8 && n == 0x0 {
        Instruction::Assign(x, y)
    } else if op == 0x8 && n == 0x1 {
        Instruction::BitOr(x, y)
    } else if op == 0x8 && n == 0x2 {
        Instruction::BitAnd(x, y)
    } else if op == 0x8 && n == 0x3 {
        Instruction::BitXor(x, y)
    } else if op == 0x8 && n == 0x4 {
        Instruction::MathAdd(x, y)
    } else if op == 0x8 && n == 0x5 {
        Instruction::MathSub(x, y)
    } else if op == 0x8 && n == 0x6 {
        Instruction::BitShiftR(x, y)
    } else if op == 0x8 && n == 0x7 {
        Instruction::InvertSub(x, y)
    } else if op == 0x8 && n == 0xE {
        Instruction::BitShiftL(x, y)
    } else if op == 0x9 && n == 0x0 {
        Instruction::CondNoEqRg(x, y)
    } else if op == 0xA {
        Instruction::SetPoint(nnn)
    } else if op == 0xB {
        Instruction::FlowJmpV0(nnn)
    } else if op == 0xC {
        Instruction::RNG(x, nn)
    } else if op == 0xD {
        Instruction::DispDraw(x, y, n)
    } else if op == 0xE && nn == 0x9E {
        Instruction::CondKey(x)
    } else if op == 0xE && nn == 0xA1 {
        Instruction::CondNotKey(x)
    } else if op == 0xF && nn == 0x07 {
        Instruction::DelTimrGet(x)
    } else if op == 0xF && nn == 0x0A {
        Instruction::WaitKey(x)
    } else if op == 0xF && nn == 0x15 {
        Instruction::DelTimrSet(x)
    } else if op == 0xF && nn == 0x18 {
        Instruction::SndTimrSet(x)
    } else if op == 0xF && nn == 0x1E {
        Instruction::PointAdd(x)
    } else if op == 0xF && nn == 0x29 {
        Instruction::PointChar(x)
    } else if op == 0xF && nn == 0x33 {
        Instruction::BCDStore(x)
    } else if op == 0xF && nn == 0x55 {
        Instruction::RegDmp(x)
    } else if op == 0xF && nn == 0x65 {
        Instruction::RegLoad(x)
    } else {
        Instruction::StopExecution
    }
}

/// The four nibbles of a word, read back from it by division.
proof fn lemma_nibbles(op: int, x: int, y: int, n: int)
    requires
        0 <= op < 0x10,
        0 <= x < 0x10,
        0 <= y < 0x10,
        0 <= n < 0x10,
    ensures
        0 <= word(op, x, y, n) <= u16::MAX,
        word(op, x, y, n) / 0x1000 == op,
        (word(op, x, y, n) / 0x100) % 0x10 == x,
        (word(op, x, y, n) / 0x10) % 0x10 == y,
        word(op, x, y, n) % 0x10 == n,
        word(op, x, y, n) % 0x100 == y * 0x10 + n,
        word(op, x, y, n) % 0x1000 == x * 0x100 + y * 0x10 + n,
{
    let (a, b, c, d) = (op as u16, x as u16, y as u16, n as u16);
    assert(a < 0x10 && b < 0x10 && c < 0x10 && d < 0x10 ==> {
        let w = a * 0x1000 + b * 0x100 + c * 0x10 + d;
        &&& w <= 0xFFFF
        &&& w / 0x1000 == a
        &&& (w / 0x100) % 0x10 == b
        &&& (w / 0x10) % 0x10 == c
        &&& w % 0x10 == d
        &&& w % 0x100 == c * 0x10 + d
        &&& w % 0x1000 == b * 0x100 + c * 0x10 + d
    }) by (bit_vector);
}

/// A word is the sum of its four nibbles, each at its place.
proof fn lemma_word_of_nibbles(w: u16)
    ensures
        w == word(
            w as int / 0x1000,
            (w as int / 0x100) % 0x10,
            (w as int / 0x10) % 0x10,
            w as int % 0x10,
        ),
        w % 0x100 == ((w as int / 0x10) % 0x10) * 0x10 + w as int % 0x10,
        w % 0x1000 == ((w as int / 0x100) % 0x10) * 0x100 + w % 0x100,
        0 <= w as int / 0x1000 < 0x10,
{
    assert({
        &&& w == (w / 0x1000) * 0x1000 + ((w / 0x100) % 0x10) * 0x100 + ((w / 0x10) % 0x10) * 0x10
            + w % 0x10
        &&& w % 0x100 == ((w / 0x10) % 0x10) * 0x10 + w % 0x10
        &&& w % 0x1000 == ((w / 0x100) % 0x10) * 0x100 + w % 0x100
        &&& w / 0x1000 < 0x10
    }) by (bit_vector);
}

/// Every word decodes to a well-formed instruction, and unless that is the
/// sentinel, the opcode table gives the word back for it.
pub proof fn lemma_encode_decode(w: u16)
    ensures
        decode_spec(w).wf(),
        decode_spec(w) != Instruction::StopExecution ==> decode_spec(w).encode() == w,
{
    lemma_word_of_nibbles(w);
}

/// A well-formed instruction other than the sentinel is decoded from its own
/// word: the opcode table assigns no word to two instructions.
pub proof fn lemma_decode_encode(inst: Instruction)
    requires
        inst.wf(),
        inst != Instruction::StopExecution,
    ensures
        0 <= inst.encode() <= u16::MAX,
        decode_spec(inst.encode() as u16) == inst,
{
    match inst {
        Instruction::Call(nnn)
        | Instruction::FlowJmp(nnn)
        | Instruction::FlowCall(nnn)
        | Instruction::SetPoint(nnn)
        | Instruction::FlowJmpV0(nnn) => {
            let op = inst.encode() / 0x1000;
            lemma_word_of_nibbles(nnn);
            lemma_nibbles(
                op,
                (nnn as int / 0x100) % 0x10,
                (nnn as int / 0x10) % 0x10,
                nnn as int % 0x10,
            );
        },
        Instruction::CondEqL(x, nn)
        | Instruction::CondNoEqL(x, nn)
        | Instruction::RegConst(x, nn)
        | Instruction::RegAdd(x, nn)
        | Instruction::RNG(x, nn) => {
            let op = inst.encode() / 0x1000;
            lemma_nibbles(op, x as int, nn as int / 0x10, nn as int % 0x10);
        },
        Instruction::CondEqRg(x, y)
        | Instruction::Assign(x, y)
        | Instruction::BitOr(x, y)
        | Instruction::BitAnd(x, y)
        | Instruction::BitXor(x, y)
        | Instruction::MathAdd(x, y)
        | Instruction::MathSub(x, y)
        | Instruction::BitShiftR(x, y)
        | Instruction::InvertSub(x, y)
        | Instruction::BitShiftL(x, y)
        | Instruction::CondNoEqRg(x, y) => {
            let op = inst.encode() / 0x1000;
            lemma_nibbles(op, x as int, y as int, inst.encode() % 0x10);
        },
        Instruction::DispDraw(x, y, n) => {
            lemma_nibbles(0xD, x as int, y as int, n as int);
        },
        Instruction::CondKey(x)
        | Instruction::CondNotKey(x)
        | Instruction::DelTimrGet(x)
        | Instruction::WaitKey(x)
        | Instruction::DelTimrSet(x)
        | Instruction::SndTimrSet(x)
        | Instruction::PointAdd(x)
        | Instruction::PointChar(x)
        | Instruction::BCDStore(x)
        | Instruction::RegDmp(x)
        | Instruction::RegLoad(x) => {
            let w = inst.encode();
            lemma_nibbles(w / 0x1000, x as int, (w / 0x10) % 0x10, w % 0x10);
        },
        Instruction::DispClr | Instruction::FlowRet => {},
        Instruction::StopExecution => {},
    }
}

} // verus!
