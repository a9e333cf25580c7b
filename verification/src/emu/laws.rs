//! Laws of the instruction set, proved of `Machine::after`.

use crate::emu::instruction::{decode_spec, lemma_decode_encode, lemma_encode_decode, Instruction};
use crate::emu::memory::MEMORY_SIZE;
use crate::emu::state::{Machine, FLAG, REGISTERS};
use vstd::prelude::*;

verus! {

/// A word decodes to the sentinel exactly if the opcode table assigns it to
/// no instruction; any other word decodes to the one instruction that the
/// table assigns it to.
pub proof fn lemma_sentinel_means_unassigned(w: u16)
    ensures
        decode_spec(w) == Instruction::StopExecution <==> forall|inst: Instruction|
            inst.wf() && inst != Instruction::StopExecution ==> #[trigger] inst.encode() != w,
        forall|inst: Instruction|
            inst.wf() && inst != Instruction::StopExecution && #[trigger] inst.encode() == w
                ==> decode_spec(w) == inst,
{
    lemma_encode_decode(w);
    assert forall|inst: Instruction|
        inst.wf() && inst != Instruction::StopExecution && #[trigger] inst.encode()
            == w implies decode_spec(w) == inst by {
        lemma_decode_encode(inst);
    }
}

/// Register addition: the destination receives the sum modulo 256, and the
/// flag is 1 exactly if the sum exceeds 255. Stated for a destination other
/// than the flag register, which cannot hold both.
pub proof fn lemma_add_carries(m: Machine, x: u8, y: u8, input: u8)
    requires
        m.wf(),
        x < REGISTERS,
        y < REGISTERS,
        x != FLAG,
    ensures
        !m.faults(Instruction::MathAdd(x, y)),
        m.after(Instruction::MathAdd(x, y), input).v(x) == (m.v(x) + m.v(y)) % 256,
        m.after(Instruction::MathAdd(x, y), input).v(FLAG as u8) == if m.v(x) + m.v(y) > 255 {
            1u8
        } else {
            0u8
        },
{
}

/// Register subtraction `Vx -= Vy`: the destination receives the difference
/// modulo 256, and the flag is 1 exactly if `Vx >= Vy`, that is, if nothing
/// is borrowed. Stated for a destination other than the flag register.
pub proof fn lemma_sub_borrows(m: Machine, x: u8, y: u8, input: u8)
    requires
        m.wf(),
        x < REGISTERS,
        y < REGISTERS,
        x != FLAG,
    ensures
        !m.faults(Instruction::MathSub(x, y)),
        m.after(Instruction::MathSub(x, y), input).v(x) == (m.v(x) - m.v(y)) % 256,
        m.after(Instruction::MathSub(x, y), input).v(FLAG as u8) == if m.v(x) >= m.v(y) {
            1u8
        } else {
            0u8
        },
{
}

/// Subtraction the other way round, `Vx = Vy - Vx`: the same with the
/// operands exchanged.
pub proof fn lemma_inverted_sub_borrows(m: Machine, x: u8, y: u8, input: u8)
    requires
        m.wf(),
        x < REGISTERS,
        y < REGISTERS,
        x != FLAG,
    ensures
        !m.faults(Instruction::InvertSub(x, y)),
        m.after(Instruction::InvertSub(x, y), input).v(x) == (m.v(y) - m.v(x)) % 256,
        m.after(Instruction::InvertSub(x, y), input).v(FLAG as u8) == if m.v(y) >= m.v(x) {
            1u8
        } else {
            0u8
        },
{
}

/// Shift right: the flag receives the lowest bit of `Vx`, the destination
/// `Vx >> 1`. `Vy` plays no part. Stated for a destination other than the
/// flag register.
pub proof fn lemma_shift_right_captures(m: Machine, x: u8, y: u8, input: u8)
    requires
        m.wf(),
        x < REGISTERS,
        y < REGISTERS,
        x != FLAG,
    ensures
        !m.faults(Instruction::BitShiftR(x, y)),
        m.after(Instruction::BitShiftR(x, y), input).v(FLAG as u8) == m.v(x) & 1,
        m.after(Instruction::BitShiftR(x, y), input).v(x) == m.v(x) >> 1,
{
    let v = m.v(x);
    assert(v & 1 == v % 2 && v >> 1 == v / 2) by (bit_vector);
}

/// Shift left: the flag receives the highest bit of `Vx`, the destination
/// `Vx << 1` modulo 256. `Vy` plays no part. Stated for a destination other
/// than the flag register.
pub proof fn lemma_shift_left_captures(m: Machine, x: u8, y: u8, input: u8)
    requires
        m.wf(),
        x < REGISTERS,
        y < REGISTERS,
        x != FLAG,
    ensures
        !m.faults(Instruction::BitShiftL(x, y)),
        m.after(Instruction::BitShiftL(x, y), input).v(FLAG as u8) == (m.v(x) >> 7) & 1,
        m.after(Instruction::BitShiftL(x, y), input).v(x) == ((m.v(x) as u16) << 1) % 256,
{
    let v = m.v(x);
    assert((v >> 7) & 1 == (if v >= 0x80 { 1u8 } else { 0u8 }) && ((v as u16) << 1) % 256 == (v * 2)
        % 256) by (bit_vector);
}

/// The three cells that `BCDStore` writes are the decimal digits of `Vx`,
/// the hundreds first, and nothing else in memory changes.
pub proof fn lemma_bcd_digits(m: Machine, x: u8, input: u8)
    requires
        m.wf(),
        x < REGISTERS,
        m.i + 3 <= MEMORY_SIZE,
    ensures
        !m.faults(Instruction::BCDStore(x)),
        ({
            let ram = m.after(Instruction::BCDStore(x), input).ram;
            let i = m.i as int;
            &&& ram[i] < 10 && ram[i + 1] < 10 && ram[i + 2] < 10
            &&& ram[i] * 100 + ram[i + 1] * 10 + ram[i + 2] == m.v(x)
            &&& forall|a: int| 0 <= a < MEMORY_SIZE && !(i <= a < i + 3) ==> ram[a] == m.ram[a]
        }),
{
}

/// Dumping `V0..=Vx` to memory, clearing the registers and loading
/// `V0..=Vx` back restores those registers exactly. Stated where the `x + 1`
/// cells at the address pointer lie within memory: elsewhere both
/// instructions fault.
pub proof fn lemma_dump_then_load(m: Machine, x: u8, input: u8)
    requires
        m.wf(),
        x < REGISTERS,
        m.i + x < MEMORY_SIZE,
    ensures
        ({
            let dumped = m.after(Instruction::RegDmp(x), input);
            let cleared = Machine { reg: Seq::new(REGISTERS as nat, |k: int| 0u8), ..dumped };
            let loaded = cleared.after(Instruction::RegLoad(x), input);
            &&& !m.faults(Instruction::RegDmp(x))
            &&& !cleared.faults(Instruction::RegLoad(x))
            &&& forall|k: int| 0 <= k <= x ==> loaded.reg[k] == m.reg[k]
            &&& forall|k: int| x < k < REGISTERS ==> loaded.reg[k] == 0
        }),
{
}

} // verus!
