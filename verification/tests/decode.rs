use chip8emu::emu::instruction::Instruction;
use chip8emu::emu::Chip8Emu;

#[test]
fn decode_screen_and_flow() {
    assert_eq!(Chip8Emu::decode(&0x00E0), Instruction::DispClr);
    assert_eq!(Chip8Emu::decode(&0x00EE), Instruction::FlowRet);
    assert_eq!(Chip8Emu::decode(&0x0123), Instruction::Call(0x123));
    assert_eq!(Chip8Emu::decode(&0x0000), Instruction::Call(0x000));
    assert_eq!(Chip8Emu::decode(&0x1ABC), Instruction::FlowJmp(0xABC));
    assert_eq!(Chip8Emu::decode(&0x2FFF), Instruction::FlowCall(0xFFF));
    assert_eq!(Chip8Emu::decode(&0xB210), Instruction::FlowJmpV0(0x210));
}

#[test]
fn decode_conditional_skips() {
    assert_eq!(Chip8Emu::decode(&0x3A42), Instruction::CondEqL(0xA, 0x42));
    assert_eq!(Chip8Emu::decode(&0x4B07), Instruction::CondNoEqL(0xB, 0x07));
    assert_eq!(Chip8Emu::decode(&0x5120), Instruction::CondEqRg(0x1, 0x2));
    assert_eq!(Chip8Emu::decode(&0x9340), Instruction::CondNoEqRg(0x3, 0x4));
    assert_eq!(Chip8Emu::decode(&0xE59E), Instruction::CondKey(0x5));
    assert_eq!(Chip8Emu::decode(&0xE6A1), Instruction::CondNotKey(0x6));
}

#[test]
fn decode_register_arithmetic() {
    assert_eq!(Chip8Emu::decode(&0x6C99), Instruction::RegConst(0xC, 0x99));
    assert_eq!(Chip8Emu::decode(&0x7D01), Instruction::RegAdd(0xD, 0x01));
    assert_eq!(Chip8Emu::decode(&0x8AB0), Instruction::Assign(0xA, 0xB));
    assert_eq!(Chip8Emu::decode(&0x8AB1), Instruction::BitOr(0xA, 0xB));
    assert_eq!(Chip8Emu::decode(&0x8AB2), Instruction::BitAnd(0xA, 0xB));
    assert_eq!(Chip8Emu::decode(&0x8AB3), Instruction::BitXor(0xA, 0xB));
    assert_eq!(Chip8Emu::decode(&0x8AB4), Instruction::MathAdd(0xA, 0xB));
    assert_eq!(Chip8Emu::decode(&0x8AB5), Instruction::MathSub(0xA, 0xB));
    assert_eq!(Chip8Emu::decode(&0x8AB6), Instruction::BitShiftR(0xA, 0xB));
    assert_eq!(Chip8Emu::decode(&0x8AB7), Instruction::InvertSub(0xA, 0xB));
    assert_eq!(Chip8Emu::decode(&0x8ABE), Instruction::BitShiftL(0xA, 0xB));
    assert_eq!(Chip8Emu::decode(&0xC1F0), Instruction::RNG(0x1, 0xF0));
}

#[test]
fn decode_pointer_timers_and_memory() {
    assert_eq!(Chip8Emu::decode(&0xA123), Instruction::SetPoint(0x123));
    assert_eq!(Chip8Emu::decode(&0xD125), Instruction::DispDraw(0x1, 0x2, 0x5));
    assert_eq!(Chip8Emu::decode(&0xF307), Instruction::DelTimrGet(0x3));
    assert_eq!(Chip8Emu::decode(&0xF30A), Instruction::WaitKey(0x3));
    assert_eq!(Chip8Emu::decode(&0xF315), Instruction::DelTimrSet(0x3));
    assert_eq!(Chip8Emu::decode(&0xF318), Instruction::SndTimrSet(0x3));
    assert_eq!(Chip8Emu::decode(&0xF31E), Instruction::PointAdd(0x3));
    assert_eq!(Chip8Emu::decode(&0xF329), Instruction::PointChar(0x3));
    assert_eq!(Chip8Emu::decode(&0xF333), Instruction::BCDStore(0x3));
    assert_eq!(Chip8Emu::decode(&0xF355), Instruction::RegDmp(0x3));
    assert_eq!(Chip8Emu::decode(&0xF365), Instruction::RegLoad(0x3));
}

#[test]
fn decode_unassigned_words_give_the_sentinel() {
    for word in [
        0x5121u16, 0x512F, 0x8AB8, 0x8AB9, 0x8ABA, 0x8ABD, 0x8ABF, 0x9341, 0xE000, 0xE59F, 0xE6A0,
        0xF000, 0xF308, 0xF316, 0xF334, 0xF356, 0xF366, 0xFFFF,
    ] {
        assert_eq!(Chip8Emu::decode(&word), Instruction::StopExecution, "word {:#06x}", word);
    }
}

#[test]
fn decode_is_total_and_operands_fit() {
    let mut sentinels = 0u32;
    for word in 0..=u16::MAX {
        let inst = Chip8Emu::decode(&word);
        assert!(inst.is_wf(), "word {:#06x}", word);
        if inst == Instruction::StopExecution {
            sentinels += 1;
        }
    }
    // Families 5 and 9 assign 256 of their 4096 words each, family 8 assigns
    // 9 * 256, family E 2 * 16 and family F 9 * 16; all other families are full.
    let assigned_in_partial_families = 256 + 256 + 9 * 256 + 2 * 16 + 9 * 16;
    assert_eq!(sentinels, 5 * 4096 - assigned_in_partial_families);
}

#[test]
fn decode_distinguishes_operands() {
    assert_ne!(Chip8Emu::decode(&0x8120), Chip8Emu::decode(&0x8210));
    assert_eq!(Chip8Emu::decode(&0xD0FF), Instruction::DispDraw(0x0, 0xF, 0xF));
    assert_eq!(Chip8Emu::decode(&0xDF00), Instruction::DispDraw(0xF, 0x0, 0x0));
}

#[test]
fn ill_formed_instructions_are_recognised() {
    assert!(!Instruction::RegConst(16, 0).is_wf());
    assert!(!Instruction::FlowJmp(0x1000).is_wf());
    assert!(!Instruction::DispDraw(1, 2, 16).is_wf());
    assert!(!Instruction::Call(0x0E0).is_wf());
    assert!(!Instruction::Call(0x0EE).is_wf());
    assert!(Instruction::Call(0x0E1).is_wf());
    assert!(Instruction::StopExecution.is_wf());
}
