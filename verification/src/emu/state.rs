//! The machine as a mathematical value, and what each instruction does to it.
//!
//! `Machine` holds everything that the interpreter owns alone: memory, the
//! program counter, the call stack, the registers, the address pointer, the
//! screen and the key slot, and with them what it has told the world so far:
//! the notifications handed to the screen's subscribers and the requests
//! that the clock has served. The delay and sound counters themselves are
//! shared with the clock thread and are no part of it: an instruction that
//! reads one gets the value as its `input`, as do the random instruction and
//! the wait for a key.
//!
//! Conventions that the instruction set leaves open are settled here:
//! - an instruction reads its operands before it writes anything; where it
//!   sets the flag register it writes the flag first and its destination
//!   last, so with `VF` as destination the result stays and the flag is lost;
//! - the program counter and the address pointer are 16-bit registers and
//!   wrap at `0x10000`;
//! - an instruction that would leave memory or the call stack faults and
//!   changes nothing.

use crate::emu::display::{collides, drawn, shown, Notice, HEIGHT};
use crate::emu::font::glyph_address;
use crate::emu::instruction::{decode_spec, Instruction};
use crate::emu::memory::MEMORY_SIZE;
use crate::emu::timer::ClockRequest;
use vstd::prelude::*;

verus! {

/// Number of return addresses that the call stack holds.
pub const STACK_SIZE: usize = 255;

/// Number of registers.
pub const REGISTERS: usize = 16;

/// Index of the flag register `VF`.
pub const FLAG: usize = 0xF;

/// Where programs are loaded and start.
pub const PROGRAM_START: u16 = 0x200;

/// The state that the interpreter owns alone.
pub struct Machine {
    /// The 4096 memory cells.
    pub ram: Seq<u8>,
    /// Address of the next instruction word.
    pub pc: u16,
    /// The pending return addresses, the oldest first.
    pub stack: Seq<u16>,
    /// The registers `V0` to `VF`.
    pub reg: Seq<u8>,
    /// The address pointer `I`.
    pub i: u16,
    /// The 32 rows of the screen.
    pub screen: Seq<u64>,
    /// The key that is down, or `NO_KEY`.
    pub key: u8,
    /// Whether a turn has failed. A halted machine takes no further turn.
    pub halted: bool,
    /// Every notification handed to the screen's subscribers, the oldest
    /// first.
    pub notices: Seq<Notice>,
    /// Every request that the clock has served for an instruction, the
    /// oldest first.
    pub served: Seq<ClockRequest>,
}

/// What `inst` asks of the clock on machine `m`: the delay counter for
/// `DelTimrGet`, to start a counter at `Vx` for `DelTimrSet` and
/// `SndTimrSet`, nothing for any other or for an ill-formed one.
pub open spec fn clock_request(m: Machine, inst: Instruction) -> ClockRequest {
    if !inst.wf() {
        ClockRequest::Nothing
    } else {
        match inst {
            Instruction::DelTimrGet(_) => ClockRequest::ReadDelay,
            Instruction::DelTimrSet(x) => ClockRequest::SetDelay(m.v(x)),
            Instruction::SndTimrSet(x) => ClockRequest::SetSound(m.v(x)),
            _ => ClockRequest::Nothing,
        }
    }
}

/// A 16-bit register advanced by `by`.
pub open spec fn advanced(at: u16, by: int) -> u16 {
    ((at + by) % 0x10000) as u16
}

/// The flag value for a condition.
pub open spec fn flag_of(set: bool) -> u8 {
    if set {
        1
    } else {
        0
    }
}

/// The decimal digits of a byte: hundreds, tens, ones.
pub open spec fn bcd(value: u8) -> Seq<u8> {
    seq![(value / 100) as u8, ((value / 10) % 10) as u8, (value % 10) as u8]
}

impl Machine {
    /// Every part has its fixed size, and the stack fits.
    pub open spec fn wf(self) -> bool {
        &&& self.ram.len() == MEMORY_SIZE
        &&& self.reg.len() == REGISTERS
        &&& self.screen.len() == HEIGHT
        &&& self.stack.len() <= STACK_SIZE
    }

    /// The value of register `x`.
    pub open spec fn v(self, x: u8) -> u8 {
        self.reg[x as int]
    }

    /// The same machine with another key in the key slot.
    pub open spec fn with_key(self, key: u8) -> Machine {
        Machine { key, ..self }
    }

    /// The same machine with `value` in register `x`.
    pub open spec fn with_reg(self, x: u8, value: u8) -> Machine {
        Machine { reg: self.reg.update(x as int, value), ..self }
    }

    /// The same machine with the flag register set, then `value` in `x`.
    pub open spec fn with_flag_and_reg(self, flag: bool, x: u8, value: u8) -> Machine {
        Machine { reg: self.reg.update(FLAG as int, flag_of(flag)).update(x as int, value), ..self }
    }

    /// The same machine once the clock has served `req`.
    pub open spec fn serving(self, req: ClockRequest) -> Machine {
        if req == ClockRequest::Nothing {
            self
        } else {
            Machine { served: self.served.push(req), ..self }
        }
    }

    /// The same machine at another program counter.
    pub open spec fn at(self, pc: u16) -> Machine {
        Machine { pc, ..self }
    }

    /// The same machine, one instruction further on if `skip` holds.
    pub open spec fn skipping(self, skip: bool) -> Machine {
        if skip {
            self.at(advanced(self.pc, 2))
        } else {
            self
        }
    }

    /// Whether an instruction word can be read at the program counter.
    pub open spec fn fetchable(self) -> bool {
        self.pc + 1 < MEMORY_SIZE
    }

    /// The instruction word at the program counter, high byte first.
    pub open spec fn opcode(self) -> u16 {
        (self.ram[self.pc as int] * 0x100 + self.ram[self.pc + 1]) as u16
    }

    /// The instruction at the program counter.
    pub open spec fn current(self) -> Instruction {
        decode_spec(self.opcode())
    }

    /// The same machine with the program counter past the current instruction.
    pub open spec fn fetched(self) -> Machine {
        self.at((self.pc + 2) as u16)
    }

    /// The `n` sprite rows at the address pointer.
    pub open spec fn sprite_rows(self, n: u8) -> Seq<u8> {
        self.ram.subrange(self.i as int, self.i + n)
    }

    /// Whether `inst` faults: it is the sentinel or ill-formed, returns with
    /// no call pending, calls with the stack full, or reaches past the end of
    /// memory.
    pub open spec fn faults(self, inst: Instruction) -> bool {
        ||| !inst.wf()
        ||| match inst {
            Instruction::StopExecution => true,
            Instruction::FlowRet => self.stack.len() == 0,
            Instruction::FlowCall(_) => self.stack.len() >= STACK_SIZE,
            Instruction::DispDraw(_, _, n) => self.i + n > MEMORY_SIZE,
            Instruction::BCDStore(_) => self.i + 3 > MEMORY_SIZE,
            Instruction::RegDmp(x) | Instruction::RegLoad(x) => self.i + x + 1 > MEMORY_SIZE,
            _ => false,
        }
    }

    /// The machine after `inst`, where `inst` does not fault. `input` is what
    /// the world supplied: the random byte for `RNG`, the key for `WaitKey`,
    /// the delay counter for `DelTimrGet`; the others ignore it. What the
    /// clock is asked is no part of this: see `clock_request`.
    pub open spec fn after(self, inst: Instruction, input: u8) -> Machine {
        match inst {
            Instruction::Call(_) => self,
            Instruction::DispClr => Machine {
                screen: Seq::new(HEIGHT as nat, |r: int| 0u64),
                notices: self.notices.push(Notice::Clear),
                ..self
            },
            Instruction::FlowRet => Machine {
                pc: self.stack.last(),
                stack: self.stack.drop_last(),
                ..self
            },
            Instruction::FlowJmp(nnn) => self.at(nnn),
            Instruction::FlowCall(nnn) => Machine {
                pc: nnn,
                stack: self.stack.push(self.pc),
                ..self
            },
            Instruction::CondEqL(x, nn) => self.skipping(self.v(x) == nn),
            Instruction::CondNoEqL(x, nn) => self.skipping(self.v(x) != nn),
            Instruction::CondEqRg(x, y) => self.skipping(self.v(x) == self.v(y)),
            Instruction::CondNoEqRg(x, y) => self.skipping(self.v(x) != self.v(y)),
            Instruction::RegConst(x, nn) => self.with_reg(x, nn),
            Instruction::RegAdd(x, nn) => self.with_reg(x, ((self.v(x) + nn) % 0x100) as u8),
            Instruction::Assign(x, y) => self.with_reg(x, self.v(y)),
            Instruction::BitOr(x, y) => self.with_reg(x, self.v(x) | self.v(y)),
            Instruction::BitAnd(x, y) => self.with_reg(x, self.v(x) & self.v(y)),
            Instruction::BitXor(x, y) => self.with_reg(x, self.v(x) ^ self.v(y)),
            Instruction::MathAdd(x, y) => self.with_flag_and_reg(
                self.v(x) + self.v(y) > 0xFF,
                x,
                ((self.v(x) + self.v(y)) % 0x100) as u8,
            ),
            Instruction::MathSub(x, y) => self.with_flag_and_reg(
                self.v(x) >= self.v(y),
                x,
                ((self.v(x) - self.v(y)) % 0x100) as u8,
            ),
            Instruction::InvertSub(x, y) => self.with_flag_and_reg(
                self.v(y) >= self.v(x),
                x,
                ((self.v(y) - self.v(x)) % 0x100) as u8,
            ),
            Instruction::BitShiftR(x, _) => self.with_flag_and_reg(
                self.v(x) % 2 == 1,
                x,
                (self.v(x) / 2) as u8,
            ),
            Instruction::BitShiftL(x, _) => self.with_flag_and_reg(
                self.v(x) >= 0x80,
                x,
                ((self.v(x) * 2) % 0x100) as u8,
            ),
            Instruction::SetPoint(nnn) => Machine { i: nnn, ..self },
            Instruction::FlowJmpV0(nnn) => self.at((nnn + self.v(0)) as u16),
            Instruction::RNG(x, nn) => self.with_reg(x, input & nn),
            Instruction::DispDraw(x, y, n) => Machine {
                screen: drawn(self.screen, self.sprite_rows(n), self.v(x), self.v(y)),
                reg: self.reg.update(
                    FLAG as int,
                    flag_of(collides(self.screen, self.sprite_rows(n), self.v(x), self.v(y))),
                ),
                notices: self.notices.push(
                    Notice::Change(
                        shown(
                            drawn(self.screen, self.sprite_rows(n), self.v(x), self.v(y)),
                            n as int,
                            self.v(x),
                            self.v(y),
                        ),
                        self.v(x),
                        self.v(y),
                    ),
                ),
                ..self
            },
            Instruction::CondKey(x) => self.skipping(self.key == self.v(x)),
            Instruction::CondNotKey(x) => self.skipping(self.key != self.v(x)),
            Instruction::DelTimrGet(x) => self.with_reg(x, input),
            Instruction::WaitKey(x) => self.with_key(input).with_reg(x, input),
            Instruction::DelTimrSet(_) | Instruction::SndTimrSet(_) => self,
            Instruction::PointAdd(x) => Machine { i: advanced(self.i, self.v(x) as int), ..self },
            Instruction::PointChar(x) => Machine { i: glyph_address(self.v(x)) as u16, ..self },
            Instruction::BCDStore(x) => Machine {
                ram: Seq::new(
                    MEMORY_SIZE as nat,
                    |a: int|
                        if self.i <= a < self.i + 3 {
                            bcd(self.v(x))[a - self.i]
                        } else {
                            self.ram[a]
                        },
                ),
                ..self
            },
            Instruction::RegDmp(x) => Machine {
                ram: Seq::new(
                    MEMORY_SIZE as nat,
                    |a: int|
                        if self.i <= a <= self.i + x {
                            self.reg[a - self.i]
                        } else {
                            self.ram[a]
                        },
                ),
                ..self
            },
            Instruction::RegLoad(x) => Machine {
                reg: Seq::new(
                    REGISTERS as nat,
                    |k: int|
                        if k <= x {
                            self.ram[self.i + k]
                        } else {
                            self.reg[k]
                        },
                ),
                ..self
            },
            Instruction::StopExecution => self,
        }
    }

    /// Whether `next` is what `inst` makes of this machine once a poll has
    /// left `next.key` in the key slot and the clock has served what `inst`
    /// asks of it, for some input from the world.
    pub open spec fn yields(self, inst: Instruction, next: Machine) -> bool {
        &&& !self.faults(inst)
        &&& exists|input: u8|
            next == #[trigger] self.with_key(next.key).serving(clock_request(self, inst)).after(
                inst,
                input,
            )
    }

    /// The same machine, halted.
    pub open spec fn halt(self) -> Machine {
        Machine { halted: true, ..self }
    }

    /// Whether one successful turn (fetch, decode, execute) can lead from
    /// this machine to `next`. Only a running machine takes a turn, and it
    /// is still running after it.
    #[verifier::opaque]
    pub open spec fn turns_to(self, next: Machine) -> bool {
        !self.halted && self.fetchable() && self.fetched().yields(self.current(), next)
    }

    /// Whether a failed turn can leave `next`. A halted machine stays as it
    /// is. A running one halts: at once if no word can be fetched; otherwise
    /// with the program counter past the word, and with what a poll found in
    /// the key slot.
    pub open spec fn halts_as(self, next: Machine) -> bool {
        if self.halted {
            next == self
        } else if self.fetchable() {
            next == self.fetched().with_key(next.key).halt()
        } else {
            next == self.halt()
        }
    }

    /// Whether `n` successful turns can lead from this machine to `next`.
    pub open spec fn runs_to(self, n: nat, next: Machine) -> bool
        decreases n,
    {
        if n == 0 {
            next == self
        } else {
            exists|mid: Machine| self.runs_to((n - 1) as nat, mid) && #[trigger] mid.turns_to(next)
        }
    }
}

/// A run of `n` turns followed by one more turn is a run of `n + 1` turns.
pub proof fn lemma_run_goes_on(start: Machine, n: nat, mid: Machine, next: Machine)
    requires
        start.runs_to(n, mid),
        mid.turns_to(next),
    ensures
        start.runs_to(n + 1, next),
{
    assert(start.runs_to(((n + 1) as nat - 1) as nat, mid) && mid.turns_to(next));
}

/// A successful turn starts and ends with the machine running.
pub proof fn lemma_turn_keeps_running(start: Machine, next: Machine)
    requires
        start.turns_to(next),
    ensures
        !start.halted,
        !next.halted,
{
    reveal(Machine::turns_to);
}

/// Once halted, a machine stays as it is: no turn succeeds, and a failed
/// turn changes nothing.
pub proof fn lemma_halted_stays(start: Machine, next: Machine)
    requires
        start.halted,
    ensures
        !start.turns_to(next),
        start.halts_as(next) <==> next == start,
{
    reveal(Machine::turns_to);
}

/// A turn that fails leaves the machine halted.
pub proof fn lemma_failure_halts(start: Machine, next: Machine)
    requires
        start.halts_as(next),
    ensures
        next.halted,
{
}

} // verus!
