//! The interpreter: fetch, decode, execute.

pub mod channel;
pub mod display;
pub mod font;
pub mod instruction;
pub mod keyboard;
pub mod laws;
pub mod memory;
pub mod pixels;
pub mod state;
pub mod timer;

use crate::emu::display::{drawn, Display, DisplayCmd, Sprite, HEIGHT};
use crate::emu::font::{DEFAULT_FONTPACK, DEFAULT_FONTPACK_LOCATION, GLYPH_ROWS};
use crate::emu::instruction::{decode_spec, lemma_encode_decode, Instruction};
use crate::emu::keyboard::{Keyboard, NO_KEY};
use crate::emu::memory::{Memory, MEMORY_SIZE};
use crate::emu::state::{
    bcd, lemma_run_goes_on, Machine, PROGRAM_START, REGISTERS, STACK_SIZE,
};
use crate::emu::state::clock_request;
use crate::emu::timer::{Beep, Clock, ClockRequest, Timer};
use rand::Rng;
use std::sync::mpsc::{Receiver, Sender};
use vstd::prelude::*;

verus! {

/// Size of a program image: all of memory from `PROGRAM_START` on.
pub const ROM_SIZE: usize = 0xE00;

/// The interpreter and all it owns.
pub struct Chip8Emu {
    ram: Memory,
    time: Clock,
    display: Display,
    keyboard: Keyboard,
    pc: u16,
    stack: [u16; 255],
    sp: u8,
    reg: [u8; 16],
    i: u16,
    halted: bool,
    served: Ghost<Seq<ClockRequest>>,
}

/// What ties a machine to the world round it. No instruction changes any of
/// it; only a new subscription does.
pub struct Links {
    /// The clock that holds the delay and sound counters.
    pub clock: Clock,
    /// The sending half of the queue that feeds the keyboard.
    pub driver: Sender<u8>,
    /// The sending halves of the queues of the screen's subscribers, in the
    /// order in which they registered.
    pub feeds: Seq<Sender<DisplayCmd>>,
}

/// Memory as a new machine finds it: the font at its place, the program
/// image from `PROGRAM_START` on, zero elsewhere.
pub open spec fn loaded(rom: Seq<u8>) -> Seq<u8> {
    Seq::new(
        MEMORY_SIZE as nat,
        |a: int|
            if DEFAULT_FONTPACK_LOCATION <= a < DEFAULT_FONTPACK_LOCATION + DEFAULT_FONTPACK@.len() {
                DEFAULT_FONTPACK@[a - DEFAULT_FONTPACK_LOCATION]
            } else if PROGRAM_START <= a {
                rom[a - PROGRAM_START]
            } else {
                0u8
            },
    )
}

/// The machine that `Chip8Emu::new` builds round a program image.
pub open spec fn powered_on(rom: Seq<u8>) -> Machine {
    Machine {
        ram: loaded(rom),
        pc: PROGRAM_START,
        stack: Seq::empty(),
        reg: Seq::new(REGISTERS as nat, |k: int| 0u8),
        i: 0,
        screen: Seq::new(HEIGHT as nat, |r: int| 0u64),
        key: NO_KEY,
        halted: false,
        notices: Seq::empty(),
        served: Seq::empty(),
    }
}

/// `ThreadRng::default` and `Rng::gen_range` over `0..=255`: a byte drawn
/// uniformly from the thread's generator. Nothing is claimed of it. The
/// range is not empty, so `gen_range` does not panic; the generator itself
/// gives up only where the operating system cannot seed it.
#[verifier::external_body]
fn random_byte() -> (byte: u8) {
    rand::rngs::ThreadRng::default().gen_range(0..=255)
}

impl View for Chip8Emu {
    type V = Machine;

    closed spec fn view(&self) -> Machine {
        Machine {
            ram: self.ram@,
            pc: self.pc,
            stack: self.stack@.take(self.sp as int),
            reg: self.reg@,
            i: self.i,
            screen: self.display@,
            key: self.keyboard@,
            halted: self.halted,
            notices: self.display.notices(),
            served: self.served@,
        }
    }
}

impl Chip8Emu {
    /// The clock, the keyboard queue and the subscribers of this machine.
    pub closed spec fn links(&self) -> Links {
        Links {
            clock: self.time,
            driver: self.keyboard.driver(),
            feeds: self.display.feeds(),
        }
    }

    /// All slots of the call stack, those in use first.
    pub closed spec fn slots(&self) -> Seq<u16> {
        self.stack@
    }

    /// Whether every slot of the call stack that holds no pending return
    /// address is zero. A new machine has it so, a call fills the lowest
    /// such slot and a return clears the slot that it empties.
    pub closed spec fn spare_slots_clear(&self) -> bool {
        forall|k: int| self.sp <= k < STACK_SIZE ==> self.stack@[k] == 0
    }

    /// The pending return addresses are the slots in use, and the spare
    /// slots are clear exactly if every slot above those is zero.
    pub proof fn lemma_slots(&self)
        ensures
            self.slots().len() == STACK_SIZE,
            self@.stack.len() <= STACK_SIZE,
            self@.stack == self.slots().take(self@.stack.len() as int),
            self.spare_slots_clear() <==> forall|k: int|
                self@.stack.len() <= k < STACK_SIZE ==> self.slots()[k] == 0,
    {
        assert(self.stack@.len() == STACK_SIZE);
        assert(self@.stack.len() == self.sp);
    }

    /// The parts of an interpreter have their fixed sizes, whatever was done
    /// to it.
    pub proof fn lemma_wf(&self)
        ensures
            self@.wf(),
    {
        self.ram.lemma_size();
        self.display.lemma_size();
    }

    /// A machine with the font and `rom` in memory, ready to run the program
    /// from its first instruction.
    pub fn new(rom: [u8; ROM_SIZE]) -> (emu: Self)
        ensures
            emu@ == powered_on(rom@),
            emu.links().feeds == Seq::<Sender<DisplayCmd>>::empty(),
            emu.links().clock.started_with() == (Timer { dtime: 0, stime: 0, beep: false }),
            emu.slots() == Seq::new(STACK_SIZE as nat, |k: int| 0u16),
            emu.spare_slots_clear(),
    {
        let mut ram = Memory::new();
        ram.load(&DEFAULT_FONTPACK, &DEFAULT_FONTPACK_LOCATION);
        ram.load(&rom, &0x200);
        let emu = Self {
            ram,
            time: Clock::new(),
            display: Display::new(),
            keyboard: Keyboard::new(),
            pc: 0x200,
            stack: [0x0u16; 255],
            sp: 0x0,
            reg: [0x0u8; 16],
            i: 0x0,
            halted: false,
            served: Ghost(Seq::empty()),
        };
        proof {
            assert(emu.slots() =~= Seq::new(STACK_SIZE as nat, |k: int| 0u16));
            assert(emu@.ram =~= loaded(rom@));
            assert(emu@.stack =~= Seq::empty());
            assert(emu@.reg =~= Seq::new(REGISTERS as nat, |k: int| 0u8));
        }
        emu
    }

    /// The value of register `x`.
    pub fn register(&self, x: u8) -> (value: u8)
        requires
            x < REGISTERS,
        ensures
            value == self@.v(x),
    {
        self.reg[x as usize]
    }

    /// The program counter.
    pub fn program_counter(&self) -> (pc: u16)
        ensures
            pc == self@.pc,
    {
        self.pc
    }

    /// The address pointer `I`.
    pub fn pointer(&self) -> (i: u16)
        ensures
            i == self@.i,
    {
        self.i
    }

    /// Number of calls that have not returned.
    pub fn call_depth(&self) -> (depth: u8)
        ensures
            depth == self@.stack.len(),
    {
        self.sp
    }

    /// Whether a turn has failed.
    pub fn is_halted(&self) -> (halted: bool)
        ensures
            halted == self@.halted,
    {
        self.halted
    }

    /// Slot `k` of the call stack, in use or not.
    pub fn slot(&self, k: u8) -> (held: u16)
        requires
            k < STACK_SIZE,
        ensures
            held == self.slots()[k as int],
    {
        self.stack[k as usize]
    }

    /// The key that is down, or `NO_KEY`.
    pub fn pressed_key(&self) -> (key: u8)
        ensures
            key == self@.key,
    {
        self.keyboard.pressed_key()
    }

    /// The memory cell at `addr`.
    pub fn peek(&self, addr: u16) -> (value: u8)
        requires
            addr < MEMORY_SIZE,
        ensures
            value == self@.ram[addr as int],
    {
        self.ram.get(addr)
    }

    /// Screen row `y`, column 0 in the most significant bit.
    pub fn screen_row(&self, y: u8) -> (line: u64)
        requires
            y < HEIGHT,
        ensures
            line == self@.screen[y as int],
    {
        self.display.row(y)
    }

    /// Reads the instruction word at the program counter, high byte first,
    /// and moves the counter past it.
    pub fn fetch(&mut self) -> (inst: u16)
        requires
            old(self)@.fetchable(),
        ensures
            inst == old(self)@.opcode(),
            final(self)@ == old(self)@.at((old(self)@.pc + 2) as u16),
            final(self).links() == old(self).links(),
            old(self).spare_slots_clear() ==> final(self).spare_slots_clear(),
    {
        let inst1: u16 = (self.ram.get(self.pc) as u16) * 0x100;
        let inst2: u16 = self.ram.get(self.pc + 1) as u16;
        self.pc = self.pc + 2;
        inst1 + inst2
    }

    /// Writes `value` to register `x`.
    fn set_reg(&mut self, x: u8, value: u8)
        requires
            x < REGISTERS,
        ensures
            final(self)@ == old(self)@.with_reg(x, value),
            final(self).links() == old(self).links(),
            old(self).spare_slots_clear() ==> final(self).spare_slots_clear(),
    {
        self.reg[x as usize] = value;
    }

    /// Writes the flag register, then `value` to register `x`.
    fn set_flag_and_reg(&mut self, flag: bool, x: u8, value: u8)
        requires
            x < REGISTERS,
        ensures
            final(self)@ == old(self)@.with_flag_and_reg(flag, x, value),
            final(self).links() == old(self).links(),
            old(self).spare_slots_clear() ==> final(self).spare_slots_clear(),
    {
        self.reg[0xF] = if flag {
            1
        } else {
            0
        };
        self.reg[x as usize] = value;
    }

    /// Moves the program counter past one instruction if `skip` holds.
    fn skip_if(&mut self, skip: bool)
        ensures
            final(self)@ == old(self)@.skipping(skip),
            final(self).links() == old(self).links(),
            old(self).spare_slots_clear() ==> final(self).spare_slots_clear(),
    {
        if skip {
            self.pc = self.pc.wrapping_add(2);
        }
    }

    /// Pushes the program counter and jumps to `nnn`.
    fn call(&mut self, nnn: u16)
        requires
            old(self)@.stack.len() < STACK_SIZE,
        ensures
            final(self)@ == old(self)@.after(Instruction::FlowCall(nnn), 0),
            final(self).links() == old(self).links(),
            old(self).spare_slots_clear() ==> final(self).spare_slots_clear(),
    {
        self.stack[self.sp as usize] = self.pc;
        self.sp = self.sp + 1;
        self.pc = nnn;
        assert(self@.stack =~= old(self)@.stack.push(old(self)@.pc));
    }

    /// Pops the newest return address into the program counter and clears
    /// the slot that held it.
    fn ret(&mut self)
        requires
            old(self)@.stack.len() > 0,
        ensures
            final(self)@ == old(self)@.after(Instruction::FlowRet, 0),
            final(self).links() == old(self).links(),
            old(self).spare_slots_clear() ==> final(self).spare_slots_clear(),
    {
        self.sp = self.sp - 1;
        self.pc = self.stack[self.sp as usize];
        self.stack[self.sp as usize] = 0x0;
        assert(self@.stack =~= old(self)@.stack.drop_last());
    }

    /// Draws the `n` sprite rows at the address pointer to column `Vx`, row
    /// `Vy`, and sets the flag register if a lit pixel went dark.
    fn draw_sprite(&mut self, x: u8, y: u8, n: u8)
        requires
            x < REGISTERS,
            y < REGISTERS,
            old(self)@.i + n <= MEMORY_SIZE,
        ensures
            final(self)@ == old(self)@.after(Instruction::DispDraw(x, y, n), 0),
            final(self).links() == old(self).links(),
            old(self).spare_slots_clear() ==> final(self).spare_slots_clear(),
    {
        let sprite = Sprite {
            data: self.ram.slice(self.i, n as u16),
            x: self.reg[x as usize],
            y: self.reg[y as usize],
        };
        proof {
            self.ram.lemma_size();
            assert(sprite.data@.len() == n);
        }
        let hit: bool = match self.display.draw(sprite) {
            Ok(hit) => hit,
            Err(_) => false,
        };
        self.reg[0xF] = if hit {
            1
        } else {
            0
        };
    }

    /// Writes the three decimal digits of `value` at the address pointer.
    fn store_bcd(&mut self, value: u8)
        requires
            old(self)@.i + 3 <= MEMORY_SIZE,
        ensures
            final(self)@ == (Machine {
                ram: Seq::new(
                    MEMORY_SIZE as nat,
                    |a: int|
                        if old(self)@.i <= a < old(self)@.i + 3 {
                            bcd(value)[a - old(self)@.i]
                        } else {
                            old(self)@.ram[a]
                        },
                ),
                ..old(self)@
            }),
            final(self).links() == old(self).links(),
            old(self).spare_slots_clear() ==> final(self).spare_slots_clear(),
    {
        proof {
            self.ram.lemma_size();
        }
        self.ram.set(self.i, value / 100);
        self.ram.set(self.i + 1, (value / 10) % 10);
        self.ram.set(self.i + 2, value % 10);
        assert(self@.ram =~= Seq::new(
            MEMORY_SIZE as nat,
            |a: int|
                if old(self)@.i <= a < old(self)@.i + 3 {
                    bcd(value)[a - old(self)@.i]
                } else {
                    old(self)@.ram[a]
                },
        ));
    }

    /// Copies the registers `V0..=Vx` to memory at the address pointer.
    fn dump_registers(&mut self, x: u8)
        requires
            x < REGISTERS,
            old(self)@.i + x + 1 <= MEMORY_SIZE,
        ensures
            final(self)@ == old(self)@.after(Instruction::RegDmp(x), 0),
            final(self).links() == old(self).links(),
            old(self).spare_slots_clear() ==> final(self).spare_slots_clear(),
    {
        proof {
            self.ram.lemma_size();
        }
        let mut reg_id: u8 = 0;
        while reg_id <= x
            invariant
                x < REGISTERS,
                reg_id <= x + 1,
                self.i + x + 1 <= MEMORY_SIZE,
                self@.ram.len() == MEMORY_SIZE,
                forall|a: int|
                    0 <= a < MEMORY_SIZE ==> self@.ram[a] == if self.i <= a < self.i + reg_id {
                        self.reg@[a - self.i]
                    } else {
                        old(self)@.ram[a]
                    },
                self@ == (Machine { ram: self@.ram, ..old(self)@ }),
                self.links() == old(self).links(),
                old(self).spare_slots_clear() ==> self.spare_slots_clear(),
            decreases x + 1 - reg_id,
        {
            self.ram.set(self.i + reg_id as u16, self.reg[reg_id as usize]);
            reg_id = reg_id + 1;
        }
        assert(self@.ram =~= old(self)@.after(Instruction::RegDmp(x), 0).ram);
    }

    /// Copies memory at the address pointer to the registers `V0..=Vx`.
    fn load_registers(&mut self, x: u8)
        requires
            x < REGISTERS,
            old(self)@.i + x + 1 <= MEMORY_SIZE,
        ensures
            final(self)@ == old(self)@.after(Instruction::RegLoad(x), 0),
            final(self).links() == old(self).links(),
            old(self).spare_slots_clear() ==> final(self).spare_slots_clear(),
    {
        proof {
            self.ram.lemma_size();
        }
        let mut reg_id: u8 = 0;
        while reg_id <= x
            invariant
                x < REGISTERS,
                reg_id <= x + 1,
                self.i + x + 1 <= MEMORY_SIZE,
                self@.ram.len() == MEMORY_SIZE,
                forall|k: int|
                    0 <= k < REGISTERS ==> self@.reg[k] == if k < reg_id {
                        self@.ram[self.i + k]
                    } else {
                        old(self)@.reg[k]
                    },
                self@ == (Machine { reg: self@.reg, ..old(self)@ }),
                self.links() == old(self).links(),
                old(self).spare_slots_clear() ==> self.spare_slots_clear(),
            decreases x + 1 - reg_id,
        {
            self.reg[reg_id as usize] = self.ram.get(self.i + reg_id as u16);
            reg_id = reg_id + 1;
        }
        assert(self@.reg =~= old(self)@.after(Instruction::RegLoad(x), 0).reg);
    }

    /// Whether `inst` faults on this machine.
    pub fn faults(&self, inst: &Instruction) -> (b: bool)
        ensures
            b == self@.faults(*inst),
    {
        if !inst.is_wf() {
            return true;
        }
        match *inst {
            Instruction::StopExecution => true,
            Instruction::FlowRet => self.sp == 0,
            Instruction::FlowCall(_) => self.sp as usize >= STACK_SIZE,
            Instruction::DispDraw(_, _, n) => self.i as usize + n as usize > MEMORY_SIZE,
            Instruction::BCDStore(_) => self.i as usize + 3 > MEMORY_SIZE,
            Instruction::RegDmp(x) | Instruction::RegLoad(x) => self.i as usize + x as usize + 1
                > MEMORY_SIZE,
            _ => false,
        }
    }

    /// Carries out `inst` on what the interpreter owns alone. `input` is what
    /// the world supplied for it: the random byte for `RNG`, the key for
    /// `WaitKey`, the delay counter for `DelTimrGet`. The two instructions
    /// that set a counter change nothing here. Clearing the screen and
    /// drawing tell the screen's subscribers.
    ///
    /// Fails, changing nothing, exactly if `inst` faults.
    pub fn perform(&mut self, inst: &Instruction, input: u8) -> (r: Result<(), ()>)
        ensures
            r is Err <==> old(self)@.faults(*inst),
            r is Err ==> final(self)@ == old(self)@,
            r is Ok ==> final(self)@ == old(self)@.after(*inst, input),
            final(self).links() == old(self).links(),
            old(self).spare_slots_clear() ==> final(self).spare_slots_clear(),
    {
        if self.faults(inst) {
            return Err(());
        }
        match *inst {
            Instruction::Call(_) => {},
            Instruction::DispClr => {
                self.display.clear();
            },
            Instruction::FlowRet => {
                self.ret();
            },
            Instruction::FlowJmp(nnn) => {
                self.pc = nnn;
            },
            Instruction::FlowCall(nnn) => {
                self.call(nnn);
            },
            Instruction::CondEqL(x, nn) => {
                self.skip_if(self.reg[x as usize] == nn);
            },
            Instruction::CondNoEqL(x, nn) => {
                self.skip_if(self.reg[x as usize] != nn);
            },
            Instruction::CondEqRg(x, y) => {
                self.skip_if(self.reg[x as usize] == self.reg[y as usize]);
            },
            Instruction::RegConst(x, nn) => {
                self.set_reg(x, nn);
            },
            Instruction::RegAdd(x, nn) => {
                let sum: u16 = self.reg[x as usize] as u16 + nn as u16;
                self.set_reg(x, (sum % 0x100) as u8);
            },
            Instruction::Assign(x, y) => {
                self.set_reg(x, self.reg[y as usize]);
            },
            Instruction::BitOr(x, y) => {
                self.set_reg(x, self.reg[x as usize] | self.reg[y as usize]);
            },
            Instruction::BitAnd(x, y) => {
                self.set_reg(x, self.reg[x as usize] & self.reg[y as usize]);
            },
            Instruction::BitXor(x, y) => {
                self.set_reg(x, self.reg[x as usize] ^ self.reg[y as usize]);
            },
            Instruction::MathAdd(x, y) => {
                let result: u16 = self.reg[x as usize] as u16 + self.reg[y as usize] as u16;
                self.set_flag_and_reg(result > 0xFF, x, (result % 0x100) as u8);
            },
            Instruction::MathSub(x, y) => {
                let minuend: u8 = self.reg[x as usize];
                let subtrahend: u8 = self.reg[y as usize];
                self.set_flag_and_reg(minuend >= subtrahend, x, minuend.wrapping_sub(subtrahend));
            },
            Instruction::BitShiftR(x, y) => {
                let value: u8 = self.reg[x as usize];
                assert(value & 0b1 == value % 2 && value >> 1 == value / 2) by (bit_vector);
                self.set_flag_and_reg(value & 0b1 == 1, x, value >> 1);
            },
            Instruction::InvertSub(x, y) => {
                let subtrahend: u8 = self.reg[x as usize];
                let minuend: u8 = self.reg[y as usize];
                self.set_flag_and_reg(minuend >= subtrahend, x, minuend.wrapping_sub(subtrahend));
            },
            Instruction::BitShiftL(x, y) => {
                let value: u8 = self.reg[x as usize];
                assert((value >> 7 == 1) == (value >= 0x80) && value << 1 == (value * 2) % 0x100)
                    by (bit_vector);
                self.set_flag_and_reg(value >> 7 == 1, x, value << 1);
            },
            Instruction::CondNoEqRg(x, y) => {
                self.skip_if(self.reg[x as usize] != self.reg[y as usize]);
            },
            Instruction::SetPoint(nnn) => {
                self.i = nnn;
            },
            Instruction::FlowJmpV0(nnn) => {
                self.pc = nnn + self.reg[0] as u16;
            },
            Instruction::RNG(x, nn) => {
                self.set_reg(x, input & nn);
            },
            Instruction::DispDraw(x, y, n) => {
                self.draw_sprite(x, y, n);
            },
            Instruction::CondKey(x) => {
                self.skip_if(self.keyboard.is_key_pressed(self.reg[x as usize]));
            },
            Instruction::CondNotKey(x) => {
                self.skip_if(!self.keyboard.is_key_pressed(self.reg[x as usize]));
            },
            Instruction::DelTimrGet(x) => {
                self.set_reg(x, input);
            },
            Instruction::WaitKey(x) => {
                self.keyboard.record(Some(input));
                self.set_reg(x, input);
            },
            Instruction::DelTimrSet(_) | Instruction::SndTimrSet(_) => {},
            Instruction::PointAdd(x) => {
                self.i = self.i.wrapping_add(self.reg[x as usize] as u16);
            },
            Instruction::PointChar(x) => {
                let digit: u16 = self.reg[x as usize] as u16;
                assert(digit * GLYPH_ROWS == digit * 5);
                self.i = DEFAULT_FONTPACK_LOCATION as u16 + digit * GLYPH_ROWS as u16;
            },
            Instruction::BCDStore(x) => {
                self.store_bcd(self.reg[x as usize]);
            },
            Instruction::RegDmp(x) => {
                self.dump_registers(x);
            },
            Instruction::RegLoad(x) => {
                self.load_registers(x);
            },
            Instruction::StopExecution => {},
        }
        Ok(())
    }

    /// What `inst` asks of the clock.
    pub fn clock_request(&self, inst: &Instruction) -> (req: ClockRequest)
        ensures
            req == clock_request(self@, *inst),
    {
        if !inst.is_wf() {
            return ClockRequest::Nothing;
        }
        match *inst {
            Instruction::DelTimrGet(_) => ClockRequest::ReadDelay,
            Instruction::DelTimrSet(x) => ClockRequest::SetDelay(self.reg[x as usize]),
            Instruction::SndTimrSet(x) => ClockRequest::SetSound(self.reg[x as usize]),
            _ => ClockRequest::Nothing,
        }
    }

    /// Hands `req` to the clock and returns its answer. A request that was
    /// served is on record; one that failed on a poisoned lock is not.
    fn ask(&mut self, req: ClockRequest) -> (r: Result<u8, ()>)
        requires
            req != ClockRequest::Nothing,
        ensures
            r is Ok ==> final(self)@ == old(self)@.serving(req),
            r is Err ==> final(self)@ == old(self)@,
            final(self).links() == old(self).links(),
            old(self).spare_slots_clear() ==> final(self).spare_slots_clear(),
    {
        let r = self.time.serve(req);
        if r.is_ok() {
            proof {
                self.served = Ghost(self.served@.push(req));
            }
        }
        r
    }

    /// Carries out `inst`: first polls the keyboard, then hands the clock
    /// what the instruction asks of it, or obtains a random byte or a key
    /// where it needs one, then changes the machine.
    ///
    /// An instruction that faults fails at once and changes nothing. Any other
    /// fails only if the keyboard queue is torn down or the clock's lock is
    /// poisoned; then nothing but the key slot may have changed.
    pub fn execute(&mut self, inst: &Instruction) -> (r: Result<(), ()>)
        ensures
            old(self)@.faults(*inst) ==> r is Err && final(self)@ == old(self)@,
            r is Err ==> final(self)@ == old(self)@.with_key(final(self)@.key),
            r is Ok ==> old(self)@.yields(*inst, final(self)@),
            final(self).links() == old(self).links(),
            old(self).spare_slots_clear() ==> final(self).spare_slots_clear(),
    {
        if self.faults(inst) {
            return Err(());
        }
        match self.keyboard.recieve_key() {
            Ok(_) => {},
            Err(_) => {
                return Err(());
            },
        }
        let ghost polled = self@;
        assert(polled == old(self)@.with_key(polled.key));
        let req = self.clock_request(inst);
        assert(req == clock_request(old(self)@, *inst));
        let input: u8 = match req {
            ClockRequest::Nothing => match *inst {
                Instruction::RNG(_, _) => random_byte(),
                Instruction::WaitKey(_) => match self.keyboard.wait_for_key() {
                    Ok(key) => key,
                    Err(_) => {
                        return Err(());
                    },
                },
                _ => 0,
            },
            _ => match self.ask(req) {
                Ok(answer) => answer,
                Err(_) => {
                    return Err(());
                },
            },
        };
        let done = self.perform(inst, input);
        proof {
            let next = self@;
            assert(next == old(self)@.with_key(next.key).serving(req).after(*inst, input));
        }
        done
    }

    /// One turn of the machine: fetch, decode, execute.
    ///
    /// A halted machine fails and stays as it is. A running one fails when
    /// no instruction word can be read at the program counter; otherwise the
    /// counter moves past the word, whatever follows, and the word's
    /// instruction is executed. Any failure halts the machine for good.
    pub fn step(&mut self) -> (r: Result<(), ()>)
        ensures
            r is Ok ==> old(self)@.turns_to(final(self)@),
            r is Err ==> old(self)@.halts_as(final(self)@),
            old(self)@.halted || !old(self)@.fetchable() || old(self)@.fetched().faults(
                old(self)@.current(),
            ) ==> r is Err && final(self)@.key == old(self)@.key,
            final(self).links() == old(self).links(),
            old(self).spare_slots_clear() ==> final(self).spare_slots_clear(),
    {
        proof {
            reveal(Machine::turns_to);
        }
        if self.halted {
            return Err(());
        }
        if self.pc as usize + 1 >= MEMORY_SIZE {
            self.halted = true;
            return Err(());
        }
        let instruction: u16 = self.fetch();
        let instruction = Self::decode(&instruction);
        let done = self.execute(&instruction);
        if done.is_err() {
            self.halted = true;
        }
        done
    }

    /// Runs the machine until a turn fails, or for `limit` turns. Returns the
    /// number of turns that succeeded; if that is less than `limit`, the
    /// machine has halted, and if the machine was halted before, it is zero.
    ///
    /// The counters stand still unless another thread ticks the clock.
    pub fn run(&mut self, limit: u64) -> (turns: u64)
        ensures
            turns <= limit,
            exists|last: Machine| #[trigger]
                old(self)@.runs_to(turns as nat, last) && if turns < limit {
                    last.halts_as(final(self)@)
                } else {
                    final(self)@ == last
                },
            final(self).links() == old(self).links(),
            old(self).spare_slots_clear() ==> final(self).spare_slots_clear(),
    {
        let mut turns: u64 = 0;
        let mut running: bool = true;
        let ghost mut last: Machine = self@;
        while running && turns < limit
            invariant
                turns <= limit,
                old(self)@.runs_to(turns as nat, last),
                self.links() == old(self).links(),
                old(self).spare_slots_clear() ==> self.spare_slots_clear(),
                running ==> self@ == last,
                !running ==> turns < limit && last.halts_as(self@),
            decreases limit - turns + if running { 1int } else { 0int },
        {
            match self.step() {
                Ok(_) => {
                    proof {
                        let ghost before = last;
                        last = self@;
                        lemma_run_goes_on(old(self)@, turns as nat, before, last);
                    }
                    turns = turns + 1;
                },
                Err(_) => {
                    running = false;
                },
            }
        }
        turns
    }

    /// The tone signal, for whoever sounds the tone: shared with the
    /// machine, and for reading only.
    pub fn is_beeping(&self) -> (beep: Beep)
        ensures
            beep.clock() == self.links().clock,
    {
        self.time.beep()
    }

    /// A handle to the delay and sound counters, for the thread that ticks
    /// them sixty times a second.
    pub fn clock(&self) -> (clock: Clock)
        ensures
            clock == self.links().clock,
    {
        self.time.handle()
    }

    /// Registers a new subscriber to the screen and returns its feed.
    pub fn get_screen_changes(&mut self) -> (rx: Receiver<DisplayCmd>)
        ensures
            final(self)@ == old(self)@,
            final(self).links() == (Links { feeds: final(self).links().feeds, ..old(self).links() }),
            final(self).links().feeds.len() == old(self).links().feeds.len() + 1,
            final(self).links().feeds.drop_last() == old(self).links().feeds,
            old(self).spare_slots_clear() ==> final(self).spare_slots_clear(),
    {
        self.display.get_changes_pipe()
    }

    /// A new end for an input driver to send key codes to.
    pub fn new_keyboard_driver(&mut self) -> (tx: Sender<u8>)
        ensures
            tx == old(self).links().driver,
            final(self)@ == old(self)@,
            final(self).links() == old(self).links(),
            old(self).spare_slots_clear() ==> final(self).spare_slots_clear(),
    {
        self.keyboard.new_driver()
    }

    /// Decodes one instruction word. Total: a word that the opcode table
    /// leaves unassigned gives the sentinel `StopExecution`.
    pub fn decode(inst: &u16) -> (r: Instruction)
        ensures
            r == decode_spec(*inst),
            r.wf(),
            r != Instruction::StopExecution ==> r.encode() == *inst,
    {
        let w: u16 = *inst;
        let op: u16 = w >> 12;
        let x: u8 = (w >> 8 & 0xF) as u8;
        let y: u8 = (w >> 4 & 0xF) as u8;
        let n: u8 = (w & 0xF) as u8;
        let nn: u8 = (w & 0xFF) as u8;
        let nnn: u16 = w & 0xFFF;
        proof {
            assert(w >> 12 == w / 0x1000) by (bit_vector);
            assert((w >> 8 & 0xF) == (w / 0x100) % 0x10) by (bit_vector);
            assert((w >> 4 & 0xF) == (w / 0x10) % 0x10) by (bit_vector);
            assert(w & 0xF == w % 0x10) by (bit_vector);
            assert(w & 0xFF == w % 0x100) by (bit_vector);
            assert(w & 0xFFF == w % 0x1000) by (bit_vector);
            lemma_encode_decode(w);
        }
        match (op, y, n) {
            (0x0, 0xE, 0x0) if x == 0 => Instruction::DispClr,
            (0x0, 0xE, 0xE) if x == 0 => Instruction::FlowRet,
            (0x0, _, _) => Instruction::Call(nnn),
            (0x1, _, _) => Instruction::FlowJmp(nnn),
            (0x2, _, _) => Instruction::FlowCall(nnn),
            (0x3, _, _) => Instruction::CondEqL(x, nn),
            (0x4, _, _) => Instruction::CondNoEqL(x, nn),
            (0x5, _, 0x0) => Instruction::CondEqRg(x, y),
            (0x6, _, _) => Instruction::RegConst(x, nn),
            (0x7, _, _) => Instruction::RegAdd(x, nn),
            (0x8, _, 0x0) => Instruction::Assign(x, y),
            (0x8, _, 0x1) => Instruction::BitOr(x, y),
            (0x8, _, 0x2) => Instruction::BitAnd(x, y),
            (0x8, _, 0x3) => Instruction::BitXor(x, y),
            (0x8, _, 0x4) => Instruction::MathAdd(x, y),
            (0x8, _, 0x5) => Instruction::MathSub(x, y),
            (0x8, _, 0x6) => Instruction::BitShiftR(x, y),
            (0x8, _, 0x7) => Instruction::InvertSub(x, y),
            (0x8, _, 0xE) => Instruction::BitShiftL(x, y),
            (0x9, _, 0x0) => Instruction::CondNoEqRg(x, y),
            (0xA, _, _) => Instruction::SetPoint(nnn),
            (0xB, _, _) => Instruction::FlowJmpV0(nnn),
            (0xC, _, _) => Instruction::RNG(x, nn),
            (0xD, _, _) => Instruction::DispDraw(x, y, n),
            (0xE, 0x9, 0xE) => Instruction::CondKey(x),
            (0xE, 0xA, 0x1) => Instruction::CondNotKey(x),
            (0xF, 0x0, 0x7) => Instruction::DelTimrGet(x),
            (0xF, 0x0, 0xA) => Instruction::WaitKey(x),
            (0xF, 0x1, 0x5) => Instruction::DelTimrSet(x),
            (0xF, 0x1, 0x8) => Instruction::SndTimrSet(x),
            (0xF, 0x1, 0xE) => Instruction::PointAdd(x),
            (0xF, 0x2, 0x9) => Instruction::PointChar(x),
            (0xF, 0x3, 0x3) => Instruction::BCDStore(x),
            (0xF, 0x5, 0x5) => Instruction::RegDmp(x),
            (0xF, 0x6, 0x5) => Instruction::RegLoad(x),
            _ => Instruction::StopExecution,
        }
    }
}

} // verus!
