use vstd::prelude::*;
use crate::keyboard::KeyboardState;
use crate::rng::chacha_byte;
use crate::rng::chacha_next_seed;
use crate::rng::chacha_step;

verus! {

/// Size of the machine's addressable memory in bytes.
pub const MEM_SIZE: usize = 4096;
/// Address at which a program image is implanted and execution starts.
pub const PROGRAM_START_ADDR: u16 = 0x200;
/// Capacity of the call stack.
pub const STACK_SIZE: usize = 16;
/// Number of general-purpose registers.
pub const REGISTERS_SIZE: usize = 16;
/// Fetch-decode-execute steps per scheduling tick; the timers are
/// decremented once per tick, so instructions run at this multiple of the
/// timer cadence.
pub const STEPS_PER_CYCLE: usize = 10;
/// The built-in sprite font: glyphs for the hexadecimal digits 0 through F,
/// five one-byte rows each, held in the first 80 memory cells.
pub open spec fn font_seq() -> Seq<u8> {
    seq![
        0xF0u8, 0x90, 0x90, 0x90, 0xF0, // 0
        0x20, 0x60, 0x20, 0x20, 0x70, // 1
        0xF0, 0x10, 0xF0, 0x80, 0xF0, // 2
        0xF0, 0x10, 0xF0, 0x10, 0xF0, // 3
        0x90, 0x90, 0xF0, 0x10, 0x10, // 4
        0xF0, 0x80, 0xF0, 0x10, 0xF0, // 5
        0xF0, 0x80, 0xF0, 0x90, 0xF0, // 6
        0xF0, 0x10, 0x20, 0x40, 0x40, // 7
        0xF0, 0x90, 0xF0, 0x90, 0xF0, // 8
        0xF0, 0x90, 0xF0, 0x10, 0xF0, // 9
        0xF0, 0x90, 0xF0, 0x90, 0x90, // A
        0xE0, 0x90, 0xE0, 0x90, 0xE0, // B
        0xF0, 0x80, 0x80, 0x80, 0xF0, // C
        0xE0, 0x90, 0x90, 0x90, 0xE0, // D
        0xF0, 0x80, 0xF0, 0x80, 0xF0, // E
        0xF0, 0x80, 0xF0, 0x80, 0x80, // F
    ]
}

/// The font as an executable byte vector, row by row.
pub fn font_set() -> (v: Vec<u8>)
    ensures
        v@ == font_seq(),
{
    let mut v: Vec<u8> = Vec::new();
    v.push(0xF0); v.push(0x90); v.push(0x90); v.push(0x90); v.push(0xF0);
    v.push(0x20); v.push(0x60); v.push(0x20); v.push(0x20); v.push(0x70);
    v.push(0xF0); v.push(0x10); v.push(0xF0); v.push(0x80); v.push(0xF0);
    v.push(0xF0); v.push(0x10); v.push(0xF0); v.push(0x10); v.push(0xF0);
    v.push(0x90); v.push(0x90); v.push(0xF0); v.push(0x10); v.push(0x10);
    v.push(0xF0); v.push(0x80); v.push(0xF0); v.push(0x10); v.push(0xF0);
    v.push(0xF0); v.push(0x80); v.push(0xF0); v.push(0x90); v.push(0xF0);
    v.push(0xF0); v.push(0x10); v.push(0x20); v.push(0x40); v.push(0x40);
    v.push(0xF0); v.push(0x90); v.push(0xF0); v.push(0x90); v.push(0xF0);
    v.push(0xF0); v.push(0x90); v.push(0xF0); v.push(0x10); v.push(0xF0);
    v.push(0xF0); v.push(0x90); v.push(0xF0); v.push(0x90); v.push(0x90);
    v.push(0xE0); v.push(0x90); v.push(0xE0); v.push(0x90); v.push(0xE0);
    v.push(0xF0); v.push(0x80); v.push(0x80); v.push(0x80); v.push(0xF0);
    v.push(0xE0); v.push(0x90); v.push(0x90); v.push(0x90); v.push(0xE0);
    v.push(0xF0); v.push(0x80); v.push(0xF0); v.push(0x80); v.push(0xF0);
    v.push(0xF0); v.push(0x80); v.push(0xF0); v.push(0x80); v.push(0x80);
    proof {
        assert(v@ =~= font_seq());
    }
    v
}

/// The two independently toggleable deviations from baseline instruction
/// semantics.
#[derive(Clone, Copy, Debug, PartialEq, Eq, Structural)]
pub struct CPUQuirks {
    /// When enabled, a shift instruction operates on the destination
    /// register only; when disabled, the secondary register's value is the
    /// shift input.
    pub shift: bool,
    /// When enabled, a block memory load/store leaves the index register
    /// unmodified; when disabled, it advances the index register by the
    /// number of registers transferred.
    pub load_store: bool,
}

impl CPUQuirks {
    pub fn new() -> (r: Self)
        ensures
            !r.shift,
            !r.load_store,
    {
        CPUQuirks { shift: false, load_store: false }
    }
}

/// The full register/memory/flag data of the virtual machine.
#[derive(Debug)]
pub struct CPUState {
    /// 4096 byte cells; the first 80 hold the built-in sprite font.
    pub mem: Vec<u8>,
    /// The 16 general-purpose registers V0 through VF. VF doubles as the
    /// carry/borrow/collision flag: an instruction that sets the flag
    /// overwrites VF as its last effect, after all operand reads.
    pub v: Vec<u8>,
    /// 12-bit program counter.
    pub pc: u16,
    /// 12-bit index register used by memory-addressing instructions.
    pub i: u16,
    /// Fixed-capacity stack of return addresses.
    pub stack: Vec<u16>,
    /// Number of stack slots in use; the next call pushes at this index.
    pub sp: u8,
    /// Set by any instruction that mutates the displayable bitmap; consumed
    /// and cleared by the step driver, which then repaints.
    pub repaint: bool,
    /// While true, the cycle driver performs no fetch/decode/execute.
    pub halted: bool,
    /// A deferred wait-for-key instruction is pending; implies `halted`.
    pub waiting_kb: bool,
    /// The register that the eventual key value must be written to; `Some`
    /// if and only if `waiting_kb` is true.
    pub waiting_kb_x: Option<u8>,
    /// Delay timer, decremented once per tick until it reaches zero.
    pub dt: u8,
    /// Sound timer, decremented once per tick until it reaches zero.
    pub st: u8,
    pub quirks: CPUQuirks,
    /// Sole deterministic input of the random-number instruction; replaced
    /// by the generator's next state on every invocation.
    pub rng_seed: u64,
    pub keyboard: KeyboardState,
}

/// One decrement of a countdown timer: down by one, clamped at zero.
pub open spec fn dec_timer(t: u8) -> u8 {
    if t > 0 { (t - 1) as u8 } else { 0u8 }
}

/// The 16-bit opcode at the program counter: the big-endian concatenation of
/// the two bytes at [pc, pc + 1], the second address taken modulo the memory
/// size so that the expression is defined for every in-range counter.
pub open spec fn spec_fetch(s: CPUState) -> u16 {
    ((s.mem@[s.pc as int] as int) * 256 + (s.mem@[(s.pc as int + 1) % (MEM_SIZE as int)] as int)) as u16
}

impl CPUState {
    /// Structural well-formedness: every component within its documented
    /// range. Established by the constructor, preserved by every operation.
    pub open spec fn wf(self) -> bool {
        &&& self.mem@.len() == MEM_SIZE
        &&& self.v@.len() == REGISTERS_SIZE
        &&& self.pc < MEM_SIZE
        &&& self.i < MEM_SIZE
        &&& self.stack@.len() == STACK_SIZE
        &&& (forall|k: int| 0 <= k < STACK_SIZE ==> self.stack@[k] < MEM_SIZE)
        &&& self.sp <= STACK_SIZE
        &&& self.keyboard.wf()
        &&& (self.waiting_kb <==> self.waiting_kb_x is Some)
        &&& (self.waiting_kb_x matches Some(x) ==> x < REGISTERS_SIZE)
        &&& (self.waiting_kb ==> self.halted)
    }

    /// The program counter as a memory index.
    pub fn pci(&self) -> (r: usize)
        ensures
            r == self.pc as usize,
    {
        self.pc as usize
    }

    /// Reconstruct the 16-bit opcode at the program counter from its two
    /// big-endian memory bytes.
    pub fn fetch(&self) -> (r: u16)
        requires
            self.wf(),
        ensures
            r == spec_fetch(*self),
    {
        let hi = self.mem[self.pc as usize];
        let lo = self.mem[((self.pc + 1) % (MEM_SIZE as u16)) as usize];
        (hi as u16) * 256 + (lo as u16)
    }

    /// Decrement both timers by at most one, clamped at a floor of zero.
    pub fn update_timers(&mut self)
        ensures
            *final(self) == (CPUState { dt: dec_timer(old(self).dt), st: dec_timer(old(self).st), ..*old(self) }),
    {
        if self.dt > 0 {
            self.dt = self.dt - 1;
        }
        if self.st > 0 {
            self.st = self.st - 1;
        }
    }

    /// Derive one pseudo-random byte from the seed register and replace the
    /// seed with the generator's next internal state, so that replaying the
    /// same seed reproduces the same byte sequence.
    pub fn run_rng(&mut self) -> (r: u8)
        ensures
            r == chacha_byte(old(self).rng_seed),
            *final(self) == (CPUState { rng_seed: chacha_next_seed(old(self).rng_seed), ..*old(self) }),
    {
        let (byte, next_seed) = chacha_step(self.rng_seed);
        self.rng_seed = next_seed;
        byte
    }

    /// Advance the program counter by one instruction width, wrapping within
    /// the 12-bit address space.
    pub fn inc_pc_2(&mut self)
        requires
            old(self).pc < MEM_SIZE,
        ensures
            *final(self) == (CPUState { pc: (((old(self).pc + 2) as int) % (MEM_SIZE as int)) as u16, ..*old(self) }),
    {
        self.pc = (self.pc + 2) % (MEM_SIZE as u16);
    }
}

} // verus!
