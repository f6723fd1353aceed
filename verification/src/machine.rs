use vstd::prelude::*;
use crate::decode::decode;
use crate::decode::spec_decode;
use crate::error::VmError;
use crate::exec::exec_err;
use crate::exec::exec_ok;
use crate::exec::exec_rel;
use crate::exec::execute;
use crate::keyboard::map_host_key;
use crate::keyboard::spec_key_map;
use crate::rng::fresh_seed;
use crate::screen::ScreenDraw;
use crate::state::CPUQuirks;
use crate::state::CPUState;
use crate::state::MEM_SIZE;
use crate::state::PROGRAM_START_ADDR;
use crate::state::REGISTERS_SIZE;
use crate::state::STACK_SIZE;
use crate::state::STEPS_PER_CYCLE;
use crate::state::dec_timer;
use crate::state::font_seq;
use crate::state::font_set;
use crate::state::spec_fetch;
use crate::keyboard::KeyboardState;

verus! {

/// The error one step from `pre` would raise, or nothing when the step
/// succeeds (a halted machine steps successfully as a no-op).
pub open spec fn step_fails(pre: CPUState) -> Option<VmError> {
    if pre.halted {
        None
    } else {
        match spec_decode(spec_fetch(pre)) {
            Some(instr) => if exec_ok(pre, instr) {
                None
            } else {
                Some(exec_err(instr))
            },
            None => Some(VmError::UnknownOpcode(spec_fetch(pre))),
        }
    }
}

/// One successful step: a no-op on a halted machine; otherwise the fetched
/// opcode decodes, executes, and the repaint signal has been consumed.
pub open spec fn step_ok_rel(
    pre: CPUState,
    post: CPUState,
    g: Map<(int, int), bool>,
    g2: Map<(int, int), bool>,
    w: int,
    h: int,
) -> bool {
    if pre.halted {
        post == pre && g2 == g
    } else {
        match spec_decode(spec_fetch(pre)) {
            Some(instr) => {
                &&& exec_ok(pre, instr)
                &&& exec_rel(pre, post, g, g2, w, h, instr)
                &&& post.repaint == false
            },
            None => false,
        }
    }
}

/// A chain of `n` successful steps from `pre` to `post`.
pub open spec fn steps_rel(
    pre: CPUState,
    post: CPUState,
    g: Map<(int, int), bool>,
    g2: Map<(int, int), bool>,
    w: int,
    h: int,
    n: nat,
) -> bool
    decreases n,
{
    if n == 0 {
        post == pre && g2 == g
    } else {
        exists|mid: CPUState, gmid: Map<(int, int), bool>|
            step_ok_rel(pre, mid, g, gmid, w, h)
            && steps_rel(mid, post, gmid, g2, w, h, (n - 1) as nat)
    }
}

/// A chain extends by one successful step at its end.
pub proof fn lemma_steps_snoc(
    pre: CPUState,
    mid: CPUState,
    post: CPUState,
    g: Map<(int, int), bool>,
    gmid: Map<(int, int), bool>,
    g2: Map<(int, int), bool>,
    w: int,
    h: int,
    n: nat,
)
    requires
        steps_rel(pre, mid, g, gmid, w, h, n),
        step_ok_rel(mid, post, gmid, g2, w, h),
    ensures
        steps_rel(pre, post, g, g2, w, h, n + 1),
    decreases n,
{
    if n == 0 {
        assert(steps_rel(post, post, g2, g2, w, h, 0));
        assert(step_ok_rel(pre, post, g, g2, w, h));
    } else {
        let (m2, gm2) = choose|m2: CPUState, gm2: Map<(int, int), bool>|
            step_ok_rel(pre, m2, g, gm2, w, h)
            && steps_rel(m2, mid, gm2, gmid, w, h, (n - 1) as nat);
        lemma_steps_snoc(m2, mid, post, gm2, gmid, g2, w, h, (n - 1) as nat);
        assert(step_ok_rel(pre, m2, g, gm2, w, h)
            && steps_rel(m2, post, gm2, g2, w, h, n));
    }
}

/// The interpreter instance: machine state, its display capability, and
/// the terminal stop flag the scheduler checks once per tick.
pub struct CPU<S: ScreenDraw> {
    pub state: CPUState,
    pub stopped: bool,
    pub screen: S,
}

/// Perform exactly one fetch-decode-execute-repaint-signal sequence; a
/// no-op if the machine is halted. A decode failure or a faulting
/// instruction propagates untouched and leaves machine and display as they
/// were.
pub fn step<S: ScreenDraw>(state: &mut CPUState, screen: &mut S) -> (r: Result<(), VmError>)
    requires
        old(state).wf(),
        old(screen).inv(),
    ensures
        final(state).wf(),
        final(screen).inv(),
        final(screen).sd_width() == old(screen).sd_width(),
        final(screen).sd_height() == old(screen).sd_height(),
        match r {
            Ok(()) => step_fails(*old(state)) is None && step_ok_rel(
                *old(state),
                *final(state),
                old(screen).pix(),
                final(screen).pix(),
                old(screen).sd_width(),
                old(screen).sd_height(),
            ),
            Err(e) => step_fails(*old(state)) == Some(e)
                && *final(state) == *old(state) && *final(screen) == *old(screen),
        },
{
    if state.halted {
        return Ok(());
    }
    let opcode = state.fetch();
    let instr = match decode(opcode) {
        Ok(instr) => instr,
        Err(e) => {
            return Err(e);
        },
    };
    match execute(state, screen, instr) {
        Ok(()) => {},
        Err(e) => {
            return Err(e);
        },
    }
    if state.repaint {
        screen.repaint();
        state.repaint = false;
    }
    Ok(())
}

/// One scheduling tick: a fixed number of steps, then one decrement of
/// both timers — a no-op, without the timer decrement, while halted at
/// entry. Any step error propagates untouched; the machine then stands
/// exactly as the failing step found it.
pub fn cycle<S: ScreenDraw>(state: &mut CPUState, screen: &mut S) -> (r: Result<(), VmError>)
    requires
        old(state).wf(),
        old(screen).inv(),
    ensures
        final(state).wf(),
        final(screen).inv(),
        final(screen).sd_width() == old(screen).sd_width(),
        final(screen).sd_height() == old(screen).sd_height(),
        old(state).halted ==> r is Ok && *final(state) == *old(state) && *final(screen) == *old(screen),
        !old(state).halted ==> match r {
            Ok(()) => exists|mid: CPUState|
                steps_rel(
                    *old(state),
                    mid,
                    old(screen).pix(),
                    final(screen).pix(),
                    old(screen).sd_width(),
                    old(screen).sd_height(),
                    STEPS_PER_CYCLE as nat,
                ) && *final(state) == (CPUState { dt: dec_timer(mid.dt), st: dec_timer(mid.st), ..mid }),
            Err(e) => exists|k: nat|
                k < STEPS_PER_CYCLE
                && steps_rel(
                    *old(state),
                    *final(state),
                    old(screen).pix(),
                    final(screen).pix(),
                    old(screen).sd_width(),
                    old(screen).sd_height(),
                    k,
                ) && step_fails(*final(state)) == Some(e),
        },
{
    if state.halted {
        return Ok(());
    }
    let ghost s0 = *state;
    let ghost g0 = screen.pix();
    let ghost w = screen.sd_width();
    let ghost h = screen.sd_height();
    let mut c: usize = 0;
    while c < STEPS_PER_CYCLE
        invariant
            state.wf(),
            screen.inv(),
            s0 == *old(state),
            g0 == old(screen).pix(),
            w == old(screen).sd_width(),
            h == old(screen).sd_height(),
            screen.sd_width() == w,
            screen.sd_height() == h,
            !s0.halted,
            c <= STEPS_PER_CYCLE,
            steps_rel(s0, *state, g0, screen.pix(), w, h, c as nat),
        decreases STEPS_PER_CYCLE - c,
    {
        let ghost prev = *state;
        let ghost gprev = screen.pix();
        match step(state, screen) {
            Ok(()) => {},
            Err(e) => {
                return Err(e);
            },
        }
        proof {
            lemma_steps_snoc(s0, prev, *state, g0, gprev, screen.pix(), w, h, c as nat);
        }
        c = c + 1;
    }
    let ghost mid = *state;
    state.update_timers();
    proof {
        assert(steps_rel(s0, mid, g0, screen.pix(), w, h, STEPS_PER_CYCLE as nat));
    }
    Ok(())
}

impl<S: ScreenDraw> CPU<S> {
    /// Machine state and display capability are both well-formed.
    pub open spec fn wf(self) -> bool {
        self.state.wf() && self.screen.inv()
    }

    /// A fresh instance: font pre-loaded in the first memory cells, the
    /// rest of memory, the registers, the stack and the timers zeroed, the
    /// program counter at the program origin, and an arbitrary random seed.
    pub fn new(screen: S) -> (r: CPU<S>)
        requires
            screen.inv(),
        ensures
            r.wf(),
            r.screen == screen,
            !r.stopped,
            r.state.mem@.len() == MEM_SIZE,
            forall|k: int| 0 <= k < font_seq().len() ==> r.state.mem@[k] == font_seq()[k],
            forall|k: int| font_seq().len() <= k < MEM_SIZE ==> r.state.mem@[k] == 0,
            forall|k: int| 0 <= k < REGISTERS_SIZE ==> r.state.v@[k] == 0,
            r.state.pc == PROGRAM_START_ADDR,
            r.state.i == 0,
            forall|k: int| 0 <= k < STACK_SIZE ==> r.state.stack@[k] == 0,
            r.state.sp == 0,
            !r.state.repaint,
            !r.state.halted,
            !r.state.waiting_kb,
            r.state.waiting_kb_x is None,
            r.state.dt == 0,
            r.state.st == 0,
            r.state.quirks == (CPUQuirks { shift: false, load_store: false }),
            forall|k: int| 0 <= k < REGISTERS_SIZE ==> !r.state.keyboard.view_keys()[k],
    {
        let mut mem = font_set();
        while mem.len() < MEM_SIZE
            invariant
                font_seq().len() <= mem@.len() <= MEM_SIZE,
                forall|k: int| 0 <= k < font_seq().len() ==> mem@[k] == font_seq()[k],
                forall|k: int| font_seq().len() <= k < mem@.len() ==> mem@[k] == 0,
            decreases MEM_SIZE - mem@.len(),
        {
            mem.push(0);
        }
        let mut v: Vec<u8> = Vec::new();
        while v.len() < REGISTERS_SIZE
            invariant
                v@.len() <= REGISTERS_SIZE,
                forall|k: int| 0 <= k < v@.len() ==> v@[k] == 0,
            decreases REGISTERS_SIZE - v@.len(),
        {
            v.push(0);
        }
        let mut stack: Vec<u16> = Vec::new();
        while stack.len() < STACK_SIZE
            invariant
                stack@.len() <= STACK_SIZE,
                forall|k: int| 0 <= k < stack@.len() ==> stack@[k] == 0,
            decreases STACK_SIZE - stack@.len(),
        {
            stack.push(0);
        }
        CPU {
            state: CPUState {
                mem,
                v,
                pc: PROGRAM_START_ADDR,
                i: 0,
                stack,
                sp: 0,
                repaint: false,
                halted: false,
                waiting_kb: false,
                waiting_kb_x: None,
                dt: 0,
                st: 0,
                quirks: CPUQuirks::new(),
                rng_seed: fresh_seed(),
                keyboard: KeyboardState::new(),
            },
            screen,
            stopped: false,
        }
    }

    /// Implant a program image into memory starting exactly at the program
    /// origin. An image longer than the address space remaining after the
    /// origin is rejected before any memory cell changes.
    pub fn load_program(&mut self, data: Vec<u8>) -> (r: Result<(), VmError>)
        requires
            old(self).wf(),
        ensures
            final(self).wf(),
            final(self).screen == old(self).screen,
            final(self).stopped == old(self).stopped,
            data@.len() > MEM_SIZE - PROGRAM_START_ADDR ==> r == Err::<(), VmError>(VmError::ProgramTooLarge)
                && *final(self) == *old(self),
            data@.len() <= MEM_SIZE - PROGRAM_START_ADDR ==> r is Ok
                && final(self).state == (CPUState { mem: final(self).state.mem, ..old(self).state })
                && final(self).state.mem@.len() == MEM_SIZE
                && (forall|k: int| 0 <= k < PROGRAM_START_ADDR ==> final(self).state.mem@[k] == old(self).state.mem@[k])
                && (forall|k: int| PROGRAM_START_ADDR <= k < PROGRAM_START_ADDR + data@.len()
                    ==> final(self).state.mem@[k] == data@[k - PROGRAM_START_ADDR])
                && (forall|k: int| PROGRAM_START_ADDR + data@.len() <= k < MEM_SIZE
                    ==> final(self).state.mem@[k] == old(self).state.mem@[k]),
    {
        if data.len() > MEM_SIZE - PROGRAM_START_ADDR as usize {
            return Err(VmError::ProgramTooLarge);
        }
        let origin = PROGRAM_START_ADDR as usize;
        let mut k: usize = 0;
        while k < data.len()
            invariant
                old(self).wf(),
                data@.len() <= MEM_SIZE - PROGRAM_START_ADDR,
                origin == PROGRAM_START_ADDR,
                k <= data@.len(),
                *self == (CPU { state: self.state, ..*old(self) }),
                self.state == (CPUState { mem: self.state.mem, ..old(self).state }),
                self.state.mem@.len() == MEM_SIZE,
                forall|kk: int| 0 <= kk < PROGRAM_START_ADDR ==> self.state.mem@[kk] == old(self).state.mem@[kk],
                forall|kk: int| PROGRAM_START_ADDR <= kk < PROGRAM_START_ADDR + k
                    ==> self.state.mem@[kk] == data@[kk - PROGRAM_START_ADDR],
                forall|kk: int| PROGRAM_START_ADDR + k <= kk < MEM_SIZE
                    ==> self.state.mem@[kk] == old(self).state.mem@[kk],
            decreases data@.len() - k,
        {
            let b = data[k];
            self.state.mem.set(origin + k, b);
            k = k + 1;
        }
        Ok(())
    }

    /// Whether the instance has reached its terminal stopped state.
    pub fn is_done(&self) -> (r: bool)
        ensures
            r == self.stopped,
    {
        self.stopped
    }

    /// Whether the machine is halted, including while awaiting a key.
    pub fn is_paused(&self) -> (r: bool)
        ensures
            r == self.state.halted,
    {
        self.state.halted
    }

    /// Transition the instance to its terminal, non-resumable stopped
    /// state.
    pub fn stop(&mut self)
        ensures
            *final(self) == (CPU { stopped: true, ..*old(self) }),
    {
        self.stopped = true;
    }

    /// Record a host key press. An identifier outside the mapping table is
    /// inert. A mapped key marks its virtual slot pressed and, when a key
    /// wait is pending, resolves it: the pressed key's value goes into the
    /// recorded target register, the program counter advances by one
    /// instruction width, and the halt and the deferral both clear.
    pub fn key_down(&mut self, code: usize)
        requires
            old(self).wf(),
        ensures
            final(self).wf(),
            final(self).screen == old(self).screen,
            final(self).stopped == old(self).stopped,
            spec_key_map(code) is None ==> *final(self) == *old(self),
            spec_key_map(code) matches Some(k) ==> {
                &&& final(self).state.keyboard.view_keys()
                    == old(self).state.keyboard.view_keys().update(k as int, true)
                &&& !old(self).state.waiting_kb ==> final(self).state == (CPUState {
                    keyboard: final(self).state.keyboard,
                    ..old(self).state
                })
                &&& old(self).state.waiting_kb ==> {
                    &&& final(self).state.v@ == old(self).state.v@.update(
                        old(self).state.waiting_kb_x->0 as int,
                        k,
                    )
                    &&& final(self).state == (CPUState {
                        keyboard: final(self).state.keyboard,
                        v: final(self).state.v,
                        pc: (((old(self).state.pc + 2) as int) % (MEM_SIZE as int)) as u16,
                        halted: false,
                        waiting_kb: false,
                        waiting_kb_x: None,
                        ..old(self).state
                    })
                }
            },
    {
        let k = match map_host_key(code) {
            Some(k) => k,
            None => {
                return;
            },
        };
        self.state.keyboard.key_down(k);
        if self.state.waiting_kb {
            let x = match self.state.waiting_kb_x {
                Some(x) => x,
                None => {
                    return;
                },
            };
            self.state.v.set(x as usize, k);
            self.state.inc_pc_2();
            self.state.halted = false;
            self.state.waiting_kb = false;
            self.state.waiting_kb_x = None;
        }
    }

    /// Record a host key release. An identifier outside the mapping table
    /// is inert; a mapped one marks its virtual slot released.
    pub fn key_up(&mut self, code: usize)
        requires
            old(self).wf(),
        ensures
            final(self).wf(),
            final(self).screen == old(self).screen,
            final(self).stopped == old(self).stopped,
            spec_key_map(code) is None ==> *final(self) == *old(self),
            spec_key_map(code) matches Some(k) ==> {
                &&& final(self).state.keyboard.view_keys()
                    == old(self).state.keyboard.view_keys().update(k as int, false)
                &&& final(self).state == (CPUState {
                    keyboard: final(self).state.keyboard,
                    ..old(self).state
                })
            },
    {
        let k = match map_host_key(code) {
            Some(k) => k,
            None => {
                return;
            },
        };
        self.state.keyboard.key_up(k);
    }
}

} // verus!
