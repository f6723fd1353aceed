use vstd::prelude::*;
use crate::decode::Instruction;
use crate::decode::instr_wf;
use crate::error::VmError;
use crate::rng::chacha_byte;
use crate::rng::chacha_next_seed;
use crate::screen::ScreenDraw;
use crate::screen::blank_grid;
use crate::state::CPUState;
use crate::state::MEM_SIZE;
use crate::state::STACK_SIZE;

verus! {

/// The program counter after a conditional skip: past the next instruction
/// when the condition held, onto it otherwise.
pub open spec fn skip_target(pre: CPUState, cond: bool) -> int {
    if cond { (pre.pc + 4) % (MEM_SIZE as int) } else { (pre.pc + 2) % (MEM_SIZE as int) }
}

/// Eight-bit subtraction, wrapping modulo 256.
pub open spec fn sub8(a: u8, b: u8) -> u8 {
    (((a as int) + 256 - (b as int)) % 256) as u8
}

/// The shift instructions' input: the destination register itself under the
/// shift quirk, the secondary register otherwise.
pub open spec fn shift_src(pre: CPUState, x: u8, y: u8) -> u8 {
    if pre.quirks.shift { pre.v@[x as int] } else { pre.v@[y as int] }
}

/// The place value of bit `b` of a sprite row, counted from the left: the
/// leftmost row bit maps to the lowest target x offset.
pub open spec fn sprite_mask(b: int) -> int {
    if b == 0 { 128 }
    else if b == 1 { 64 }
    else if b == 2 { 32 }
    else if b == 3 { 16 }
    else if b == 4 { 8 }
    else if b == 5 { 4 }
    else if b == 6 { 2 }
    else if b == 7 { 1 }
    else { 0 }
}

/// Whether bit `b` (from the left) of a sprite row is set.
pub open spec fn sprite_bit(row: u8, b: int) -> bool {
    ((row as int) / sprite_mask(b)) % 2 == 1
}

/// Toggle the set bits of one sprite row onto the grid, bit `b` onwards.
/// Each set bit flips the pixel at the row's target coordinates, wrapped at
/// the grid edges, and contributes "was this pixel set before the toggle"
/// to the OR-reduction that becomes the collision flag.
pub open spec fn draw_bits(
    g: Map<(int, int), bool>,
    coll: bool,
    row: u8,
    x0: int,
    y: int,
    w: int,
    b: int,
) -> (Map<(int, int), bool>, bool)
    decreases 8 - b,
{
    if b < 0 || b >= 8 {
        (g, coll)
    } else if sprite_bit(row, b) {
        let x = (x0 + b) % w;
        let was = g[(x, y)];
        draw_bits(g.insert((x, y), !was), coll || was, row, x0, y, w, b + 1)
    } else {
        draw_bits(g, coll, row, x0, y, w, b + 1)
    }
}

/// Toggle a whole sprite onto the grid, row `r` onwards: one byte per row,
/// rows descending from `y0`, wrapped at the grid edges.
pub open spec fn draw_rows(
    g: Map<(int, int), bool>,
    coll: bool,
    sprite: Seq<u8>,
    x0: int,
    y0: int,
    w: int,
    h: int,
    r: int,
) -> (Map<(int, int), bool>, bool)
    decreases sprite.len() - r,
{
    if r < 0 || r >= sprite.len() {
        (g, coll)
    } else {
        let res = draw_bits(g, coll, sprite[r], x0, (y0 + r) % h, w, 0);
        draw_rows(res.0, res.1, sprite, x0, y0, w, h, r + 1)
    }
}

/// Grid and collision flag produced by the draw instruction: the `n`-row
/// sprite at the index register, toggled at the coordinates held by the two
/// operand registers.
pub open spec fn draw_result(
    pre: CPUState,
    g: Map<(int, int), bool>,
    w: int,
    h: int,
    x: u8,
    y: u8,
    n: u8,
) -> (Map<(int, int), bool>, bool) {
    draw_rows(
        g,
        false,
        pre.mem@.subrange(pre.i as int, pre.i + n),
        pre.v@[x as int] as int,
        pre.v@[y as int] as int,
        w,
        h,
        0,
    )
}

/// Whether the instruction executes without a fault: a call needs a free
/// stack slot, a return a used one, and a block memory access must lie
/// within the address space.
pub open spec fn exec_ok(pre: CPUState, instr: Instruction) -> bool {
    match instr {
        Instruction::Call(_) => pre.sp < STACK_SIZE,
        Instruction::Ret => pre.sp > 0,
        Instruction::Draw(_, _, n) => pre.i + n <= MEM_SIZE,
        Instruction::StoreBcd(_) => pre.i + 3 <= MEM_SIZE,
        Instruction::StoreRegs(x) => pre.i + x + 1 <= MEM_SIZE,
        Instruction::LoadRegs(x) => pre.i + x + 1 <= MEM_SIZE,
        _ => true,
    }
}

/// The error a faulting instruction raises.
pub open spec fn exec_err(instr: Instruction) -> VmError {
    match instr {
        Instruction::Call(_) => VmError::StackOverflow,
        Instruction::Ret => VmError::StackUnderflow,
        _ => VmError::AddressOutOfRange,
    }
}

/// Whether the instruction mutates the displayable bitmap; every such
/// instruction sets the repaint signal.
pub open spec fn writes_pixels(instr: Instruction) -> bool {
    match instr {
        Instruction::Cls => true,
        Instruction::Draw(_, _, _) => true,
        _ => false,
    }
}

/// An instruction whose program-counter effect is anything but "advance by
/// exactly one instruction width".
pub open spec fn is_control_flow(instr: Instruction) -> bool {
    match instr {
        Instruction::Jump(_) => true,
        Instruction::JumpV0(_) => true,
        Instruction::Call(_) => true,
        Instruction::Ret => true,
        Instruction::SkipEqImm(_, _) => true,
        Instruction::SkipNeImm(_, _) => true,
        Instruction::SkipEqReg(_, _) => true,
        Instruction::SkipNeReg(_, _) => true,
        Instruction::SkipKey(_) => true,
        Instruction::SkipNoKey(_) => true,
        Instruction::WaitKey(_) => true,
        _ => false,
    }
}

/// The program counter after the instruction. Ordinary instructions advance
/// it by exactly 2; control-flow instructions set it to their documented
/// target; a key wait leaves it unchanged, so the instruction completes
/// only when the key press arrives.
pub open spec fn next_pc(pre: CPUState, instr: Instruction) -> int {
    match instr {
        Instruction::Jump(nnn) => nnn as int,
        Instruction::JumpV0(nnn) => (nnn + pre.v@[0]) % (MEM_SIZE as int),
        Instruction::Call(nnn) => nnn as int,
        Instruction::Ret => pre.stack@[pre.sp - 1] as int,
        Instruction::SkipEqImm(x, nn) => skip_target(pre, pre.v@[x as int] == nn),
        Instruction::SkipNeImm(x, nn) => skip_target(pre, pre.v@[x as int] != nn),
        Instruction::SkipEqReg(x, y) => skip_target(pre, pre.v@[x as int] == pre.v@[y as int]),
        Instruction::SkipNeReg(x, y) => skip_target(pre, pre.v@[x as int] != pre.v@[y as int]),
        Instruction::SkipKey(x) => skip_target(pre, pre.keyboard.view_keys()[(pre.v@[x as int] % 16) as int]),
        Instruction::SkipNoKey(x) => skip_target(pre, !pre.keyboard.view_keys()[(pre.v@[x as int] % 16) as int]),
        Instruction::WaitKey(_) => pre.pc as int,
        _ => (pre.pc + 2) % (MEM_SIZE as int),
    }
}

/// The registers after the instruction. An instruction that sets the flag
/// register overwrites VF last, after all operand reads, so that aliased
/// arithmetic reads the pre-operation value.
pub open spec fn next_v(
    pre: CPUState,
    g: Map<(int, int), bool>,
    w: int,
    h: int,
    instr: Instruction,
) -> Seq<u8> {
    match instr {
        Instruction::LoadImm(x, nn) => pre.v@.update(x as int, nn),
        Instruction::AddImm(x, nn) => pre.v@.update(
            x as int,
            ((pre.v@[x as int] + nn) % 256) as u8,
        ),
        Instruction::Move(x, y) => pre.v@.update(x as int, pre.v@[y as int]),
        Instruction::Or(x, y) => pre.v@.update(x as int, pre.v@[x as int] | pre.v@[y as int]),
        Instruction::And(x, y) => pre.v@.update(x as int, pre.v@[x as int] & pre.v@[y as int]),
        Instruction::Xor(x, y) => pre.v@.update(x as int, pre.v@[x as int] ^ pre.v@[y as int]),
        Instruction::AddReg(x, y) => pre.v@.update(
            x as int,
            ((pre.v@[x as int] + pre.v@[y as int]) % 256) as u8,
        ).update(15, if pre.v@[x as int] + pre.v@[y as int] > 255 { 1u8 } else { 0u8 }),
        Instruction::SubReg(x, y) => pre.v@.update(
            x as int,
            sub8(pre.v@[x as int], pre.v@[y as int]),
        ).update(15, if pre.v@[x as int] >= pre.v@[y as int] { 1u8 } else { 0u8 }),
        Instruction::SubN(x, y) => pre.v@.update(
            x as int,
            sub8(pre.v@[y as int], pre.v@[x as int]),
        ).update(15, if pre.v@[y as int] >= pre.v@[x as int] { 1u8 } else { 0u8 }),
        Instruction::Shr(x, y) => pre.v@.update(
            x as int,
            shift_src(pre, x, y) / 2,
        ).update(15, shift_src(pre, x, y) % 2),
        Instruction::Shl(x, y) => pre.v@.update(
            x as int,
            ((shift_src(pre, x, y) * 2) % 256) as u8,
        ).update(15, shift_src(pre, x, y) / 128),
        Instruction::Rand(x, nn) => pre.v@.update(x as int, chacha_byte(pre.rng_seed) & nn),
        Instruction::Draw(x, y, n) => pre.v@.update(
            15,
            if draw_result(pre, g, w, h, x, y, n).1 { 1u8 } else { 0u8 },
        ),
        Instruction::LoadDelay(x) => pre.v@.update(x as int, pre.dt),
        Instruction::LoadRegs(x) => Seq::new(
            16,
            |k: int| if k <= x { pre.mem@[pre.i + k] } else { pre.v@[k] },
        ),
        _ => pre.v@,
    }
}

/// The memory after the instruction: only the binary-coded-decimal store
/// and the block register store write to it.
pub open spec fn next_mem(pre: CPUState, instr: Instruction) -> Seq<u8> {
    match instr {
        Instruction::StoreBcd(x) => pre.mem@
            .update(pre.i as int, pre.v@[x as int] / 100)
            .update(pre.i + 1, (pre.v@[x as int] / 10) % 10)
            .update(pre.i + 2, pre.v@[x as int] % 10),
        Instruction::StoreRegs(x) => Seq::new(
            MEM_SIZE as nat,
            |k: int| if pre.i <= k <= pre.i + x { pre.v@[k - pre.i] } else { pre.mem@[k] },
        ),
        _ => pre.mem@,
    }
}

/// The index register after the instruction. A block load/store leaves it
/// unmodified under the load/store quirk and advances it by the number of
/// registers transferred otherwise.
pub open spec fn next_i(pre: CPUState, instr: Instruction) -> int {
    match instr {
        Instruction::LoadI(nnn) => nnn as int,
        Instruction::AddI(x) => (pre.i + pre.v@[x as int]) % (MEM_SIZE as int),
        Instruction::LoadFont(x) => 5 * ((pre.v@[x as int] % 16) as int),
        Instruction::StoreRegs(x) => if pre.quirks.load_store {
            pre.i as int
        } else {
            (pre.i + x + 1) % (MEM_SIZE as int)
        },
        Instruction::LoadRegs(x) => if pre.quirks.load_store {
            pre.i as int
        } else {
            (pre.i + x + 1) % (MEM_SIZE as int)
        },
        _ => pre.i as int,
    }
}

/// The stack after the instruction: a call pushes the return address at the
/// stack pointer; nothing else writes a slot.
pub open spec fn next_stack(pre: CPUState, instr: Instruction) -> Seq<u16> {
    match instr {
        Instruction::Call(_) => pre.stack@.update(
            pre.sp as int,
            (((pre.pc + 2) % (MEM_SIZE as int))) as u16,
        ),
        _ => pre.stack@,
    }
}

/// The stack pointer after the instruction: a call advances it, a return
/// decrements it.
pub open spec fn next_sp(pre: CPUState, instr: Instruction) -> int {
    match instr {
        Instruction::Call(_) => pre.sp + 1,
        Instruction::Ret => pre.sp - 1,
        _ => pre.sp as int,
    }
}

/// The delay timer after the instruction.
pub open spec fn next_dt(pre: CPUState, instr: Instruction) -> u8 {
    match instr {
        Instruction::SetDelay(x) => pre.v@[x as int],
        _ => pre.dt,
    }
}

/// The sound timer after the instruction.
pub open spec fn next_st(pre: CPUState, instr: Instruction) -> u8 {
    match instr {
        Instruction::SetSound(x) => pre.v@[x as int],
        _ => pre.st,
    }
}

/// Whether the machine is halted after the instruction: only a key wait
/// halts it, and nothing executed thereafter unhalts it.
pub open spec fn next_halted(pre: CPUState, instr: Instruction) -> bool {
    match instr {
        Instruction::WaitKey(_) => true,
        _ => pre.halted,
    }
}

/// Whether a key-wait deferral is pending after the instruction.
pub open spec fn next_waiting(pre: CPUState, instr: Instruction) -> bool {
    match instr {
        Instruction::WaitKey(_) => true,
        _ => pre.waiting_kb,
    }
}

/// The register recorded as the target of a pending key wait.
pub open spec fn next_waiting_x(pre: CPUState, instr: Instruction) -> Option<u8> {
    match instr {
        Instruction::WaitKey(x) => Some(x),
        _ => pre.waiting_kb_x,
    }
}

/// The random seed after the instruction: the random instruction replaces
/// it with the generator's next internal state.
pub open spec fn next_seed(pre: CPUState, instr: Instruction) -> u64 {
    match instr {
        Instruction::Rand(_, _) => chacha_next_seed(pre.rng_seed),
        _ => pre.rng_seed,
    }
}

/// The pixel grid after the instruction.
pub open spec fn next_grid(
    pre: CPUState,
    g: Map<(int, int), bool>,
    w: int,
    h: int,
    instr: Instruction,
) -> Map<(int, int), bool> {
    match instr {
        Instruction::Cls => blank_grid(w, h),
        Instruction::Draw(x, y, n) => draw_result(pre, g, w, h, x, y, n).0,
        _ => g,
    }
}

/// The full effect of one successfully executed instruction on machine
/// state and pixel grid, component by component. The repaint signal is
/// stated separately, because the step driver consumes and clears it.
pub open spec fn exec_rel(
    pre: CPUState,
    post: CPUState,
    g: Map<(int, int), bool>,
    g2: Map<(int, int), bool>,
    w: int,
    h: int,
    instr: Instruction,
) -> bool {
    &&& post.pc == next_pc(pre, instr)
    &&& post.v@ == next_v(pre, g, w, h, instr)
    &&& post.mem@ == next_mem(pre, instr)
    &&& post.i == next_i(pre, instr)
    &&& post.stack@ == next_stack(pre, instr)
    &&& post.sp == next_sp(pre, instr)
    &&& post.dt == next_dt(pre, instr)
    &&& post.st == next_st(pre, instr)
    &&& post.halted == next_halted(pre, instr)
    &&& post.waiting_kb == next_waiting(pre, instr)
    &&& post.waiting_kb_x == next_waiting_x(pre, instr)
    &&& post.quirks == pre.quirks
    &&& post.keyboard == pre.keyboard
    &&& post.rng_seed == next_seed(pre, instr)
    &&& g2 == next_grid(pre, g, w, h, instr)
}

/// Apply one decoded instruction variant to the machine state and, where
/// relevant, to the display capability. Each instruction fully determines
/// its own program-counter effect; a faulting instruction reports its error
/// and leaves state and display untouched.
#[verifier::rlimit(100)]
pub fn execute<S: ScreenDraw>(
    state: &mut CPUState,
    screen: &mut S,
    instr: Instruction,
) -> (r: Result<(), VmError>)
    requires
        old(state).wf(),
        old(screen).inv(),
        instr_wf(instr),
    ensures
        final(state).wf(),
        final(screen).inv(),
        final(screen).sd_width() == old(screen).sd_width(),
        final(screen).sd_height() == old(screen).sd_height(),
        r is Ok <==> exec_ok(*old(state), instr),
        exec_ok(*old(state), instr) ==> exec_rel(
            *old(state),
            *final(state),
            old(screen).pix(),
            final(screen).pix(),
            old(screen).sd_width(),
            old(screen).sd_height(),
            instr,
        ) && final(state).repaint == (old(state).repaint || writes_pixels(instr)),
        !exec_ok(*old(state), instr) ==> r == Err::<(), VmError>(exec_err(instr))
            && *final(state) == *old(state) && *final(screen) == *old(screen),
{
    match instr {
        Instruction::Cls => {
            screen.clear();
            state.repaint = true;
            state.inc_pc_2();
            Ok(())
        },
        Instruction::Ret => {
            if state.sp == 0 {
                return Err(VmError::StackUnderflow);
            }
            state.sp = state.sp - 1;
            state.pc = state.stack[state.sp as usize];
            Ok(())
        },
        Instruction::Jump(nnn) => {
            state.pc = nnn;
            Ok(())
        },
        Instruction::Call(nnn) => {
            if state.sp as usize == STACK_SIZE {
                return Err(VmError::StackOverflow);
            }
            let ret = (state.pc + 2) % (MEM_SIZE as u16);
            state.stack.set(state.sp as usize, ret);
            state.sp = state.sp + 1;
            state.pc = nnn;
            Ok(())
        },
        Instruction::SkipEqImm(x, nn) => {
            let cond = state.v[x as usize] == nn;
            skip_or_advance(state, cond);
            Ok(())
        },
        Instruction::SkipNeImm(x, nn) => {
            let cond = state.v[x as usize] != nn;
            skip_or_advance(state, cond);
            Ok(())
        },
        Instruction::SkipEqReg(x, y) => {
            let cond = state.v[x as usize] == state.v[y as usize];
            skip_or_advance(state, cond);
            Ok(())
        },
        Instruction::SkipNeReg(x, y) => {
            let cond = state.v[x as usize] != state.v[y as usize];
            skip_or_advance(state, cond);
            Ok(())
        },
        Instruction::LoadImm(x, nn) => {
            state.v.set(x as usize, nn);
            state.inc_pc_2();
            Ok(())
        },
        Instruction::AddImm(x, nn) => {
            let val = ((state.v[x as usize] as u16 + nn as u16) % 256) as u8;
            state.v.set(x as usize, val);
            state.inc_pc_2();
            Ok(())
        },
        Instruction::Move(x, y) => {
            let val = state.v[y as usize];
            state.v.set(x as usize, val);
            state.inc_pc_2();
            Ok(())
        },
        Instruction::Or(x, y) => {
            let val = state.v[x as usize] | state.v[y as usize];
            state.v.set(x as usize, val);
            state.inc_pc_2();
            Ok(())
        },
        Instruction::And(x, y) => {
            let val = state.v[x as usize] & state.v[y as usize];
            state.v.set(x as usize, val);
            state.inc_pc_2();
            Ok(())
        },
        Instruction::Xor(x, y) => {
            let val = state.v[x as usize] ^ state.v[y as usize];
            state.v.set(x as usize, val);
            state.inc_pc_2();
            Ok(())
        },
        Instruction::AddReg(x, y) => {
            let sum = state.v[x as usize] as u16 + state.v[y as usize] as u16;
            state.v.set(x as usize, (sum % 256) as u8);
            state.v.set(15, if sum > 255 { 1 } else { 0 });
            state.inc_pc_2();
            Ok(())
        },
        Instruction::SubReg(x, y) => {
            let a = state.v[x as usize];
            let b = state.v[y as usize];
            state.v.set(x as usize, ((a as u16 + 256 - b as u16) % 256) as u8);
            state.v.set(15, if a >= b { 1 } else { 0 });
            state.inc_pc_2();
            Ok(())
        },
        Instruction::SubN(x, y) => {
            let a = state.v[x as usize];
            let b = state.v[y as usize];
            state.v.set(x as usize, ((b as u16 + 256 - a as u16) % 256) as u8);
            state.v.set(15, if b >= a { 1 } else { 0 });
            state.inc_pc_2();
            Ok(())
        },
        Instruction::Shr(x, y) => {
            let src = if state.quirks.shift { state.v[x as usize] } else { state.v[y as usize] };
            state.v.set(x as usize, src / 2);
            state.v.set(15, src % 2);
            state.inc_pc_2();
            Ok(())
        },
        Instruction::Shl(x, y) => {
            let src = if state.quirks.shift { state.v[x as usize] } else { state.v[y as usize] };
            state.v.set(x as usize, ((src as u16 * 2) % 256) as u8);
            state.v.set(15, src / 128);
            state.inc_pc_2();
            Ok(())
        },
        Instruction::LoadI(nnn) => {
            state.i = nnn;
            state.inc_pc_2();
            Ok(())
        },
        Instruction::JumpV0(nnn) => {
            state.pc = (nnn + state.v[0] as u16) % (MEM_SIZE as u16);
            Ok(())
        },
        Instruction::Rand(x, nn) => {
            let byte = state.run_rng();
            state.v.set(x as usize, byte & nn);
            state.inc_pc_2();
            Ok(())
        },
        Instruction::Draw(x, y, n) => {
            if MEM_SIZE - (state.i as usize) < n as usize {
                return Err(VmError::AddressOutOfRange);
            }
            draw_sprite(state, screen, x, y, n);
            Ok(())
        },
        Instruction::SkipKey(x) => {
            let k = state.v[x as usize] % 16;
            let cond = state.keyboard.is_pressed(k);
            skip_or_advance(state, cond);
            Ok(())
        },
        Instruction::SkipNoKey(x) => {
            let k = state.v[x as usize] % 16;
            let cond = !state.keyboard.is_pressed(k);
            skip_or_advance(state, cond);
            Ok(())
        },
        Instruction::LoadDelay(x) => {
            let val = state.dt;
            state.v.set(x as usize, val);
            state.inc_pc_2();
            Ok(())
        },
        Instruction::WaitKey(x) => {
            state.halted = true;
            state.waiting_kb = true;
            state.waiting_kb_x = Some(x);
            Ok(())
        },
        Instruction::SetDelay(x) => {
            state.dt = state.v[x as usize];
            state.inc_pc_2();
            Ok(())
        },
        Instruction::SetSound(x) => {
            state.st = state.v[x as usize];
            state.inc_pc_2();
            Ok(())
        },
        Instruction::AddI(x) => {
            state.i = (state.i + state.v[x as usize] as u16) % (MEM_SIZE as u16);
            state.inc_pc_2();
            Ok(())
        },
        Instruction::LoadFont(x) => {
            state.i = 5 * (state.v[x as usize] % 16) as u16;
            state.inc_pc_2();
            Ok(())
        },
        Instruction::StoreBcd(x) => {
            if MEM_SIZE - (state.i as usize) < 3 {
                return Err(VmError::AddressOutOfRange);
            }
            let val = state.v[x as usize];
            let i = state.i as usize;
            state.mem.set(i, val / 100);
            state.mem.set(i + 1, (val / 10) % 10);
            state.mem.set(i + 2, val % 10);
            state.inc_pc_2();
            Ok(())
        },
        Instruction::StoreRegs(x) => {
            if MEM_SIZE - (state.i as usize) < x as usize + 1 {
                return Err(VmError::AddressOutOfRange);
            }
            let i = state.i as usize;
            let mut k: usize = 0;
            while k <= x as usize
                invariant
                    old(state).wf(),
                    instr_wf(instr),
                    instr == Instruction::StoreRegs(x),
                    i == old(state).i as usize,
                    i + x + 1 <= MEM_SIZE,
                    k <= x as usize + 1,
                    *state == (CPUState { mem: state.mem, ..*old(state) }),
                    state.mem@.len() == MEM_SIZE,
                    forall|kk: int| 0 <= kk < MEM_SIZE && !(i <= kk < i + k) ==> state.mem@[kk] == old(state).mem@[kk],
                    forall|kk: int| i <= kk < i + k ==> state.mem@[kk] == old(state).v@[kk - i],
                decreases x as usize + 1 - k,
            {
                let val = state.v[k];
                state.mem.set(i + k, val);
                k = k + 1;
            }
            proof {
                assert(state.mem@ =~= next_mem(*old(state), instr));
            }
            if !state.quirks.load_store {
                state.i = (state.i + x as u16 + 1) % (MEM_SIZE as u16);
            }
            state.inc_pc_2();
            Ok(())
        },
        Instruction::LoadRegs(x) => {
            if MEM_SIZE - (state.i as usize) < x as usize + 1 {
                return Err(VmError::AddressOutOfRange);
            }
            let i = state.i as usize;
            let mut k: usize = 0;
            while k <= x as usize
                invariant
                    old(state).wf(),
                    instr_wf(instr),
                    instr == Instruction::LoadRegs(x),
                    i == old(state).i as usize,
                    i + x + 1 <= MEM_SIZE,
                    k <= x as usize + 1,
                    *state == (CPUState { v: state.v, ..*old(state) }),
                    state.v@.len() == 16,
                    forall|kk: int| 0 <= kk < 16 && !(kk < k) ==> state.v@[kk] == old(state).v@[kk],
                    forall|kk: int| 0 <= kk < k ==> state.v@[kk] == old(state).mem@[i + kk],
                decreases x as usize + 1 - k,
            {
                let val = state.mem[i + k];
                state.v.set(k, val);
                k = k + 1;
            }
            proof {
                assert(state.v@ =~= next_v(
                    *old(state),
                    old(screen).pix(),
                    old(screen).sd_width(),
                    old(screen).sd_height(),
                    instr,
                ));
            }
            if !state.quirks.load_store {
                state.i = (state.i + x as u16 + 1) % (MEM_SIZE as u16);
            }
            state.inc_pc_2();
            Ok(())
        },
    }
}

/// Advance the program counter past the next instruction when the skip
/// condition held, onto it otherwise.
fn skip_or_advance(state: &mut CPUState, cond: bool)
    requires
        old(state).wf(),
    ensures
        *final(state) == (CPUState { pc: skip_target(*old(state), cond) as u16, ..*old(state) }),
{
    if cond {
        state.pc = (state.pc + 4) % (MEM_SIZE as u16);
    } else {
        state.pc = (state.pc + 2) % (MEM_SIZE as u16);
    }
}

/// The draw instruction: XOR the sprite onto the display row by row, bit by
/// bit, OR-reduce the per-pixel collision reports into VF, and signal a
/// repaint.
fn draw_sprite<S: ScreenDraw>(state: &mut CPUState, screen: &mut S, x: u8, y: u8, n: u8)
    requires
        old(state).wf(),
        old(screen).inv(),
        x < 16,
        y < 16,
        old(state).i + n <= MEM_SIZE,
    ensures
        final(state).wf(),
        final(screen).inv(),
        final(screen).sd_width() == old(screen).sd_width(),
        final(screen).sd_height() == old(screen).sd_height(),
        exec_rel(
            *old(state),
            *final(state),
            old(screen).pix(),
            final(screen).pix(),
            old(screen).sd_width(),
            old(screen).sd_height(),
            Instruction::Draw(x, y, n),
        ),
        final(state).repaint,
{
    let ghost g0 = screen.pix();
    let ghost w = screen.sd_width();
    let ghost h = screen.sd_height();
    let ghost sprite = state.mem@.subrange(state.i as int, state.i + n);
    let x0 = state.v[x as usize];
    let y0 = state.v[y as usize];
    let i = state.i as usize;
    let mut coll = false;
    let mut r: usize = 0;
    while r < n as usize
        invariant
            old(state).wf(),
            old(state).i + n <= MEM_SIZE,
            *state == *old(state),
            screen.inv(),
            screen.sd_width() == w,
            screen.sd_height() == h,
            i == old(state).i as usize,
            x0 == old(state).v@[x as int],
            y0 == old(state).v@[y as int],
            x < 16,
            y < 16,
            sprite == old(state).mem@.subrange(old(state).i as int, old(state).i + n),
            r <= n as usize,
            draw_rows(g0, false, sprite, x0 as int, y0 as int, w, h, 0)
                == draw_rows(screen.pix(), coll, sprite, x0 as int, y0 as int, w, h, r as int),
        decreases n as usize - r,
    {
        let row_byte = state.mem[i + r];
        let ghost y_row = (y0 + r) % h;
        let ghost g_enter = screen.pix();
        let ghost coll_enter = coll;
        proof {
            assert(sprite[r as int] == row_byte);
            assert(draw_rows(g_enter, coll_enter, sprite, x0 as int, y0 as int, w, h, r as int)
                == {
                    let res = draw_bits(g_enter, coll_enter, row_byte, x0 as int, y_row, w, 0);
                    draw_rows(res.0, res.1, sprite, x0 as int, y0 as int, w, h, r as int + 1)
                });
        }
        let mut p: u8 = 128;
        let mut b: usize = 0;
        while b < 8
            invariant
                screen.inv(),
                screen.sd_width() == w,
                screen.sd_height() == h,
                b <= 8,
                r < n as usize,
                p as int == sprite_mask(b as int),
                y_row == (y0 + r) % h,
                draw_bits(g_enter, coll_enter, row_byte, x0 as int, y_row, w, 0)
                    == draw_bits(screen.pix(), coll, row_byte, x0 as int, y_row, w, b as int),
            decreases 8 - b,
        {
            let bit_set = (row_byte / p) % 2 == 1;
            if bit_set {
                let was = screen.toggle_pixel(x0 as usize + b, y0 as usize + r as usize);
                coll = coll || was;
            }
            b = b + 1;
            p = p / 2;
        }
        proof {
            assert(draw_bits(g_enter, coll_enter, row_byte, x0 as int, y_row, w, 0)
                == (screen.pix(), coll));
        }
        r = r + 1;
    }
    proof {
        assert(sprite.len() == n);
        assert(draw_rows(screen.pix(), coll, sprite, x0 as int, y0 as int, w, h, n as int)
            == (screen.pix(), coll));
        assert(draw_result(*old(state), g0, w, h, x, y, n) == (screen.pix(), coll));
    }
    state.v.set(15, if coll { 1 } else { 0 });
    state.repaint = true;
    state.inc_pc_2();
}

} // verus!
