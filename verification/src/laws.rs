use vstd::prelude::*;
use crate::decode::Instruction;
use crate::exec::draw_result;
use crate::exec::draw_bits;
use crate::exec::draw_rows;
use crate::exec::exec_rel;
use crate::exec::is_control_flow;
use crate::exec::next_pc;
use crate::exec::skip_target;
use crate::exec::sprite_bit;
use crate::rng::chacha_byte;
use crate::rng::chacha_next_seed;
use crate::state::CPUState;
use crate::state::MEM_SIZE;
use crate::state::dec_timer;
use crate::machine::step_ok_rel;

verus! {

/// The program-counter law: an instruction fully determines its own
/// program-counter effect. A non-control-flow instruction advances the
/// counter by exactly one instruction width; every control-flow variant
/// sets it to its documented target.
pub proof fn lemma_pc_effect(
    pre: CPUState,
    post: CPUState,
    g: Map<(int, int), bool>,
    g2: Map<(int, int), bool>,
    w: int,
    h: int,
    instr: Instruction,
)
    requires
        exec_rel(pre, post, g, g2, w, h, instr),
    ensures
        !is_control_flow(instr) ==> post.pc == (pre.pc + 2) % (MEM_SIZE as int),
        instr matches Instruction::Jump(nnn) ==> post.pc == nnn,
        instr matches Instruction::JumpV0(nnn) ==> post.pc == (nnn + pre.v@[0]) % (MEM_SIZE as int),
        instr matches Instruction::Call(nnn) ==> post.pc == nnn,
        instr is Ret ==> post.pc == pre.stack@[pre.sp - 1],
        instr matches Instruction::SkipEqImm(x, nn)
            ==> post.pc == skip_target(pre, pre.v@[x as int] == nn),
        instr matches Instruction::SkipNeImm(x, nn)
            ==> post.pc == skip_target(pre, pre.v@[x as int] != nn),
        instr matches Instruction::SkipEqReg(x, y)
            ==> post.pc == skip_target(pre, pre.v@[x as int] == pre.v@[y as int]),
        instr matches Instruction::SkipNeReg(x, y)
            ==> post.pc == skip_target(pre, pre.v@[x as int] != pre.v@[y as int]),
        instr matches Instruction::WaitKey(x) ==> post.pc == pre.pc,
{
    assert(post.pc == next_pc(pre, instr));
}

/// A countdown timer after `n` tick decrements.
pub open spec fn timer_after(start: u8, n: nat) -> u8
    decreases n,
{
    if n == 0 {
        start
    } else {
        dec_timer(timer_after(start, (n - 1) as nat))
    }
}

/// The timer law: starting from any value, `n` tick decrements leave a
/// timer at its start value less `n`, clamped at a floor of zero — it
/// never underflows.
pub proof fn lemma_timer_run_down(start: u8, n: nat)
    ensures
        timer_after(start, n) == if n <= start { (start - n) as u8 } else { 0u8 },
    decreases n,
{
    if n > 0 {
        lemma_timer_run_down(start, (n - 1) as nat);
    }
}

/// The byte sequence the machine's random-number source yields over `n`
/// invocations from a starting seed.
pub open spec fn rng_outputs(seed: u64, n: nat) -> Seq<u8>
    decreases n,
{
    if n == 0 {
        Seq::empty()
    } else {
        seq![chacha_byte(seed)] + rng_outputs(chacha_next_seed(seed), (n - 1) as nat)
    }
}

/// The reproducibility law for the random-number source: the whole output
/// sequence is a function of the starting seed alone, so two runs from
/// identical seeds yield identical byte sequences.
pub proof fn lemma_rng_reproducible(seed1: u64, seed2: u64, n: nat)
    requires
        seed1 == seed2,
    ensures
        rng_outputs(seed1, n) == rng_outputs(seed2, n),
{
}

/// The random-instruction law: two machines whose seed registers agree
/// execute the same random instruction to the same register value and the
/// same successor seed, whatever else their states hold.
pub proof fn lemma_rand_deterministic(
    pre1: CPUState,
    post1: CPUState,
    pre2: CPUState,
    post2: CPUState,
    g1: Map<(int, int), bool>,
    g1b: Map<(int, int), bool>,
    g2: Map<(int, int), bool>,
    g2b: Map<(int, int), bool>,
    w1: int,
    h1: int,
    w2: int,
    h2: int,
    x: u8,
    nn: u8,
)
    requires
        pre1.wf(),
        pre2.wf(),
        x < 16,
        pre1.rng_seed == pre2.rng_seed,
        exec_rel(pre1, post1, g1, g1b, w1, h1, Instruction::Rand(x, nn)),
        exec_rel(pre2, post2, g2, g2b, w2, h2, Instruction::Rand(x, nn)),
    ensures
        post1.v@[x as int] == post2.v@[x as int],
        post1.rng_seed == post2.rng_seed,
{
}

/// The shift-quirk law, enabled half: with the quirk on, the shift result
/// is drawn from the destination register alone, so the secondary
/// register's value has no effect on it.
pub proof fn lemma_shift_quirk_enabled(
    pre1: CPUState,
    post1: CPUState,
    pre2: CPUState,
    post2: CPUState,
    g1: Map<(int, int), bool>,
    g1b: Map<(int, int), bool>,
    g2: Map<(int, int), bool>,
    g2b: Map<(int, int), bool>,
    w1: int,
    h1: int,
    w2: int,
    h2: int,
    x: u8,
    y: u8,
    instr: Instruction,
)
    requires
        pre1.wf(),
        pre2.wf(),
        x < 16,
        y < 16,
        pre1.quirks.shift,
        pre2.quirks.shift,
        pre1.v@[x as int] == pre2.v@[x as int],
        instr == Instruction::Shr(x, y) || instr == Instruction::Shl(x, y),
        exec_rel(pre1, post1, g1, g1b, w1, h1, instr),
        exec_rel(pre2, post2, g2, g2b, w2, h2, instr),
    ensures
        post1.v@[x as int] == post2.v@[x as int],
        post1.v@[15] == post2.v@[15],
{
}

/// The shift-quirk law, disabled half: with the quirk off, the shift
/// result is the secondary register's value shifted, so it depends on that
/// register.
pub proof fn lemma_shift_quirk_disabled(
    pre: CPUState,
    post: CPUState,
    g: Map<(int, int), bool>,
    g2: Map<(int, int), bool>,
    w: int,
    h: int,
    x: u8,
    y: u8,
    instr: Instruction,
)
    requires
        pre.wf(),
        x < 16,
        y < 16,
        !pre.quirks.shift,
        instr == Instruction::Shr(x, y) || instr == Instruction::Shl(x, y),
        exec_rel(pre, post, g, g2, w, h, instr),
    ensures
        instr is Shr ==> {
            &&& x != 15 ==> post.v@[x as int] == pre.v@[y as int] / 2
            &&& post.v@[15] == pre.v@[y as int] % 2
        },
        instr is Shl ==> {
            &&& x != 15 ==> post.v@[x as int] == (pre.v@[y as int] * 2) % 256
            &&& post.v@[15] == pre.v@[y as int] / 128
        },
{
}

/// The key-wait law, executing half: the instruction halts the machine,
/// records the deferral and its target register, and leaves the program
/// counter unchanged. Its resolving half is the contract of `key_down`;
/// that no step executes while halted is the halted clause of
/// `step_ok_rel`, proved by `lemma_halted_step_noop`.
pub proof fn lemma_wait_key(
    pre: CPUState,
    post: CPUState,
    g: Map<(int, int), bool>,
    g2: Map<(int, int), bool>,
    w: int,
    h: int,
    x: u8,
)
    requires
        exec_rel(pre, post, g, g2, w, h, Instruction::WaitKey(x)),
    ensures
        post.halted,
        post.waiting_kb,
        post.waiting_kb_x == Some(x),
        post.pc == pre.pc,
        post.v@ == pre.v@,
        post.mem@ == pre.mem@,
{
}

/// While the machine is halted, a step changes nothing at all.
pub proof fn lemma_halted_step_noop(
    pre: CPUState,
    post: CPUState,
    g: Map<(int, int), bool>,
    g2: Map<(int, int), bool>,
    w: int,
    h: int,
)
    requires
        pre.halted,
        step_ok_rel(pre, post, g, g2, w, h),
    ensures
        post == pre,
        g2 == g,
{
}

/// Two distinct offsets below the modulus land on distinct residues.
proof fn lemma_mod_shift_distinct(base: int, d1: int, d2: int, m: int)
    by (nonlinear_arith)
    requires
        0 <= base,
        0 <= d1 < d2,
        d2 - d1 < m,
    ensures
        (base + d1) % m != (base + d2) % m,
{
}

/// What one sprite row does to the collision flag and to the grid, bit
/// `b` onwards: the flag picks up exactly "some set bit of the row lands
/// on a set pixel", rows other than the target row are untouched, and so
/// are columns no set bit lands on. Needs a grid at least as wide as a
/// row, so that no two bits of the row land on the same pixel.
proof fn lemma_draw_bits_char(
    g: Map<(int, int), bool>,
    coll: bool,
    row: u8,
    x0: int,
    y: int,
    w: int,
    b: int,
)
    requires
        8 <= w,
        0 <= x0,
        0 <= b <= 8,
    ensures
        ({
            let res = draw_bits(g, coll, row, x0, y, w, b);
            &&& res.1 == (coll || exists|bb: int|
                b <= bb < 8 && #[trigger] sprite_bit(row, bb) && g[((x0 + bb) % w, y)])
            &&& (forall|a: int, c: int| c != y ==> #[trigger] res.0[(a, c)] == g[(a, c)])
            &&& (forall|a: int|
                (forall|bb: int| b <= bb < 8 && #[trigger] sprite_bit(row, bb) ==> (x0 + bb) % w != a)
                ==> #[trigger] res.0[(a, y)] == g[(a, y)])
        }),
    decreases 8 - b,
{
    if b >= 8 {
    } else if sprite_bit(row, b) {
        let x = (x0 + b) % w;
        let was = g[(x, y)];
        let gi = g.insert((x, y), !was);
        lemma_draw_bits_char(gi, coll || was, row, x0, y, w, b + 1);
        let res = draw_bits(g, coll, row, x0, y, w, b);
        assert(res == draw_bits(gi, coll || was, row, x0, y, w, b + 1));
        assert forall|bb: int| b + 1 <= bb < 8 && #[trigger] sprite_bit(row, bb)
            implies gi[((x0 + bb) % w, y)] == g[((x0 + bb) % w, y)] by {
            lemma_mod_shift_distinct(x0, b, bb, w);
        }
        if res.1 {
            if !coll {
                if was {
                    assert(sprite_bit(row, b) && g[((x0 + b) % w, y)]);
                } else {
                    let bb = choose|bb: int|
                        b + 1 <= bb < 8 && #[trigger] sprite_bit(row, bb) && gi[((x0 + bb) % w, y)];
                    assert(sprite_bit(row, bb) && g[((x0 + bb) % w, y)]);
                }
            }
        } else {
            assert forall|bb: int| b <= bb < 8 && #[trigger] sprite_bit(row, bb)
                implies !g[((x0 + bb) % w, y)] by {
                if bb == b {
                    assert(!was);
                } else {
                    assert(!gi[((x0 + bb) % w, y)]);
                }
            }
        }
    } else {
        lemma_draw_bits_char(g, coll, row, x0, y, w, b + 1);
        let res = draw_bits(g, coll, row, x0, y, w, b);
        assert(res == draw_bits(g, coll, row, x0, y, w, b + 1));
    }
}

/// What a whole sprite does to the collision flag, row `r` onwards: the
/// flag becomes true exactly when some set sprite bit lands on a pixel
/// that was set before the draw began. Needs a grid at least as wide as a
/// sprite row and at least as tall as the sprite, so that no two sprite
/// bits land on the same pixel.
proof fn lemma_draw_rows_char(
    g: Map<(int, int), bool>,
    coll: bool,
    sprite: Seq<u8>,
    x0: int,
    y0: int,
    w: int,
    h: int,
    r: int,
)
    requires
        8 <= w,
        0 <= x0,
        0 <= y0,
        sprite.len() <= h,
        0 <= r <= sprite.len(),
    ensures
        ({
            let res = draw_rows(g, coll, sprite, x0, y0, w, h, r);
            &&& res.1 == (coll || exists|rr: int, bb: int|
                r <= rr < sprite.len() && 0 <= bb < 8
                && #[trigger] sprite_bit(sprite[rr], bb)
                && g[((x0 + bb) % w, (y0 + rr) % h)])
            &&& (forall|a: int, c: int|
                (forall|rr: int| r <= rr < sprite.len() ==> c != #[trigger] ((y0 + rr) % h))
                ==> #[trigger] res.0[(a, c)] == g[(a, c)])
        }),
    decreases sprite.len() - r,
{
    if r >= sprite.len() {
    } else {
        let yr = (y0 + r) % h;
        let step = draw_bits(g, coll, sprite[r], x0, yr, w, 0);
        lemma_draw_bits_char(g, coll, sprite[r], x0, yr, w, 0);
        lemma_draw_rows_char(step.0, step.1, sprite, x0, y0, w, h, r + 1);
        let res = draw_rows(g, coll, sprite, x0, y0, w, h, r);
        assert(res == draw_rows(step.0, step.1, sprite, x0, y0, w, h, r + 1));
        assert forall|rr: int, bb: int|
            r + 1 <= rr < sprite.len() && 0 <= bb < 8 && #[trigger] sprite_bit(sprite[rr], bb)
            implies step.0[((x0 + bb) % w, (y0 + rr) % h)] == g[((x0 + bb) % w, (y0 + rr) % h)] by {
            lemma_mod_shift_distinct(y0, r, rr, h);
        }
        if res.1 {
            if !coll {
                if step.1 {
                    if !coll {
                        let bb = choose|bb: int|
                            0 <= bb < 8 && #[trigger] sprite_bit(sprite[r], bb) && g[((x0 + bb) % w, yr)];
                        assert(sprite_bit(sprite[r], bb) && g[((x0 + bb) % w, (y0 + r) % h)]);
                    }
                } else {
                    let (rr, bb) = choose|rr: int, bb: int|
                        r + 1 <= rr < sprite.len() && 0 <= bb < 8
                        && #[trigger] sprite_bit(sprite[rr], bb)
                        && step.0[((x0 + bb) % w, (y0 + rr) % h)];
                    assert(sprite_bit(sprite[rr], bb) && g[((x0 + bb) % w, (y0 + rr) % h)]);
                }
            }
        } else {
            assert forall|rr: int, bb: int|
                r <= rr < sprite.len() && 0 <= bb < 8 && #[trigger] sprite_bit(sprite[rr], bb)
                implies !g[((x0 + bb) % w, (y0 + rr) % h)] by {
                if rr == r {
                    assert(!g[((x0 + bb) % w, yr)]);
                } else {
                    assert(!step.0[((x0 + bb) % w, (y0 + rr) % h)]);
                }
            }
        }
    }
}

/// The draw-collision law: the flag register after a draw holds 1 exactly
/// when some set bit of the sprite landed on a pixel that was set before
/// the draw — toggling onto an entirely unset region yields VF = 0. Stated
/// for a grid at least as wide as a sprite row and at least as tall as the
/// sprite, so that no two sprite bits land on the same pixel and toggle it
/// twice.
pub proof fn lemma_draw_collision_flag(
    pre: CPUState,
    post: CPUState,
    g: Map<(int, int), bool>,
    g2: Map<(int, int), bool>,
    w: int,
    h: int,
    x: u8,
    y: u8,
    n: u8,
)
    requires
        pre.wf(),
        x < 16,
        y < 16,
        pre.i + n <= MEM_SIZE,
        8 <= w,
        n <= h,
        exec_rel(pre, post, g, g2, w, h, Instruction::Draw(x, y, n)),
    ensures
        ({
            let sprite = pre.mem@.subrange(pre.i as int, pre.i + n);
            let x0 = pre.v@[x as int] as int;
            let y0 = pre.v@[y as int] as int;
            post.v@[15] == (if exists|rr: int, bb: int|
                0 <= rr < n && 0 <= bb < 8
                && #[trigger] sprite_bit(sprite[rr], bb)
                && g[((x0 + bb) % w, (y0 + rr) % h)] { 1u8 } else { 0u8 })
        }),
{
    let sprite = pre.mem@.subrange(pre.i as int, pre.i + n);
    let x0 = pre.v@[x as int] as int;
    let y0 = pre.v@[y as int] as int;
    lemma_draw_rows_char(g, false, sprite, x0, y0, w, h, 0);
    assert(draw_result(pre, g, w, h, x, y, n) == draw_rows(g, false, sprite, x0, y0, w, h, 0));
}

} // verus!
