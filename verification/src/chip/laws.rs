use vstd::prelude::*;
use crate::chip::errors::ChipError;
use crate::chip::instruction::{decoded, Instruction};
use crate::chip::machine::{Machine, RunState};

verus! {

/// Every instruction that succeeds keeps the shape of the machine: the sizes
/// of memory, registers, key states and screen, and at most sixteen calls in
/// progress.
pub proof fn law_perform_keeps_shape(m: Machine, ins: Instruction, random: u8)
    requires
        m.wf(),
    ensures
        m.perform(ins, random) matches Ok(after) ==> after.wf(),
{
}

/// Every cycle that succeeds keeps the shape of the machine.
pub proof fn law_cycle_keeps_shape(m: Machine, random: u8)
    requires
        m.wf(),
    ensures
        m.cycle(random) matches Ok(after) ==> after.wf(),
{
    match m.run {
        RunState::AwaitingKey { target } => {},
        RunState::Running => {
            if let Ok(opcode) = m.fetched(m.pc as int) {
                if let Ok(ins) = decoded(opcode) {
                    law_perform_keeps_shape(m, ins, random);
                }
            }
        },
    }
}

/// What an instruction that succeeds does to the program counter: a jump, a
/// call or a return replaces it; a conditional skip moves it by two or by
/// four; every other instruction moves it by two.
pub proof fn law_program_counter(m: Machine, ins: Instruction, random: u8)
    requires
        m.wf(),
    ensures
        m.perform(ins, random) matches Ok(after) ==> match ins {
            Instruction::Ret => m.stack.len() > 0 && after.pc == m.stack.last(),
            Instruction::Jp { addr } | Instruction::Call { addr } => after.pc == addr,
            Instruction::JpOffset { addr } => after.pc == m.regs[0] + addr,
            Instruction::SeByte { .. }
            | Instruction::SneByte { .. }
            | Instruction::SeReg { .. }
            | Instruction::SneReg { .. }
            | Instruction::Skp { .. }
            | Instruction::Sknp { .. } => after.pc == m.pc + 2 || after.pc == m.pc + 4,
            _ => after.pc == m.pc + 2,
        },
{
}

/// Only `Cls` and `Drw` change the framebuffer, only `Drw` raises the redraw
/// flag, and no instruction lowers it.
pub proof fn law_screen_is_drawn_only(m: Machine, ins: Instruction, random: u8)
    requires
        m.wf(),
    ensures
        m.perform(ins, random) matches Ok(after) ==> {
            &&& !(ins is Cls) && !(ins is Drw) ==> after.screen == m.screen
            &&& !(ins is Drw) ==> after.redraw == m.redraw
            &&& ins is Drw ==> after.redraw
        },
{
}

/// Only calls and returns change the call stack; only `Bcd` and `Store`
/// change memory.
pub proof fn law_stack_and_memory(m: Machine, ins: Instruction, random: u8)
    requires
        m.wf(),
    ensures
        m.perform(ins, random) matches Ok(after) ==> {
            &&& !(ins is Call) && !(ins is Ret) ==> after.stack == m.stack
            &&& !(ins is Bcd) && !(ins is Store) ==> after.memory == m.memory
        },
{
}

/// The key snapshot belongs to the caller: no cycle changes it, and after a
/// cycle that succeeds it is also the previous snapshot.
pub proof fn law_keypad_is_latched(m: Machine, random: u8)
    requires
        m.wf(),
    ensures
        m.cycle(random) matches Ok(after) ==> after.keypad == m.keypad && after.prev_keypad
            == m.keypad,
{
}

/// While the machine waits for a key, a cycle fetches nothing: program
/// counter, memory, stack, index register and screen stay as they are, and
/// only the target register can change.
pub proof fn law_waiting_executes_nothing(m: Machine, random: u8)
    requires
        m.wf(),
        m.run is AwaitingKey,
    ensures
        m.cycle(random) matches Ok(after) && {
            &&& after.pc == m.pc
            &&& after.memory == m.memory
            &&& after.stack == m.stack
            &&& after.index == m.index
            &&& after.screen == m.screen
            &&& forall|r: int| 0 <= r < 16 && r != m.run->target ==> after.regs[r] == m.regs[r]
            &&& after.run is Running <==> m.first_new_key() is Some
            &&& after.run is AwaitingKey ==> after.run == m.run && after.regs == m.regs
        },
{
}

/// In a cycle that succeeds a timer above zero loses one and a timer at zero
/// stays there, unless the instruction of that cycle sets the timer: then it
/// counts down from the new value.
pub proof fn law_timers_count_down(m: Machine, random: u8)
    requires
        m.wf(),
    ensures
        m.cycle(random) matches Ok(after) ==> {
            let ins = decoded(m.fetched(m.pc as int)->Ok_0);
            let sets_delay = m.run is Running && ins matches Ok(Instruction::LdDelay { .. });
            let sets_sound = m.run is Running && ins matches Ok(Instruction::LdSound { .. });
            &&& !sets_delay ==> after.delay_timer == (if m.delay_timer > 0 {
                m.delay_timer - 1
            } else {
                0
            })
            &&& !sets_sound ==> after.sound_timer == (if m.sound_timer > 0 {
                m.sound_timer - 1
            } else {
                0
            })
        },
{
}

/// Only `Rnd` looks at the random byte.
pub proof fn law_random_only_for_rnd(m: Machine, ins: Instruction, r1: u8, r2: u8)
    requires
        !(ins is Rnd),
    ensures
        m.perform(ins, r1) == m.perform(ins, r2),
{
}

/// `8xy4` leaves the low eight bits of `Vx + Vy` in `Vx`, and sets `VF` to 1
/// if the sum is above 255 and to 0 if it is not. With `x == 15` the register
/// is the flag itself, and holds the sum. The instruction fails only where
/// the program counter cannot move on.
pub proof fn law_add_reg_carry(m: Machine, x: u8, y: u8, random: u8)
    requires
        m.wf(),
        x < 16,
        y < 16,
    ensures
        m.perform(Instruction::AddReg { x, y }, random) is Ok <==> m.pc + 2 <= 0xFFFF,
        m.perform(Instruction::AddReg { x, y }, random) matches Ok(after) ==> {
            let a = m.regs[x as int];
            let b = m.regs[y as int];
            &&& after.regs[x as int] == (a + b) % 256
            &&& x != 15 ==> after.regs[15] == (if a + b > 255 { 1u8 } else { 0u8 })
        },
{
}

/// `8xy5` leaves `(Vx - Vy) mod 256` in `Vx`, and sets `VF` to 1 if `Vx > Vy`
/// and to 0 if it is not. With `x == 15` the register is the flag itself, and
/// holds the difference.
pub proof fn law_sub_borrow(m: Machine, x: u8, y: u8, random: u8)
    requires
        m.wf(),
        x < 16,
        y < 16,
    ensures
        m.perform(Instruction::Sub { x, y }, random) is Ok <==> m.pc + 2 <= 0xFFFF,
        m.perform(Instruction::Sub { x, y }, random) matches Ok(after) ==> {
            let a = m.regs[x as int];
            let b = m.regs[y as int];
            &&& after.regs[x as int] == (a - b) % 256
            &&& x != 15 ==> after.regs[15] == (if a > b { 1u8 } else { 0u8 })
        },
{
}

/// After `00E0` every pixel is off, whatever the screen held before.
pub proof fn law_cls_blanks(m: Machine, random: u8)
    requires
        m.wf(),
    ensures
        m.perform(Instruction::Cls, random) is Ok <==> m.pc + 2 <= 0xFFFF,
        m.perform(Instruction::Cls, random) matches Ok(after) ==> forall|cy: int, cx: int|
            0 <= cy < 32 && 0 <= cx < 64 ==> !#[trigger] after.screen[cy][cx],
{
}

/// The sprite has a set pixel on the cell (`cy`, `cx`) exactly if one of its
/// pixels, at row `row < n` and column `col < 8`, is set and falls there:
/// `cy == (vy + row) mod 32` and `cx == (vx + col) mod 64`.
pub proof fn law_sprite_covers(m: Machine, vx: int, vy: int, n: int, cy: int, cx: int)
    requires
        0 <= n <= 32,
        0 <= cy < 32,
        0 <= cx < 64,
    ensures
        m.sprite_covers(vx, vy, n, cy, cx) <==> exists|row: int, col: int|
            0 <= row < n && 0 <= col < 8 && cy == (vy + row) % 32 && cx == (vx + col) % 64
                && #[trigger] m.sprite_pixel(row, col),
{
    let r = (cy - vy) % 32;
    let c = (cx - vx) % 64;
    lemma_ring(vy, r, cy, 32);
    lemma_ring(vx, c, cx, 64);
    if m.sprite_covers(vx, vy, n, cy, cx) {
        assert(0 <= r < n && 0 <= c < 8 && cy == (vy + r) % 32 && cx == (vx + c) % 64
            && m.sprite_pixel(r, c));
    }
    if exists|row: int, col: int|
        0 <= row < n && 0 <= col < 8 && cy == (vy + row) % 32 && cx == (vx + col) % 64
            && #[trigger] m.sprite_pixel(row, col) {
        let (row, col) = choose|row: int, col: int|
            0 <= row < n && 0 <= col < 8 && cy == (vy + row) % 32 && cx == (vx + col) % 64
                && #[trigger] m.sprite_pixel(row, col);
        lemma_ring(vy, row, cy, 32);
        lemma_ring(vx, col, cx, 64);
    }
}

/// On a ring of `size` cells, `c` lies `(c - v) mod size` steps after `v`,
/// and no other number of steps below `size` leads from `v` to `c`.
pub(crate) proof fn lemma_ring(v: int, k: int, c: int, size: int)
    requires
        size == 32 || size == 64,
        0 <= c < size,
    ensures
        0 <= (c - v) % size < size,
        0 <= k < size ==> (((c - v) % size == k) == (c == (v + k) % size)),
{
    let q1 = (c - v) / size;
    let r1 = (c - v) % size;
    let q2 = (v + k) / size;
    let r2 = (v + k) % size;
    assert(c - v == size * q1 + r1 && 0 <= r1 < size) by {
        vstd::arithmetic::div_mod::lemma_fundamental_div_mod(c - v, size);
        vstd::arithmetic::div_mod::lemma_mod_bound(c - v, size);
    }
    assert(v + k == size * q2 + r2 && 0 <= r2 < size) by {
        vstd::arithmetic::div_mod::lemma_fundamental_div_mod(v + k, size);
        vstd::arithmetic::div_mod::lemma_mod_bound(v + k, size);
    }
    assert(size * q1 + size * q2 == size * (q1 + q2)) by (nonlinear_arith);
    if 0 <= k < size && r1 == k {
        assert(q1 + q2 == 0) by (nonlinear_arith)
            requires
                c - r2 == size * (q1 + q2),
                -size < c - r2 < size,
                size > 0,
        ;
    }
    if 0 <= k < size && c == r2 {
        assert(q1 + q2 == 0) by (nonlinear_arith)
            requires
                k - r1 == size * (q1 + q2),
                -size < k - r1 < size,
                size > 0,
        ;
    }
}

/// Drawing the same sprite at the same place twice gives back the screen
/// from before the first draw. After the second draw `VF` tells whether the
/// second draw turned a pixel off, which it did exactly if the first draw
/// had turned one on: if the sprite has a set pixel on a cell that was dark
/// at the start.
///
/// The place is the same only where neither coordinate is read from `VF`,
/// which the first draw overwrites: hence `x` and `y` below 15.
pub proof fn law_draw_twice_restores(m: Machine, x: u8, y: u8, n: u8, r1: u8, r2: u8)
    requires
        m.wf(),
        x < 15,
        y < 15,
        n < 16,
    ensures
        m.perform(Instruction::Drw { x, y, n }, r1) matches Ok(once) ==> {
            let vx = m.regs[x as int] as int;
            let vy = m.regs[y as int] as int;
            &&& once.perform(Instruction::Drw { x, y, n }, r2) is Ok <==> m.pc + 4 <= 0xFFFF
            &&& once.perform(Instruction::Drw { x, y, n }, r2) matches Ok(twice) ==> {
                &&& twice.screen == m.screen
                &&& twice.regs[15] == (if once.sprite_collides(vx, vy, n as int) {
                    1u8
                } else {
                    0u8
                })
                &&& once.sprite_collides(vx, vy, n as int) <==> exists|cy: int, cx: int|
                    0 <= cy < 32 && 0 <= cx < 64 && !m.screen[cy][cx] && #[trigger] m.sprite_covers(
                        vx,
                        vy,
                        n as int,
                        cy,
                        cx,
                    )
            }
        },
{
    let draw = Instruction::Drw { x, y, n };
    if let Ok(once) = m.perform(draw, r1) {
        let vx = m.regs[x as int] as int;
        let vy = m.regs[y as int] as int;
        let k = n as int;
        assert(once.regs[x as int] == m.regs[x as int]);
        assert(once.regs[y as int] == m.regs[y as int]);
        assert forall|cy: int, cx: int| #[trigger]
            once.sprite_covers(vx, vy, k, cy, cx) == m.sprite_covers(vx, vy, k, cy, cx) by {}
        if once.sprite_collides(vx, vy, k) {
            let (cy, cx) = choose|cy: int, cx: int|
                0 <= cy < 32 && 0 <= cx < 64 && once.screen[cy][cx] && #[trigger] once.sprite_covers(
                    vx,
                    vy,
                    k,
                    cy,
                    cx,
                );
            assert(!m.screen[cy][cx] && m.sprite_covers(vx, vy, k, cy, cx));
        }
        if exists|cy: int, cx: int|
            0 <= cy < 32 && 0 <= cx < 64 && !m.screen[cy][cx] && #[trigger] m.sprite_covers(
                vx,
                vy,
                k,
                cy,
                cx,
            ) {
            let (cy, cx) = choose|cy: int, cx: int|
                0 <= cy < 32 && 0 <= cx < 64 && !m.screen[cy][cx] && #[trigger] m.sprite_covers(
                    vx,
                    vy,
                    k,
                    cy,
                    cx,
                );
            assert(once.screen[cy][cx] && once.sprite_covers(vx, vy, k, cy, cx));
        }
        if let Ok(twice) = once.perform(draw, r2) {
            assert(twice.screen =~~= m.screen);
        }
    }
}

/// `Fx33` writes three decimal digits that spell the value of `Vx`.
pub proof fn law_bcd_digits(m: Machine, x: u8, random: u8)
    requires
        m.wf(),
        x < 16,
    ensures
        m.perform(Instruction::Bcd { x }, random) is Ok <==> m.index + 2 <= 4095 && m.pc + 2
            <= 0xFFFF,
        m.perform(Instruction::Bcd { x }, random) matches Ok(after) ==> {
            let at = m.index as int;
            let (h, t, u) = (after.memory[at], after.memory[at + 1], after.memory[at + 2]);
            h < 10 && t < 10 && u < 10 && 100 * h + 10 * t + u == m.regs[x as int]
        },
{
}

/// The key that ends a wait is the lowest one that is down now and was up in
/// the previous cycle; there is none only if no key has just been pressed.
pub proof fn law_first_new_key(m: Machine)
    requires
        m.wf(),
    ensures
        m.first_new_key() matches Some(key) ==> key < 16 && m.newly_pressed(key as int)
            && forall|k: int| 0 <= k < key ==> !m.newly_pressed(k),
        m.first_new_key() is None ==> forall|k: int| 0 <= k < 16 ==> !m.newly_pressed(k),
{
    lemma_first_new_key_from(m, 0);
}

proof fn lemma_first_new_key_from(m: Machine, from: int)
    requires
        0 <= from <= 16,
    ensures
        m.first_new_key_from(from) matches Some(key) ==> from <= key < 16 && m.newly_pressed(
            key as int,
        ) && forall|k: int| from <= k < key ==> !m.newly_pressed(k),
        m.first_new_key_from(from) is None ==> forall|k: int| from <= k < 16 ==> !m.newly_pressed(k),
    decreases 16 - from,
{
    if from < 16 && !m.newly_pressed(from) {
        lemma_first_new_key_from(m, from + 1);
    }
}

/// The state after calling the subroutines at `targets`, each from inside
/// the one before.
pub open spec fn nested_calls(m: Machine, targets: Seq<u16>) -> Result<Machine, ChipError>
    decreases targets.len(),
{
    if targets.len() == 0 {
        Ok(m)
    } else {
        match m.perform(Instruction::Call { addr: targets.first() }, 0) {
            Ok(inner) => nested_calls(inner, targets.drop_first()),
            Err(e) => Err(e),
        }
    }
}

/// The state after returning `depth` times in a row.
pub open spec fn nested_returns(m: Machine, depth: nat) -> Result<Machine, ChipError>
    decreases depth,
{
    if depth == 0 {
        Ok(m)
    } else {
        match m.perform(Instruction::Ret, 0) {
            Ok(outer) => nested_returns(outer, (depth - 1) as nat),
            Err(e) => Err(e),
        }
    }
}

/// A call followed by a return brings the program counter to the
/// instruction right after the call, and the stack to what it was. The call
/// fails with `StackOverflow` exactly if sixteen calls are in progress.
pub proof fn law_call_then_ret(m: Machine, addr: u16, random: u8)
    requires
        m.wf(),
        addr < 0x1000,
    ensures
        m.stack.len() == 16 <==> m.perform(Instruction::Call { addr }, random) == Err::<
            Machine,
            ChipError,
        >(ChipError::StackOverflow),
        m.perform(Instruction::Call { addr }, random) is Ok <==> m.stack.len() < 16 && m.pc + 2
            <= 0xFFFF,
        m.perform(Instruction::Call { addr }, random) matches Ok(inner) ==> inner.pc == addr
            && inner.perform(Instruction::Ret, random) == Ok::<Machine, ChipError>(
            Machine { pc: (m.pc + 2) as u16, ..m },
        ),
{
    if let Ok(inner) = m.perform(Instruction::Call { addr }, random) {
        assert(inner.stack.drop_last() =~= m.stack);
    }
}

/// Calls nested up to a depth of sixteen all succeed, and as many returns
/// bring the machine back to the instruction right after the first call,
/// with the stack as it was. One call more than the stack has room for
/// fails with `StackOverflow`. Besides a full stack only a program counter
/// that has no instruction behind it makes a call fail.
pub proof fn law_nested_calls_return(m: Machine, targets: Seq<u16>)
    requires
        m.wf(),
        targets.len() >= 1,
        forall|k: int| 0 <= k < targets.len() ==> targets[k] < 0x1000,
    ensures
        nested_calls(m, targets) is Ok <==> m.stack.len() + targets.len() <= 16 && m.pc + 2
            <= 0xFFFF,
        nested_calls(m, targets) matches Ok(inner) ==> {
            &&& inner.stack.len() == m.stack.len() + targets.len()
            &&& inner.pc == targets.last()
            &&& nested_returns(inner, targets.len()) == Ok::<Machine, ChipError>(
                Machine { pc: (m.pc + 2) as u16, ..m },
            )
        },
        m.stack.len() + targets.len() > 16 && m.pc + 2 <= 0xFFFF ==> nested_calls(m, targets)
            == Err::<Machine, ChipError>(ChipError::StackOverflow),
    decreases targets.len(),
{
    let first = Instruction::Call { addr: targets.first() };
    if m.stack.len() < 16 && m.pc + 2 <= 0xFFFF {
        let inner = m.perform(first, 0)->Ok_0;
        let rest = targets.drop_first();
        law_call_then_ret(m, targets.first(), 0);
        if rest.len() == 0 {
            assert(nested_calls(inner, rest) == Ok::<Machine, ChipError>(inner));
            assert(nested_returns(inner, 1) == nested_returns(
                Machine { pc: (m.pc + 2) as u16, ..m },
                0,
            ));
        } else {
            assert(rest.last() == targets.last());
            law_nested_calls_return(inner, rest);
            if m.stack.len() + targets.len() <= 16 {
                let innermost = nested_calls(inner, rest)->Ok_0;
                let back = Machine { pc: (inner.pc + 2) as u16, ..inner };
                lemma_returns_split(innermost, rest.len(), 1);
                assert(nested_returns(back, 1) == nested_returns(
                    Machine { pc: (m.pc + 2) as u16, ..m },
                    0,
                ));
            }
        }
    }
}

/// Returning `a + b` times is returning `a` times and then `b` times.
proof fn lemma_returns_split(m: Machine, a: nat, b: nat)
    ensures
        nested_returns(m, a + b) == match nested_returns(m, a) {
            Ok(mid) => nested_returns(mid, b),
            Err(e) => Err(e),
        },
    decreases a,
{
    if a > 0 {
        if let Ok(outer) = m.perform(Instruction::Ret, 0) {
            lemma_returns_split(outer, (a - 1) as nat, b);
        }
        assert(nested_returns(m, a + b) == match m.perform(Instruction::Ret, 0) {
            Ok(outer) => nested_returns(outer, ((a + b) - 1) as nat),
            Err(e) => Err(e),
        });
    }
}

} // verus!
