//! What holds of the machine in every state: theorems about the instruction
//! semantics of `state`, each proved once and for all.
use crate::graphics::SCREEN_HEIGHT;
use crate::graphics::SCREEN_PIXELS;
use crate::instruction::lemma_decode_operands_in_range;
use crate::instruction::Instruction;
use crate::sprite::draw_collides;
use crate::sprite::draw_pixels;
use crate::sprite::lemma_pixel_index;
use crate::sprite::pixel_index;
use crate::sprite::sprite_bit;
use crate::sprite::sprite_hits;
use crate::state::bcd_digits;
use crate::state::is_lowest_pressed;
use crate::state::lemma_lowest_pressed_is;
use crate::state::lowest_pressed;
use crate::state::CpuState;
use crate::state::Fault;
use crate::state::MachineState;
use crate::state::FLAG_REGISTER;
use crate::state::REGISTER_COUNT;
use crate::state::STACK_SIZE;
use vstd::prelude::*;

verus! {

/// The instructions that skip the next instruction on a condition.
pub open spec fn is_conditional_skip(instruction: Instruction) -> bool {
    ||| instruction is SkipIfEqual
    ||| instruction is SkipIfNotEqual
    ||| instruction is SkipIfRegistersEqual
    ||| instruction is SkipIfRegistersNotEqual
    ||| instruction is SkipIfKeyPressed
    ||| instruction is SkipIfKeyNotPressed
}

/// The instructions that load the program counter instead of moving it forward.
pub open spec fn is_control_transfer(instruction: Instruction) -> bool {
    ||| instruction is Jump
    ||| instruction is JumpWithOffset
    ||| instruction is Call
    ||| instruction is Return
}

/// A cycle that can run leaves a well-formed machine well formed.
pub proof fn lemma_step_preserves_wf(m: MachineState, byte: u8)
    requires
        m.wf(),
        m.fault() is None,
    ensures
        m.step(byte).wf(),
{
    lemma_decode_operands_in_range(m.fetch());
}

/// A cycle leaves every pixel off or on: no instruction puts any other
/// value into the framebuffer.
pub proof fn lemma_step_keeps_pixels_binary(m: MachineState, byte: u8)
    requires
        m.screen.wf(),
    ensures
        m.step(byte).screen.wf(),
{
    assert forall|p: int| 0 <= p < m.screen.pixels.len() implies #[trigger] m.step(
        byte,
    ).screen.pixels[p] <= 1 by {
        let v = m.screen.pixels[p];
        assert(v <= 1 ==> v ^ 1 <= 1) by (bit_vector);
    }
}

/// Only the `random` instruction looks at the random byte: for every other
/// instruction the cycle is the same whatever the byte.
pub proof fn lemma_step_ignores_byte(m: MachineState, first: u8, second: u8)
    requires
        !(m.current() is Random),
    ensures
        m.step(first) == m.step(second),
{
}

/// The `random` instruction leaves in its register a value that has no bit
/// outside the mask.
pub proof fn lemma_random_within_mask(m: MachineState, x: usize, nn: u8, byte: u8)
    requires
        m.wf(),
        m.current() == (Instruction::Random { x, nn }),
    ensures
        m.step(byte).cpu.reg(x) & !nn == 0,
        m.step(byte).cpu.reg(x) <= nn,
{
    lemma_decode_operands_in_range(m.fetch());
    assert((byte & nn) & !nn == 0) by (bit_vector);
    assert(byte & nn <= nn) by (bit_vector);
}

/// A conditional skip moves the program counter forward by exactly two or
/// exactly four bytes: never by nothing, never by more.
pub proof fn lemma_skip_advances_by_two_or_four(m: MachineState, byte: u8)
    requires
        m.cpu.fetchable(),
        is_conditional_skip(m.current()),
    ensures
        m.step(byte).cpu.pc == m.cpu.pc + 2 || m.step(byte).cpu.pc == m.cpu.pc + 4,
{
}

/// An instruction that is no jump, call or return moves the program counter
/// forward by two or four bytes, or leaves it where it is; so a program
/// counter that was even stays even. It is left in place only by a wait for
/// a key while no key is down, and by a word that encodes no instruction.
pub proof fn lemma_program_counter_stays_aligned(m: MachineState, byte: u8)
    requires
        m.cpu.fetchable(),
        !is_control_transfer(m.current()),
    ensures
        ({
            let moved = m.step(byte).cpu.pc - m.cpu.pc;
            &&& moved == 0 || moved == 2 || moved == 4
            &&& moved == 4 ==> is_conditional_skip(m.current())
            &&& moved == 0 ==> m.current() is Unknown || (m.current() is WaitForKey
                && lowest_pressed(m.cpu.keys) is None)
        }),
        m.cpu.pc % 2 == 0 ==> m.step(byte).cpu.pc % 2 == 0,
{
}

/// `add_reg` leaves 1 in the flag register exactly when the sum of the two
/// operands exceeds 255, and 0 otherwise. Unless the destination is the flag
/// register, it receives the sum reduced to eight bits.
pub proof fn lemma_add_reg_flag(m: MachineState, x: usize, y: usize, byte: u8)
    requires
        m.wf(),
        m.current() == (Instruction::AddReg { x, y }),
    ensures
        m.step(byte).cpu.reg(FLAG_REGISTER) == 1 <==> m.cpu.reg(x) + m.cpu.reg(y) > 255,
        m.step(byte).cpu.reg(FLAG_REGISTER) == 0 <==> m.cpu.reg(x) + m.cpu.reg(y) <= 255,
        x != FLAG_REGISTER ==> m.step(byte).cpu.reg(x) == (m.cpu.reg(x) + m.cpu.reg(y)) % 256,
{
    lemma_decode_operands_in_range(m.fetch());
}

/// `sub_reg` leaves 1 in the flag register exactly when the first operand is
/// at least the second, that is, when the subtraction does not borrow, and 0
/// otherwise. Unless the destination is the flag register, it receives the
/// difference reduced to eight bits: zero for equal operands.
pub proof fn lemma_sub_reg_flag(m: MachineState, x: usize, y: usize, byte: u8)
    requires
        m.wf(),
        m.current() == (Instruction::SubReg { x, y }),
    ensures
        m.step(byte).cpu.reg(FLAG_REGISTER) == 1 <==> m.cpu.reg(x) >= m.cpu.reg(y),
        m.step(byte).cpu.reg(FLAG_REGISTER) == 0 <==> m.cpu.reg(x) < m.cpu.reg(y),
        x != FLAG_REGISTER ==> m.step(byte).cpu.reg(x) == (m.cpu.reg(x) - m.cpu.reg(y)) % 256,
        x != FLAG_REGISTER && m.cpu.reg(x) == m.cpu.reg(y) ==> m.step(byte).cpu.reg(x) == 0,
        x != FLAG_REGISTER && m.cpu.reg(x) < m.cpu.reg(y) ==> m.step(byte).cpu.reg(x) == m.cpu.reg(
            x,
        ) - m.cpu.reg(y) + 256,
{
    lemma_decode_operands_in_range(m.fetch());
}

/// `sub_reg_reversed` leaves 1 in the flag register exactly when the second
/// operand is at least the first, and 0 otherwise.
pub proof fn lemma_sub_reg_reversed_flag(m: MachineState, x: usize, y: usize, byte: u8)
    requires
        m.wf(),
        m.current() == (Instruction::SubRegReversed { x, y }),
    ensures
        m.step(byte).cpu.reg(FLAG_REGISTER) == 1 <==> m.cpu.reg(y) >= m.cpu.reg(x),
        m.step(byte).cpu.reg(FLAG_REGISTER) == 0 <==> m.cpu.reg(y) < m.cpu.reg(x),
        x != FLAG_REGISTER ==> m.step(byte).cpu.reg(x) == (m.cpu.reg(y) - m.cpu.reg(x)) % 256,
{
    lemma_decode_operands_in_range(m.fetch());
}

/// A shift leaves in the flag register the bit that fell out of the shifted
/// register: the lowest bit for a right shift, the highest for a left shift.
pub proof fn lemma_shift_flag(m: MachineState, x: usize, y: usize, byte: u8)
    requires
        m.wf(),
        x != FLAG_REGISTER,
    ensures
        m.current() == (Instruction::ShiftRight { x, y }) ==> {
            &&& m.step(byte).cpu.reg(FLAG_REGISTER) == m.cpu.reg(x) % 2
            &&& m.step(byte).cpu.reg(x) == m.cpu.reg(x) / 2
        },
        m.current() == (Instruction::ShiftLeft { x, y }) ==> {
            &&& m.step(byte).cpu.reg(FLAG_REGISTER) == m.cpu.reg(x) / 128
            &&& m.step(byte).cpu.reg(x) == (m.cpu.reg(x) * 2) % 256
        },
{
    lemma_decode_operands_in_range(m.fetch());
}

/// A call is refused for want of room exactly when the stack is full, and a
/// return for want of an address exactly when it is empty.
pub proof fn lemma_stack_faults(s: CpuState, addr: u16)
    requires
        s.wf(),
    ensures
        s.fault_of(Instruction::Call { addr }) == (if s.sp == STACK_SIZE {
            Some(Fault::StackOverflow)
        } else {
            None
        }),
        s.fault_of(Instruction::Return) == (if s.sp == 0 {
            Some(Fault::StackUnderflow)
        } else {
            None
        }),
{
}

/// A call followed by a return restores the program counter and the stack
/// pointer that the call found: nothing differs but the stack slot that the
/// call wrote.
pub proof fn lemma_call_then_return(s: CpuState, addr: u16)
    requires
        s.wf(),
        s.sp < STACK_SIZE,
    ensures
        s.call(addr).wf(),
        s.call(addr).pc == addr,
        s.call(addr).sp == s.sp + 1,
        s.call(addr).subroutine_return() == (CpuState {
            stack: s.stack.update(s.sp as int, s.pc),
            ..s
        }),
        s.call(addr).subroutine_return().pc == s.pc,
{
}

/// As many nested calls as the stack has room for all succeed, and each
/// takes one slot: after them the stack pointer has grown by their number.
/// From an empty stack, sixteen calls fill the stack to its capacity, and
/// the next call is refused.
pub proof fn lemma_nested_calls(s: CpuState, addrs: Seq<u16>)
    requires
        s.wf(),
        s.sp + addrs.len() <= STACK_SIZE,
    ensures
        s.nested_calls(addrs).wf(),
        s.nested_calls(addrs).sp == s.sp + addrs.len(),
        forall|i: int|
            0 <= i < addrs.len() ==> (#[trigger] s.nested_calls(addrs.take(i))).fault_of(
                Instruction::Call { addr: addrs[i] },
            ) is None,
        s.sp + addrs.len() == STACK_SIZE ==> forall|addr: u16|
            #[trigger] s.nested_calls(addrs).fault_of(Instruction::Call { addr }) == Some(
                Fault::StackOverflow,
            ),
    decreases addrs.len(),
{
    if addrs.len() == 0 {
        assert forall|i: int| 0 <= i < addrs.len() implies (#[trigger] s.nested_calls(
            addrs.take(i),
        )).fault_of(Instruction::Call { addr: addrs[i] }) is None by {}
    } else {
        let rest = addrs.drop_first();
        let next = s.call(addrs[0]);
        lemma_nested_calls(next, rest);
        assert forall|i: int| 0 <= i < addrs.len() implies (#[trigger] s.nested_calls(
            addrs.take(i),
        )).fault_of(Instruction::Call { addr: addrs[i] }) is None by {
            if i == 0 {
                assert(addrs.take(0).len() == 0);
            } else {
                assert(addrs.take(i).drop_first() =~= rest.take(i - 1));
                assert(addrs.take(i)[0] == addrs[0]);
                assert(s.nested_calls(addrs.take(i)) == next.nested_calls(rest.take(i - 1)));
                assert(rest[i - 1] == addrs[i]);
            }
        }
    }
}

/// Nested calls followed by as many returns restore the program counter and
/// the stack pointer that the first call found.
pub proof fn lemma_nested_calls_then_returns(s: CpuState, addrs: Seq<u16>)
    requires
        s.wf(),
        s.sp + addrs.len() <= STACK_SIZE,
    ensures
        s.nested_calls(addrs).nested_returns(addrs.len()).pc == s.pc,
        s.nested_calls(addrs).nested_returns(addrs.len()).sp == s.sp,
{
    lemma_nested_calls_keep_lower_stack(s, addrs);
    lemma_nested_returns(s.nested_calls(addrs), addrs.len());
    if addrs.len() > 0 {
        lemma_nested_returns_last(s.nested_calls(addrs), addrs.len());
    }
}

/// Nested calls write only stack slots from the stack pointer upwards, and
/// the first of them saves the program counter it found.
proof fn lemma_nested_calls_keep_lower_stack(s: CpuState, addrs: Seq<u16>)
    requires
        s.wf(),
        s.sp + addrs.len() <= STACK_SIZE,
    ensures
        s.nested_calls(addrs).sp == s.sp + addrs.len(),
        s.nested_calls(addrs).stack.len() == STACK_SIZE,
        forall|i: int| 0 <= i < s.sp ==> s.nested_calls(addrs).stack[i] == s.stack[i],
        addrs.len() > 0 ==> s.nested_calls(addrs).stack[s.sp as int] == s.pc,
        addrs.len() == 0 ==> s.nested_calls(addrs) == s,
    decreases addrs.len(),
{
    if addrs.len() > 0 {
        let next = s.call(addrs[0]);
        let rest = addrs.drop_first();
        lemma_nested_calls_keep_lower_stack(next, rest);
        assert(s.nested_calls(addrs) == next.nested_calls(rest));
        assert(next.stack[s.sp as int] == s.pc);
        assert forall|i: int| 0 <= i < s.sp implies s.nested_calls(addrs).stack[i] == s.stack[i] by {
            assert(next.nested_calls(rest).stack[i] == next.stack[i]);
        }
    }
}

/// Returns pop one address each.
proof fn lemma_nested_returns(s: CpuState, n: nat)
    requires
        n <= s.sp,
    ensures
        s.nested_returns(n).sp == s.sp - n,
        s.nested_returns(n).stack == s.stack,
    decreases n,
{
    if n > 0 {
        lemma_nested_returns(s.subroutine_return(), (n - 1) as nat);
    }
}

/// The last of `n` returns loads the address in the slot `n` below the
/// stack pointer.
proof fn lemma_nested_returns_last(s: CpuState, n: nat)
    requires
        0 < n <= s.sp,
    ensures
        s.nested_returns(n).pc == s.stack[s.sp - n],
    decreases n,
{
    if n > 1 {
        lemma_nested_returns_last(s.subroutine_return(), (n - 1) as nat);
    } else {
        assert(s.subroutine_return().nested_returns(0) == s.subroutine_return());
    }
}

/// Whether a sprite has a set bit at all.
pub open spec fn sprite_has_ink(sprite: Seq<u8>) -> bool {
    exists|row: int, col: int|
        0 <= row < sprite.len() && 0 <= col < 8 && #[trigger] sprite_bit(sprite[row], col as u8)
}

/// Drawing is its own inverse: a sprite drawn twice at the same place leaves
/// the framebuffer as it was. The second drawing reports a collision exactly
/// when some pixel under the sprite was off before the first.
pub proof fn lemma_draw_twice(pixels: Seq<u8>, sprite: Seq<u8>, vx: u8, vy: u8)
    requires
        pixels.len() == SCREEN_PIXELS,
    ensures
        draw_pixels(draw_pixels(pixels, sprite, vx, vy), sprite, vx, vy) == pixels,
        draw_collides(draw_pixels(pixels, sprite, vx, vy), sprite, vx, vy) <==> exists|p: int|
            0 <= p < pixels.len() && #[trigger] sprite_hits(sprite, vx, vy, p) && pixels[p] == 0,
{
    let once = draw_pixels(pixels, sprite, vx, vy);
    let twice = draw_pixels(once, sprite, vx, vy);
    assert forall|p: int| 0 <= p < pixels.len() implies twice[p] == pixels[p] by {
        let v = pixels[p];
        assert((v ^ 1) ^ 1 == v) by (bit_vector);
    }
    assert(twice =~= pixels);
    assert forall|p: int| 0 <= p < pixels.len() && sprite_hits(sprite, vx, vy, p) implies (once[p]
        == 1 <==> pixels[p] == 0) by {
        let v = pixels[p];
        assert((v ^ 1 == 1) == (v == 0)) by (bit_vector);
    }
    if draw_collides(once, sprite, vx, vy) {
        let p = choose|p: int|
            0 <= p < once.len() && #[trigger] sprite_hits(sprite, vx, vy, p) && once[p] == 1;
        assert(sprite_hits(sprite, vx, vy, p) && pixels[p] == 0);
    }
    if exists|p: int|
        0 <= p < pixels.len() && #[trigger] sprite_hits(sprite, vx, vy, p) && pixels[p] == 0 {
        let p = choose|p: int|
            0 <= p < pixels.len() && #[trigger] sprite_hits(sprite, vx, vy, p) && pixels[p] == 0;
        assert(sprite_hits(sprite, vx, vy, p) && once[p] == 1);
    }
}

/// A sprite with at least one set bit, drawn twice at the same place over
/// pixels that were all off, collides with itself on the second drawing, and
/// every pixel under it is off again afterwards.
pub proof fn lemma_draw_twice_over_blank(pixels: Seq<u8>, sprite: Seq<u8>, vx: u8, vy: u8)
    requires
        pixels.len() == SCREEN_PIXELS,
        sprite.len() <= SCREEN_HEIGHT,
        sprite_has_ink(sprite),
        forall|p: int|
            0 <= p < pixels.len() && #[trigger] sprite_hits(sprite, vx, vy, p) ==> pixels[p] == 0,
    ensures
        !draw_collides(pixels, sprite, vx, vy),
        draw_collides(draw_pixels(pixels, sprite, vx, vy), sprite, vx, vy),
        forall|p: int|
            0 <= p < pixels.len() && #[trigger] sprite_hits(sprite, vx, vy, p) ==> draw_pixels(
                draw_pixels(pixels, sprite, vx, vy),
                sprite,
                vx,
                vy,
            )[p] == 0,
{
    lemma_draw_twice(pixels, sprite, vx, vy);
    let (row, col) = choose|row: int, col: int|
        0 <= row < sprite.len() && 0 <= col < 8 && #[trigger] sprite_bit(sprite[row], col as u8);
    lemma_pixel_index(vx, vy, row, col);
    let p = pixel_index(vx, vy, row, col);
    assert(sprite_hits(sprite, vx, vy, p));
}

/// The `draw` instruction run twice with the same operands, where neither
/// coordinate register is the flag register: the picture is as before the
/// first run, and the flag register tells whether some pixel under the
/// sprite was off before the first run.
pub proof fn lemma_draw_instruction_twice(m: MachineState, x: usize, y: usize, n: u16)
    requires
        m.wf(),
        x < REGISTER_COUNT,
        y < REGISTER_COUNT,
        x != FLAG_REGISTER,
        y != FLAG_REGISTER,
    ensures
        m.draw(x, y, n).draw(x, y, n).screen.pixels == m.screen.pixels,
        m.draw(x, y, n).draw(x, y, n).screen.draw_flag,
        m.draw(x, y, n).draw(x, y, n).cpu.reg(FLAG_REGISTER) == 1 <==> exists|p: int|
            0 <= p < SCREEN_PIXELS && #[trigger] sprite_hits(
                m.sprite(n),
                m.cpu.reg(x),
                m.cpu.reg(y),
                p,
            ) && m.screen.pixels[p] == 0,
{
    let once = m.draw(x, y, n);
    assert(once.sprite(n) =~= m.sprite(n));
    lemma_draw_twice(m.screen.pixels, m.sprite(n), m.cpu.reg(x), m.cpu.reg(y));
}

/// The three bytes that `store_bcd` writes are the decimal digits of the
/// value: each is below ten, and together they spell the value.
pub proof fn lemma_bcd_digits(value: u8)
    ensures
        bcd_digits(value).len() == 3,
        forall|i: int| 0 <= i < 3 ==> #[trigger] bcd_digits(value)[i] < 10,
        100 * bcd_digits(value)[0] + 10 * bcd_digits(value)[1] + bcd_digits(value)[2] == value,
{
}

/// While no key is down, a wait for a key changes nothing but the timers:
/// the program counter stays, and so the next cycle finds the same
/// instruction.
pub proof fn lemma_wait_for_key_idle(m: MachineState, byte: u8)
    requires
        m.current() is WaitForKey,
        forall|k: int| 0 <= k < m.cpu.keys.len() ==> !m.cpu.keys[k],
    ensures
        m.step(byte) == m.with_cpu(m.cpu.tick()),
        m.step(byte).cpu.pc == m.cpu.pc,
        m.step(byte).current() == m.current(),
{
}

/// However many cycles run while no key is down, a wait for a key keeps the
/// program counter, the registers and the memory as they were.
pub proof fn lemma_wait_for_key_idle_forever(m: MachineState, bytes: Seq<u8>)
    requires
        m.current() is WaitForKey,
        forall|k: int| 0 <= k < m.cpu.keys.len() ==> !m.cpu.keys[k],
    ensures
        m.run(bytes).cpu.pc == m.cpu.pc,
        m.run(bytes).cpu.registers == m.cpu.registers,
        m.run(bytes).cpu.keys == m.cpu.keys,
        m.run(bytes).memory == m.memory,
        m.run(bytes).screen == m.screen,
        m.run(bytes).current() == m.current(),
    decreases bytes.len(),
{
    if bytes.len() > 0 {
        lemma_wait_for_key_idle(m, bytes[0]);
        lemma_wait_for_key_idle_forever(m.step(bytes[0]), bytes.drop_first());
    }
}

/// With a key down, a wait for a key stores the smallest code of a key that
/// is down and moves the program counter forward by two bytes.
pub proof fn lemma_wait_for_key_pressed(m: MachineState, x: usize, k: int, byte: u8)
    requires
        m.wf(),
        m.cpu.fetchable(),
        m.current() == (Instruction::WaitForKey { x }),
        is_lowest_pressed(m.cpu.keys, k),
    ensures
        m.step(byte).cpu.pc == m.cpu.pc + 2,
        m.step(byte).cpu.reg(x) == k,
{
    lemma_decode_operands_in_range(m.fetch());
    lemma_lowest_pressed_is(m.cpu.keys, k);
}

/// Each timer that is not zero counts down by exactly one per cycle, unless
/// the instruction of that cycle sets it; a timer at zero stays there.
pub proof fn lemma_timers_count_down(m: MachineState, byte: u8)
    ensures
        !(m.current() is SetDelay) ==> m.step(byte).cpu.delay_timer == (if m.cpu.delay_timer > 0 {
            m.cpu.delay_timer - 1
        } else {
            0
        }),
        !(m.current() is SetSound) ==> m.step(byte).cpu.sound_timer == (if m.cpu.sound_timer > 0 {
            m.cpu.sound_timer - 1
        } else {
            0
        }),
{
}

} // verus!
