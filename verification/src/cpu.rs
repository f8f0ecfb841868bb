//! The processor: registers, call stack, timers and keypad, and the engine
//! that runs one instruction per cycle.
use crate::graphics::Graphics;
use crate::graphics::Screen;
use crate::graphics::SCREEN_HEIGHT;
use crate::graphics::SCREEN_PIXELS;
use crate::graphics::SCREEN_WIDTH;
use crate::instruction::decode;
use crate::instruction::Instruction;
use crate::instruction::CODE_TYPE_MASK;
use crate::memory::Memory;
use crate::memory::MEMORY_SIZE;
use crate::sprite::draw_collides_before;
use crate::sprite::draw_pixels_before;
use crate::sprite::lemma_draw_done;
use crate::sprite::lemma_draw_extend;
use crate::sprite::lemma_draw_next_row;
use crate::sprite::lemma_draw_start;
use crate::state::bcd_digits;
use crate::state::flag;
use crate::state::lemma_lowest_pressed_is;
use crate::state::lemma_none_pressed;
use crate::state::store_bytes;
use crate::state::unsupported_reason;
use crate::state::CpuState;
use crate::state::Fault;
use crate::state::MachineState;
use crate::state::FLAG_REGISTER;
use crate::state::GLYPH_SIZE;
use crate::state::KEY_COUNT;
use crate::state::PROGRAM_START;
use crate::state::REGISTER_COUNT;
use crate::state::STACK_SIZE;
use crate::state::V0_REGISTER;
use vstd::prelude::*;

verus! {

/// The processor of the machine.
pub struct CPU {
    index: u16,
    pub pc: u16,
    registers: [u8; REGISTER_COUNT],
    stack: [u16; STACK_SIZE],
    key: [bool; KEY_COUNT],
    sp: u16,
    delay_timer: u8,
    sound_timer: u8,
}

impl View for CPU {
    type V = CpuState;

    closed spec fn view(&self) -> CpuState {
        CpuState {
            index: self.index,
            pc: self.pc,
            registers: self.registers@,
            stack: self.stack@,
            keys: self.key@,
            sp: self.sp,
            delay_timer: self.delay_timer,
            sound_timer: self.sound_timer,
        }
    }
}

/// The machine that a processor, a memory and a framebuffer make up.
pub open spec fn machine_state(cpu: &CPU, memory: &Memory, gr: &Graphics) -> MachineState {
    MachineState { cpu: cpu@, memory: memory@, screen: gr@ }
}

/// Calls `rand::random::<u8>()`, which draws a byte from the generator that
/// the `rand` crate keeps for the current thread. Nothing is claimed of the
/// byte. The generator seeds itself from the operating system on first use
/// and aborts the thread if that source is not available.
#[verifier::external_body]
fn random_byte() -> (byte: u8) {
    rand::random::<u8>()
}

impl CPU {
    /// The stack pointer does not exceed the stack's capacity.
    pub open spec fn wf(&self) -> bool {
        self@.wf()
    }

    /// A processor that was just switched on.
    pub fn new() -> (cpu: CPU)
        ensures
            cpu@ == CpuState::power_on(),
            cpu.wf(),
    {
        let cpu = CPU {
            index: 0x0,
            pc: PROGRAM_START,
            registers: [0x0;REGISTER_COUNT],
            stack: [0x0;STACK_SIZE],
            key: [false;KEY_COUNT],
            sp: 0x0,
            delay_timer: 0x0,
            sound_timer: 0x0,
        };
        proof {
            assert(cpu@.registers =~= CpuState::power_on().registers);
            assert(cpu@.stack =~= CpuState::power_on().stack);
            assert(cpu@.keys =~= CpuState::power_on().keys);
        }
        cpu
    }

    /// The program counter.
    pub fn pc(&self) -> (pc: u16)
        ensures
            pc == self@.pc,
    {
        self.pc
    }

    /// The index register.
    pub fn index(&self) -> (index: u16)
        ensures
            index == self@.index,
    {
        self.index
    }

    /// The value of register `r_x`.
    pub fn register(&self, r_x: usize) -> (value: u8)
        requires
            r_x < REGISTER_COUNT,
        ensures
            value == self@.reg(r_x),
    {
        self.registers[r_x]
    }

    /// The number of return addresses on the call stack.
    pub fn sp(&self) -> (sp: u16)
        ensures
            sp == self@.sp,
    {
        self.sp
    }

    /// The delay timer.
    pub fn delay_timer(&self) -> (ticks: u8)
        ensures
            ticks == self@.delay_timer,
    {
        self.delay_timer
    }

    /// The sound timer. A tone lasts while it is not zero; the cycle that
    /// starts with the timer at 1 is the one that ends the tone.
    pub fn sound_timer(&self) -> (ticks: u8)
        ensures
            ticks == self@.sound_timer,
            (ticks == 1) == self@.sound_due(),
    {
        self.sound_timer
    }

    /// Whether key `key` is held down.
    pub fn key(&self, key: usize) -> (pressed: bool)
        requires
            key < KEY_COUNT,
        ensures
            pressed == self@.keys[key as int],
    {
        self.key[key]
    }

    /// Records that key `key` went down or came up. The keypad belongs to the
    /// driver: the processor only reads it.
    pub fn key_set(&mut self, key: usize, pressed: bool)
        requires
            key < KEY_COUNT,
        ensures
            final(self)@ == old(self)@.with_key(key, pressed),
    {
        self.key[key] = pressed;
    }

    /// Tells whether the next cycle can run, and if not, why. A driver that
    /// cannot rule faults out by other means asks before every cycle.
    pub fn fault(&self, memory: &Memory) -> (fault: Option<Fault>)
        ensures
            fault == self@.fault(memory@),
    {
        if self.pc >= 0x0FFF {
            return Some(Fault::AddressOutOfRange);
        }
        let index: usize = self.index as usize;
        match decode(self.fetch(memory)) {
            Instruction::Return if self.sp == 0 => Some(Fault::StackUnderflow),
            Instruction::Call { addr: _ } if self.sp as usize >= STACK_SIZE => Some(
                Fault::StackOverflow,
            ),
            Instruction::StoreBcd { x: _ } if index + 2 >= MEMORY_SIZE => Some(
                Fault::AddressOutOfRange,
            ),
            Instruction::RegisterDump { x } if index + x >= MEMORY_SIZE => Some(
                Fault::AddressOutOfRange,
            ),
            Instruction::RegisterLoad { x } if index + x >= MEMORY_SIZE => Some(
                Fault::AddressOutOfRange,
            ),
            Instruction::Draw { x: _, y: _, n } if n > 0 && index + n as usize > MEMORY_SIZE => Some(
                Fault::AddressOutOfRange,
            ),
            Instruction::SkipIfKeyPressed { x } if self.registers[x] as usize >= KEY_COUNT => Some(
                Fault::KeyOutOfRange,
            ),
            Instruction::SkipIfKeyNotPressed { x } if self.registers[x] as usize >= KEY_COUNT => Some(
                Fault::KeyOutOfRange,
            ),
            _ => None,
        }
    }

    /// Runs one cycle: fetches the instruction at the program counter,
    /// performs it, and lets both timers count down. A word that encodes no
    /// instruction is reported as an error and has no effect of its own; the
    /// timers count down all the same.
    ///
    /// The `random` instruction draws a byte from the thread's random number
    /// generator. To the caller the cycle is then one of the 256 cycles that
    /// `MachineState::step` describes, and nothing tells which.
    pub fn execute(&mut self, memory: &mut Memory, gr: &mut Graphics) -> (result: Result<
        (),
        &'static str,
    >)
        requires
            old(self).wf(),
            old(self)@.fault(old(memory)@) is None,
        ensures
            final(self).wf(),
            exists|byte: u8|
                machine_state(final(self), final(memory), final(gr)) == #[trigger] machine_state(
                    old(self),
                    old(memory),
                    old(gr),
                ).step(byte),
            result is Err <==> machine_state(old(self), old(memory), old(gr)).unsupported(),
            result matches Err(reason) ==> reason@ == unsupported_reason(
                old(self)@.fetch(old(memory)@),
            ),
    {
        proof {
            memory.lemma_len();
            gr.lemma_len();
        }
        let ghost before = machine_state(self, memory, gr);
        let ghost mut byte: u8 = 0;
        let opcode: u16 = self.fetch(memory);

        let result: Result<(), &'static str> = match decode(opcode) {
            Instruction::ClearDisplay => {
                self.disp_clear(gr);
                Ok(())
            },
            Instruction::Return => {
                self.subrouting_return();
                Ok(())
            },
            Instruction::Jump { addr } => {
                self.goto(addr);
                Ok(())
            },
            Instruction::Call { addr } => {
                self.subrouting_call(addr);
                Ok(())
            },
            Instruction::SkipIfEqual { x, nn } => {
                self.if_equal_skip(x, nn);
                Ok(())
            },
            Instruction::SkipIfNotEqual { x, nn } => {
                self.if_not_equal_skip(x, nn);
                Ok(())
            },
            Instruction::SkipIfRegistersEqual { x, y } => {
                self.if_x_y_equal_skip(x, y);
                Ok(())
            },
            Instruction::SetRegister { x, nn } => {
                self.reg_set(x, nn);
                Ok(())
            },
            Instruction::AddImmediate { x, nn } => {
                self.reg_add(x, nn);
                Ok(())
            },
            Instruction::Assign { x, y } => {
                self.reg_assing(x, y);
                Ok(())
            },
            Instruction::Or { x, y } => {
                self.bit_or(x, y);
                Ok(())
            },
            Instruction::And { x, y } => {
                self.bit_and(x, y);
                Ok(())
            },
            Instruction::Xor { x, y } => {
                self.bit_xor(x, y);
                Ok(())
            },
            Instruction::AddReg { x, y } => {
                self.math_add(x, y);
                Ok(())
            },
            Instruction::SubReg { x, y } => {
                self.math_sub(x, y);
                Ok(())
            },
            Instruction::ShiftRight { x, y } => {
                self.bit_right_shift(x, y);
                Ok(())
            },
            Instruction::SubRegReversed { x, y } => {
                self.math_dif_sub(x, y);
                Ok(())
            },
            Instruction::ShiftLeft { x, y } => {
                self.bit_left_shift(x, y);
                Ok(())
            },
            Instruction::SkipIfRegistersNotEqual { x, y } => {
                self.if_not_x_y_equal_skip(x, y);
                Ok(())
            },
            Instruction::SetIndex { addr } => {
                self.index_set(addr);
                Ok(())
            },
            Instruction::JumpWithOffset { addr } => {
                self.jump(addr);
                Ok(())
            },
            Instruction::Random { x, nn } => {
                let drawn: u8 = random_byte();
                proof {
                    byte = drawn;
                }
                self.bitwise_random(x, nn, drawn);
                Ok(())
            },
            Instruction::Draw { x, y, n } => {
                self.draw(memory, gr, x, y, n);
                Ok(())
            },
            Instruction::SkipIfKeyPressed { x } => {
                self.key_pressed(x);
                Ok(())
            },
            Instruction::SkipIfKeyNotPressed { x } => {
                self.other_key_pressed(x);
                Ok(())
            },
            Instruction::GetDelay { x } => {
                self.delay_get(x);
                Ok(())
            },
            Instruction::WaitForKey { x } => {
                self.key_await(x);
                Ok(())
            },
            Instruction::SetDelay { x } => {
                self.delay_set(x);
                Ok(())
            },
            Instruction::SetSound { x } => {
                self.sound_timer_set(x);
                Ok(())
            },
            Instruction::AddToIndex { x } => {
                self.index_add(x);
                Ok(())
            },
            Instruction::SpriteLocationSet { x } => {
                self.sprite_location_set(x);
                Ok(())
            },
            Instruction::StoreBcd { x } => {
                self.bcd_set(memory, x);
                Ok(())
            },
            Instruction::RegisterDump { x } => {
                self.reg_dump(memory, x);
                Ok(())
            },
            Instruction::RegisterLoad { x } => {
                self.reg_load(memory, x);
                Ok(())
            },
            Instruction::Unknown => {
                assert((opcode & 0xF000 == 0) == (opcode / 0x1000 == 0)) by (bit_vector);
                if opcode & CODE_TYPE_MASK == 0 {
                    Err("")
                } else {
                    Err("Unknown command")
                }
            },
        };
        assert(machine_state(self, memory, gr) == before.perform(before.current(), byte));

        if self.delay_timer > 0 {
            self.delay_timer -= 1;
        }
        if self.sound_timer > 0 {
            self.sound_timer -= 1;
        }
        assert(machine_state(self, memory, gr) == before.step(byte));
        result
    }

    fn fetch(&self, memory: &Memory) -> (word: u16)
        requires
            self@.fetchable(),
        ensures
            word == self@.fetch(memory@),
    {
        let high: u8 = memory.mem_read(self.pc);
        let low: u8 = memory.mem_read(self.pc + 1);
        assert((high as u16) << 8 | low as u16 == high * 256 + low) by (bit_vector);
        (high as u16) << 8 | low as u16
    }

    fn pc_next(&mut self)
        requires
            old(self)@.pc + 2 <= u16::MAX,
        ensures
            final(self)@ == old(self)@.advance(2),
    {
        self.pc = self.pc + 2;
    }

    fn goto(&mut self, addr: u16)
        ensures
            final(self)@ == old(self)@.jump(addr),
    {
        self.pc = addr;
    }

    fn disp_clear(&mut self, gr: &mut Graphics)
        requires
            old(self)@.pc + 2 <= u16::MAX,
        ensures
            final(self)@ == old(self)@.advance(2),
            final(gr)@ == (Screen { pixels: Screen::blank().pixels, ..old(gr)@ }),
    {
        gr.clear();
        self.pc_next();
    }

    fn subrouting_return(&mut self)
        requires
            old(self).wf(),
            old(self)@.sp != 0,
        ensures
            final(self)@ == old(self)@.subroutine_return(),
            final(self).wf(),
    {
        self.sp = self.sp - 1;
        self.pc = self.stack[self.sp as usize];
    }

    fn subrouting_call(&mut self, addr: u16)
        requires
            old(self).wf(),
            old(self)@.sp < STACK_SIZE,
        ensures
            final(self)@ == old(self)@.call(addr),
            final(self).wf(),
    {
        self.stack[self.sp as usize] = self.pc;
        self.sp = self.sp + 1;
        self.pc = addr;
    }

    fn if_equal_skip(&mut self, r_x: usize, nn: u8)
        requires
            r_x < REGISTER_COUNT,
            old(self)@.pc + 4 <= u16::MAX,
        ensures
            final(self)@ == old(self)@.skip_if_equal(r_x, nn),
    {
        if self.registers[r_x] == nn {
            self.pc_next();
        }
        self.pc_next();
    }

    fn if_x_y_equal_skip(&mut self, r_x: usize, r_y: usize)
        requires
            r_x < REGISTER_COUNT,
            r_y < REGISTER_COUNT,
            old(self)@.pc + 4 <= u16::MAX,
        ensures
            final(self)@ == old(self)@.skip_if_registers_equal(r_x, r_y),
    {
        if self.registers[r_x] == self.registers[r_y] {
            self.pc_next();
        }
        self.pc_next();
    }

    fn if_not_x_y_equal_skip(&mut self, r_x: usize, r_y: usize)
        requires
            r_x < REGISTER_COUNT,
            r_y < REGISTER_COUNT,
            old(self)@.pc + 4 <= u16::MAX,
        ensures
            final(self)@ == old(self)@.skip_if_registers_not_equal(r_x, r_y),
    {
        if self.registers[r_x] != self.registers[r_y] {
            self.pc_next();
        }
        self.pc_next();
    }

    fn if_not_equal_skip(&mut self, r_x: usize, nn: u8)
        requires
            r_x < REGISTER_COUNT,
            old(self)@.pc + 4 <= u16::MAX,
        ensures
            final(self)@ == old(self)@.skip_if_not_equal(r_x, nn),
    {
        if self.registers[r_x] != nn {
            self.pc_next();
        }
        self.pc_next();
    }

    fn reg_set(&mut self, r_x: usize, nn: u8)
        requires
            r_x < REGISTER_COUNT,
            old(self)@.pc + 2 <= u16::MAX,
        ensures
            final(self)@ == old(self)@.set_register(r_x, nn),
    {
        self.registers[r_x] = nn;
        self.pc_next();
    }

    fn reg_add(&mut self, r_x: usize, nn: u8)
        requires
            r_x < REGISTER_COUNT,
            old(self)@.pc + 2 <= u16::MAX,
        ensures
            final(self)@ == old(self)@.add_immediate(r_x, nn),
    {
        self.registers[r_x] = self.registers[r_x].wrapping_add(nn);
        self.pc_next();
    }

    fn reg_assing(&mut self, r_x: usize, r_y: usize)
        requires
            r_x < REGISTER_COUNT,
            r_y < REGISTER_COUNT,
            old(self)@.pc + 2 <= u16::MAX,
        ensures
            final(self)@ == old(self)@.assign(r_x, r_y),
    {
        self.registers[r_x] = self.registers[r_y];
        self.pc_next();
    }

    fn bit_or(&mut self, r_x: usize, r_y: usize)
        requires
            r_x < REGISTER_COUNT,
            r_y < REGISTER_COUNT,
            old(self)@.pc + 2 <= u16::MAX,
        ensures
            final(self)@ == old(self)@.bit_or(r_x, r_y),
    {
        self.registers[r_x] = self.registers[r_x] | self.registers[r_y];
        self.pc_next();
    }

    fn bit_and(&mut self, r_x: usize, r_y: usize)
        requires
            r_x < REGISTER_COUNT,
            r_y < REGISTER_COUNT,
            old(self)@.pc + 2 <= u16::MAX,
        ensures
            final(self)@ == old(self)@.bit_and(r_x, r_y),
    {
        self.registers[r_x] = self.registers[r_x] & self.registers[r_y];
        self.pc_next();
    }

    fn bit_xor(&mut self, r_x: usize, r_y: usize)
        requires
            r_x < REGISTER_COUNT,
            r_y < REGISTER_COUNT,
            old(self)@.pc + 2 <= u16::MAX,
        ensures
            final(self)@ == old(self)@.bit_xor(r_x, r_y),
    {
        self.registers[r_x] = self.registers[r_x] ^ self.registers[r_y];
        self.pc_next();
    }

    fn math_add(&mut self, r_x: usize, r_y: usize)
        requires
            r_x < REGISTER_COUNT,
            r_y < REGISTER_COUNT,
            old(self)@.pc + 2 <= u16::MAX,
        ensures
            final(self)@ == old(self)@.add_reg(r_x, r_y),
    {
        let a: u8 = self.registers[r_x];
        let b: u8 = self.registers[r_y];
        let val: u8 = a.wrapping_add(b);
        let carry: bool = b > u8::MAX - a;
        self.registers[r_x] = val;
        self.registers[FLAG_REGISTER] = if carry {
            1
        } else {
            0
        };
        self.pc_next();
    }

    fn math_sub(&mut self, r_x: usize, r_y: usize)
        requires
            r_x < REGISTER_COUNT,
            r_y < REGISTER_COUNT,
            old(self)@.pc + 2 <= u16::MAX,
        ensures
            final(self)@ == old(self)@.sub_reg(r_x, r_y),
    {
        let a: u8 = self.registers[r_x];
        let b: u8 = self.registers[r_y];
        let val: u8 = a.wrapping_sub(b);
        let borrow: bool = a < b;
        self.registers[r_x] = val;
        self.registers[FLAG_REGISTER] = if borrow {
            0
        } else {
            1
        };
        self.pc_next();
    }

    fn bit_right_shift(&mut self, r_x: usize, _r_y: usize)
        requires
            r_x < REGISTER_COUNT,
            old(self)@.pc + 2 <= u16::MAX,
        ensures
            final(self)@ == old(self)@.shift_right(r_x),
    {
        let source: u8 = self.registers[r_x];
        assert(source & 0x01 == source % 2) by (bit_vector);
        self.registers[FLAG_REGISTER] = source & 0x01;
        let shifted: u8 = self.registers[r_x];
        assert(shifted >> 1 == shifted / 2) by (bit_vector);
        self.registers[r_x] = shifted >> 1;
        self.pc_next();
    }

    fn math_dif_sub(&mut self, r_x: usize, r_y: usize)
        requires
            r_x < REGISTER_COUNT,
            r_y < REGISTER_COUNT,
            old(self)@.pc + 2 <= u16::MAX,
        ensures
            final(self)@ == old(self)@.sub_reg_reversed(r_x, r_y),
    {
        let a: u8 = self.registers[r_x];
        let b: u8 = self.registers[r_y];
        let val: u8 = b.wrapping_sub(a);
        let borrow: bool = b < a;
        self.registers[r_x] = val;
        self.registers[FLAG_REGISTER] = if borrow {
            0
        } else {
            1
        };
        self.pc_next();
    }

    fn bit_left_shift(&mut self, r_x: usize, _r_y: usize)
        requires
            r_x < REGISTER_COUNT,
            old(self)@.pc + 2 <= u16::MAX,
        ensures
            final(self)@ == old(self)@.shift_left(r_x),
    {
        let source: u8 = self.registers[r_x];
        assert((source & 0x80) >> 7 == source / 128) by (bit_vector);
        self.registers[FLAG_REGISTER] = (source & 0x80) >> 7;
        let shifted: u8 = self.registers[r_x];
        assert(shifted << 1 == (shifted * 2) % 256) by (bit_vector);
        self.registers[r_x] = shifted << 1;
        self.pc_next();
    }

    fn index_set(&mut self, nnn: u16)
        requires
            old(self)@.pc + 2 <= u16::MAX,
        ensures
            final(self)@ == old(self)@.set_index(nnn),
    {
        self.index = nnn;
        self.pc_next();
    }

    fn jump(&mut self, nnn: u16)
        requires
            nnn <= 0x0FFF,
        ensures
            final(self)@ == old(self)@.jump_with_offset(nnn),
    {
        self.pc = self.registers[V0_REGISTER] as u16 + nnn;
    }

    /// Stores `byte` masked with `nn` in register `r_x` and moves on to the
    /// next instruction. `byte` is the random byte that the instruction
    /// consumes.
    pub fn bitwise_random(&mut self, r_x: usize, nn: u8, byte: u8)
        requires
            r_x < REGISTER_COUNT,
            old(self)@.pc + 2 <= u16::MAX,
        ensures
            final(self)@ == old(self)@.random(r_x, nn, byte),
    {
        self.registers[r_x] = byte & nn;
        self.pc_next();
    }

    fn delay_get(&mut self, r_x: usize)
        requires
            r_x < REGISTER_COUNT,
            old(self)@.pc + 2 <= u16::MAX,
        ensures
            final(self)@ == old(self)@.get_delay(r_x),
    {
        self.registers[r_x] = self.delay_timer;
        self.pc_next();
    }

    fn delay_set(&mut self, r_x: usize)
        requires
            r_x < REGISTER_COUNT,
            old(self)@.pc + 2 <= u16::MAX,
        ensures
            final(self)@ == old(self)@.set_delay(r_x),
    {
        self.delay_timer = self.registers[r_x];
        self.pc_next();
    }

    fn sound_timer_set(&mut self, r_x: usize)
        requires
            r_x < REGISTER_COUNT,
            old(self)@.pc + 2 <= u16::MAX,
        ensures
            final(self)@ == old(self)@.set_sound(r_x),
    {
        self.sound_timer = self.registers[r_x];
        self.pc_next();
    }

    fn index_add(&mut self, r_x: usize)
        requires
            r_x < REGISTER_COUNT,
            old(self)@.pc + 2 <= u16::MAX,
        ensures
            final(self)@ == old(self)@.add_to_index(r_x),
    {
        self.index = self.index.wrapping_add(self.registers[r_x] as u16);
        self.pc_next();
    }

    fn sprite_location_set(&mut self, r_x: usize)
        requires
            r_x < REGISTER_COUNT,
            old(self)@.pc + 2 <= u16::MAX,
        ensures
            final(self)@ == old(self)@.sprite_location_set(r_x),
    {
        self.index = self.registers[r_x] as u16 * GLYPH_SIZE;
        self.pc_next();
    }

    fn key_pressed(&mut self, r_x: usize)
        requires
            r_x < REGISTER_COUNT,
            old(self)@.reg(r_x) < KEY_COUNT,
            old(self)@.pc + 4 <= u16::MAX,
        ensures
            final(self)@ == old(self)@.skip_if_key_pressed(r_x),
    {
        if self.key[self.registers[r_x] as usize] {
            self.pc_next();
        }
        self.pc_next();
    }

    fn other_key_pressed(&mut self, r_x: usize)
        requires
            r_x < REGISTER_COUNT,
            old(self)@.reg(r_x) < KEY_COUNT,
            old(self)@.pc + 4 <= u16::MAX,
        ensures
            final(self)@ == old(self)@.skip_if_key_not_pressed(r_x),
    {
        if !self.key[self.registers[r_x] as usize] {
            self.pc_next();
        }
        self.pc_next();
    }

    fn bcd_set(&mut self, mem: &mut Memory, r_x: usize)
        requires
            r_x < REGISTER_COUNT,
            old(self)@.index + 2 < MEMORY_SIZE,
            old(self)@.pc + 2 <= u16::MAX,
        ensures
            final(self)@ == old(self)@.advance(2),
            final(mem)@ == store_bytes(
                old(mem)@,
                old(self)@.index as int,
                bcd_digits(old(self)@.reg(r_x)),
            ),
    {
        proof {
            mem.lemma_len();
        }
        mem.mem_write(self.index, self.registers[r_x] / 100);
        mem.mem_write(self.index + 1, self.registers[r_x] % 100 / 10);
        mem.mem_write(self.index + 2, self.registers[r_x] % 10);
        assert(mem@ =~= store_bytes(
            old(mem)@,
            old(self)@.index as int,
            bcd_digits(old(self)@.reg(r_x)),
        ));
        self.pc_next();
    }

    fn reg_dump(&mut self, mem: &mut Memory, r_x: usize)
        requires
            r_x < REGISTER_COUNT,
            old(self)@.index + r_x < MEMORY_SIZE,
            old(self)@.pc + 2 <= u16::MAX,
        ensures
            final(self)@ == old(self)@.advance(2),
            final(mem)@ == store_bytes(
                old(mem)@,
                old(self)@.index as int,
                old(self)@.registers.subrange(0, r_x + 1),
            ),
    {
        proof {
            mem.lemma_len();
        }
        let ghost before = mem@;
        assert(mem@ =~= store_bytes(before, self.index as int, self.registers@.subrange(0, 0)));
        let mut i: usize = 0;
        while i <= r_x
            invariant
                i <= r_x + 1,
                r_x < REGISTER_COUNT,
                self.index + r_x < MEMORY_SIZE,
                before.len() == MEMORY_SIZE,
                mem@ == store_bytes(before, self.index as int, self.registers@.subrange(0, i as int)),
            decreases r_x + 1 - i,
        {
            let data: u8 = self.registers[i];
            mem.mem_write(self.index + i as u16, data);
            assert(mem@ =~= store_bytes(
                before,
                self.index as int,
                self.registers@.subrange(0, i + 1),
            ));
            i = i + 1;
        }
        self.pc_next();
    }

    fn reg_load(&mut self, mem: &Memory, r_x: usize)
        requires
            r_x < REGISTER_COUNT,
            old(self)@.index + r_x < MEMORY_SIZE,
            old(self)@.pc + 2 <= u16::MAX,
        ensures
            final(self)@ == old(self)@.register_load(r_x, mem@),
    {
        let ghost start = self@;
        assert(self.registers@ =~= Seq::new(
            REGISTER_COUNT as nat,
            |j: int|
                if j < 0 {
                    mem@[start.index + j]
                } else {
                    start.registers[j]
                },
        ));
        let mut i: usize = 0;
        while i <= r_x
            invariant
                i <= r_x + 1,
                r_x < REGISTER_COUNT,
                start.index + r_x < MEMORY_SIZE,
                self@ == (CpuState {
                    registers: Seq::new(
                        REGISTER_COUNT as nat,
                        |j: int|
                            if j < i {
                                mem@[start.index + j]
                            } else {
                                start.registers[j]
                            },
                    ),
                    ..start
                }),
            decreases r_x + 1 - i,
        {
            self.registers[i] = mem.mem_read(self.index + i as u16);
            assert(self.registers@ =~= Seq::new(
                REGISTER_COUNT as nat,
                |j: int|
                    if j < i + 1 {
                        mem@[start.index + j]
                    } else {
                        start.registers[j]
                    },
            ));
            i = i + 1;
        }
        assert(self.registers@ =~= start.register_load(r_x, mem@).registers);
        self.pc_next();
    }

    fn key_await(&mut self, r_x: usize)
        requires
            r_x < REGISTER_COUNT,
            old(self)@.pc + 2 <= u16::MAX,
        ensures
            final(self)@ == old(self)@.wait_for_key(r_x),
    {
        let ghost start = self@;
        let mut i: usize = 0;
        while i < KEY_COUNT
            invariant
                i <= KEY_COUNT,
                r_x < REGISTER_COUNT,
                self@ == start,
                start == old(self)@,
                start.pc + 2 <= u16::MAX,
                forall|j: int| 0 <= j < i ==> !self.key@[j],
            decreases KEY_COUNT - i,
        {
            if self.key[i] {
                proof {
                    lemma_lowest_pressed_is(self.key@, i as int);
                }
                self.registers[r_x] = i as u8;
                self.pc_next();
                return ;
            }
            i = i + 1;
        }
        proof {
            lemma_none_pressed(self.key@);
        }
    }

    fn draw(&mut self, mem: &Memory, gr: &mut Graphics, r_x: usize, r_y: usize, height: u16)
        requires
            r_x < REGISTER_COUNT,
            r_y < REGISTER_COUNT,
            height < 16,
            height > 0 ==> old(self)@.index + height <= MEMORY_SIZE,
            old(self)@.pc + 2 <= u16::MAX,
        ensures
            machine_state(final(self), mem, final(gr)) == machine_state(old(self), mem, old(gr)).draw(
                r_x,
                r_y,
                height,
            ),
    {
        proof {
            mem.lemma_len();
            gr.lemma_len();
        }
        let x: u16 = self.registers[r_x] as u16;
        let y: u16 = self.registers[r_y] as u16;
        let ghost start = self@;
        let ghost screen = gr@;
        let ghost vx = self.registers[r_x as int];
        let ghost vy = self.registers[r_y as int];
        let ghost sprite = machine_state(self, mem, gr).sprite(height);

        self.registers[FLAG_REGISTER] = 0;
        proof {
            lemma_draw_start(screen.pixels, sprite, vx, vy);
        }
        let mut yline: u16 = 0;
        while yline < height
            invariant
                yline <= height < 16,
                start.registers.len() == REGISTER_COUNT,
                x == vx,
                y == vy,
                height > 0 ==> start.index + height <= MEMORY_SIZE,
                sprite == Seq::new(height as nat, |row: int| mem@[start.index + row]),
                screen.pixels.len() == SCREEN_PIXELS,
                gr@ == (Screen {
                    pixels: draw_pixels_before(screen.pixels, sprite, vx, vy, yline as int, 0),
                    ..screen
                }),
                self@ == start.write(
                    FLAG_REGISTER,
                    flag(draw_collides_before(screen.pixels, sprite, vx, vy, yline as int, 0)),
                ),
            decreases height - yline,
        {
            let pixel: u8 = mem.mem_read(self.index + yline);
            let mut xline: u8 = 0;
            while xline < 8
                invariant
                    xline <= 8,
                    yline < height < 16,
                    start.registers.len() == REGISTER_COUNT,
                    x == vx,
                    y == vy,
                    sprite.len() == height,
                    pixel == sprite[yline as int],
                    screen.pixels.len() == SCREEN_PIXELS,
                    gr@ == (Screen {
                        pixels: draw_pixels_before(
                            screen.pixels,
                            sprite,
                            vx,
                            vy,
                            yline as int,
                            xline as int,
                        ),
                        ..screen
                    }),
                    self@ == start.write(
                        FLAG_REGISTER,
                        flag(
                            draw_collides_before(
                                screen.pixels,
                                sprite,
                                vx,
                                vy,
                                yline as int,
                                xline as int,
                            ),
                        ),
                    ),
                decreases 8 - xline,
            {
                proof {
                    lemma_draw_extend(screen.pixels, sprite, vx, vy, yline as int, xline as int);
                }
                if (pixel & (0x80u8 >> xline)) != 0 {
                    let column: usize = (x + xline as u16) as usize % SCREEN_WIDTH;
                    let row: usize = (y + yline) as usize % SCREEN_HEIGHT;
                    let pos: usize = column + row * SCREEN_WIDTH;
                    if gr.toggle(pos) {
                        self.registers[FLAG_REGISTER] = 1;
                    }
                }
                assert(self@.registers =~= start.write(
                    FLAG_REGISTER,
                    flag(
                        draw_collides_before(
                            screen.pixels,
                            sprite,
                            vx,
                            vy,
                            yline as int,
                            xline + 1,
                        ),
                    ),
                ).registers);
                xline = xline + 1;
            }
            proof {
                lemma_draw_next_row(screen.pixels, sprite, vx, vy, yline as int);
            }
            yline = yline + 1;
        }
        proof {
            lemma_draw_done(screen.pixels, sprite, vx, vy);
        }
        gr.draw_flag_set();
        self.pc_next();
    }
}

} // verus!
