//! The machine as mathematical values, and the effect of every instruction
//! on them.
//!
//! `CpuState` is what a processor holds; `MachineState` adds the memory and
//! the screen. Each instruction is a function from state to state, and
//! `MachineState::step` is one whole fetch-decode-execute cycle.
use crate::graphics::Screen;
use crate::graphics::SCREEN_PIXELS;
use crate::instruction::decode_spec;
use crate::instruction::opcode_family;
use crate::instruction::Instruction;
use crate::memory::MEMORY_SIZE;
use crate::sprite::draw_collides;
use crate::sprite::draw_pixels;
use vstd::prelude::*;

verus! {

/// Number of general-purpose registers.
pub const REGISTER_COUNT: usize = 16;

/// Number of return addresses that the call stack can hold.
pub const STACK_SIZE: usize = 16;

/// Number of keys on the keypad.
pub const KEY_COUNT: usize = 16;

/// The register that receives carry, borrow, shifted-out bit and collision.
pub const FLAG_REGISTER: usize = 0xF;

/// The first register.
pub const V0_REGISTER: usize = 0x0;

/// Where the program counter points when the machine is switched on.
pub const PROGRAM_START: u16 = 0x200;

/// Bytes per glyph of the built-in font.
pub const GLYPH_SIZE: u16 = 5;

/// A condition under which a cycle cannot run. None of them is recoverable:
/// each tells of a malformed program or of a driver that broke the machine's
/// rules.
#[derive(Clone, Copy, Debug, PartialEq, Eq, Structural)]
pub enum Fault {
    /// A return with no call outstanding.
    StackUnderflow,
    /// A call with all stack slots taken.
    StackOverflow,
    /// An instruction fetch or a memory operand beyond the last byte of memory.
    AddressOutOfRange,
    /// A key instruction whose register holds no key code.
    KeyOutOfRange,
}

/// What a processor holds.
pub struct CpuState {
    pub index: u16,
    pub pc: u16,
    pub registers: Seq<u8>,
    pub stack: Seq<u16>,
    pub keys: Seq<bool>,
    pub sp: u16,
    pub delay_timer: u8,
    pub sound_timer: u8,
}

/// `a + b` reduced to eight bits.
pub open spec fn wrapping_sum(a: u8, b: u8) -> u8 {
    ((a + b) % 256) as u8
}

/// `a - b` reduced to eight bits.
pub open spec fn wrapping_difference(a: u8, b: u8) -> u8 {
    ((a - b) % 256) as u8
}

/// The flag value that stands for a condition.
pub open spec fn flag(condition: bool) -> u8 {
    if condition {
        1
    } else {
        0
    }
}

/// Key `k` is down and no key with a smaller code is.
pub open spec fn is_lowest_pressed(keys: Seq<bool>, k: int) -> bool {
    &&& 0 <= k < keys.len()
    &&& keys[k]
    &&& forall|j: int| 0 <= j < k ==> !keys[j]
}

/// The smallest code among the keys that are down, if any is.
pub open spec fn lowest_pressed(keys: Seq<bool>) -> Option<int> {
    if exists|k: int| is_lowest_pressed(keys, k) {
        Some(choose|k: int| is_lowest_pressed(keys, k))
    } else {
        None
    }
}

/// A key that is down while all keys before it are up is the lowest pressed key.
pub proof fn lemma_lowest_pressed_is(keys: Seq<bool>, k: int)
    requires
        is_lowest_pressed(keys, k),
    ensures
        lowest_pressed(keys) == Some(k),
{
    let chosen = choose|c: int| is_lowest_pressed(keys, c);
    assert(is_lowest_pressed(keys, chosen));
    if chosen < k {
        assert(!keys[chosen]);
    }
    if k < chosen {
        assert(!keys[k]);
    }
}

/// With every key up there is no lowest pressed key.
pub proof fn lemma_none_pressed(keys: Seq<bool>)
    requires
        forall|j: int| 0 <= j < keys.len() ==> !keys[j],
    ensures
        lowest_pressed(keys) is None,
{
}

/// The hundreds, tens and ones digit of a byte.
pub open spec fn bcd_digits(value: u8) -> Seq<u8> {
    seq![value / 100, (value / 10) % 10, value % 10]
}

/// Memory after `values` were stored from `start` on.
pub open spec fn store_bytes(memory: Seq<u8>, start: int, values: Seq<u8>) -> Seq<u8> {
    Seq::new(
        memory.len(),
        |a: int|
            if start <= a < start + values.len() {
                values[a - start]
            } else {
                memory[a]
            },
    )
}

/// The reason reported for a word that encodes no instruction.
pub open spec fn unsupported_reason(word: u16) -> Seq<char> {
    if opcode_family(word) == 0 {
        ""@
    } else {
        "Unknown command"@
    }
}

impl CpuState {
    /// The register file, the stack and the keypad have their fixed sizes,
    /// and the stack pointer does not exceed the stack's capacity.
    pub open spec fn wf(self) -> bool {
        &&& self.registers.len() == REGISTER_COUNT
        &&& self.stack.len() == STACK_SIZE
        &&& self.keys.len() == KEY_COUNT
        &&& self.sp <= STACK_SIZE
    }

    /// The state of a processor that was just switched on: everything zero,
    /// no key down, the program counter at the program's entry.
    pub open spec fn power_on() -> CpuState {
        CpuState {
            index: 0,
            pc: PROGRAM_START,
            registers: Seq::new(REGISTER_COUNT as nat, |i: int| 0u8),
            stack: Seq::new(STACK_SIZE as nat, |i: int| 0u16),
            keys: Seq::new(KEY_COUNT as nat, |i: int| false),
            sp: 0,
            delay_timer: 0,
            sound_timer: 0,
        }
    }

    /// The value of register `x`.
    pub open spec fn reg(self, x: usize) -> u8 {
        self.registers[x as int]
    }

    /// The same state with the program counter moved forward.
    pub open spec fn advance(self, bytes: u16) -> CpuState {
        CpuState { pc: (self.pc + bytes) as u16, ..self }
    }

    /// The same state with a new value in register `x`.
    pub open spec fn write(self, x: usize, value: u8) -> CpuState {
        CpuState { registers: self.registers.update(x as int, value), ..self }
    }

    /// The same state with a key pressed or released.
    pub open spec fn with_key(self, key: usize, pressed: bool) -> CpuState {
        CpuState { keys: self.keys.update(key as int, pressed), ..self }
    }

    /// The result of an arithmetic instruction: `value` goes to register `x`,
    /// then the flag register receives `condition`. When `x` is the flag
    /// register itself, the flag is what remains.
    pub open spec fn write_with_flag(self, x: usize, value: u8, condition: bool) -> CpuState {
        self.write(x, value).write(FLAG_REGISTER, flag(condition))
    }

    /// `jump`: the program counter becomes `addr`.
    pub open spec fn jump(self, addr: u16) -> CpuState {
        CpuState { pc: addr, ..self }
    }

    /// `jump_with_offset`: the program counter becomes `addr` plus register 0.
    pub open spec fn jump_with_offset(self, addr: u16) -> CpuState {
        CpuState { pc: (addr + self.reg(V0_REGISTER)) as u16, ..self }
    }

    /// `call`: the current program counter is pushed, then the program
    /// counter becomes `addr`.
    pub open spec fn call(self, addr: u16) -> CpuState {
        CpuState {
            stack: self.stack.update(self.sp as int, self.pc),
            sp: (self.sp + 1) as u16,
            pc: addr,
            ..self
        }
    }

    /// `return`: the program counter becomes the address popped off the stack.
    pub open spec fn subroutine_return(self) -> CpuState {
        CpuState { sp: (self.sp - 1) as u16, pc: self.stack[self.sp - 1], ..self }
    }

    /// The common rule of all conditional skips: four bytes forward when the
    /// condition holds, two when it does not.
    pub open spec fn skip_if(self, condition: bool) -> CpuState {
        self.advance(
            if condition {
                4
            } else {
                2
            },
        )
    }

    /// `skip_if_equal`: skip when register `x` equals `nn`.
    pub open spec fn skip_if_equal(self, x: usize, nn: u8) -> CpuState {
        self.skip_if(self.reg(x) == nn)
    }

    /// `skip_if_not_equal`: skip when register `x` differs from `nn`.
    pub open spec fn skip_if_not_equal(self, x: usize, nn: u8) -> CpuState {
        self.skip_if(self.reg(x) != nn)
    }

    /// `skip_if_registers_equal`: skip when registers `x` and `y` are equal.
    pub open spec fn skip_if_registers_equal(self, x: usize, y: usize) -> CpuState {
        self.skip_if(self.reg(x) == self.reg(y))
    }

    /// `skip_if_registers_not_equal`: skip when registers `x` and `y` differ.
    pub open spec fn skip_if_registers_not_equal(self, x: usize, y: usize) -> CpuState {
        self.skip_if(self.reg(x) != self.reg(y))
    }

    /// `skip_if_key_pressed`: skip when the key named by register `x` is down.
    pub open spec fn skip_if_key_pressed(self, x: usize) -> CpuState {
        self.skip_if(self.keys[self.reg(x) as int])
    }

    /// `skip_if_key_not_pressed`: skip when the key named by register `x` is up.
    pub open spec fn skip_if_key_not_pressed(self, x: usize) -> CpuState {
        self.skip_if(!self.keys[self.reg(x) as int])
    }

    /// `set`: register `x` becomes `nn`.
    pub open spec fn set_register(self, x: usize, nn: u8) -> CpuState {
        self.write(x, nn).advance(2)
    }

    /// `add`: register `x` grows by `nn`, wrapping at eight bits. The flag
    /// register is not touched.
    pub open spec fn add_immediate(self, x: usize, nn: u8) -> CpuState {
        self.write(x, wrapping_sum(self.reg(x), nn)).advance(2)
    }

    /// `assign`: register `x` becomes register `y`.
    pub open spec fn assign(self, x: usize, y: usize) -> CpuState {
        self.write(x, self.reg(y)).advance(2)
    }

    /// `or`: register `x` becomes the bitwise or of registers `x` and `y`.
    pub open spec fn bit_or(self, x: usize, y: usize) -> CpuState {
        self.write(x, self.reg(x) | self.reg(y)).advance(2)
    }

    /// `and`: register `x` becomes the bitwise and of registers `x` and `y`.
    pub open spec fn bit_and(self, x: usize, y: usize) -> CpuState {
        self.write(x, self.reg(x) & self.reg(y)).advance(2)
    }

    /// `xor`: register `x` becomes the bitwise exclusive or of registers `x` and `y`.
    pub open spec fn bit_xor(self, x: usize, y: usize) -> CpuState {
        self.write(x, self.reg(x) ^ self.reg(y)).advance(2)
    }

    /// `add_reg`: register `x` becomes the sum of registers `x` and `y`
    /// reduced to eight bits; the flag is 1 exactly when the sum exceeds 255.
    /// Sum and flag are both taken from the operands as they were before the
    /// instruction.
    pub open spec fn add_reg(self, x: usize, y: usize) -> CpuState {
        self.write_with_flag(
            x,
            wrapping_sum(self.reg(x), self.reg(y)),
            self.reg(x) + self.reg(y) > 255,
        ).advance(2)
    }

    /// `sub_reg`: register `x` becomes register `x` minus register `y`
    /// reduced to eight bits; the flag is 1 exactly when there is no borrow.
    pub open spec fn sub_reg(self, x: usize, y: usize) -> CpuState {
        self.write_with_flag(
            x,
            wrapping_difference(self.reg(x), self.reg(y)),
            self.reg(x) >= self.reg(y),
        ).advance(2)
    }

    /// `sub_reg_reversed`: register `x` becomes register `y` minus register
    /// `x` reduced to eight bits; the flag is 1 exactly when there is no borrow.
    pub open spec fn sub_reg_reversed(self, x: usize, y: usize) -> CpuState {
        self.write_with_flag(
            x,
            wrapping_difference(self.reg(y), self.reg(x)),
            self.reg(y) >= self.reg(x),
        ).advance(2)
    }

    /// `shift_right`: the lowest bit of register `x` goes to the flag
    /// register, then register `x` is halved. The register shifted is always
    /// `x`; the instruction's second operand plays no part. When `x` is the
    /// flag register itself, it is the freshly stored bit that is halved.
    pub open spec fn shift_right(self, x: usize) -> CpuState {
        let flagged = self.write(FLAG_REGISTER, self.reg(x) % 2);
        flagged.write(x, flagged.reg(x) / 2).advance(2)
    }

    /// `shift_left`: the highest bit of register `x` goes to the flag
    /// register, then register `x` is doubled, wrapping at eight bits. The
    /// register shifted is always `x`; the instruction's second operand plays
    /// no part. When `x` is the flag register itself, it is the freshly
    /// stored bit that is doubled.
    pub open spec fn shift_left(self, x: usize) -> CpuState {
        let flagged = self.write(FLAG_REGISTER, self.reg(x) / 128);
        flagged.write(x, ((flagged.reg(x) * 2) % 256) as u8).advance(2)
    }

    /// `set_index`: the index register becomes `addr`.
    pub open spec fn set_index(self, addr: u16) -> CpuState {
        CpuState { index: addr, ..self }.advance(2)
    }

    /// `add_to_index`: the index register grows by register `x`, wrapping at
    /// sixteen bits.
    pub open spec fn add_to_index(self, x: usize) -> CpuState {
        CpuState { index: ((self.index + self.reg(x)) % 0x10000) as u16, ..self }.advance(2)
    }

    /// `sprite_location_set`: the index register becomes five times register
    /// `x`, the address of that glyph in the built-in font.
    pub open spec fn sprite_location_set(self, x: usize) -> CpuState {
        CpuState { index: (self.reg(x) * GLYPH_SIZE) as u16, ..self }.advance(2)
    }

    /// `random`: register `x` becomes `byte` masked with `nn`.
    pub open spec fn random(self, x: usize, nn: u8, byte: u8) -> CpuState {
        self.write(x, byte & nn).advance(2)
    }

    /// `get_delay`: register `x` becomes the delay timer.
    pub open spec fn get_delay(self, x: usize) -> CpuState {
        self.write(x, self.delay_timer).advance(2)
    }

    /// `set_delay`: the delay timer becomes register `x`.
    pub open spec fn set_delay(self, x: usize) -> CpuState {
        CpuState { delay_timer: self.reg(x), ..self }.advance(2)
    }

    /// `set_sound`: the sound timer becomes register `x`.
    pub open spec fn set_sound(self, x: usize) -> CpuState {
        CpuState { sound_timer: self.reg(x), ..self }.advance(2)
    }

    /// `wait_for_key`: with a key down, register `x` becomes the smallest
    /// code of a key that is down, and the program counter moves on. With no
    /// key down nothing changes, so that the next cycle finds the same
    /// instruction again.
    pub open spec fn wait_for_key(self, x: usize) -> CpuState {
        match lowest_pressed(self.keys) {
            Some(k) => self.write(x, k as u8).advance(2),
            None => self,
        }
    }

    /// `register_load`: registers 0 to `x` become the bytes of `memory` from
    /// the index register on.
    pub open spec fn register_load(self, x: usize, memory: Seq<u8>) -> CpuState {
        CpuState {
            registers: Seq::new(
                self.registers.len(),
                |i: int|
                    if i <= x {
                        memory[self.index + i]
                    } else {
                        self.registers[i]
                    },
            ),
            ..self
        }.advance(2)
    }

    /// The end of a cycle: each timer that is not zero counts down by one.
    pub open spec fn tick(self) -> CpuState {
        CpuState {
            delay_timer: if self.delay_timer > 0 {
                (self.delay_timer - 1) as u8
            } else {
                0
            },
            sound_timer: if self.sound_timer > 0 {
                (self.sound_timer - 1) as u8
            } else {
                0
            },
            ..self
        }
    }

    /// Whether the sound timer is about to reach zero: the cycle that starts
    /// in such a state is the one at which a tone ends.
    pub open spec fn sound_due(self) -> bool {
        self.sound_timer == 1
    }

    /// The state after one call for each address of `addrs`, in order.
    pub open spec fn nested_calls(self, addrs: Seq<u16>) -> CpuState
        decreases addrs.len(),
    {
        if addrs.len() == 0 {
            self
        } else {
            self.call(addrs[0]).nested_calls(addrs.drop_first())
        }
    }

    /// The state after `n` returns.
    pub open spec fn nested_returns(self, n: nat) -> CpuState
        decreases n,
    {
        if n == 0 {
            self
        } else {
            self.subroutine_return().nested_returns((n - 1) as nat)
        }
    }

    /// The fault, if any, that stands in the way of running `instruction`.
    pub open spec fn fault_of(self, instruction: Instruction) -> Option<Fault> {
        match instruction {
            Instruction::Return if self.sp == 0 => Some(Fault::StackUnderflow),
            Instruction::Call { addr } if self.sp >= STACK_SIZE => Some(Fault::StackOverflow),
            Instruction::StoreBcd { x } if self.index + 2 >= MEMORY_SIZE => Some(
                Fault::AddressOutOfRange,
            ),
            Instruction::RegisterDump { x } if self.index + x >= MEMORY_SIZE => Some(
                Fault::AddressOutOfRange,
            ),
            Instruction::RegisterLoad { x } if self.index + x >= MEMORY_SIZE => Some(
                Fault::AddressOutOfRange,
            ),
            Instruction::Draw { x, y, n } if n > 0 && self.index + n > MEMORY_SIZE => Some(
                Fault::AddressOutOfRange,
            ),
            Instruction::SkipIfKeyPressed { x } if self.reg(x) >= KEY_COUNT => Some(
                Fault::KeyOutOfRange,
            ),
            Instruction::SkipIfKeyNotPressed { x } if self.reg(x) >= KEY_COUNT => Some(
                Fault::KeyOutOfRange,
            ),
            _ => None,
        }
    }

    /// Whether the two bytes of the next instruction lie inside memory.
    pub open spec fn fetchable(self) -> bool {
        self.pc + 1 < MEMORY_SIZE
    }

    /// The instruction word at the program counter, high byte first.
    pub open spec fn fetch(self, memory: Seq<u8>) -> u16 {
        (memory[self.pc as int] * 256 + memory[self.pc + 1]) as u16
    }

    /// The fault, if any, that stands in the way of the next cycle.
    pub open spec fn fault(self, memory: Seq<u8>) -> Option<Fault> {
        if !self.fetchable() {
            Some(Fault::AddressOutOfRange)
        } else {
            self.fault_of(decode_spec(self.fetch(memory)))
        }
    }
}

/// A processor together with the memory and the screen it works on.
pub struct MachineState {
    pub cpu: CpuState,
    pub memory: Seq<u8>,
    pub screen: Screen,
}

impl MachineState {
    /// The processor is well formed, and memory and screen have their fixed sizes.
    pub open spec fn wf(self) -> bool {
        &&& self.cpu.wf()
        &&& self.memory.len() == MEMORY_SIZE
        &&& self.screen.pixels.len() == SCREEN_PIXELS
    }

    /// The same machine with another processor state.
    pub open spec fn with_cpu(self, cpu: CpuState) -> MachineState {
        MachineState { cpu, ..self }
    }

    /// The instruction word at the program counter.
    pub open spec fn fetch(self) -> u16 {
        self.cpu.fetch(self.memory)
    }

    /// The instruction at the program counter.
    pub open spec fn current(self) -> Instruction {
        decode_spec(self.fetch())
    }

    /// The fault, if any, that stands in the way of the next cycle.
    pub open spec fn fault(self) -> Option<Fault> {
        self.cpu.fault(self.memory)
    }

    /// The `n` bytes of sprite data at the index register.
    pub open spec fn sprite(self, n: u16) -> Seq<u8> {
        Seq::new(n as nat, |row: int| self.memory[self.cpu.index + row])
    }

    /// `clear_display`: every pixel goes off.
    pub open spec fn clear_display(self) -> MachineState {
        MachineState {
            cpu: self.cpu.advance(2),
            screen: Screen { pixels: Screen::blank().pixels, ..self.screen },
            ..self
        }
    }

    /// `store_bcd`: the hundreds, tens and ones digit of register `x` go to
    /// memory at the index register and the two bytes after it.
    pub open spec fn store_bcd(self, x: usize) -> MachineState {
        MachineState {
            cpu: self.cpu.advance(2),
            memory: store_bytes(self.memory, self.cpu.index as int, bcd_digits(self.cpu.reg(x))),
            ..self
        }
    }

    /// `register_dump`: registers 0 to `x` go to memory from the index
    /// register on.
    pub open spec fn register_dump(self, x: usize) -> MachineState {
        MachineState {
            cpu: self.cpu.advance(2),
            memory: store_bytes(
                self.memory,
                self.cpu.index as int,
                self.cpu.registers.subrange(0, x + 1),
            ),
            ..self
        }
    }

    /// `draw`: the sprite of `n` rows at the index register is drawn at the
    /// position held in registers `x` and `y`. The flag register becomes 1 if
    /// a pixel that was on went off, else 0, and a redraw is pending.
    pub open spec fn draw(self, x: usize, y: usize, n: u16) -> MachineState {
        let sprite = self.sprite(n);
        let vx = self.cpu.reg(x);
        let vy = self.cpu.reg(y);
        MachineState {
            cpu: self.cpu.write(
                FLAG_REGISTER,
                flag(draw_collides(self.screen.pixels, sprite, vx, vy)),
            ).advance(2),
            screen: Screen {
                pixels: draw_pixels(self.screen.pixels, sprite, vx, vy),
                draw_flag: true,
            },
            ..self
        }
    }

    /// The effect of one instruction. `byte` is the random byte that the
    /// `random` instruction consumes; no other instruction looks at it. An
    /// unknown instruction has no effect.
    pub open spec fn perform(self, instruction: Instruction, byte: u8) -> MachineState {
        let cpu = self.cpu;
        match instruction {
            Instruction::ClearDisplay => self.clear_display(),
            Instruction::Return => self.with_cpu(cpu.subroutine_return()),
            Instruction::Jump { addr } => self.with_cpu(cpu.jump(addr)),
            Instruction::Call { addr } => self.with_cpu(cpu.call(addr)),
            Instruction::SkipIfEqual { x, nn } => self.with_cpu(cpu.skip_if_equal(x, nn)),
            Instruction::SkipIfNotEqual { x, nn } => self.with_cpu(cpu.skip_if_not_equal(x, nn)),
            Instruction::SkipIfRegistersEqual { x, y } => self.with_cpu(
                cpu.skip_if_registers_equal(x, y),
            ),
            Instruction::SetRegister { x, nn } => self.with_cpu(cpu.set_register(x, nn)),
            Instruction::AddImmediate { x, nn } => self.with_cpu(cpu.add_immediate(x, nn)),
            Instruction::Assign { x, y } => self.with_cpu(cpu.assign(x, y)),
            Instruction::Or { x, y } => self.with_cpu(cpu.bit_or(x, y)),
            Instruction::And { x, y } => self.with_cpu(cpu.bit_and(x, y)),
            Instruction::Xor { x, y } => self.with_cpu(cpu.bit_xor(x, y)),
            Instruction::AddReg { x, y } => self.with_cpu(cpu.add_reg(x, y)),
            Instruction::SubReg { x, y } => self.with_cpu(cpu.sub_reg(x, y)),
            Instruction::ShiftRight { x, y } => self.with_cpu(cpu.shift_right(x)),
            Instruction::SubRegReversed { x, y } => self.with_cpu(cpu.sub_reg_reversed(x, y)),
            Instruction::ShiftLeft { x, y } => self.with_cpu(cpu.shift_left(x)),
            Instruction::SkipIfRegistersNotEqual { x, y } => self.with_cpu(
                cpu.skip_if_registers_not_equal(x, y),
            ),
            Instruction::SetIndex { addr } => self.with_cpu(cpu.set_index(addr)),
            Instruction::JumpWithOffset { addr } => self.with_cpu(cpu.jump_with_offset(addr)),
            Instruction::Random { x, nn } => self.with_cpu(cpu.random(x, nn, byte)),
            Instruction::Draw { x, y, n } => self.draw(x, y, n),
            Instruction::SkipIfKeyPressed { x } => self.with_cpu(cpu.skip_if_key_pressed(x)),
            Instruction::SkipIfKeyNotPressed { x } => self.with_cpu(cpu.skip_if_key_not_pressed(x)),
            Instruction::GetDelay { x } => self.with_cpu(cpu.get_delay(x)),
            Instruction::WaitForKey { x } => self.with_cpu(cpu.wait_for_key(x)),
            Instruction::SetDelay { x } => self.with_cpu(cpu.set_delay(x)),
            Instruction::SetSound { x } => self.with_cpu(cpu.set_sound(x)),
            Instruction::AddToIndex { x } => self.with_cpu(cpu.add_to_index(x)),
            Instruction::SpriteLocationSet { x } => self.with_cpu(cpu.sprite_location_set(x)),
            Instruction::StoreBcd { x } => self.store_bcd(x),
            Instruction::RegisterDump { x } => self.register_dump(x),
            Instruction::RegisterLoad { x } => self.with_cpu(cpu.register_load(x, self.memory)),
            Instruction::Unknown => self,
        }
    }

    /// One cycle: the instruction at the program counter takes effect, then
    /// the timers count down.
    pub open spec fn step(self, byte: u8) -> MachineState {
        let after = self.perform(self.current(), byte);
        after.with_cpu(after.cpu.tick())
    }

    /// The machine after one cycle for each byte of `bytes`, the first byte
    /// serving the first cycle.
    pub open spec fn run(self, bytes: Seq<u8>) -> MachineState
        decreases bytes.len(),
    {
        if bytes.len() == 0 {
            self
        } else {
            self.step(bytes[0]).run(bytes.drop_first())
        }
    }

    /// Whether the next cycle reports an unsupported instruction.
    pub open spec fn unsupported(self) -> bool {
        self.current() is Unknown
    }
}

} // verus!
