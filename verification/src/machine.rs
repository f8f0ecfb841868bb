//! The whole machine: a processor wired to its memory and framebuffer.
use crate::cpu::machine_state;
use crate::cpu::CPU;
use crate::graphics::Graphics;
use crate::graphics::Screen;
use crate::memory::zeroed;
use crate::memory::Memory;
use crate::memory::MEMORY_SIZE;
use crate::state::store_bytes;
use crate::state::unsupported_reason;
use crate::state::CpuState;
use crate::state::Fault;
use crate::state::MachineState;
use crate::state::KEY_COUNT;
use vstd::prelude::*;

verus! {

/// Number of bytes in the built-in font: sixteen glyphs of five rows each.
pub const FONTSET_SIZE: usize = 80;

/// The built-in font. Glyph `g` occupies the five bytes from `5 * g` on.
pub const CHIP8_FONTSET: [u8; FONTSET_SIZE] = [
    0xF0, 0x90, 0x90, 0x90, 0xF0,
    0x20, 0x60, 0x20, 0x20, 0x70,
    0xF0, 0x10, 0xF0, 0x80, 0xF0,
    0xF0, 0x10, 0xF0, 0x10, 0xF0,
    0x90, 0x90, 0xF0, 0x10, 0x10,
    0xF0, 0x80, 0xF0, 0x10, 0xF0,
    0xF0, 0x80, 0xF0, 0x90, 0xF0,
    0xF0, 0x10, 0x20, 0x40, 0x40,
    0xF0, 0x90, 0xF0, 0x90, 0xF0,
    0xF0, 0x90, 0xF0, 0x10, 0xF0,
    0xF0, 0x90, 0xF0, 0x90, 0x90,
    0xE0, 0x90, 0xE0, 0x90, 0xE0,
    0xF0, 0x80, 0x80, 0x80, 0xF0,
    0xE0, 0x90, 0x90, 0x90, 0xE0,
    0xF0, 0x80, 0xF0, 0x80, 0xF0,
    0xF0, 0x80, 0xF0, 0x80, 0x80,
];

/// A processor with its memory and framebuffer.
pub struct Chip8 {
    cpu: CPU,
    memory: Memory,
    gr: Graphics,
}

impl View for Chip8 {
    type V = MachineState;

    closed spec fn view(&self) -> MachineState {
        machine_state(&self.cpu, &self.memory, &self.gr)
    }
}

impl Chip8 {
    /// The processor's stack pointer is within bounds, and memory and
    /// framebuffer have their fixed sizes.
    pub open spec fn wf(&self) -> bool {
        self@.wf()
    }

    /// A machine that was just switched on: empty memory, blank screen.
    pub fn build_chip() -> (chip: Chip8)
        ensures
            chip@ == (MachineState {
                cpu: CpuState::power_on(),
                memory: zeroed(),
                screen: Screen::blank(),
            }),
            chip.wf(),
    {
        Chip8 { cpu: CPU::new(), memory: Memory::new(), gr: Graphics::new() }
    }

    /// Clears memory and puts the built-in font at its start.
    pub fn init(&mut self)
        ensures
            final(self)@ == (MachineState {
                memory: store_bytes(zeroed(), 0, CHIP8_FONTSET@),
                ..old(self)@
            }),
    {
        self.memory.mem_init();
        let mut i: usize = 0;
        while i < FONTSET_SIZE
            invariant
                i <= FONTSET_SIZE,
                self.cpu == old(self).cpu,
                self.gr == old(self).gr,
                self.memory@ == store_bytes(zeroed(), 0, CHIP8_FONTSET@.subrange(0, i as int)),
            decreases FONTSET_SIZE - i,
        {
            let data: u8 = CHIP8_FONTSET[i];
            self.memory.mem_write(i as u16, data);
            assert(self.memory@ =~= store_bytes(
                zeroed(),
                0,
                CHIP8_FONTSET@.subrange(0, i + 1),
            ));
            i = i + 1;
        }
        assert(CHIP8_FONTSET@.subrange(0, FONTSET_SIZE as int) =~= CHIP8_FONTSET@);
    }

    /// The byte stored at `addr`.
    pub fn get_mem(&self, addr: u16) -> (value: u8)
        requires
            addr < MEMORY_SIZE,
        ensures
            value == self@.memory[addr as int],
    {
        self.memory.mem_read(addr)
    }

    /// Copies a program image into memory, its first byte to the address
    /// that the program counter holds.
    pub fn load_game(&mut self, image: &[u8])
        requires
            old(self)@.cpu.pc + image@.len() <= MEMORY_SIZE,
        ensures
            final(self)@ == (MachineState {
                memory: store_bytes(old(self)@.memory, old(self)@.cpu.pc as int, image@),
                ..old(self)@
            }),
    {
        proof {
            self.memory.lemma_len();
        }
        let ghost before = self.memory@;
        let start: u16 = self.cpu.pc();
        let mut i: usize = 0;
        assert(self.memory@ =~= store_bytes(before, start as int, image@.subrange(0, 0)));
        while i < image.len()
            invariant
                i <= image@.len(),
                start + image@.len() <= MEMORY_SIZE,
                before.len() == MEMORY_SIZE,
                self.cpu == old(self).cpu,
                self.gr == old(self).gr,
                self.memory@ == store_bytes(before, start as int, image@.subrange(0, i as int)),
            decreases image@.len() - i,
        {
            let data: u8 = image[i];
            self.memory.mem_write(start + i as u16, data);
            assert(self.memory@ =~= store_bytes(before, start as int, image@.subrange(0, i + 1)));
            i = i + 1;
        }
        assert(image@.subrange(0, image@.len() as int) =~= image@);
    }

    /// Tells whether the next cycle can run, and if not, why.
    pub fn fault(&self) -> (fault: Option<Fault>)
        ensures
            fault == self@.fault(),
    {
        self.cpu.fault(&self.memory)
    }

    /// Runs one cycle of the processor on this machine's memory and
    /// framebuffer.
    pub fn emulate_cycle(&mut self) -> (result: Result<(), &'static str>)
        requires
            old(self).wf(),
            old(self)@.fault() is None,
        ensures
            final(self).wf(),
            exists|byte: u8| final(self)@ == #[trigger] old(self)@.step(byte),
            result is Err <==> old(self)@.unsupported(),
            result matches Err(reason) ==> reason@ == unsupported_reason(old(self)@.fetch()),
    {
        self.cpu.execute(&mut self.memory, &mut self.gr)
    }

    /// Records that key `key` went down or came up.
    pub fn key_set(&mut self, key: usize, pressed: bool)
        requires
            key < KEY_COUNT,
        ensures
            final(self)@ == old(self)@.with_cpu(old(self)@.cpu.with_key(key, pressed)),
    {
        self.cpu.key_set(key, pressed);
    }

    /// Marks the picture as rendered.
    pub fn draw_flag_clear(&mut self)
        ensures
            final(self)@ == (MachineState {
                screen: Screen { draw_flag: false, ..old(self)@.screen },
                ..old(self)@
            }),
    {
        self.gr.draw_flag_clear();
    }

    /// The processor.
    pub fn cpu(&self) -> (cpu: &CPU)
        ensures
            cpu@ == self@.cpu,
    {
        &self.cpu
    }

    /// The framebuffer.
    pub fn graphics(&self) -> (gr: &Graphics)
        ensures
            gr@ == self@.screen,
    {
        &self.gr
    }
}

} // verus!
