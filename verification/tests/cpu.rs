use chip8::cpu::CPU;
use chip8::graphics::Graphics;
use chip8::memory::Memory;
use chip8::state::Fault;

/// A fresh machine with `words` stored from the program entry on.
fn machine(words: &[u16]) -> (CPU, Memory, Graphics) {
    let mut memory = Memory::new();
    store(&mut memory, 0x200, words);
    (CPU::new(), memory, Graphics::new())
}

fn store(memory: &mut Memory, at: u16, words: &[u16]) {
    for (i, &word) in words.iter().enumerate() {
        memory.mem_write(at + 2 * i as u16, (word >> 8) as u8);
        memory.mem_write(at + 2 * i as u16 + 1, (word & 0xFF) as u8);
    }
}

/// One cycle, after making sure that nothing stands in its way.
fn step(cpu: &mut CPU, memory: &mut Memory, gr: &mut Graphics) -> Result<(), &'static str> {
    assert_eq!(cpu.fault(memory), None);
    cpu.execute(memory, gr)
}

fn run(cpu: &mut CPU, memory: &mut Memory, gr: &mut Graphics, cycles: usize) {
    for _ in 0..cycles {
        assert_eq!(step(cpu, memory, gr), Ok(()));
    }
}

/// Runs `set v1, a; set v2, b; <op> v1, v2` and returns (v1, flag).
fn arithmetic(op: u16, a: u8, b: u8) -> (u8, u8) {
    let (mut cpu, mut memory, mut gr) = machine(&[0x6100 | a as u16, 0x6200 | b as u16, op]);
    run(&mut cpu, &mut memory, &mut gr, 3);
    assert_eq!(cpu.pc, 0x206);
    assert_eq!(cpu.register(2), b);
    (cpu.register(1), cpu.register(0xF))
}

#[test]
fn power_on_state() {
    let cpu = CPU::new();
    assert_eq!(cpu.pc, 0x200);
    assert_eq!(cpu.pc(), 0x200);
    assert_eq!(cpu.index(), 0);
    assert_eq!(cpu.sp(), 0);
    assert_eq!(cpu.delay_timer(), 0);
    assert_eq!(cpu.sound_timer(), 0);
    for i in 0..16 {
        assert_eq!(cpu.register(i), 0);
        assert!(!cpu.key(i));
    }
}

#[test]
fn add_reg_flag_at_the_boundaries() {
    assert_eq!(arithmetic(0x8124, 254, 1), (255, 0));
    assert_eq!(arithmetic(0x8124, 255, 1), (0, 1));
    assert_eq!(arithmetic(0x8124, 255, 255), (254, 1));
    assert_eq!(arithmetic(0x8124, 0, 0), (0, 0));
    assert_eq!(arithmetic(0x8124, 200, 100), (44, 1));
}

#[test]
fn add_reg_into_the_flag_register_keeps_the_flag() {
    // set vF, 200; set v1, 100; add vF, v1
    let (mut cpu, mut memory, mut gr) = machine(&[0x6FC8, 0x6164, 0x8F14]);
    run(&mut cpu, &mut memory, &mut gr, 3);
    assert_eq!(cpu.register(0xF), 1);
    // set vF, 3; set v1, 4; add vF, v1
    let (mut cpu, mut memory, mut gr) = machine(&[0x6F03, 0x6104, 0x8F14]);
    run(&mut cpu, &mut memory, &mut gr, 3);
    assert_eq!(cpu.register(0xF), 0);
}

#[test]
fn add_reg_with_the_flag_register_as_operand() {
    // set vF, 255; set v1, 2; add v1, vF: operands are read before the flag is written
    let (mut cpu, mut memory, mut gr) = machine(&[0x6FFF, 0x6102, 0x81F4]);
    run(&mut cpu, &mut memory, &mut gr, 3);
    assert_eq!(cpu.register(1), 1);
    assert_eq!(cpu.register(0xF), 1);
}

#[test]
fn sub_reg_flag_means_no_borrow() {
    assert_eq!(arithmetic(0x8125, 7, 7), (0, 1));
    assert_eq!(arithmetic(0x8125, 5, 7), (254, 0));
    assert_eq!(arithmetic(0x8125, 7, 5), (2, 1));
    assert_eq!(arithmetic(0x8125, 0, 1), (255, 0));
    assert_eq!(arithmetic(0x8125, 0, 0), (0, 1));
}

#[test]
fn sub_reg_reversed_flag_means_no_borrow() {
    assert_eq!(arithmetic(0x8127, 5, 7), (2, 1));
    assert_eq!(arithmetic(0x8127, 7, 5), (254, 0));
    assert_eq!(arithmetic(0x8127, 9, 9), (0, 1));
    assert_eq!(arithmetic(0x8127, 1, 0), (255, 0));
}

#[test]
fn shifts_store_the_bit_shifted_out() {
    assert_eq!(arithmetic(0x8126, 0b0000_0101, 0xAA), (0b0000_0010, 1));
    assert_eq!(arithmetic(0x8126, 0b0000_0100, 0xAA), (0b0000_0010, 0));
    assert_eq!(arithmetic(0x812E, 0b1000_0001, 0xAA), (0b0000_0010, 1));
    assert_eq!(arithmetic(0x812E, 0b0100_0001, 0xAA), (0b1000_0010, 0));
    assert_eq!(arithmetic(0x8126, 0, 0xFF), (0, 0));
    assert_eq!(arithmetic(0x812E, 0xFF, 0), (0xFE, 1));
}

#[test]
fn shift_of_the_flag_register_shifts_the_stored_bit() {
    // set vF, 3; shr vF
    let (mut cpu, mut memory, mut gr) = machine(&[0x6F03, 0x8F06]);
    run(&mut cpu, &mut memory, &mut gr, 2);
    assert_eq!(cpu.register(0xF), 0);
    // set vF, 0x81; shl vF
    let (mut cpu, mut memory, mut gr) = machine(&[0x6F81, 0x8F0E]);
    run(&mut cpu, &mut memory, &mut gr, 2);
    assert_eq!(cpu.register(0xF), 2);
}

#[test]
fn bitwise_and_assign() {
    assert_eq!(arithmetic(0x8120, 0x12, 0x34), (0x34, 0));
    assert_eq!(arithmetic(0x8121, 0b1100, 0b1010), (0b1110, 0));
    assert_eq!(arithmetic(0x8122, 0b1100, 0b1010), (0b1000, 0));
    assert_eq!(arithmetic(0x8123, 0b1100, 0b1010), (0b0110, 0));
}

#[test]
fn add_immediate_wraps_without_flag() {
    // set v3, 250; add v3, 10
    let (mut cpu, mut memory, mut gr) = machine(&[0x63FA, 0x730A]);
    run(&mut cpu, &mut memory, &mut gr, 2);
    assert_eq!(cpu.register(3), 4);
    assert_eq!(cpu.register(0xF), 0);
    assert_eq!(cpu.pc, 0x204);
}

#[test]
fn set_then_add_reg_end_to_end() {
    let (mut cpu, mut memory, mut gr) = machine(&[0x6005, 0x6103, 0x8014]);
    run(&mut cpu, &mut memory, &mut gr, 3);
    assert_eq!(cpu.register(0), 8);
    assert_eq!(cpu.register(1), 3);
    assert_eq!(cpu.register(0xF), 0);
    assert_eq!(cpu.pc, 0x206);
}

#[test]
fn conditional_skips_advance_by_two_or_four() {
    // (program after `set v1, 7; set v2, 7`, pc after the third cycle)
    let cases: [(u16, u16); 8] = [
        (0x3107, 0x208),
        (0x3108, 0x206),
        (0x4107, 0x206),
        (0x4108, 0x208),
        (0x5120, 0x208),
        (0x5130, 0x206),
        (0x9120, 0x206),
        (0x9130, 0x208),
    ];
    for (word, expected) in cases {
        let (mut cpu, mut memory, mut gr) = machine(&[0x6107, 0x6207, word]);
        run(&mut cpu, &mut memory, &mut gr, 3);
        assert_eq!(cpu.pc, expected, "word {:#06x}", word);
    }
}

#[test]
fn key_skips_advance_by_two_or_four() {
    // set v1, 0xA; skip if key v1 down
    let (mut cpu, mut memory, mut gr) = machine(&[0x610A, 0xE19E]);
    run(&mut cpu, &mut memory, &mut gr, 2);
    assert_eq!(cpu.pc, 0x204);
    let (mut cpu, mut memory, mut gr) = machine(&[0x610A, 0xE19E]);
    cpu.key_set(0xA, true);
    assert!(cpu.key(0xA));
    run(&mut cpu, &mut memory, &mut gr, 2);
    assert_eq!(cpu.pc, 0x206);
    // set v1, 0xA; skip if key v1 up
    let (mut cpu, mut memory, mut gr) = machine(&[0x610A, 0xE1A1]);
    run(&mut cpu, &mut memory, &mut gr, 2);
    assert_eq!(cpu.pc, 0x206);
    let (mut cpu, mut memory, mut gr) = machine(&[0x610A, 0xE1A1]);
    cpu.key_set(0xA, true);
    run(&mut cpu, &mut memory, &mut gr, 2);
    assert_eq!(cpu.pc, 0x204);
    cpu.key_set(0xA, false);
    assert!(!cpu.key(0xA));
}

#[test]
fn jump_and_jump_with_offset() {
    let (mut cpu, mut memory, mut gr) = machine(&[0x1ABC]);
    run(&mut cpu, &mut memory, &mut gr, 1);
    assert_eq!(cpu.pc, 0xABC);
    // set v0, 0x10; jump to 0x300 + v0
    let (mut cpu, mut memory, mut gr) = machine(&[0x6010, 0xB300]);
    run(&mut cpu, &mut memory, &mut gr, 2);
    assert_eq!(cpu.pc, 0x310);
    // the target may lie beyond memory: the next cycle is then refused
    let (mut cpu, mut memory, mut gr) = machine(&[0x60FF, 0xBFFF]);
    run(&mut cpu, &mut memory, &mut gr, 2);
    assert_eq!(cpu.pc, 0x10FE);
    assert_eq!(cpu.fault(&memory), Some(Fault::AddressOutOfRange));
}

#[test]
fn call_then_return_restores_the_program_counter() {
    let (mut cpu, mut memory, mut gr) = machine(&[0x2400]);
    store(&mut memory, 0x400, &[0x00EE]);
    run(&mut cpu, &mut memory, &mut gr, 1);
    assert_eq!(cpu.pc, 0x400);
    assert_eq!(cpu.sp(), 1);
    run(&mut cpu, &mut memory, &mut gr, 1);
    assert_eq!(cpu.pc, 0x200);
    assert_eq!(cpu.sp(), 0);
}

#[test]
fn sixteen_calls_fill_the_stack_and_the_next_overflows() {
    // Seventeen calls in a chain: the call at 0x200 + 4k goes to 0x204 + 4k,
    // and a return stands behind each call.
    let mut memory = Memory::new();
    for k in 0..17u16 {
        store(&mut memory, 0x200 + 4 * k, &[0x2000 | (0x204 + 4 * k), 0x00EE]);
    }
    let mut cpu = CPU::new();
    let mut gr = Graphics::new();
    for k in 0..16u16 {
        assert_eq!(cpu.sp(), k);
        assert_eq!(step(&mut cpu, &mut memory, &mut gr), Ok(()));
        assert_eq!(cpu.pc, 0x204 + 4 * k);
    }
    assert_eq!(cpu.sp(), 16);
    assert_eq!(cpu.fault(&memory), Some(Fault::StackOverflow));
    // Unwind: since a return goes back to the call itself, point the
    // program counter at a return each time.
    for k in (0..16u16).rev() {
        cpu.pc = 0x202;
        assert_eq!(step(&mut cpu, &mut memory, &mut gr), Ok(()));
        assert_eq!(cpu.pc, 0x200 + 4 * k);
        assert_eq!(cpu.sp(), k);
    }
    assert_eq!(cpu.sp(), 0);
}

#[test]
fn return_on_an_empty_stack_is_a_fault() {
    let (cpu, memory, _gr) = machine(&[0x00EE]);
    assert_eq!(cpu.fault(&memory), Some(Fault::StackUnderflow));
}

#[test]
fn fetch_beyond_memory_is_a_fault() {
    let (mut cpu, memory, _gr) = machine(&[]);
    cpu.pc = 0x0FFE;
    assert_eq!(cpu.fault(&memory), None);
    cpu.pc = 0x0FFF;
    assert_eq!(cpu.fault(&memory), Some(Fault::AddressOutOfRange));
    cpu.pc = 0xFFFF;
    assert_eq!(cpu.fault(&memory), Some(Fault::AddressOutOfRange));
}

#[test]
fn memory_operands_beyond_memory_are_faults() {
    // index 0xFFE: store_bcd needs three bytes
    let (mut cpu, mut memory, mut gr) = machine(&[0xAFFE, 0xF033]);
    run(&mut cpu, &mut memory, &mut gr, 1);
    assert_eq!(cpu.fault(&memory), Some(Fault::AddressOutOfRange));
    let (mut cpu, mut memory, mut gr) = machine(&[0xAFFD, 0xF033]);
    run(&mut cpu, &mut memory, &mut gr, 1);
    assert_eq!(cpu.fault(&memory), None);
    // index 0xFFE: registers 0..=2 need three bytes, registers 0..=1 fit
    let (mut cpu, mut memory, mut gr) = machine(&[0xAFFE, 0xF255]);
    run(&mut cpu, &mut memory, &mut gr, 1);
    assert_eq!(cpu.fault(&memory), Some(Fault::AddressOutOfRange));
    let (mut cpu, mut memory, mut gr) = machine(&[0xAFFE, 0xF165]);
    run(&mut cpu, &mut memory, &mut gr, 1);
    assert_eq!(cpu.fault(&memory), None);
    let (mut cpu, mut memory, mut gr) = machine(&[0xAFFE, 0xF265]);
    run(&mut cpu, &mut memory, &mut gr, 1);
    assert_eq!(cpu.fault(&memory), Some(Fault::AddressOutOfRange));
    // index 0xFFE: a sprite of three rows does not fit, one of two does, and
    // one of no rows reads nothing
    let (mut cpu, mut memory, mut gr) = machine(&[0xAFFE, 0xD003]);
    run(&mut cpu, &mut memory, &mut gr, 1);
    assert_eq!(cpu.fault(&memory), Some(Fault::AddressOutOfRange));
    let (mut cpu, mut memory, mut gr) = machine(&[0xAFFE, 0xD002]);
    run(&mut cpu, &mut memory, &mut gr, 1);
    assert_eq!(cpu.fault(&memory), None);
}

#[test]
fn key_code_beyond_the_keypad_is_a_fault() {
    let (mut cpu, mut memory, mut gr) = machine(&[0x6110, 0xE19E]);
    run(&mut cpu, &mut memory, &mut gr, 1);
    assert_eq!(cpu.fault(&memory), Some(Fault::KeyOutOfRange));
    let (mut cpu, mut memory, mut gr) = machine(&[0x6110, 0xE1A1]);
    run(&mut cpu, &mut memory, &mut gr, 1);
    assert_eq!(cpu.fault(&memory), Some(Fault::KeyOutOfRange));
    let (mut cpu, mut memory, mut gr) = machine(&[0x610F, 0xE1A1]);
    run(&mut cpu, &mut memory, &mut gr, 1);
    assert_eq!(cpu.fault(&memory), None);
}

#[test]
fn unknown_words_are_reported_and_change_nothing_but_the_timers() {
    // set v1, 9; delay = v1; sound = v1; unknown
    for (word, reason) in
        [(0x0001u16, ""), (0x8128, "Unknown command"), (0xE100, "Unknown command"), (0xF1FF, "Unknown command")]
    {
        let (mut cpu, mut memory, mut gr) = machine(&[0x6109, 0xF115, 0xF118, word]);
        run(&mut cpu, &mut memory, &mut gr, 3);
        assert_eq!(cpu.delay_timer(), 7);
        assert_eq!(cpu.sound_timer(), 8);
        assert_eq!(step(&mut cpu, &mut memory, &mut gr), Err(reason));
        assert_eq!(cpu.pc, 0x206);
        assert_eq!(cpu.register(1), 9);
        assert_eq!(cpu.delay_timer(), 6);
        assert_eq!(cpu.sound_timer(), 7);
        assert_eq!(step(&mut cpu, &mut memory, &mut gr), Err(reason));
        assert_eq!(cpu.pc, 0x206);
    }
}

#[test]
fn timers_count_down_once_per_cycle_and_stop_at_zero() {
    // set v1, 3; delay = v1; v2 = delay; v3 = delay; v4 = delay; v5 = delay
    let (mut cpu, mut memory, mut gr) =
        machine(&[0x6103, 0xF115, 0xF207, 0xF307, 0xF407, 0xF507]);
    run(&mut cpu, &mut memory, &mut gr, 2);
    assert_eq!(cpu.delay_timer(), 2);
    run(&mut cpu, &mut memory, &mut gr, 4);
    assert_eq!(cpu.register(2), 2);
    assert_eq!(cpu.register(3), 1);
    assert_eq!(cpu.register(4), 0);
    assert_eq!(cpu.register(5), 0);
    assert_eq!(cpu.delay_timer(), 0);
    assert_eq!(cpu.sound_timer(), 0);
}

#[test]
fn sound_timer_is_set_and_counts_down() {
    // set v1, 2; sound = v1; then two idle instructions
    let (mut cpu, mut memory, mut gr) = machine(&[0x6102, 0xF118, 0x6000, 0x6000]);
    run(&mut cpu, &mut memory, &mut gr, 2);
    assert_eq!(cpu.sound_timer(), 1);
    run(&mut cpu, &mut memory, &mut gr, 1);
    assert_eq!(cpu.sound_timer(), 0);
    run(&mut cpu, &mut memory, &mut gr, 1);
    assert_eq!(cpu.sound_timer(), 0);
    assert_eq!(cpu.delay_timer(), 0);
}

#[test]
fn index_operations() {
    // index = 0x123; set v1, 0x10; index += v1
    let (mut cpu, mut memory, mut gr) = machine(&[0xA123, 0x6110, 0xF11E]);
    run(&mut cpu, &mut memory, &mut gr, 3);
    assert_eq!(cpu.index(), 0x133);
    assert_eq!(cpu.pc, 0x206);
    // set v1, 0xA; index = glyph of v1
    let (mut cpu, mut memory, mut gr) = machine(&[0x610A, 0xF129]);
    run(&mut cpu, &mut memory, &mut gr, 2);
    assert_eq!(cpu.index(), 50);
    // set v1, 0xFF; index = glyph of v1
    let (mut cpu, mut memory, mut gr) = machine(&[0x61FF, 0xF129]);
    run(&mut cpu, &mut memory, &mut gr, 2);
    assert_eq!(cpu.index(), 1275);
}

#[test]
fn add_to_index_wraps_at_sixteen_bits() {
    // set v1, 0xFF; index = 0xFFF; then index += v1 until it wraps
    let mut words = vec![0x61FF, 0xAFFF];
    words.extend(std::iter::repeat(0xF11E).take(241));
    let (mut cpu, mut memory, mut gr) = machine(&words);
    run(&mut cpu, &mut memory, &mut gr, 2 + 240);
    assert_eq!(cpu.index(), 0x0FFF + 240 * 255);
    run(&mut cpu, &mut memory, &mut gr, 1);
    assert_eq!(cpu.index() as u32, (0x0FFF + 241 * 255) % 0x10000);
    assert_eq!(cpu.index(), 0x000E);
}

#[test]
fn store_bcd_writes_three_digits() {
    // set v1, 255; index = 0x300; store bcd of v1
    let (mut cpu, mut memory, mut gr) = machine(&[0x61FF, 0xA300, 0xF133]);
    memory.mem_write(0x2FF, 0x77);
    memory.mem_write(0x303, 0x77);
    run(&mut cpu, &mut memory, &mut gr, 3);
    assert_eq!(memory.mem_read(0x300), 2);
    assert_eq!(memory.mem_read(0x301), 5);
    assert_eq!(memory.mem_read(0x302), 5);
    assert_eq!(memory.mem_read(0x2FF), 0x77);
    assert_eq!(memory.mem_read(0x303), 0x77);
    assert_eq!(cpu.pc, 0x206);
    assert_eq!(cpu.index(), 0x300);
}

#[test]
fn store_bcd_of_small_values() {
    for (value, digits) in [(0u8, [0u8, 0, 0]), (7, [0, 0, 7]), (42, [0, 4, 2]), (109, [1, 0, 9]), (200, [2, 0, 0])] {
        let (mut cpu, mut memory, mut gr) = machine(&[0x6100 | value as u16, 0xA300, 0xF133]);
        run(&mut cpu, &mut memory, &mut gr, 3);
        assert_eq!(
            [memory.mem_read(0x300), memory.mem_read(0x301), memory.mem_read(0x302)],
            digits
        );
    }
}

#[test]
fn register_dump_and_load() {
    // set v0..v3; index = 0x300; dump v0..=v2
    let (mut cpu, mut memory, mut gr) =
        machine(&[0x6011, 0x6122, 0x6233, 0x6344, 0xA300, 0xF255]);
    run(&mut cpu, &mut memory, &mut gr, 6);
    assert_eq!(memory.mem_read(0x300), 0x11);
    assert_eq!(memory.mem_read(0x301), 0x22);
    assert_eq!(memory.mem_read(0x302), 0x33);
    assert_eq!(memory.mem_read(0x303), 0);
    assert_eq!(cpu.index(), 0x300);
    assert_eq!(cpu.pc, 0x20C);

    // index = 0x300; load v0..=v1
    let (mut cpu, mut memory, mut gr) = machine(&[0x63EE, 0xA300, 0xF165]);
    memory.mem_write(0x300, 0xAA);
    memory.mem_write(0x301, 0xBB);
    memory.mem_write(0x302, 0xCC);
    run(&mut cpu, &mut memory, &mut gr, 3);
    assert_eq!(cpu.register(0), 0xAA);
    assert_eq!(cpu.register(1), 0xBB);
    assert_eq!(cpu.register(2), 0);
    assert_eq!(cpu.register(3), 0xEE);
    assert_eq!(cpu.index(), 0x300);
    assert_eq!(cpu.pc, 0x206);
}

#[test]
fn register_dump_of_all_registers_up_to_the_last_byte() {
    let mut words: Vec<u16> = (0..16u16).map(|i| 0x6000 | (i << 8) | (0xA0 + i)).collect();
    words.push(0xAFF0);
    words.push(0xFF55);
    let (mut cpu, mut memory, mut gr) = machine(&words);
    run(&mut cpu, &mut memory, &mut gr, 18);
    for i in 0..16u16 {
        assert_eq!(memory.mem_read(0xFF0 + i), 0xA0 + i as u8);
    }
    assert_eq!(memory.mem_read(0xFEF), 0);
}

#[test]
fn random_stays_within_the_mask() {
    for _ in 0..64 {
        let (mut cpu, mut memory, mut gr) = machine(&[0xC10F, 0xC2F0, 0xC300]);
        run(&mut cpu, &mut memory, &mut gr, 3);
        assert_eq!(cpu.register(1) & 0xF0, 0);
        assert_eq!(cpu.register(2) & 0x0F, 0);
        assert_eq!(cpu.register(3), 0);
        assert_eq!(cpu.pc, 0x206);
    }
}

#[test]
fn bitwise_random_masks_the_given_byte() {
    let mut cpu = CPU::new();
    cpu.bitwise_random(3, 0x0F, 0xAB);
    assert_eq!(cpu.register(3), 0x0B);
    assert_eq!(cpu.pc, 0x202);
    cpu.bitwise_random(4, 0xF0, 0xAB);
    assert_eq!(cpu.register(4), 0xA0);
    assert_eq!(cpu.register(3), 0x0B);
    assert_eq!(cpu.pc, 0x204);
    cpu.bitwise_random(5, 0xFF, 0x5A);
    assert_eq!(cpu.register(5), 0x5A);
}

#[test]
fn wait_for_key_holds_the_program_counter() {
    let (mut cpu, mut memory, mut gr) = machine(&[0xF30A, 0x6001]);
    for _ in 0..10 {
        assert_eq!(step(&mut cpu, &mut memory, &mut gr), Ok(()));
        assert_eq!(cpu.pc, 0x200);
        assert_eq!(cpu.register(3), 0);
    }
    cpu.key_set(7, true);
    assert_eq!(step(&mut cpu, &mut memory, &mut gr), Ok(()));
    assert_eq!(cpu.pc, 0x202);
    assert_eq!(cpu.register(3), 7);
}

#[test]
fn wait_for_key_takes_the_lowest_key() {
    let (mut cpu, mut memory, mut gr) = machine(&[0xF30A]);
    cpu.key_set(0xF, true);
    cpu.key_set(4, true);
    cpu.key_set(9, true);
    run(&mut cpu, &mut memory, &mut gr, 1);
    assert_eq!(cpu.register(3), 4);
    assert_eq!(cpu.pc, 0x202);

    let (mut cpu, mut memory, mut gr) = machine(&[0x63FF, 0xF30A]);
    cpu.key_set(0, true);
    run(&mut cpu, &mut memory, &mut gr, 2);
    assert_eq!(cpu.register(3), 0);
    assert_eq!(cpu.pc, 0x204);
}

#[test]
fn wait_for_key_lets_the_timers_run() {
    // set v1, 5; delay = v1; wait for key
    let (mut cpu, mut memory, mut gr) = machine(&[0x6105, 0xF115, 0xF30A]);
    run(&mut cpu, &mut memory, &mut gr, 2);
    assert_eq!(cpu.delay_timer(), 4);
    run(&mut cpu, &mut memory, &mut gr, 3);
    assert_eq!(cpu.pc, 0x204);
    assert_eq!(cpu.delay_timer(), 1);
}

#[test]
fn clear_display_turns_every_pixel_off() {
    let (mut cpu, mut memory, mut gr) = machine(&[0x00E0]);
    gr.toggle(0);
    gr.toggle(1000);
    gr.toggle(2047);
    run(&mut cpu, &mut memory, &mut gr, 1);
    assert!(gr.gfx.iter().all(|&pixel| pixel == 0));
    assert_eq!(cpu.pc, 0x202);
    assert!(!gr.draw_flag());
}
