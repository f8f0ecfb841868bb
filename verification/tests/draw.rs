use chip8::cpu::CPU;
use chip8::graphics::Graphics;
use chip8::memory::Memory;

/// A machine that holds `program` at the entry and `sprite` at 0x300, with
/// the index register to be set by the program.
fn machine(program: &[u16], sprite: &[u8]) -> (CPU, Memory, Graphics) {
    let mut memory = Memory::new();
    for (i, &word) in program.iter().enumerate() {
        memory.mem_write(0x200 + 2 * i as u16, (word >> 8) as u8);
        memory.mem_write(0x200 + 2 * i as u16 + 1, (word & 0xFF) as u8);
    }
    for (i, &row) in sprite.iter().enumerate() {
        memory.mem_write(0x300 + i as u16, row);
    }
    (CPU::new(), memory, Graphics::new())
}

fn run(cpu: &mut CPU, memory: &mut Memory, gr: &mut Graphics, cycles: usize) {
    for _ in 0..cycles {
        assert_eq!(cpu.fault(memory), None);
        assert_eq!(cpu.execute(memory, gr), Ok(()));
    }
}

fn lit(gr: &Graphics) -> Vec<(usize, usize)> {
    let mut on = Vec::new();
    for p in 0..2048 {
        assert!(gr.gfx[p] <= 1);
        if gr.gfx[p] == 1 {
            on.push((p % 64, p / 64));
        }
    }
    on
}

#[test]
fn draw_sets_the_pixels_under_the_sprite() {
    // set v1, 3; set v2, 2; index = 0x300; draw v1, v2, 2 rows
    let (mut cpu, mut memory, mut gr) = machine(&[0x6103, 0x6202, 0xA300, 0xD122], &[0b1010_0001, 0b1100_0000]);
    run(&mut cpu, &mut memory, &mut gr, 4);
    assert_eq!(lit(&gr), vec![(3, 2), (5, 2), (10, 2), (3, 3), (4, 3)]);
    assert_eq!(cpu.register(0xF), 0);
    assert!(gr.draw_flag());
    assert_eq!(cpu.pc, 0x208);
    assert_eq!(cpu.index(), 0x300);
    assert_eq!(memory.mem_read(0x300), 0b1010_0001);
}

#[test]
fn draw_twice_collides_and_clears() {
    let (mut cpu, mut memory, mut gr) =
        machine(&[0x6103, 0x6202, 0xA300, 0xD123, 0xD123], &[0xFF, 0x81, 0xFF]);
    run(&mut cpu, &mut memory, &mut gr, 4);
    assert_eq!(lit(&gr).len(), 8 + 2 + 8);
    assert_eq!(cpu.register(0xF), 0);
    gr.draw_flag_clear();
    run(&mut cpu, &mut memory, &mut gr, 1);
    assert_eq!(cpu.register(0xF), 1);
    assert_eq!(lit(&gr), vec![]);
    assert!(gr.draw_flag());
}

#[test]
fn draw_reports_a_collision_only_where_a_lit_pixel_goes_off() {
    // Two sprites side by side do not collide; overlapping by one pixel they do.
    let (mut cpu, mut memory, mut gr) =
        machine(&[0x6100, 0x6200, 0x6308, 0xA300, 0xD121, 0xD321], &[0xFF]);
    run(&mut cpu, &mut memory, &mut gr, 6);
    assert_eq!(cpu.register(0xF), 0);
    assert_eq!(lit(&gr).len(), 16);

    let (mut cpu, mut memory, mut gr) =
        machine(&[0x6100, 0x6200, 0x6307, 0xA300, 0xD121, 0xD321], &[0xFF]);
    run(&mut cpu, &mut memory, &mut gr, 6);
    assert_eq!(cpu.register(0xF), 1);
    let on = lit(&gr);
    assert_eq!(on.len(), 14);
    assert!(!on.contains(&(7, 0)));
}

#[test]
fn draw_resets_the_flag_when_nothing_collides() {
    // set vF, 1; draw at (0, 0)
    let (mut cpu, mut memory, mut gr) = machine(&[0x6F01, 0x6100, 0xA300, 0xD111], &[0x80]);
    run(&mut cpu, &mut memory, &mut gr, 4);
    assert_eq!(cpu.register(0xF), 0);
    assert_eq!(lit(&gr), vec![(0, 0)]);
}

#[test]
fn draw_wraps_around_both_edges() {
    // set v1, 62; set v2, 31; draw 2 rows of 0xFF
    let (mut cpu, mut memory, mut gr) = machine(&[0x613E, 0x621F, 0xA300, 0xD122], &[0xFF, 0xFF]);
    run(&mut cpu, &mut memory, &mut gr, 4);
    let on = lit(&gr);
    assert_eq!(on.len(), 16);
    for x in [62, 63, 0, 1, 2, 3, 4, 5] {
        assert!(on.contains(&(x, 31)));
        assert!(on.contains(&(x, 0)));
    }
    assert_eq!(cpu.register(0xF), 0);
}

#[test]
fn draw_takes_coordinates_modulo_the_screen() {
    // set v1, 200 (200 mod 64 = 8); set v2, 100 (100 mod 32 = 4)
    let (mut cpu, mut memory, mut gr) = machine(&[0x61C8, 0x6264, 0xA300, 0xD121], &[0xC0]);
    run(&mut cpu, &mut memory, &mut gr, 4);
    assert_eq!(lit(&gr), vec![(8, 4), (9, 4)]);
}

#[test]
fn draw_of_no_rows_changes_no_pixel() {
    let (mut cpu, mut memory, mut gr) = machine(&[0x6F01, 0xA300, 0xD120], &[0xFF]);
    gr.toggle(0);
    run(&mut cpu, &mut memory, &mut gr, 3);
    assert_eq!(lit(&gr), vec![(0, 0)]);
    assert_eq!(cpu.register(0xF), 0);
    assert!(gr.draw_flag());
    assert_eq!(cpu.pc, 0x206);
}

#[test]
fn draw_of_a_blank_sprite_twice_does_not_collide() {
    let (mut cpu, mut memory, mut gr) = machine(&[0xA300, 0xD122, 0xD122], &[0x00, 0x00]);
    run(&mut cpu, &mut memory, &mut gr, 3);
    assert_eq!(cpu.register(0xF), 0);
    assert_eq!(lit(&gr), vec![]);
}

#[test]
fn draw_full_height_sprite() {
    let sprite = [0x80u8; 15];
    let (mut cpu, mut memory, mut gr) = machine(&[0x6105, 0x6214, 0xA300, 0xD12F], &sprite);
    run(&mut cpu, &mut memory, &mut gr, 4);
    let on = lit(&gr);
    assert_eq!(on.len(), 15);
    for row in 0..15 {
        assert!(on.contains(&(5, (20 + row) % 32)));
    }
}
