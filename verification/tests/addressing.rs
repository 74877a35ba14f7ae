//! Boundary behavior of the addressing resolvers: zero-page wraps, the
//! indirect page-wrap defect, and operand-dependent cycle costs.

use nes_cpu::cpu::CPU;
use nes_cpu::memory::Memory;
use nes_cpu::ppu_reg::PPURegisters;

fn ram_machine(program: &[u8]) -> (CPU, Memory) {
    let mut memory = Memory::new(
        vec![0u8; 0x800],
        PPURegisters::new(),
        [0u8; 32],
        vec![0u8; 0x8000],
        vec![],
    );
    for (i, b) in program.iter().enumerate() {
        memory.set(0x0200 + i as u16, *b);
    }
    let cpu = CPU::new(&memory, false, Some(0x0200));
    (cpu, memory)
}

fn step(cpu: &mut CPU, memory: &mut Memory) {
    let tick = cpu.cycle;
    cpu.cycle(memory, tick).unwrap();
}

#[test]
fn zero_page_indexed_wraps() {
    // LDA $80,X with X = 0xFF reads from (0x80 + 0xFF) mod 256 = 0x7F.
    let (mut cpu, mut memory) = ram_machine(&[0xB5, 0x80]);
    memory.set(0x007F, 0x42);
    cpu.index_x = 0xFF;
    step(&mut cpu, &mut memory);
    assert_eq!(cpu.accumulator, 0x42);
    assert_eq!(cpu.cycle, 7 + 4);
}

#[test]
fn indirect_y_pointer_wraps_in_zero_page() {
    // LDA ($FF),Y: the pointer's high byte comes from 0x00, not 0x100.
    let (mut cpu, mut memory) = ram_machine(&[0xB1, 0xFF]);
    memory.set(0x00FF, 0x34);
    memory.set(0x0000, 0x12);
    memory.set(0x1234, 0x99);
    step(&mut cpu, &mut memory);
    assert_eq!(cpu.accumulator, 0x99);
    assert_eq!(cpu.cycle, 7 + 5, "no page cross, base cost");
}

#[test]
fn x_indirect_pointer_wraps_in_zero_page() {
    // LDA ($FE,X) with X = 1: pointer low at 0xFF, high at 0x00.
    let (mut cpu, mut memory) = ram_machine(&[0xA1, 0xFE]);
    memory.set(0x00FF, 0x34);
    memory.set(0x0000, 0x12);
    memory.set(0x1234, 0x77);
    cpu.index_x = 1;
    step(&mut cpu, &mut memory);
    assert_eq!(cpu.accumulator, 0x77);
    assert_eq!(cpu.cycle, 7 + 6);
}

#[test]
fn jmp_indirect_page_wrap_defect() {
    // JMP ($10FF): low byte from 0x10FF, high byte from 0x1000.
    let (mut cpu, mut memory) = ram_machine(&[0x6C, 0xFF, 0x10]);
    memory.set(0x10FF, 0x34);
    memory.set(0x1000, 0x12);
    memory.set(0x1100, 0x55);  // the address a carrying fetch would use
    step(&mut cpu, &mut memory);
    assert_eq!(cpu.program_counter, 0x1234);
    assert_eq!(cpu.cycle, 7 + 5);
}

#[test]
fn absolute_x_read_pays_for_page_cross() {
    // LDA $20FF,X with X = 1 crosses a page: 4 + 1 cycles.
    let (mut cpu, mut memory) = ram_machine(&[0xBD, 0xFF, 0x20]);
    cpu.index_x = 1;
    step(&mut cpu, &mut memory);
    assert_eq!(cpu.cycle, 7 + 5);
}

#[test]
fn absolute_x_read_without_cross_is_base_cost() {
    let (mut cpu, mut memory) = ram_machine(&[0xBD, 0x00, 0x03]);
    cpu.index_x = 1;
    step(&mut cpu, &mut memory);
    assert_eq!(cpu.cycle, 7 + 4);
}

#[test]
fn absolute_x_rmw_always_pays_worst_case() {
    // ASL $20FF,X costs 7 whether or not the page is crossed.
    let (mut cpu, mut memory) = ram_machine(&[0x1E, 0xFF, 0x20]);
    cpu.index_x = 1;
    step(&mut cpu, &mut memory);
    assert_eq!(cpu.cycle, 7 + 7);

    let (mut cpu2, mut memory2) = ram_machine(&[0x1E, 0x00, 0x03]);
    cpu2.index_x = 1;
    step(&mut cpu2, &mut memory2);
    assert_eq!(cpu2.cycle, 7 + 7);
}

#[test]
fn absolute_x_store_always_pays_worst_case() {
    let (mut cpu, mut memory) = ram_machine(&[0x9D, 0x00, 0x03]);
    cpu.index_x = 1;
    cpu.accumulator = 0xAA;
    step(&mut cpu, &mut memory);
    assert_eq!(memory.get(0x0301), 0xAA);
    assert_eq!(cpu.cycle, 7 + 5);
}

#[test]
fn branch_forward_page_cross_costs_two_extra() {
    // BEQ +10 from 0x80FA: next is 0x80FC, target 0x8106 on the next page.
    let mut prg = vec![0u8; 0x8000];
    prg[0x00FA] = 0xF0;
    prg[0x00FB] = 0x0A;
    let mut memory = Memory::new(vec![0u8; 0x800], PPURegisters::new(), [0u8; 32], prg, vec![]);
    let mut cpu = CPU::new(&memory, false, Some(0x80FA));
    cpu.status_register |= 0x02;
    step(&mut cpu, &mut memory);
    assert_eq!(cpu.program_counter, 0x8106);
    assert_eq!(cpu.cycle, 7 + 4);
}

#[test]
fn branch_backward_taken_same_page() {
    // BNE -2 from 0x0210 with Z clear: target 0x0210, same page: 3 cycles.
    let (mut cpu, mut memory) = ram_machine(&[0xEA; 0x20]);
    memory.set(0x0210, 0xD0);
    memory.set(0x0211, 0xFE);
    cpu.program_counter = 0x0210;
    step(&mut cpu, &mut memory);
    assert_eq!(cpu.program_counter, 0x0210);
    assert_eq!(cpu.cycle, 7 + 3);
}

#[test]
fn branch_not_taken_costs_two() {
    let (mut cpu, mut memory) = ram_machine(&[0xF0, 0x10]);  // BEQ with Z clear
    step(&mut cpu, &mut memory);
    assert_eq!(cpu.program_counter, 0x0202);
    assert_eq!(cpu.cycle, 7 + 2);
}

#[test]
fn absolute_y_read_pays_for_page_cross() {
    let (mut cpu, mut memory) = ram_machine(&[0xB9, 0xFF, 0x20, 0xB9, 0x00, 0x03]);
    cpu.index_y = 1;
    step(&mut cpu, &mut memory);
    assert_eq!(cpu.cycle, 7 + 5, "crossing read costs one more");
    step(&mut cpu, &mut memory);
    assert_eq!(cpu.cycle, 7 + 5 + 4, "same-page read at base cost");
}

#[test]
fn indirect_y_read_pays_for_page_cross() {
    let (mut cpu, mut memory) = ram_machine(&[0xB1, 0x40]);
    memory.set(0x0040, 0xFF);
    memory.set(0x0041, 0x02);
    cpu.index_y = 1;
    step(&mut cpu, &mut memory);
    assert_eq!(cpu.cycle, 7 + 6, "0x02FF + 1 crosses into the next page");
}
