//! End-to-end scenarios: reset, simple programs, subroutines and overflow.

use nes_cpu::cpu::CPU;
use nes_cpu::memory::Memory;
use nes_cpu::ppu_reg::PPURegisters;

fn memory_with_vector(lo: u8, hi: u8) -> Memory {
    let mut prg = vec![0u8; 0x8000];
    prg[0x7FFC] = lo;
    prg[0x7FFD] = hi;
    Memory::new(vec![0u8; 0x800], PPURegisters::new(), [0u8; 32], prg, vec![])
}

fn run_one(cpu: &mut CPU, memory: &mut Memory) {
    let tick = cpu.cycle;
    cpu.cycle(memory, tick).unwrap();
}

#[test]
fn reset_state() {
    let memory = memory_with_vector(0xCD, 0xAB);
    let cpu = CPU::new(&memory, false, None);
    assert_eq!(cpu.program_counter, 0xABCD);
    assert_eq!(cpu.stack_pointer, 0xFD);
    assert_eq!(cpu.status_register, 0x24);
    assert_eq!(cpu.accumulator, 0);
    assert_eq!(cpu.index_x, 0);
    assert_eq!(cpu.index_y, 0);
    assert_eq!(cpu.cycle, 7);
}

#[test]
fn reset_with_override() {
    let memory = memory_with_vector(0xCD, 0xAB);
    let cpu = CPU::new(&memory, false, Some(0xC000));
    assert_eq!(cpu.program_counter, 0xC000);
    assert_eq!(cpu.cycle, 7);
}

#[test]
fn lda_imm_sta_zpg() {
    let mut memory = memory_with_vector(0x00, 0x02);
    for (i, b) in [0xA9u8, 0x42, 0x85, 0x10, 0x00].iter().enumerate() {
        memory.set(0x0200 + i as u16, *b);
    }
    let mut cpu = CPU::new(&memory, false, None);
    assert_eq!(cpu.program_counter, 0x0200);
    run_one(&mut cpu, &mut memory);
    assert_eq!(cpu.accumulator, 0x42);
    assert_eq!(cpu.cycle, 9);
    run_one(&mut cpu, &mut memory);
    assert_eq!(memory.get(0x0010), 0x42);
    assert_eq!(cpu.cycle, 12);
    assert_eq!(cpu.status_register & 0x80, 0, "N clear");
    assert_eq!(cpu.status_register & 0x02, 0, "Z clear");
}

#[test]
fn dormant_tick_changes_nothing() {
    let mut memory = memory_with_vector(0x00, 0x02);
    memory.set(0x0200, 0xA9);
    memory.set(0x0201, 0x42);
    let mut cpu = CPU::new(&memory, false, None);
    cpu.cycle(&mut memory, 0).unwrap();
    cpu.cycle(&mut memory, 6).unwrap();
    assert_eq!(cpu.program_counter, 0x0200);
    assert_eq!(cpu.accumulator, 0);
    assert_eq!(cpu.cycle, 7);
}

#[test]
fn beq_taken_page_cross() {
    // BEQ +14 at 0x80F0 sits in ROM: bytes F0 0E at PRG offset 0x00F0.
    let mut prg = vec![0u8; 0x8000];
    prg[0x00F0] = 0xF0;
    prg[0x00F1] = 0x0E;
    let mut memory = Memory::new(vec![0u8; 0x800], PPURegisters::new(), [0u8; 32], prg, vec![]);
    let mut cpu = CPU::new(&memory, false, Some(0x80F0));
    cpu.status_register |= 0x02;  // Z set: branch taken
    run_one(&mut cpu, &mut memory);
    assert_eq!(cpu.program_counter, 0x8100);
    assert_eq!(cpu.cycle, 7 + 4, "2 base + 1 taken + 1 page cross");
}

#[test]
fn jsr_rts() {
    let mut memory = memory_with_vector(0x00, 0x06);
    for (i, b) in [0x20u8, 0x09, 0x06, 0, 0, 0, 0, 0, 0, 0x60].iter().enumerate() {
        memory.set(0x0600 + i as u16, *b);
    }
    let mut cpu = CPU::new(&memory, false, None);
    assert_eq!(cpu.program_counter, 0x0600);
    run_one(&mut cpu, &mut memory);
    assert_eq!(cpu.stack_pointer, 0xFB);
    assert_eq!(memory.get(0x01FD), 0x06);
    assert_eq!(memory.get(0x01FC), 0x02);
    assert_eq!(cpu.program_counter, 0x0609);
    run_one(&mut cpu, &mut memory);
    assert_eq!(cpu.program_counter, 0x0603);
    assert_eq!(cpu.stack_pointer, 0xFD);
}

#[test]
fn adc_overflow() {
    let mut memory = memory_with_vector(0x00, 0x02);
    memory.set(0x0200, 0x69);  // ADC #$01
    memory.set(0x0201, 0x01);
    let mut cpu = CPU::new(&memory, false, None);
    cpu.accumulator = 0x7F;
    run_one(&mut cpu, &mut memory);
    assert_eq!(cpu.accumulator, 0x80);
    assert_ne!(cpu.status_register & 0x80, 0, "N set");
    assert_ne!(cpu.status_register & 0x40, 0, "V set");
    assert_eq!(cpu.status_register & 0x01, 0, "C clear");
    assert_eq!(cpu.status_register & 0x02, 0, "Z clear");
}

#[test]
fn illegal_opcode_is_fatal() {
    let mut memory = memory_with_vector(0x00, 0x02);
    memory.set(0x0200, 0x02);
    let mut cpu = CPU::new(&memory, false, None);
    let err = cpu.cycle(&mut memory, 7).unwrap_err();
    assert_eq!(err, "0x02");
    assert_eq!(cpu.program_counter, 0x0201, "post-fetch program counter");
    assert_eq!(cpu.cycle, 7, "no cycles charged");
}

#[test]
fn illegal_opcode_hex_uppercase() {
    let mut memory = memory_with_vector(0x00, 0x02);
    memory.set(0x0200, 0xFF);
    let mut cpu = CPU::new(&memory, false, None);
    assert_eq!(cpu.cycle(&mut memory, 7).unwrap_err(), "0xFF");
}

#[test]
fn official_nop_is_not_fatal() {
    let mut memory = memory_with_vector(0x00, 0x02);
    memory.set(0x0200, 0xEA);
    let mut cpu = CPU::new(&memory, false, None);
    cpu.cycle(&mut memory, 7).unwrap();
    assert_eq!(cpu.program_counter, 0x0201);
    assert_eq!(cpu.cycle, 9);
}

#[test]
fn nmi_serviced_before_irq_and_consumed() {
    let mut prg = vec![0u8; 0x8000];
    prg[0x7FFC] = 0x00;
    prg[0x7FFD] = 0x02;
    prg[0x7FFA] = 0x34;  // NMI vector 0x1234
    prg[0x7FFB] = 0x12;
    let mut memory = Memory::new(vec![0u8; 0x800], PPURegisters::new(), [0u8; 32], prg, vec![]);
    memory.set(0x0200, 0xEA);
    let mut cpu = CPU::new(&memory, false, None);
    cpu.nmi = true;
    run_one(&mut cpu, &mut memory);
    assert_eq!(cpu.program_counter, 0x1234);
    assert!(!cpu.nmi, "edge-triggered NMI consumed");
    assert_eq!(cpu.cycle, 7 + 2 + 7, "NOP plus 7 interrupt entry cycles");
    assert_eq!(cpu.stack_pointer, 0xFA);
    assert_eq!(memory.get(0x01FD), 0x02, "pushed return high byte");
    assert_eq!(memory.get(0x01FC), 0x01, "pushed return low byte");
    assert_eq!(memory.get(0x01FB), 0x24, "pushed status with B clear, U set");
    assert_ne!(cpu.status_register & 0x04, 0, "I raised");
}

#[test]
fn irq_masked_by_i_flag() {
    let mut memory = memory_with_vector(0x00, 0x02);
    memory.set(0x0200, 0xEA);
    let mut cpu = CPU::new(&memory, false, None);
    cpu.irq = true;  // I is set after reset, so the IRQ stays pending
    run_one(&mut cpu, &mut memory);
    assert_eq!(cpu.program_counter, 0x0201);
    assert_eq!(cpu.cycle, 9);
    assert!(cpu.irq, "level-held IRQ stays asserted");
}

#[test]
fn brk_pushes_b_set_and_jumps_through_irq_vector() {
    let mut prg = vec![0u8; 0x8000];
    prg[0x7FFC] = 0x00;
    prg[0x7FFD] = 0x02;
    prg[0x7FFE] = 0x78;  // IRQ/BRK vector 0x5678
    prg[0x7FFF] = 0x56;
    let mut memory = Memory::new(vec![0u8; 0x800], PPURegisters::new(), [0u8; 32], prg, vec![]);
    memory.set(0x0200, 0x00);
    let mut cpu = CPU::new(&memory, false, None);
    run_one(&mut cpu, &mut memory);
    assert_eq!(cpu.program_counter, 0x5678);
    assert_eq!(memory.get(0x01FD), 0x02, "return high byte");
    assert_eq!(memory.get(0x01FC), 0x02, "return low byte: BRK skips a padding byte");
    assert_eq!(memory.get(0x01FB), 0x24 | 0x30, "BRK pushes with B and U set");
    assert_ne!(cpu.status_register & 0x04, 0, "I raised");
    assert_eq!(cpu.cycle, 7 + 7);
}
