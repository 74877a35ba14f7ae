//! Concrete instances of the round-trip laws: stack pushes and pulls,
//! ADC against SBC, ASL against LSR, and the set_zn flag routing.

use nes_cpu::cpu::CPU;
use nes_cpu::memory::Memory;
use nes_cpu::ppu_reg::PPURegisters;

fn machine(program: &[u8]) -> (CPU, Memory) {
    let mut memory = Memory::new(
        vec![0u8; 0x800],
        PPURegisters::new(),
        [0u8; 32],
        vec![0u8; 0x8000],
        vec![],
    );
    for (i, b) in program.iter().enumerate() {
        memory.set(0x0200 + i as u16, *b);
    }
    let cpu = CPU::new(&memory, false, Some(0x0200));
    (cpu, memory)
}

fn step(cpu: &mut CPU, memory: &mut Memory) {
    let tick = cpu.cycle;
    cpu.cycle(memory, tick).unwrap();
}

#[test]
fn pha_pla_restores_a_and_sp() {
    let (mut cpu, mut memory) = machine(&[0x48, 0x68]);  // PHA, PLA
    cpu.accumulator = 0x5A;
    step(&mut cpu, &mut memory);
    assert_eq!(cpu.stack_pointer, 0xFC);
    assert_eq!(memory.get(0x01FD), 0x5A);
    cpu.accumulator = 0x00;
    step(&mut cpu, &mut memory);
    assert_eq!(cpu.accumulator, 0x5A);
    assert_eq!(cpu.stack_pointer, 0xFD);
    assert_eq!(cpu.status_register & 0x02, 0, "Z clear for a nonzero pull");
    assert_eq!(cpu.status_register & 0x80, 0, "N clear for a small pull");
}

#[test]
fn pha_touches_only_the_stack_page() {
    let (mut cpu, mut memory) = machine(&[0x48]);
    cpu.accumulator = 0x77;
    memory.set(0x00FD, 0x11);
    memory.set(0x02FD, 0x22);
    step(&mut cpu, &mut memory);
    assert_eq!(memory.get(0x01FD), 0x77);
    assert_eq!(memory.get(0x00FD), 0x11);
    assert_eq!(memory.get(0x02FD), 0x22);
}

#[test]
fn php_plp_restores_flags_and_keeps_u() {
    let (mut cpu, mut memory) = machine(&[0x08, 0x28]);  // PHP, PLP
    cpu.status_register = 0xA4;  // N, U, I
    step(&mut cpu, &mut memory);
    assert_eq!(memory.get(0x01FD), 0xA4 | 0x30, "pushed with B and U set");
    step(&mut cpu, &mut memory);
    assert_eq!(cpu.status_register, 0xA4);
    assert_ne!(cpu.status_register & 0x20, 0, "U remains 1");
}

#[test]
fn adc_then_sbc_reproduces_a_on_carrying_sum() {
    // A = 0x80 plus 0x80 carries; SBC with that carry restores A.
    let (mut cpu, mut memory) = machine(&[0x69, 0x80, 0xE9, 0x80]);  // ADC #$80, SBC #$80
    cpu.accumulator = 0x80;
    step(&mut cpu, &mut memory);
    assert_eq!(cpu.accumulator, 0x00, "low byte of 0x100");
    assert_ne!(cpu.status_register & 0x01, 0, "carry out");
    assert_ne!(cpu.status_register & 0x02, 0, "Z set");
    step(&mut cpu, &mut memory);
    assert_eq!(cpu.accumulator, 0x80, "SBC round trip");
}

#[test]
fn asl_then_lsr_clears_bit_7() {
    let (mut cpu, mut memory) = machine(&[0x0A, 0x4A]);  // ASL A, LSR A
    cpu.accumulator = 0xC3;
    step(&mut cpu, &mut memory);
    assert_eq!(cpu.accumulator, 0x86);
    assert_ne!(cpu.status_register & 0x01, 0, "ASL carry is old bit 7");
    step(&mut cpu, &mut memory);
    assert_eq!(cpu.accumulator, 0x43, "(v << 1) >> 1");
    assert_eq!(cpu.accumulator & 0x80, 0, "bit 7 cleared");
    assert_eq!(cpu.status_register & 0x01, 0, "LSR carry is bit 0 of the shifted byte");
}

#[test]
fn set_zn_routing_zero_and_negative() {
    let (mut cpu, mut memory) = machine(&[0xA9, 0x00, 0xA9, 0x80, 0xA9, 0x01]);
    step(&mut cpu, &mut memory);
    assert_ne!(cpu.status_register & 0x02, 0, "Z for zero");
    assert_eq!(cpu.status_register & 0x80, 0);
    step(&mut cpu, &mut memory);
    assert_eq!(cpu.status_register & 0x02, 0);
    assert_ne!(cpu.status_register & 0x80, 0, "N for bit 7");
    step(&mut cpu, &mut memory);
    assert_eq!(cpu.status_register & 0x02, 0);
    assert_eq!(cpu.status_register & 0x80, 0);
}

#[test]
fn u_bit_reads_one_after_every_instruction() {
    let (mut cpu, mut memory) = machine(&[0xA9, 0x00, 0x28, 0x48]);
    // Plant a pulled status byte with U and B clear: PLP must still keep U.
    memory.set(0x01FE, 0x00);
    cpu.stack_pointer = 0xFD;
    step(&mut cpu, &mut memory);  // LDA #$00
    assert_ne!(cpu.status_register & 0x20, 0);
    step(&mut cpu, &mut memory);  // PLP pulling 0x00
    assert_ne!(cpu.status_register & 0x20, 0, "U forced back on");
    assert_eq!(cpu.status_register & 0x10, 0, "B never set in the register");
}

#[test]
fn deferred_i_takes_effect_after_the_poll() {
    // CLI with a level IRQ pending: the old I masks the poll during CLI
    // itself, and I is clear afterwards.
    let (mut cpu, mut memory) = machine(&[0x58, 0xEA]);  // CLI, NOP
    cpu.irq = true;
    step(&mut cpu, &mut memory);
    assert_eq!(cpu.program_counter, 0x0201, "no interrupt during CLI");
    assert_eq!(cpu.status_register & 0x04, 0, "I cleared after the poll");
}
