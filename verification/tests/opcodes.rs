//! Broader opcode coverage: one concrete check per instruction family and
//! a census of which opcode bytes the dispatcher accepts.

use nes_cpu::cpu::CPU;
use nes_cpu::memory::Memory;
use nes_cpu::ppu_reg::PPURegisters;

fn machine(program: &[u8]) -> (CPU, Memory) {
    let mut memory = Memory::new(
        vec![0u8; 0x800],
        PPURegisters::new(),
        [0u8; 32],
        vec![0u8; 0x8000],
        vec![],
    );
    for (i, b) in program.iter().enumerate() {
        memory.set(0x0200 + i as u16, *b);
    }
    let cpu = CPU::new(&memory, false, Some(0x0200));
    (cpu, memory)
}

fn step(cpu: &mut CPU, memory: &mut Memory) {
    let tick = cpu.cycle;
    cpu.cycle(memory, tick).unwrap();
}

#[test]
fn exactly_151_opcodes_are_official() {
    let mut accepted = 0;
    for op in 0..=255u8 {
        let (mut cpu, mut memory) = machine(&[op, 0x00, 0x03]);
        if cpu.cycle(&mut memory, 7).is_ok() {
            accepted += 1;
        }
    }
    assert_eq!(accepted, 151);
}

#[test]
fn inc_dec_memory_wraps() {
    let (mut cpu, mut memory) = machine(&[0xE6, 0x10, 0xC6, 0x11]);  // INC $10, DEC $11
    memory.set(0x0010, 0xFF);
    memory.set(0x0011, 0x00);
    step(&mut cpu, &mut memory);
    assert_eq!(memory.get(0x0010), 0x00);
    assert_ne!(cpu.status_register & 0x02, 0, "Z after wrap to zero");
    assert_eq!(cpu.cycle, 7 + 5);
    step(&mut cpu, &mut memory);
    assert_eq!(memory.get(0x0011), 0xFF);
    assert_ne!(cpu.status_register & 0x80, 0, "N after wrap to 0xFF");
    assert_eq!(cpu.cycle, 7 + 5 + 5);
}

#[test]
fn rol_ror_use_the_carry() {
    let (mut cpu, mut memory) = machine(&[0x38, 0x2A, 0x6A]);  // SEC, ROL A, ROR A
    cpu.accumulator = 0x40;
    step(&mut cpu, &mut memory);
    step(&mut cpu, &mut memory);
    assert_eq!(cpu.accumulator, 0x81, "carry rotated into bit 0");
    assert_eq!(cpu.status_register & 0x01, 0, "old bit 7 was clear");
    step(&mut cpu, &mut memory);
    assert_eq!(cpu.accumulator, 0x40, "bit 0 rotated out, no carry in");
    assert_ne!(cpu.status_register & 0x01, 0, "old bit 0 becomes carry");
}

#[test]
fn rmw_in_memory_via_rotate() {
    let (mut cpu, mut memory) = machine(&[0x26, 0x20]);  // ROL $20
    memory.set(0x0020, 0x81);
    step(&mut cpu, &mut memory);
    assert_eq!(memory.get(0x0020), 0x02);
    assert_ne!(cpu.status_register & 0x01, 0, "bit 7 shifted into carry");
    assert_eq!(cpu.cycle, 7 + 5);
}

#[test]
fn cmp_family_flags() {
    let (mut cpu, mut memory) = machine(&[0xC9, 0x10, 0xE0, 0x30, 0xC0, 0x20]);
    cpu.accumulator = 0x10;
    cpu.index_x = 0x20;
    cpu.index_y = 0x20;
    step(&mut cpu, &mut memory);  // CMP #$10: equal
    assert_ne!(cpu.status_register & 0x01, 0, "C: A >= M");
    assert_ne!(cpu.status_register & 0x02, 0, "Z: A == M");
    step(&mut cpu, &mut memory);  // CPX #$30: less
    assert_eq!(cpu.status_register & 0x01, 0, "C clear: X < M");
    assert_eq!(cpu.status_register & 0x02, 0);
    assert_ne!(cpu.status_register & 0x80, 0, "N from the wrapped difference");
    step(&mut cpu, &mut memory);  // CPY #$20: equal
    assert_ne!(cpu.status_register & 0x01, 0);
    assert_ne!(cpu.status_register & 0x02, 0);
}

#[test]
fn bit_reads_operand_bits() {
    let (mut cpu, mut memory) = machine(&[0x24, 0x10]);  // BIT $10
    memory.set(0x0010, 0xC0);
    cpu.accumulator = 0x3F;
    step(&mut cpu, &mut memory);
    assert_ne!(cpu.status_register & 0x02, 0, "Z: A & M == 0");
    assert_ne!(cpu.status_register & 0x40, 0, "V from operand bit 6");
    assert_ne!(cpu.status_register & 0x80, 0, "N from operand bit 7");
    assert_eq!(cpu.accumulator, 0x3F, "accumulator untouched");
}

#[test]
fn logic_ops_on_accumulator() {
    let (mut cpu, mut memory) = machine(&[0x29, 0x0F, 0x09, 0x80, 0x49, 0xFF]);
    cpu.accumulator = 0x5A;
    step(&mut cpu, &mut memory);  // AND #$0F
    assert_eq!(cpu.accumulator, 0x0A);
    step(&mut cpu, &mut memory);  // ORA #$80
    assert_eq!(cpu.accumulator, 0x8A);
    assert_ne!(cpu.status_register & 0x80, 0);
    step(&mut cpu, &mut memory);  // EOR #$FF
    assert_eq!(cpu.accumulator, 0x75);
}

#[test]
fn sbc_without_borrow_and_with_borrow() {
    let (mut cpu, mut memory) = machine(&[0x38, 0xE9, 0x30, 0xE9, 0x60]);  // SEC, SBC #$30, SBC #$60
    cpu.accumulator = 0x50;
    step(&mut cpu, &mut memory);
    step(&mut cpu, &mut memory);
    assert_eq!(cpu.accumulator, 0x20);
    assert_ne!(cpu.status_register & 0x01, 0, "no borrow");
    step(&mut cpu, &mut memory);
    assert_eq!(cpu.accumulator, 0xC0);
    assert_eq!(cpu.status_register & 0x01, 0, "borrow clears carry");
    assert_ne!(cpu.status_register & 0x80, 0);
}

#[test]
fn loads_and_stores_in_indexed_modes() {
    let (mut cpu, mut memory) = machine(&[
        0xA2, 0x05,        // LDX #$05
        0xB6, 0x10,        // LDX $10,Y
        0xA0, 0x03,        // LDY #$03
        0x96, 0x40,        // STX $40,Y
        0x81, 0x50,        // STA ($50,X)
        0x91, 0x60,        // STA ($60),Y
    ]);
    memory.set(0x0012, 0x77);  // $10,Y with Y=2
    cpu.index_y = 2;
    step(&mut cpu, &mut memory);
    assert_eq!(cpu.index_x, 0x05);
    step(&mut cpu, &mut memory);
    assert_eq!(cpu.index_x, 0x77);
    step(&mut cpu, &mut memory);
    assert_eq!(cpu.index_y, 0x03);
    step(&mut cpu, &mut memory);
    assert_eq!(memory.get(0x0043), 0x77, "STX zero-page,Y");
    memory.set(0x00C7, 0x34);  // ($50,X): X=0x77 -> pointer at 0xC7/0xC8
    memory.set(0x00C8, 0x03);
    cpu.accumulator = 0xAB;
    step(&mut cpu, &mut memory);
    assert_eq!(memory.get(0x0334), 0xAB, "STA (indirect,X)");
    assert_eq!(cpu.cycle, 7 + 2 + 4 + 2 + 4 + 6);
    memory.set(0x0060, 0x00);
    memory.set(0x0061, 0x04);
    step(&mut cpu, &mut memory);
    assert_eq!(memory.get(0x0403), 0xAB, "STA (indirect),Y lands at base + Y");
    assert_eq!(cpu.cycle, 7 + 2 + 4 + 2 + 4 + 6 + 6, "indirect,Y store pays 6 always");
}

#[test]
fn transfers_and_flags() {
    let (mut cpu, mut memory) = machine(&[0xAA, 0xA8, 0x8A, 0x98, 0x9A, 0xBA]);
    cpu.accumulator = 0x80;
    step(&mut cpu, &mut memory);  // TAX
    assert_eq!(cpu.index_x, 0x80);
    assert_ne!(cpu.status_register & 0x80, 0);
    step(&mut cpu, &mut memory);  // TAY
    assert_eq!(cpu.index_y, 0x80);
    cpu.index_x = 0x00;
    step(&mut cpu, &mut memory);  // TXA
    assert_eq!(cpu.accumulator, 0x00);
    assert_ne!(cpu.status_register & 0x02, 0, "Z from transfer");
    step(&mut cpu, &mut memory);  // TYA
    assert_eq!(cpu.accumulator, 0x80);
    cpu.index_x = 0x00;
    let p_before = cpu.status_register;
    step(&mut cpu, &mut memory);  // TXS
    assert_eq!(cpu.stack_pointer, 0x00);
    assert_eq!(cpu.status_register, p_before, "TXS touches no flags");
    step(&mut cpu, &mut memory);  // TSX
    assert_eq!(cpu.index_x, 0x00);
    assert_ne!(cpu.status_register & 0x02, 0, "TSX sets Z");
}

#[test]
fn index_steps_wrap() {
    let (mut cpu, mut memory) = machine(&[0xE8, 0xC8, 0xCA, 0x88]);  // INX INY DEX DEY
    cpu.index_x = 0xFF;
    cpu.index_y = 0x00;
    step(&mut cpu, &mut memory);
    assert_eq!(cpu.index_x, 0x00);
    assert_ne!(cpu.status_register & 0x02, 0);
    step(&mut cpu, &mut memory);
    assert_eq!(cpu.index_y, 0x01);
    step(&mut cpu, &mut memory);
    assert_eq!(cpu.index_x, 0xFF);
    assert_ne!(cpu.status_register & 0x80, 0);
    step(&mut cpu, &mut memory);
    assert_eq!(cpu.index_y, 0x00);
}

#[test]
fn flag_instructions() {
    let (mut cpu, mut memory) = machine(&[0x38, 0xF8, 0x78, 0x18, 0xD8, 0xB8]);
    cpu.status_register |= 0x40;  // pretend V was set by arithmetic
    step(&mut cpu, &mut memory);  // SEC
    assert_ne!(cpu.status_register & 0x01, 0);
    step(&mut cpu, &mut memory);  // SED
    assert_ne!(cpu.status_register & 0x08, 0);
    step(&mut cpu, &mut memory);  // SEI
    assert_ne!(cpu.status_register & 0x04, 0);
    step(&mut cpu, &mut memory);  // CLC
    assert_eq!(cpu.status_register & 0x01, 0);
    step(&mut cpu, &mut memory);  // CLD
    assert_eq!(cpu.status_register & 0x08, 0);
    step(&mut cpu, &mut memory);  // CLV
    assert_eq!(cpu.status_register & 0x40, 0);
}

#[test]
fn rti_restores_status_and_return_address() {
    let (mut cpu, mut memory) = machine(&[0x40]);  // RTI
    // Plant a frame as an interrupt entry would: P, then PC low, PC high.
    memory.set(0x01FE, 0xF1);  // status with B and U bits as pushed
    memory.set(0x01FF, 0x34);
    memory.set(0x0100, 0x12);  // stack wraps within page one
    cpu.stack_pointer = 0xFD;
    step(&mut cpu, &mut memory);
    assert_eq!(cpu.program_counter, 0x1234);
    assert_eq!(cpu.status_register, 0xE1, "B masked off, U forced on");
    assert_eq!(cpu.stack_pointer, 0x00);
    assert_eq!(cpu.cycle, 7 + 6);
}

#[test]
fn stack_pointer_wraps_on_push_beyond_page_start() {
    let (mut cpu, mut memory) = machine(&[0x48, 0x48]);  // PHA PHA
    cpu.stack_pointer = 0x00;
    cpu.accumulator = 0x42;
    step(&mut cpu, &mut memory);
    assert_eq!(cpu.stack_pointer, 0xFF, "stack pointer wraps modulo 256");
    assert_eq!(memory.get(0x0100), 0x42);
    step(&mut cpu, &mut memory);
    assert_eq!(memory.get(0x01FF), 0x42);
    assert_eq!(cpu.stack_pointer, 0xFE);
}

#[test]
fn program_counter_wraps_at_top_of_memory() {
    let mut prg = vec![0u8; 0x8000];
    prg[0x7FFF] = 0xEA;  // NOP at 0xFFFF
    let mut memory = Memory::new(vec![0u8; 0x800], PPURegisters::new(), [0u8; 32], prg, vec![]);
    memory.set(0x0000, 0xEA);
    let mut cpu = CPU::new(&memory, false, Some(0xFFFF));
    step(&mut cpu, &mut memory);
    assert_eq!(cpu.program_counter, 0x0000, "program counter wraps modulo 65536");
}
