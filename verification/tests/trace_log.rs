//! The trace log: byte-exact lines in the classic nestest shape.

use nes_cpu::cpu::CPU;
use nes_cpu::memory::Memory;
use nes_cpu::ppu_reg::PPURegisters;

fn machine(program: &[u8]) -> (CPU, Memory) {
    let mut memory = Memory::new(
        vec![0u8; 0x800],
        PPURegisters::new(),
        [0u8; 32],
        vec![0u8; 0x8000],
        vec![],
    );
    for (i, b) in program.iter().enumerate() {
        memory.set(0x0200 + i as u16, *b);
    }
    let cpu = CPU::new(&memory, true, Some(0x0200));
    (cpu, memory)
}

fn step(cpu: &mut CPU, memory: &mut Memory) {
    let tick = cpu.cycle;
    cpu.cycle(memory, tick).unwrap();
}

fn log_lines(cpu: &CPU) -> Vec<String> {
    String::from_utf8(cpu.log.clone())
        .unwrap()
        .lines()
        .map(|l| l.to_string())
        .collect()
}

#[test]
fn immediate_mode_line() {
    let (mut cpu, mut memory) = machine(&[0xA9, 0x42]);
    step(&mut cpu, &mut memory);
    let lines = log_lines(&cpu);
    assert_eq!(lines.len(), 1);
    assert_eq!(
        lines[0],
        format!(
            "0200  A9 42     LDA #$42{}A:00 X:00 Y:00 P:24 SP:FD PPU:  0,  0 CYC:7",
            " ".repeat(24)
        )
    );
}

#[test]
fn zero_page_line_shows_resolved_value() {
    let (mut cpu, mut memory) = machine(&[0xA9, 0x42, 0x85, 0x10]);
    step(&mut cpu, &mut memory);
    step(&mut cpu, &mut memory);
    let lines = log_lines(&cpu);
    assert_eq!(lines.len(), 2);
    assert_eq!(
        lines[1],
        format!(
            "0202  85 10     STA $10 = 00{}A:42 X:00 Y:00 P:24 SP:FD PPU:  0,  0 CYC:9",
            " ".repeat(20)
        )
    );
}

#[test]
fn register_columns_sit_where_nestest_puts_them() {
    let (mut cpu, mut memory) = machine(&[0xA9, 0x42]);
    step(&mut cpu, &mut memory);
    let line = log_lines(&cpu).remove(0);
    assert_eq!(&line[0..14], "0200  A9 42   ");
    assert_eq!(&line[50..52], "00", "accumulator column");
    assert_eq!(&line[55..57], "00", "X column");
    assert_eq!(&line[60..62], "00", "Y column");
    assert_eq!(&line[65..67], "24", "P column");
    assert_eq!(&line[71..73], "FD", "SP column");
    assert_eq!(&line[90..], "7", "CYC column");
}

#[test]
fn absolute_and_implied_lines() {
    let (mut cpu, mut memory) = machine(&[0x4C, 0x05, 0x02, 0xEA, 0xEA, 0xEA]);
    step(&mut cpu, &mut memory);  // JMP $0205
    step(&mut cpu, &mut memory);  // NOP
    let lines = log_lines(&cpu);
    assert_eq!(
        lines[0],
        format!(
            "0200  4C 05 02  JMP $0205{}A:00 X:00 Y:00 P:24 SP:FD PPU:  0,  0 CYC:7",
            " ".repeat(23)
        )
    );
    assert_eq!(
        lines[1],
        format!(
            "0205  EA        NOP{}A:00 X:00 Y:00 P:24 SP:FD PPU:  0,  0 CYC:10",
            " ".repeat(29)
        )
    );
}

#[test]
fn relative_line_shows_computed_target() {
    let (mut cpu, mut memory) = machine(&[0xF0, 0x10]);  // BEQ +16, not taken
    step(&mut cpu, &mut memory);
    let lines = log_lines(&cpu);
    assert_eq!(
        lines[0],
        format!(
            "0200  F0 10     BEQ $(0212){}A:00 X:00 Y:00 P:24 SP:FD PPU:  0,  0 CYC:7",
            " ".repeat(21)
        )
    );
}

#[test]
fn log_disabled_writes_nothing() {
    let mut memory = Memory::new(
        vec![0u8; 0x800],
        PPURegisters::new(),
        [0u8; 32],
        vec![0u8; 0x8000],
        vec![],
    );
    memory.set(0x0200, 0xEA);
    let mut cpu = CPU::new(&memory, false, Some(0x0200));
    step(&mut cpu, &mut memory);
    assert!(cpu.log.is_empty());
}

#[test]
fn fatal_decode_is_not_logged() {
    let (mut cpu, mut memory) = machine(&[0x02]);
    let tick = cpu.cycle;
    assert!(cpu.cycle(&mut memory, tick).is_err());
    assert!(cpu.log.is_empty());
}

#[test]
fn cycle_counter_prints_in_decimal() {
    let (mut cpu, mut memory) = machine(&[0xEA, 0xEA]);
    cpu.cycle = 1234567;
    let tick = cpu.cycle;
    cpu.cycle(&mut memory, tick).unwrap();
    let line = log_lines(&cpu).remove(0);
    assert_eq!(&line[90..], "1234567");
}

#[test]
fn operand_formats_for_indexed_and_indirect_modes() {
    let (mut cpu, mut memory) = machine(&[
        0x0A,              // ASL A
        0xB5, 0x10,        // LDA $10,X
        0xB9, 0x00, 0x03,  // LDA $0300,Y
        0xA1, 0x20,        // LDA ($20,X)
        0xB1, 0x20,        // LDA ($20),Y
        0x6C, 0xFF, 0x02,  // JMP ($02FF)
    ]);
    for _ in 0..6 {
        step(&mut cpu, &mut memory);
    }
    let lines = log_lines(&cpu);
    let tail = |p: &str, cyc: &str| {
        format!("A:00 X:00 Y:00 P:{p} SP:FD PPU:  0,  0 CYC:{cyc}")
    };
    assert_eq!(lines[0], format!("0200  0A        ASL A{}{}", " ".repeat(27), tail("24", "7")));
    assert_eq!(lines[1], format!("0201  B5 10     LDA $10,X{}{}", " ".repeat(23), tail("26", "9")));
    assert_eq!(
        lines[2],
        format!("0203  B9 00 03  LDA $0300,Y @ 0300{}{}", " ".repeat(14), tail("26", "13"))
    );
    assert_eq!(
        lines[3],
        format!("0206  A1 20     LDA ($20,X){}{}", " ".repeat(21), tail("26", "17"))
    );
    assert_eq!(
        lines[4],
        format!("0208  B1 20     LDA ($20),Y{}{}", " ".repeat(21), tail("26", "23"))
    );
    assert_eq!(
        lines[5],
        format!("020A  6C FF 02  JMP ($02FF){}{}", " ".repeat(21), tail("26", "28"))
    );
}
