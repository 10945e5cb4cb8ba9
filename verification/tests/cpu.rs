use nes_emulator::cpu::enums::{AdressingMode, Interrupt};
use nes_emulator::nes::NES;

/// An NROM image with one 16 KB PRG bank (seen at $8000 and at $C000) and
/// 8 KB of CHR. Each part is placed at its offset in the bank; the reset
/// vector is $C000 and the NMI and IRQ vectors point to an RTI at $C800.
fn nrom(parts: &[(usize, &[u8])]) -> Vec<u8> {
    let mut rom = vec![0x4E, 0x45, 0x53, 0x1A, 1, 1, 0, 0, 0, 0, 0, 0, 0, 0, 0, 0];
    let mut prg = vec![0xEAu8; 0x4000];
    prg[0x800] = 0x40;
    for (offset, bytes) in parts {
        prg[*offset..*offset + bytes.len()].copy_from_slice(bytes);
    }
    prg[0x3FFA] = 0x00;
    prg[0x3FFB] = 0xC8;
    prg[0x3FFC] = 0x00;
    prg[0x3FFD] = 0xC0;
    prg[0x3FFE] = 0x00;
    prg[0x3FFF] = 0xC8;
    rom.extend_from_slice(&prg);
    rom.extend_from_slice(&vec![0u8; 0x2000]);
    rom
}

/// A console running the program `parts`, just after its reset.
fn console(parts: &[(usize, &[u8])]) -> NES {
    let mut nes = NES::new();
    nes.insert_cartdrige(&nrom(parts), "test.nes").unwrap();
    nes
}

/// Whether the next clock of the console starts the instruction at PC.
fn at_instruction(nes: &NES) -> bool {
    nes.total_clock % 3 == 0 && nes.cpu.cycles == 0 && !nes.bus.ppu.registers.perform_dma
}

/// Clocks the console until it is about to run the instruction at `pc`.
fn run_to(nes: &mut NES, pc: u16) {
    for _ in 0..3_000_000 {
        if nes.cpu.pc == pc && at_instruction(nes) {
            return;
        }
        nes.clock();
    }
    panic!("the CPU never reached {:04X}", pc);
}

/// Clocks the console until it is about to run the instruction at `pc`,
/// then returns the number of CPU cycles that the instruction takes.
fn cycles_at(nes: &mut NES, pc: u16) -> u64 {
    run_to(nes, pc);
    let start = nes.cpu.total_clock;
    nes.clock();
    while !at_instruction(nes) {
        nes.clock();
    }
    nes.cpu.total_clock - start
}

const CARRY: u8 = 0x01;
const ZERO: u8 = 0x02;
const INTERRUPT: u8 = 0x04;
const OVERFLOW: u8 = 0x40;
const NEGATIVE: u8 = 0x80;

#[test]
fn implied() {
    // LDX #5, INX, DEX, DEX, TXA, TAY, INY, LDY #1, DEY, SEC, JMP *
    let mut nes = console(&[(0, &[0xA2, 0x05, 0xE8, 0xCA, 0xCA, 0x8A, 0xA8, 0xC8, 0xA0, 0x01, 0x88, 0x38, 0x4C, 0x0C, 0xC0])]);
    run_to(&mut nes, 0xC00C);
    assert_eq!(nes.cpu.a, 4);
    assert_eq!(nes.cpu.x, 4);
    assert_eq!(nes.cpu.y, 0);
    assert_ne!(nes.cpu.p & ZERO, 0);
    assert_ne!(nes.cpu.p & CARRY, 0);
    assert_eq!(nes.cpu.p & NEGATIVE, 0);
}

#[test]
fn immediate() {
    // LDA #$50, ADC #$50, STA $00, PHP, LDA #$50, SEC, SBC #$F0, AND #$F0,
    // ORA #$01, EOR #$FF, CMP #$9E, JMP *
    let mut nes = console(&[(0, &[
        0xA9, 0x50, 0x69, 0x50, 0x85, 0x00, 0x08, 0xA9, 0x50, 0x38, 0xE9, 0xF0, 0x29, 0xF0, 0x09, 0x01,
        0x49, 0xFF, 0xC9, 0x9E, 0x4C, 0x14, 0xC0,
    ])]);
    run_to(&mut nes, 0xC014);
    assert_eq!(nes.read_memory_at(0x0000), 0xA0);
    // The status pushed after $50 + $50: negative and overflow set, carry
    // and zero clear, with B and the unused bit.
    assert_eq!(nes.read_memory_at(0x01FD), 0xF4);
    assert_eq!(nes.cpu.a, 0x9E);
    assert_ne!(nes.cpu.p & ZERO, 0);
    assert_ne!(nes.cpu.p & CARRY, 0);
    assert_eq!(nes.cpu.p & NEGATIVE, 0);
}

#[test]
fn zero_page() {
    // LDA #$42, STA $10, LDX $10, INC $10, ASL $10, LSR $10, ROL $10,
    // ROR $10, DEC $10, LDY $10, LDA #$81, STA $11, ASL $11, JMP *
    let mut nes = console(&[(0, &[
        0xA9, 0x42, 0x85, 0x10, 0xA6, 0x10, 0xE6, 0x10, 0x06, 0x10, 0x46, 0x10, 0x26, 0x10, 0x66, 0x10,
        0xC6, 0x10, 0xA4, 0x10, 0xA9, 0x81, 0x85, 0x11, 0x06, 0x11, 0x4C, 0x1A, 0xC0,
    ])]);
    run_to(&mut nes, 0xC01A);
    assert_eq!(nes.cpu.x, 0x42);
    assert_eq!(nes.cpu.y, 0x42);
    assert_eq!(nes.read_memory_at(0x0010), 0x42);
    assert_eq!(nes.read_memory_at(0x0011), 0x02);
    assert_ne!(nes.cpu.p & CARRY, 0);
}

#[test]
fn zero_page_xy() {
    // LDX #$FF, LDA #$77, STA $80,X (wraps to $7F), LDY #1, LDX $7E,Y,
    // LDY #5, STX $FE,Y (wraps to $03), JMP *
    let mut nes = console(&[(0, &[0xA2, 0xFF, 0xA9, 0x77, 0x95, 0x80, 0xA0, 0x01, 0xB6, 0x7E, 0xA0, 0x05, 0x96, 0xFE, 0x4C, 0x0E, 0xC0])]);
    run_to(&mut nes, 0xC00E);
    assert_eq!(nes.read_memory_at(0x007F), 0x77);
    assert_eq!(nes.cpu.x, 0x77);
    assert_eq!(nes.read_memory_at(0x0003), 0x77);
}

#[test]
fn absolute() {
    // LDA #$12, STA $0345, LDY $0345, LDX $0B45 (a mirror), INC $0345, JMP *
    let mut nes = console(&[(0, &[0xA9, 0x12, 0x8D, 0x45, 0x03, 0xAC, 0x45, 0x03, 0xAE, 0x45, 0x0B, 0xEE, 0x45, 0x03, 0x4C, 0x0E, 0xC0])]);
    run_to(&mut nes, 0xC00E);
    assert_eq!(nes.cpu.y, 0x12);
    assert_eq!(nes.cpu.x, 0x12);
    assert_eq!(nes.read_memory_at(0x0345), 0x13);
    assert_eq!(nes.read_memory_at(0x1345), 0x13);
}

#[test]
fn absolute_xy() {
    // LDX #$10, LDA #$99, STA $02F8,X, LDY #$F0, LDA $0218,Y, LDX $0218,Y, JMP *
    let mut nes = console(&[(0, &[0xA2, 0x10, 0xA9, 0x99, 0x9D, 0xF8, 0x02, 0xA0, 0xF0, 0xB9, 0x18, 0x02, 0xBE, 0x18, 0x02, 0x4C, 0x0F, 0xC0])]);
    nes.bus.cpu_ram[0x0308] = 0;
    run_to(&mut nes, 0xC00F);
    assert_eq!(nes.read_memory_at(0x0308), 0x99);
    assert_eq!(nes.cpu.a, 0x99);
    assert_eq!(nes.cpu.x, 0x99);
}

#[test]
fn indirect_x() {
    // LDA #0, STA $20, LDA #4, STA $21, LDA #$5A, STA $0400, LDA #0,
    // LDX #4, LDA ($1C,X), JMP *
    let mut nes = console(&[(0, &[
        0xA9, 0x00, 0x85, 0x20, 0xA9, 0x04, 0x85, 0x21, 0xA9, 0x5A, 0x8D, 0x00, 0x04, 0xA9, 0x00, 0xA2,
        0x04, 0xA1, 0x1C, 0x4C, 0x13, 0xC0,
    ])]);
    run_to(&mut nes, 0xC013);
    assert_eq!(nes.cpu.a, 0x5A);
}

#[test]
fn indirect_y() {
    // LDA #$F0, STA $30, LDA #3, STA $31, LDA #$A5, STA $0410, LDY #$20,
    // LDA #0, LDA ($30),Y, JMP *
    let mut nes = console(&[(0, &[
        0xA9, 0xF0, 0x85, 0x30, 0xA9, 0x03, 0x85, 0x31, 0xA9, 0xA5, 0x8D, 0x10, 0x04, 0xA0, 0x20, 0xA9,
        0x00, 0xB1, 0x30, 0x4C, 0x13, 0xC0,
    ])]);
    run_to(&mut nes, 0xC013);
    assert_eq!(nes.cpu.a, 0xA5);
}

#[test]
fn branches() {
    let program: &[u8] = &[
        0xA9, 0x00, // LDA #0
        0xF0, 0x02, // BEQ +2 (taken)
        0xA2, 0x01, // LDX #1 (skipped)
        0xD0, 0x02, // BNE +2 (not taken)
        0xC8, 0xEA, // INY, NOP
        0x38, // SEC
        0xB0, 0x02, // BCS +2 (taken)
        0xA2, 0x02, // LDX #2 (skipped)
        0x90, 0x02, // BCC +2 (not taken)
        0xC8, 0xEA, // INY, NOP
        0xA9, 0x80, // LDA #$80
        0x30, 0x02, // BMI +2 (taken)
        0xA2, 0x03, // LDX #3 (skipped)
        0x10, 0x02, // BPL +2 (not taken)
        0xC8, 0xEA, // INY, NOP
        0xB8, // CLV
        0x50, 0x02, // BVC +2 (taken)
        0xA2, 0x04, // LDX #4 (skipped)
        0xA2, 0x03, // LDX #3
        0xCA, // DEX
        0xD0, 0xFD, // BNE -3 (back to DEX)
        0x4C, 0x27, 0xC0, // JMP *
    ];
    let mut nes = console(&[(0, program)]);
    run_to(&mut nes, 0xC027);
    assert_eq!(nes.cpu.x, 0);
    assert_eq!(nes.cpu.y, 3);
}

#[test]
fn stack() {
    // LDA #$11, PHA, LDA #$22, PHA, PLA, TAX, PLA, JSR $C100, INY, JMP *;
    // at $C100: LDY #$40, RTS
    let mut nes = console(&[
        (0, &[0xA9, 0x11, 0x48, 0xA9, 0x22, 0x48, 0x68, 0xAA, 0x68, 0x20, 0x00, 0xC1, 0xC8, 0x4C, 0x0D, 0xC0]),
        (0x100, &[0xA0, 0x40, 0x60]),
    ]);
    let sp = nes.cpu.sp;
    run_to(&mut nes, 0xC00D);
    assert_eq!(nes.cpu.a, 0x11);
    assert_eq!(nes.cpu.x, 0x22);
    assert_eq!(nes.cpu.y, 0x41);
    assert_eq!(nes.cpu.sp, sp);
    // JSR pushed the address of its last byte.
    assert_eq!(nes.read_memory_at(0x0100 + sp as u16), 0xC0);
    assert_eq!(nes.read_memory_at(0x0100 + sp as u16 - 1), 0x0B);
}

#[test]
fn special() {
    // JMP ($02FF) reads its high byte at $0200, not $0300.
    let mut nes = console(&[
        (0, &[
            0xA9, 0x00, 0x8D, 0xFF, 0x02, 0xA9, 0xC1, 0x8D, 0x00, 0x02, 0xA9, 0xC2, 0x8D, 0x00, 0x03, 0x6C,
            0xFF, 0x02,
        ]),
        (0x100, &[0xA2, 0x01, 0x4C, 0x02, 0xC1]),
        (0x200, &[0xA2, 0x02, 0x4C, 0x02, 0xC2]),
    ]);
    run_to(&mut nes, 0xC102);
    assert_eq!(nes.cpu.x, 1);
}

#[test]
fn instr_timing() {
    // LDX #$20, LDA $02F0,X (page crossed), LDA $0200,X, STA $02F0,X, NOP,
    // JMP *
    let mut nes = console(&[(0, &[0xA2, 0x20, 0xBD, 0xF0, 0x02, 0xBD, 0x00, 0x02, 0x9D, 0xF0, 0x02, 0xEA, 0x4C, 0x0C, 0xC0])]);
    assert_eq!(cycles_at(&mut nes, 0xC000), 2);
    assert_eq!(cycles_at(&mut nes, 0xC002), 5);
    assert_eq!(cycles_at(&mut nes, 0xC005), 4);
    assert_eq!(cycles_at(&mut nes, 0xC008), 5);
    assert_eq!(cycles_at(&mut nes, 0xC00B), 2);
    assert_eq!(cycles_at(&mut nes, 0xC00C), 3);
}

#[test]
fn branch_timing() {
    // CLC, BCC +0 (taken), BCS +0 (not taken), JMP $C0F0; at $C0F0:
    // BCC +$10 (taken, to the next page), at $C102: JMP *
    let mut nes = console(&[
        (0, &[0x18, 0x90, 0x00, 0xB0, 0x00, 0x4C, 0xF0, 0xC0]),
        (0xF0, &[0x90, 0x10]),
        (0x102, &[0x4C, 0x02, 0xC1]),
    ]);
    assert_eq!(cycles_at(&mut nes, 0xC001), 3);
    assert_eq!(cycles_at(&mut nes, 0xC003), 2);
    assert_eq!(cycles_at(&mut nes, 0xC0F0), 4);
    run_to(&mut nes, 0xC102);
}

#[test]
fn overflow_branch_timing() {
    // CLV, JMP $C0FE; at $C0FE: BVC +0 (taken; the next instruction, at
    // $C100, is on the target's page), then BVS +0 (not taken), JMP *
    let mut nes = console(&[
        (0, &[0xB8, 0x4C, 0xFE, 0xC0]),
        (0xFE, &[0x50, 0x00, 0x70, 0x00, 0x4C, 0x02, 0xC1]),
    ]);
    assert_eq!(cycles_at(&mut nes, 0xC0FE), 3);
    assert_eq!(cycles_at(&mut nes, 0xC100), 2);
    run_to(&mut nes, 0xC102);
}

#[test]
fn lxa_combines_a_with_the_operand() {
    // LDA #0, LXA #$FF, JMP *: A = X = ($00 | $EE) & $FF
    let mut nes = console(&[(0, &[0xA9, 0x00, 0xAB, 0xFF, 0x4C, 0x04, 0xC0])]);
    run_to(&mut nes, 0xC004);
    assert_eq!(nes.cpu.a, 0xEE);
    assert_eq!(nes.cpu.x, 0xEE);
    assert_ne!(nes.cpu.p & NEGATIVE, 0);
}

#[test]
fn absolute_x_wrap() {
    // LDA #$3C, STA $01, LDX #2, LDA #0, LDA $FFFF,X (wraps to $0001), JMP *
    let mut nes = console(&[(0, &[0xA9, 0x3C, 0x85, 0x01, 0xA2, 0x02, 0xA9, 0x00, 0xBD, 0xFF, 0xFF, 0x4C, 0x0B, 0xC0])]);
    run_to(&mut nes, 0xC00B);
    assert_eq!(nes.cpu.a, 0x3C);
}

#[test]
fn branch_wrap() {
    // The program stores LDX #9, JMP $0016 at $0014 and jumps to $FFF0,
    // where LDA #1, BNE +$20 branches across $FFFF to $0014.
    let mut nes = console(&[
        (0, &[
            0xA9, 0xA2, 0x85, 0x14, 0xA9, 0x09, 0x85, 0x15, 0xA9, 0x4C, 0x85, 0x16, 0xA9, 0x16, 0x85, 0x17,
            0xA9, 0x00, 0x85, 0x18, 0x4C, 0xF0, 0xFF,
        ]),
        (0x3FF0, &[0xA9, 0x01, 0xD0, 0x20]),
    ]);
    run_to(&mut nes, 0x0016);
    assert_eq!(nes.cpu.x, 9);
}

#[test]
fn dummy_reads() {
    // STA $2005 sets the PPU's write toggle; STA $20F2,X with X = $10 makes a
    // dummy read of $2002 (the unfixed address), which resets it.
    let mut nes = console(&[(0, &[0xA9, 0x00, 0x8D, 0x05, 0x20, 0xA2, 0x10, 0x9D, 0xF2, 0x20, 0x4C, 0x0A, 0xC0])]);
    run_to(&mut nes, 0xC007);
    assert!(nes.bus.ppu.registers.w);
    run_to(&mut nes, 0xC00A);
    assert!(!nes.bus.ppu.registers.w);
}

#[test]
fn dummy_reads_apu() {
    // LDA $40F5,X with X = $20 makes a dummy read of $4015, which clears the
    // frame interrupt flag.
    let mut nes = console(&[(0, &[0xA2, 0x20, 0xBD, 0xF5, 0x40, 0x4C, 0x05, 0xC0])]);
    run_to(&mut nes, 0xC002);
    nes.bus.apu.interrupt_inhibit = true;
    nes.bus.apu.frame_interrupt = true;
    run_to(&mut nes, 0xC005);
    assert!(!nes.bus.apu.frame_interrupt);
}

#[test]
fn registers() {
    // LDA #$12, LDX #$34, LDY #$56, JMP *
    let mut nes = console(&[(0, &[0xA9, 0x12, 0xA2, 0x34, 0xA0, 0x56, 0x4C, 0x06, 0xC0])]);
    run_to(&mut nes, 0xC006);
    let sp = nes.cpu.sp;
    nes.reset();
    assert_eq!(nes.cpu.a, 0x12);
    assert_eq!(nes.cpu.x, 0x34);
    assert_eq!(nes.cpu.y, 0x56);
    assert_eq!(nes.cpu.sp, sp.wrapping_sub(3));
    assert_ne!(nes.cpu.p & INTERRUPT, 0);
    assert_eq!(nes.cpu.pc, 0xC000);
    assert_eq!(nes.cpu.cycles, 7);
}

#[test]
fn ram_after_reset() {
    // LDA #$5A, STA $0300, JMP *
    let mut nes = console(&[(0, &[0xA9, 0x5A, 0x8D, 0x00, 0x03, 0x4C, 0x05, 0xC0])]);
    run_to(&mut nes, 0xC005);
    nes.reset();
    assert_eq!(nes.read_memory_at(0x0300), 0x5A);
}

#[test]
fn overflow_flag_of_signed_addition() {
    // LDA #$7F, CLC, ADC #$01, JMP *
    let mut nes = console(&[(0, &[0xA9, 0x7F, 0x18, 0x69, 0x01, 0x4C, 0x05, 0xC0])]);
    run_to(&mut nes, 0xC005);
    assert_eq!(nes.cpu.a, 0x80);
    assert_ne!(nes.cpu.p & OVERFLOW, 0);
    assert_ne!(nes.cpu.p & NEGATIVE, 0);
}

#[test]
fn jam_opcode_is_reported_before_it_runs() {
    // LDX #1, JAM: the console reports the jamming opcode before the clock
    // that would run it.
    let mut nes = console(&[(0, &[0xA2, 0x01, 0x02])]);
    let mut clocks = 0;
    while !nes.fetches_invalid_opcode() {
        nes.clock();
        clocks += 1;
        assert!(clocks < 1000);
    }
    assert_eq!(nes.cpu.pc, 0xC002);
    assert_eq!(nes.cpu.x, 1);
}

#[test]
fn brk_pushes_state_and_rti_returns() {
    // CLI, BRK, (padding byte), LDX #7, JMP *. BRK, like every instruction,
    // ends with the program counter moved one past where it left it: the
    // handler is entered one byte after its vector ($C800), here at an RTI,
    // which returns to the padding byte.
    let mut nes = console(&[(0, &[0x58, 0x00, 0xEA, 0xA2, 0x07, 0x4C, 0x05, 0xC0]), (0x800, &[0xEA, 0x40])]);
    run_to(&mut nes, 0xC801);
    let sp = nes.cpu.sp;
    assert_eq!(nes.read_memory_at(0x0100 + sp as u16 + 1) & 0x10, 0x10);
    assert_eq!(nes.read_memory_at(0x0100 + sp as u16 + 2), 0x02);
    assert_eq!(nes.read_memory_at(0x0100 + sp as u16 + 3), 0xC0);
    run_to(&mut nes, 0xC005);
    assert_eq!(nes.cpu.x, 7);
}

#[test]
fn ror_undoes_rol() {
    // CLC, LDA #$81, ROL A, ROR A, JMP *
    let mut nes = console(&[(0, &[0x18, 0xA9, 0x81, 0x2A, 0x6A, 0x4C, 0x05, 0xC0])]);
    run_to(&mut nes, 0xC004);
    assert_eq!(nes.cpu.a, 0x02);
    assert_ne!(nes.cpu.p & CARRY, 0);
    run_to(&mut nes, 0xC005);
    assert_eq!(nes.cpu.a, 0x81);
    assert_eq!(nes.cpu.p & CARRY, 0);
    assert_ne!(nes.cpu.p & NEGATIVE, 0);
}

#[test]
fn plp_after_php_restores_flags() {
    // SEC, SED, PHP, CLC, CLD, PLP, JMP *
    let mut nes = console(&[(0, &[0x38, 0xF8, 0x08, 0x18, 0xD8, 0x28, 0x4C, 0x06, 0xC0])]);
    run_to(&mut nes, 0xC002);
    let p = nes.cpu.p;
    let sp = nes.cpu.sp;
    run_to(&mut nes, 0xC006);
    assert_eq!(nes.cpu.p, p | 0x20);
    assert_eq!(nes.cpu.sp, sp);
}

#[test]
fn rts_returns_after_jsr() {
    // JSR $C010, LDX #3, JMP *; at $C010: LDY #4, RTS
    let mut nes = console(&[(0, &[0x20, 0x10, 0xC0, 0xA2, 0x03, 0x4C, 0x05, 0xC0]), (0x10, &[0xA0, 0x04, 0x60])]);
    run_to(&mut nes, 0xC000);
    let sp = nes.cpu.sp;
    run_to(&mut nes, 0xC005);
    assert_eq!(nes.cpu.sp, sp);
    assert_eq!(nes.cpu.x, 3);
    assert_eq!(nes.cpu.y, 4);
}

#[test]
fn indirect_jump_through_ram_without_cartridge() {
    // JMP ($02FF) at $0000: the pointer's high byte comes from $0200.
    let mut nes = NES::new();
    nes.bus.write(0x0001, 0xFF);
    nes.bus.write(0x0002, 0x02);
    nes.bus.write(0x02FF, 0x34);
    nes.bus.write(0x0200, 0x12);
    nes.bus.write(0x0300, 0x56);
    assert_eq!(nes.cpu.pc, 0x0000);
    nes.cpu.jmp(&mut nes.bus, AdressingMode::Indirect);
    assert_eq!(nes.cpu.pc, 0x1233);
    assert!(!nes.cpu.page_crossed);
}

#[test]
fn masked_irq_without_cartridge() {
    let mut nes = NES::new();
    assert_ne!(nes.cpu.p & INTERRUPT, 0);
    let before = nes.cpu;
    nes.cpu.interrupt(&mut nes.bus, Interrupt::Irq);
    assert_eq!(nes.cpu, before);
}

#[test]
fn program_in_ram_runs_without_cartridge() {
    // LDX #$42, TXS, PHP, PLA at $0000.
    let mut nes = NES::new();
    for (i, b) in [0xA2u8, 0x42, 0x9A, 0x08, 0x68].iter().enumerate() {
        nes.bus.write(i as u16, *b);
    }
    for _ in 0..(2 + 2 + 3 + 4) {
        nes.cpu.clock(&mut nes.bus);
    }
    assert_eq!(nes.cpu.pc, 0x0005);
    assert_eq!(nes.cpu.x, 0x42);
    assert_eq!(nes.cpu.sp, 0x42);
    assert_eq!(nes.cpu.a, 0x34 | 0x10 | 0x20);
    assert_eq!(nes.bus.read_only(0x0142), 0x34 | 0x10 | 0x20);
}

#[test]
fn ppu_registers_without_cartridge() {
    let mut nes = NES::new();
    nes.bus.write(0x2003, 0x10);
    nes.bus.write(0x2004, 0x55);
    nes.bus.write(0x200B, 0x10);
    assert_eq!(nes.bus.read(0x2004), 0x55);
    assert_eq!(nes.bus.read_value(0x3FFC), 0x55);
}

#[test]
fn pending_nmi_is_taken_before_the_ppu_moves() {
    let mut nes = console(&[(0, &[0x4C, 0x00, 0xC0])]);
    run_to(&mut nes, 0xC000);
    while nes.total_clock % 3 != 1 {
        nes.clock();
    }
    nes.bus.ppu.registers.emit_nmi = true;
    let (scanline, dot) = (nes.bus.ppu.scanline, nes.bus.ppu.cycles);
    let sp = nes.cpu.sp;
    nes.clock();
    assert_eq!(nes.cpu.pc, 0xC800);
    assert_eq!(nes.cpu.sp, sp.wrapping_sub(3));
    assert!(!nes.bus.ppu.registers.emit_nmi);
    assert_eq!((nes.bus.ppu.scanline as u32) * 341 + nes.bus.ppu.cycles as u32,
        ((scanline as u32) * 341 + dot as u32 + 1) % (341 * 262));
}

#[test]
fn indexed_load_crosses_a_page_in_ram_without_cartridge() {
    // LDA $02F0,X with X = $20 at $0000: the operand is at $0310.
    let mut nes = NES::new();
    nes.bus.write(0x0001, 0xF0);
    nes.bus.write(0x0002, 0x02);
    nes.bus.write(0x0310, 0x77);
    nes.cpu.x = 0x20;
    nes.cpu.require_add_cycle = true;
    nes.cpu.lda(&mut nes.bus, AdressingMode::AbsoluteX);
    assert_eq!(nes.cpu.a, 0x77);
    assert_eq!(nes.cpu.pc, 0x0002);
    assert!(nes.cpu.page_crossed);
    assert_eq!(nes.cpu.cycles, 1);
}
