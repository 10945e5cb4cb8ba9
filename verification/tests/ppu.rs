use nes_emulator::nes::NES;

/// An NROM image with one 16 KB PRG bank (seen at $8000 and at $C000) and
/// 8 KB of CHR. Each part is placed at its offset in the bank; the reset
/// vector is $C000 and the NMI and IRQ vectors point to an RTI at $C800.
fn nrom(parts: &[(usize, &[u8])]) -> Vec<u8> {
    let mut rom = vec![0x4E, 0x45, 0x53, 0x1A, 1, 1, 0, 0, 0, 0, 0, 0, 0, 0, 0, 0];
    let mut prg = vec![0xEAu8; 0x4000];
    prg[0x800] = 0x40;
    for (offset, bytes) in parts {
        prg[*offset..*offset + bytes.len()].copy_from_slice(bytes);
    }
    prg[0x3FFA] = 0x00;
    prg[0x3FFB] = 0xC8;
    prg[0x3FFC] = 0x00;
    prg[0x3FFD] = 0xC0;
    prg[0x3FFE] = 0x00;
    prg[0x3FFF] = 0xC8;
    rom.extend_from_slice(&prg);
    rom.extend_from_slice(&vec![0u8; 0x2000]);
    rom
}

/// A console running the program `parts`, just after its reset.
fn console(parts: &[(usize, &[u8])]) -> NES {
    let mut nes = NES::new();
    nes.insert_cartdrige(&nrom(parts), "test.nes").unwrap();
    nes
}

/// Whether the next clock of the console starts the instruction at PC.
fn at_instruction(nes: &NES) -> bool {
    nes.total_clock % 3 == 0 && nes.cpu.cycles == 0 && !nes.bus.ppu.registers.perform_dma
}

/// Clocks the console until it is about to run the instruction at `pc`.
fn run_to(nes: &mut NES, pc: u16) {
    for _ in 0..3_000_000 {
        if nes.cpu.pc == pc && at_instruction(nes) {
            return;
        }
        nes.clock();
    }
    panic!("the CPU never reached {:04X}", pc);
}

/// Clocks the console until the PPU is at (`scanline`, `cycle`).
fn run_to_dot(nes: &mut NES, scanline: u16, cycle: u16) {
    for _ in 0..200_000 {
        if nes.bus.ppu.scanline == scanline && nes.bus.ppu.cycles == cycle {
            return;
        }
        nes.clock();
    }
    panic!("the PPU never reached ({}, {})", scanline, cycle);
}

/// A console whose CPU spins on JMP $C000.
fn idle_console() -> NES {
    console(&[(0, &[0x4C, 0x00, 0xC0])])
}

/// The PPU clocks that the next frame takes.
fn frame_length(nes: &mut NES) -> u64 {
    run_to_dot(nes, 0, 0);
    let start = nes.bus.ppu.total_clock;
    nes.clock();
    run_to_dot(nes, 0, 0);
    nes.bus.ppu.total_clock - start
}

fn vblank(nes: &NES) -> bool {
    nes.bus.read_only(0x2002) & 0x80 != 0
}

#[test]
fn vbl_basics() {
    let mut nes = idle_console();
    run_to_dot(&mut nes, 241, 10);
    assert!(vblank(&nes));
    assert_ne!(nes.read_memory_at(0x2002) & 0x80, 0);
    nes.clock();
    assert!(!vblank(&nes));
}

#[test]
fn vbl_set_time() {
    let mut nes = idle_console();
    run_to_dot(&mut nes, 241, 1);
    assert!(!vblank(&nes));
    nes.clock();
    assert!(vblank(&nes));
}

#[test]
fn vbl_clear_time() {
    let mut nes = idle_console();
    run_to_dot(&mut nes, 261, 1);
    assert!(vblank(&nes));
    nes.clock();
    assert!(!vblank(&nes));
}

#[test]
fn nmi_control() {
    let mut nes = idle_console();
    run_to_dot(&mut nes, 100, 0);
    nes.bus.write(0x2000, 0x80);
    assert!(!nes.bus.ppu.registers.emit_nmi);
    run_to_dot(&mut nes, 241, 1);
    nes.clock();
    assert!(nes.bus.ppu.registers.emit_nmi);
    run_to(&mut nes, 0xC800);
}

#[test]
fn nmi_timing() {
    let mut nes = idle_console();
    nes.bus.write(0x2000, 0x80);
    run_to_dot(&mut nes, 241, 1);
    assert!(!nes.bus.ppu.registers.emit_nmi);
    nes.clock();
    assert!(nes.bus.ppu.registers.emit_nmi);
    nes.clock();
    assert!(!nes.bus.ppu.registers.emit_nmi);
    assert_eq!(nes.cpu.cycles, 7);
}

#[test]
fn suppression() {
    let mut nes = idle_console();
    nes.bus.write(0x2000, 0x80);
    run_to_dot(&mut nes, 241, 1);
    assert_eq!(nes.read_memory_at(0x2002) & 0x80, 0);
    nes.clock();
    assert!(!vblank(&nes));
    assert!(!nes.bus.ppu.registers.emit_nmi);
}

#[test]
fn nmi_on_timing() {
    let mut nes = idle_console();
    run_to_dot(&mut nes, 241, 20);
    assert!(!nes.bus.ppu.registers.emit_nmi);
    nes.bus.write(0x2000, 0x80);
    assert!(nes.bus.ppu.registers.emit_nmi);
}

#[test]
fn nmi_off_timing() {
    let mut nes = idle_console();
    nes.bus.write(0x2000, 0x80);
    run_to_dot(&mut nes, 241, 1);
    nes.clock();
    assert!(nes.bus.ppu.registers.emit_nmi);
    nes.bus.write(0x2000, 0x00);
    assert!(!nes.bus.ppu.registers.emit_nmi);
}

#[test]
fn even_odd_frames() {
    let mut nes = idle_console();
    nes.bus.write(0x2001, 0x08);
    let a = frame_length(&mut nes);
    let b = frame_length(&mut nes);
    let mut lengths = vec![a, b];
    lengths.sort();
    assert_eq!(lengths, vec![89341, 89342]);
}

#[test]
fn even_odd_timing() {
    let mut nes = idle_console();
    assert_eq!(frame_length(&mut nes), 89342);
    assert_eq!(frame_length(&mut nes), 89342);
}

#[test]
fn ppu_read_buffer() {
    let mut nes = idle_console();
    nes.bus.write(0x2006, 0x21);
    nes.bus.write(0x2006, 0x00);
    nes.bus.write(0x2007, 0x66);
    nes.bus.write(0x2007, 0x77);
    nes.bus.write(0x2006, 0x21);
    nes.bus.write(0x2006, 0x00);
    let _ = nes.read_memory_at(0x2007);
    assert_eq!(nes.read_memory_at(0x2007), 0x66);
    assert_eq!(nes.read_memory_at(0x2007), 0x77);
}

#[test]
fn ppu_open_bus() {
    let mut nes = idle_console();
    nes.bus.write(0x2003, 0x5C);
    assert_eq!(nes.read_memory_at(0x2001), 0x5C);
    assert_eq!(nes.read_memory_at(0x2005) & 0x1F, 0x1C);
    let status = nes.read_memory_at(0x2002);
    assert_eq!(status & 0x1F, 0x1C);
}

#[test]
fn oam_read() {
    let mut nes = idle_console();
    nes.bus.write(0x2003, 0x10);
    for v in [0xAB, 0xCD, 0xFF, 0x12] {
        nes.bus.write(0x2004, v);
    }
    nes.bus.write(0x2003, 0x10);
    assert_eq!(nes.read_memory_at(0x2004), 0xAB);
    assert_eq!(nes.read_memory_at(0x2004), 0xAB);
    nes.bus.write(0x2003, 0x12);
    assert_eq!(nes.read_memory_at(0x2004), 0xE3);
}

#[test]
fn oam_stress() {
    let mut nes = idle_console();
    nes.bus.write(0x2003, 0x00);
    for i in 0..256u32 {
        nes.bus.write(0x2004, (i * 7) as u8);
    }
    for i in 0..256u32 {
        nes.bus.write(0x2003, i as u8);
        let expected = if i % 4 == 2 { ((i * 7) as u8) & 0xE3 } else { (i * 7) as u8 };
        assert_eq!(nes.read_memory_at(0x2004), expected);
    }
}

#[test]
fn palette_entries_mirror() {
    let mut nes = idle_console();
    nes.bus.write(0x2006, 0x3F);
    nes.bus.write(0x2006, 0x10);
    nes.bus.write(0x2007, 0x2A);
    nes.bus.write(0x2006, 0x3F);
    nes.bus.write(0x2006, 0x00);
    assert_eq!(nes.read_memory_at(0x2007) & 0x3F, 0x2A);
}

#[test]
fn nametables_mirror_horizontally() {
    let mut nes = idle_console();
    nes.bus.write(0x2006, 0x20);
    nes.bus.write(0x2006, 0x05);
    nes.bus.write(0x2007, 0x99);
    nes.bus.write(0x2006, 0x24);
    nes.bus.write(0x2006, 0x05);
    let _ = nes.read_memory_at(0x2007);
    assert_eq!(nes.read_memory_at(0x2007), 0x99);
}

#[test]
fn frame_is_taken_once() {
    let mut nes = idle_console();
    assert!(nes.get_frame_buffer().is_none());
    frame_length(&mut nes);
    let frame = nes.get_frame_buffer().unwrap();
    assert_eq!(frame.len(), 61440);
    assert!(nes.get_frame_buffer().is_none());
}
