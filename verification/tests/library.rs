use nes_emulator::cartridge::cartridge::{Cartridge, CartridgeError};
use nes_emulator::cartridge::mapper::PersistentMemoryError;
use nes_emulator::cpu::instructions::{instruction, Operation};
use nes_emulator::cpu::enums::AdressingMode;
use nes_emulator::cpu::{CpuLog, Disassembly};
use nes_emulator::nes::{NesError, NES};
use nes_emulator::ppu::palette::{InvalidPaletteError, Palette};
use nes_emulator::utils::{ARGBColor, ControllerInput};
use nes_emulator::state::Stateful;
use nes_emulator::Config;

fn nrom_image(program: &[u8]) -> Vec<u8> {
    let mut rom = vec![0x4E, 0x45, 0x53, 0x1A, 1, 1, 0, 0, 0, 0, 0, 0, 0, 0, 0, 0];
    let mut prg = vec![0xEAu8; 0x4000];
    prg[..program.len()].copy_from_slice(program);
    prg[0x3FFC] = 0x00;
    prg[0x3FFD] = 0xC0;
    rom.extend_from_slice(&prg);
    rom.extend_from_slice(&vec![0u8; 0x2000]);
    rom
}

#[test]
fn default_palette_colors() {
    let p = Palette::default();
    assert_eq!(p.base.len(), 64);
    assert_eq!(p.base[0x00], ARGBColor::new(255, 84, 84, 84));
    assert_eq!(p.base[0x21], ARGBColor::new(255, 76, 154, 236));
    assert_eq!(p.emphasize_rgb[0x3F], ARGBColor::black());
}

#[test]
fn palette_from_bytes() {
    let mut raw = vec![0u8; 192];
    raw[3] = 1;
    raw[4] = 2;
    raw[5] = 3;
    let p = Palette::from_bytes(&raw).unwrap();
    assert_eq!(p.base[1], ARGBColor::new(255, 1, 2, 3));
    assert_eq!(p.emphasize_gb[1], ARGBColor::new(255, 1, 2, 3));
    let full: Vec<u8> = (0..1536u32).map(|i| (i / 192) as u8).collect();
    let p = Palette::from_bytes(&full).unwrap();
    assert_eq!(p.base[5].red, 0);
    assert_eq!(p.emphasize_r[5].red, 1);
    assert_eq!(p.emphasize_rgb[5].blue, 7);
    assert!(matches!(Palette::from_bytes(&vec![0u8; 100]), Err(InvalidPaletteError { length: 100 })));
}

#[test]
fn config_values() {
    let c = Config::new(Some("palette.pal"), true);
    assert_eq!(c.palette_path.as_deref(), Some("palette.pal"));
    assert!(c.display_cpu_logs);
    let d = Config::default();
    assert!(d.palette_path.is_none());
    assert!(!d.display_cpu_logs);
}

#[test]
fn cartridge_errors() {
    let mut bad = nrom_image(&[]);
    bad[0] = 0;
    assert!(matches!(Cartridge::from_bytes(&bad, "bad.nes"), Err(CartridgeError::InvalidFormat)));
    let mut mapper7 = nrom_image(&[]);
    mapper7[6] = 0x70;
    assert!(!Cartridge::is_supported(&mapper7));
    assert!(Cartridge::is_supported(&bad));
    let mut empty_mmc1 = nrom_image(&[]);
    empty_mmc1[4] = 0;
    empty_mmc1[6] = 0x10;
    assert!(!Cartridge::is_supported(&empty_mmc1));
    assert!(Cartridge::is_supported(&nrom_image(&[])));
    let mut nes = NES::new();
    assert!(matches!(nes.insert_cartdrige(&bad, "bad.nes"), Err(NesError::Cartridge(CartridgeError::InvalidFormat))));
}

#[test]
fn console_request_errors() {
    let mut nes = NES::new();
    assert_eq!(nes.set_debug_palette_id(8), Err(NesError::InvalidPaletteId(8)));
    assert_eq!(nes.set_debug_palette_id(3), Ok(()));
    assert_eq!(nes.input(2, 0), Err(NesError::InvalidControllerId(2)));
    assert!(matches!(nes.get_pattern_table(2), Err(NesError::InvalidPatternTable(2))));
    assert!(matches!(nes.get_pattern_table(0), Err(NesError::NoCartridge)));
    assert!(matches!(nes.save(), Err(NesError::NoCartridge)));
    assert_eq!(nes.get_one_frame_duration(), 16666);
}

#[test]
fn battery_save_round_trip() {
    let mut rom = nrom_image(&[0x4C, 0x00, 0xC0]);
    rom[6] = 0x12;
    let mut nes = NES::new();
    nes.insert_cartdrige(&rom, "battery.nes").unwrap();
    assert_eq!(nes.save().unwrap(), vec![0u8; 0x2000]);
    let save: Vec<u8> = (0..0x2000u32).map(|i| (i % 251) as u8).collect();
    assert_eq!(nes.load_save(&save), Ok(()));
    assert_eq!(nes.save().unwrap(), save);
    assert_eq!(nes.read_memory_at(0x6005), 5);
    assert_eq!(
        nes.load_save(&vec![1u8; 100]),
        Err(NesError::PersistentMemory(PersistentMemoryError::InvalidSaveSize))
    );
    let mut plain = NES::new();
    plain.insert_cartdrige(&nrom_image(&[]), "plain.nes").unwrap();
    assert_eq!(plain.save(), Err(NesError::PersistentMemory(PersistentMemoryError::NoPersistentMemory)));
    assert_eq!(plain.load_save(&save), Err(NesError::PersistentMemory(PersistentMemoryError::NoPersistentMemory)));
}

#[test]
fn ppu_registers_repeat_every_eight_bytes() {
    let mut nes = NES::new();
    nes.insert_cartdrige(&nrom_image(&[0x4C, 0x00, 0xC0]), "idle.nes").unwrap();
    nes.bus.write(0x3FF8, 0x80);
    assert_eq!(nes.bus.ppu.registers.ctrl, 0x80);
    nes.bus.write(0x200E, 0x21);
    nes.bus.write(0x3FFE, 0x08);
    nes.bus.write(0x2FFF, 0x5A);
    nes.bus.write(0x2006, 0x21);
    nes.bus.write(0x2006, 0x08);
    nes.read_memory_at(0x2007);
    assert_eq!(nes.read_memory_at(0x3FEF), 0x5A);
}

#[test]
fn controller_reads_buttons_a_first() {
    let mut nes = NES::new();
    nes.insert_cartdrige(&nrom_image(&[0x4C, 0x00, 0xC0]), "idle.nes").unwrap();
    let buttons = ControllerInput::A.bit() | ControllerInput::Start.bit() | ControllerInput::Right.bit();
    nes.input(0, buttons).unwrap();
    nes.bus.write(0x4016, 1);
    let mut bits = vec![];
    for _ in 0..8 {
        bits.push(nes.read_memory_at(0x4016));
    }
    assert_eq!(bits, vec![1, 0, 0, 1, 0, 0, 0, 1]);
}

#[test]
fn pattern_table_and_palette_pictures() {
    let mut nes = NES::new();
    nes.insert_cartdrige(&nrom_image(&[0x4C, 0x00, 0xC0]), "idle.nes").unwrap();
    let table = nes.get_pattern_table(0).unwrap();
    assert_eq!(table.len(), 16384);
    let palette = nes.get_palette().unwrap();
    assert_eq!(palette.len(), 32);
    assert_eq!(palette[0], ARGBColor::new(255, 84, 84, 84));
}

#[test]
fn opcode_table_entries() {
    let lda = instruction(0xA9);
    assert_eq!(lda.operation, Operation::Lda);
    assert_eq!(lda.adressing_mode, AdressingMode::Immediate);
    assert_eq!(lda.cycles, 2);
    let sta = instruction(0x9D);
    assert_eq!(sta.operation, Operation::Sta);
    assert_eq!(sta.cycles, 5);
    assert!(!sta.add_cycle);
    assert_eq!(instruction(0x02).operation, Operation::Jam);
    assert_eq!(instruction(0xEB).operation, Operation::Sbc);
}

#[test]
fn trace_line_of_the_next_instruction() {
    let mut nes = NES::new();
    nes.insert_cartdrige(&nrom_image(&[0xAD, 0x34, 0x12, 0x4C, 0x03, 0xC0]), "log.nes").unwrap();
    while nes.cpu_log().is_none() {
        nes.clock();
    }
    let log = nes.cpu_log().unwrap();
    assert_eq!(log.pc, 0xC000);
    assert_eq!(log.opcode, 0xAD);
    assert_eq!(log.parameters, vec![0x34, 0x12]);
    assert_eq!(log.disassembly.address, 0x1234);
    assert_eq!(log.disassembly.operation, Operation::Lda);
    let line = String::from_utf8(log.trace_line()).unwrap();
    assert!(line.starts_with("C000  AD 34 12  LDA $1234 = 00                  A:00 X:00 Y:00 P:"));
}

fn log_of(pc: u16, bytes: &[u8], d: Disassembly) -> CpuLog {
    CpuLog {
        pc,
        opcode: bytes[0],
        parameters: bytes[1..].to_vec(),
        disassembly: d,
        a: 0,
        x: 0x65,
        y: 0,
        p: 0x27,
        sp: 0xFB,
        scanline: 12,
        ppu_cycles: 7,
        total_clock: 26554,
    }
}

#[test]
fn trace_line_layout() {
    let jmp = CpuLog {
        pc: 0xC000,
        opcode: 0x4C,
        parameters: vec![0xF5, 0xC5],
        disassembly: Disassembly { operation: Operation::Jmp, mode: AdressingMode::Absolute, address: 0xC5F5, base: 0, value: 0 },
        a: 0,
        x: 0,
        y: 0,
        p: 0x24,
        sp: 0xFD,
        scanline: 0,
        ppu_cycles: 21,
        total_clock: 7,
    };
    assert_eq!(
        String::from_utf8(jmp.trace_line()).unwrap(),
        "C000  4C F5 C5  JMP $C5F5                       A:00 X:00 Y:00 P:24 SP:FD PPU:  0, 21 CYC:7"
    );
    let lda = log_of(0xD959, &[0xB1, 0x89],
        Disassembly { operation: Operation::Lda, mode: AdressingMode::IndirectY, address: 0x0300, base: 0x0300, value: 0x89 });
    assert_eq!(
        String::from_utf8(lda.trace_line()).unwrap(),
        "D959  B1 89     LDA ($89),Y = 0300 @ 0300 = 89  A:00 X:65 Y:00 P:27 SP:FB PPU: 12,  7 CYC:26554"
    );
    let asl = log_of(0xE000, &[0x0A],
        Disassembly { operation: Operation::Asl, mode: AdressingMode::Accumulator, address: 0, base: 0, value: 0 });
    assert!(String::from_utf8(asl.trace_line()).unwrap().starts_with("E000  0A        ASL A                           A:00"));
    let sta = log_of(0xE001, &[0x81, 0x80],
        Disassembly { operation: Operation::Sta, mode: AdressingMode::IndirectX, address: 0x0200, base: 0xE5, value: 0x5A });
    assert!(String::from_utf8(sta.trace_line()).unwrap().starts_with("E001  81 80     STA ($80,X) @ E5 = 0200 = 5A    A:00"));
}

#[test]
fn trace_shows_branch_targets() {
    let mut nes = NES::new();
    nes.insert_cartdrige(&nrom_image(&[0xD0, 0xFE]), "branch.nes").unwrap();
    while nes.cpu_log().is_none() {
        nes.clock();
    }
    let log = nes.cpu_log().unwrap();
    assert_eq!(log.disassembly.address, 0xC000);
    let line = String::from_utf8(log.trace_line()).unwrap();
    assert!(line.starts_with("C000  D0 FE     BNE $C000 "));
}

#[test]
fn state_survives_a_save_and_load() {
    let rom = nrom_image(&[0xE8, 0x4C, 0x00, 0xC0]);
    let mut nes = NES::new();
    nes.insert_cartdrige(&rom, "inc.nes").unwrap();
    for _ in 0..1000 {
        nes.clock();
    }
    let state = nes.get_state();
    let x = nes.cpu.x;
    let pc = nes.cpu.pc;
    for _ in 0..1000 {
        nes.clock();
    }
    assert_ne!(nes.cpu.x, x);
    nes.load_state(&state, &rom, "inc.nes").unwrap();
    assert_eq!(nes.cpu.x, x);
    assert_eq!(nes.cpu.pc, pc);
}

#[test]
fn mmc1_state_loads_into_another_console() {
    let mut rom = nrom_image(&[0xA9, 0x42, 0x8D, 0x00, 0x60, 0x4C, 0x05, 0xC0]);
    rom[6] = 0x12;
    let mut nes = NES::new();
    nes.insert_cartdrige(&rom, "mmc1.nes").unwrap();
    for _ in 0..300 {
        nes.clock();
    }
    assert_eq!(nes.read_memory_at(0x6000), 0x42);
    let state = nes.get_state();
    let mut other = NES::new();
    other.load_state(&state, &rom, "mmc1.nes").unwrap();
    assert_eq!(other.read_memory_at(0x6000), 0x42);
    assert_eq!(other.cpu.pc, nes.cpu.pc);
    assert_eq!(other.total_clock, nes.total_clock);
    let nrom = nrom_image(&[]);
    let mut third = NES::new();
    assert_eq!(third.load_state(&state, &nrom, "nrom.nes"), Err(NesError::InvalidState));
}

#[test]
fn samples_come_in_order_and_only_when_produced() {
    let mut nes = NES::new();
    nes.insert_cartdrige(&nrom_image(&[0x4C, 0x00, 0xC0]), "idle.nes").unwrap();
    nes.produce_samples(false);
    for _ in 0..30_000 {
        nes.clock();
    }
    assert!(nes.get_samples().is_empty());
    assert!(!nes.is_producing_samples());
    nes.produce_samples(true);
    for _ in 0..30_000 {
        nes.clock();
    }
    let first = nes.get_samples();
    assert!(!first.is_empty());
    assert!(nes.get_samples().is_empty());
    assert!(nes.is_producing_samples());
}

#[test]
fn cpu_runs_every_third_clock() {
    let mut nes = NES::new();
    nes.insert_cartdrige(&nrom_image(&[0x4C, 0x00, 0xC0]), "idle.nes").unwrap();
    while nes.total_clock % 3 != 1 {
        nes.clock();
    }
    let cpu_clock = nes.cpu.total_clock;
    nes.clock();
    nes.clock();
    assert_eq!(nes.cpu.total_clock, cpu_clock);
    nes.clock();
    assert_eq!(nes.cpu.total_clock, cpu_clock + 1);
}

#[test]
fn writes_leave_other_cells_alone() {
    let mut nes = NES::new();
    nes.insert_cartdrige(&nrom_image(&[0x4C, 0x00, 0xC0]), "idle.nes").unwrap();
    nes.bus.write(0x0010, 0x11);
    nes.bus.write(0x0011, 0x22);
    assert_eq!(nes.read_memory_at(0x0010), 0x11);
    assert_eq!(nes.read_memory_at(0x0811), 0x22);
    // nametable byte $2000, then palette entry $3F01
    nes.bus.write(0x2006, 0x20);
    nes.bus.write(0x2006, 0x00);
    nes.bus.write(0x2007, 0x33);
    nes.bus.write(0x2006, 0x3F);
    nes.bus.write(0x2006, 0x01);
    nes.bus.write(0x2007, 0x0C);
    nes.bus.write(0x2006, 0x20);
    nes.bus.write(0x2006, 0x00);
    nes.read_memory_at(0x2007);
    assert_eq!(nes.read_memory_at(0x2007), 0x33);
    nes.bus.write(0x2006, 0x3F);
    nes.bus.write(0x2006, 0x01);
    assert_eq!(nes.read_memory_at(0x2007) & 0x3F, 0x0C);
}

#[test]
fn state_loads_with_a_refused_image_and_keeps_the_cartridge() {
    let rom = nrom_image(&[0xE8, 0x4C, 0x00, 0xC0]);
    let mut nes = NES::new();
    nes.insert_cartdrige(&rom, "inc.nes").unwrap();
    for _ in 0..1000 {
        nes.clock();
    }
    let state = nes.get_state();
    let x = nes.cpu.x;
    for _ in 0..1000 {
        nes.clock();
    }
    assert_ne!(nes.cpu.x, x);
    let refused = vec![0u8; 16];
    assert!(matches!(nes.load_state(&state, &refused, "bad.nes"), Err(NesError::Cartridge(_))));
    assert_eq!(nes.cpu.x, x);
    assert_eq!(nes.read_memory_at(0xC000), 0xE8);
}

#[test]
fn nrom_with_battery_bit_keeps_no_save() {
    let mut rom = nrom_image(&[0x4C, 0x00, 0xC0]);
    rom[6] = 0x02;
    let mut nes = NES::new();
    nes.insert_cartdrige(&rom, "nrom_battery.nes").unwrap();
    assert_eq!(nes.save(), Err(NesError::PersistentMemory(PersistentMemoryError::NoPersistentMemory)));
    assert_eq!(
        nes.load_save(&vec![0u8; 0x2000]),
        Err(NesError::PersistentMemory(PersistentMemoryError::NoPersistentMemory))
    );
}

#[test]
fn cartridge_keeps_its_header() {
    let mut rom = nrom_image(&[]);
    rom[6] = 0x03;
    match Cartridge::from_bytes(&rom, "game.nes").unwrap() {
        Cartridge::Nrom(m) => {
            assert_eq!(m.header.path_to_rom, "game.nes");
            assert_eq!(m.header.n_prg_rom, 1);
            assert_eq!(m.header.n_chr_rom, 1);
            assert_eq!(m.header.mapper_number, 0);
            assert!(m.header.has_persistent_memory);
        }
        _ => panic!("an NROM image gives an NROM cartridge"),
    }
}
