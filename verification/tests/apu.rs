use nes_emulator::nes::NES;

/// An NROM image with one 16 KB PRG bank (seen at $8000 and at $C000) and
/// 8 KB of CHR. Each part is placed at its offset in the bank; the reset
/// vector is $C000 and the NMI and IRQ vectors point to an RTI at $C800.
fn nrom(parts: &[(usize, &[u8])]) -> Vec<u8> {
    let mut rom = vec![0x4E, 0x45, 0x53, 0x1A, 1, 1, 0, 0, 0, 0, 0, 0, 0, 0, 0, 0];
    let mut prg = vec![0xEAu8; 0x4000];
    prg[0x800] = 0x40;
    for (offset, bytes) in parts {
        prg[*offset..*offset + bytes.len()].copy_from_slice(bytes);
    }
    prg[0x3FFA] = 0x00;
    prg[0x3FFB] = 0xC8;
    prg[0x3FFC] = 0x00;
    prg[0x3FFD] = 0xC0;
    prg[0x3FFE] = 0x00;
    prg[0x3FFF] = 0xC8;
    rom.extend_from_slice(&prg);
    rom.extend_from_slice(&vec![0u8; 0x2000]);
    rom
}

/// A console running the program `parts`, just after its reset.
fn console(parts: &[(usize, &[u8])]) -> NES {
    let mut nes = NES::new();
    nes.insert_cartdrige(&nrom(parts), "test.nes").unwrap();
    nes
}

/// Whether the next clock of the console starts the instruction at PC.
fn at_instruction(nes: &NES) -> bool {
    nes.total_clock % 3 == 0 && nes.cpu.cycles == 0 && !nes.bus.ppu.registers.perform_dma
}

/// Clocks the console until it is about to run the instruction at `pc`.
fn run_to(nes: &mut NES, pc: u16) {
    for _ in 0..3_000_000 {
        if nes.cpu.pc == pc && at_instruction(nes) {
            return;
        }
        nes.clock();
    }
    panic!("the CPU never reached {:04X}", pc);
}

fn idle_console() -> NES {
    console(&[(0, &[0x4C, 0x00, 0xC0])])
}

const LENGTHS: [u8; 32] = [
    10, 254, 20, 2, 40, 4, 80, 6, 160, 8, 60, 10, 14, 12, 26, 14, 12, 16, 24, 18, 48, 20, 96, 22, 192, 24, 72, 26, 16, 28,
    32, 30,
];

const STEP_2: u64 = 14913;
const STEP_4: u64 = 29829;

#[test]
fn length_counter() {
    let mut nes = idle_console();
    nes.bus.write(0x4015, 0x01);
    nes.bus.write(0x4003, 0x08);
    assert_eq!(nes.read_memory_at(0x4015) & 0x01, 0x01);
    nes.bus.write(0x4015, 0x00);
    assert_eq!(nes.read_memory_at(0x4015) & 0x01, 0x00);
    nes.bus.write(0x4003, 0x08);
    assert_eq!(nes.read_memory_at(0x4015) & 0x01, 0x00);
}

#[test]
fn length_table() {
    let mut nes = idle_console();
    nes.bus.write(0x4015, 0x01);
    for i in 0..32u8 {
        nes.bus.write(0x4003, i << 3);
        assert_eq!(nes.bus.apu.pulse1.length_counter.length_counter, LENGTHS[i as usize]);
    }
}

#[test]
fn irq_flag() {
    let mut nes = idle_console();
    nes.bus.write(0x4017, 0x00);
    for _ in 0..STEP_4 + 1 {
        nes.bus.apu.clock();
    }
    assert_ne!(nes.read_memory_at(0x4015) & 0x40, 0);
    assert_eq!(nes.read_memory_at(0x4015) & 0x40, 0);
    for _ in 0..STEP_4 + 1 {
        nes.bus.apu.clock();
    }
    assert!(nes.bus.apu.frame_interrupt);
    nes.bus.write(0x4017, 0x40);
    assert!(!nes.bus.apu.frame_interrupt);
}

#[test]
fn jitter() {
    let mut nes = idle_console();
    nes.bus.write(0x4015, 0x01);
    nes.bus.write(0x4000, 0x00);
    nes.bus.write(0x4003, 0x00);
    assert_eq!(nes.bus.apu.pulse1.length_counter.length_counter, 10);
    nes.bus.write(0x4017, 0x80);
    nes.bus.apu.clock();
    assert_eq!(nes.bus.apu.pulse1.length_counter.length_counter, 9);
}

#[test]
fn length_timing() {
    let mut nes = idle_console();
    nes.bus.write(0x4017, 0x40);
    nes.bus.apu.frame_clock = 0;
    nes.bus.write(0x4015, 0x01);
    nes.bus.write(0x4000, 0x00);
    nes.bus.write(0x4003, 0x00);
    for _ in 0..STEP_2 {
        nes.bus.apu.clock();
    }
    assert_eq!(nes.bus.apu.pulse1.length_counter.length_counter, 10);
    nes.bus.apu.clock();
    assert_eq!(nes.bus.apu.pulse1.length_counter.length_counter, 9);
    for _ in STEP_2 + 1..STEP_4 + 1 {
        nes.bus.apu.clock();
    }
    assert_eq!(nes.bus.apu.pulse1.length_counter.length_counter, 8);
}

#[test]
fn irq_flag_timing() {
    let mut nes = idle_console();
    nes.bus.write(0x4017, 0x00);
    nes.bus.apu.frame_clock = 0;
    for _ in 0..STEP_4 {
        nes.bus.apu.clock();
    }
    assert!(!nes.bus.apu.frame_interrupt);
    let tick = nes.bus.apu.clock();
    assert!(tick.frame_irq);
    assert!(nes.bus.apu.frame_interrupt);
}

#[test]
fn dmc_basics() {
    let mut nes = idle_console();
    nes.bus.write(0x4012, 0x00);
    nes.bus.write(0x4013, 0x01);
    nes.bus.write(0x4015, 0x10);
    assert_eq!(nes.bus.apu.dmc.sample_address, 0xC000);
    assert_eq!(nes.bus.apu.dmc.bytes_remaining, 17);
    assert_ne!(nes.read_memory_at(0x4015) & 0x10, 0);
    nes.bus.write(0x4015, 0x00);
    assert_eq!(nes.read_memory_at(0x4015) & 0x10, 0);
}

#[test]
fn dmc_rates() {
    let rates: [u16; 16] = [428, 380, 340, 320, 286, 254, 226, 214, 190, 160, 142, 128, 106, 84, 72, 54];
    let mut nes = idle_console();
    for i in 0..16u8 {
        nes.bus.write(0x4010, i);
        assert_eq!(nes.bus.apu.dmc.rate, rates[i as usize]);
    }
}

#[test]
fn dmc_reads_its_sample_from_the_cartridge() {
    let mut nes = idle_console();
    nes.bus.write(0x4012, 0x00);
    nes.bus.write(0x4013, 0x00);
    nes.bus.write(0x4015, 0x10);
    for _ in 0..30 {
        nes.clock();
    }
    // The first sample byte is the program's first byte, JMP ($4C).
    assert_eq!(nes.bus.apu.dmc.sample_buffer, Some(0x4C));
    assert_eq!(nes.bus.apu.dmc.bytes_remaining, 0);
}

#[test]
fn samples_are_kept_only_when_asked() {
    let mut nes = idle_console();
    for _ in 0..3 * 2000 {
        nes.clock();
    }
    let kept = nes.get_samples();
    assert!(!kept.is_empty());
    assert!(nes.get_samples().is_empty());
    nes.produce_samples(false);
    for _ in 0..3 * 2000 {
        nes.clock();
    }
    assert!(nes.get_samples().is_empty());
}

#[test]
fn dmc_output_level_stays_in_range() {
    // A write to $4011 keeps the seven low bits; the level then climbs by
    // two per output step up to 127 at most, without a cartridge.
    let mut nes = NES::new();
    nes.bus.write(0x4011, 0xFF);
    assert_eq!(nes.bus.apu.dmc.output_level, 0x7F);
    nes.bus.write(0x4011, 0x7C);
    assert_eq!(nes.bus.apu.dmc.output_level, 0x7C);
    nes.bus.apu.dmc.silence_flag = false;
    nes.bus.apu.dmc.output_shift_register = 0xFF;
    nes.bus.apu.dmc.bits_remaining = 8;
    nes.bus.apu.dmc.timer = 0;
    nes.bus.apu.dmc.clock();
    assert_eq!(nes.bus.apu.dmc.output_level, 0x7E);
    nes.bus.apu.dmc.timer = 0;
    nes.bus.apu.dmc.clock();
    assert_eq!(nes.bus.apu.dmc.output_level, 0x7E);
}
