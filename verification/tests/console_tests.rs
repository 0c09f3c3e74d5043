use nes::console::Console;
use nes::rom::Rom;

fn rom_with_prg(prg: Vec<u8>) -> Rom {
    let mut data = vec![0x4E, 0x45, 0x53, 0x1A, 1, 0, 0, 0];
    data.extend_from_slice(&[0u8; 8]);
    data.extend(prg);
    Rom::new(&data).unwrap()
}

#[test]
fn reset_loads_the_reset_vector() {
    let mut prg = vec![0u8; 0x4000];
    // The reset vector, little-endian at the mirrored 0xFFFC.
    prg[0x3FFC] = 0x34;
    prg[0x3FFD] = 0x12;
    let rom = rom_with_prg(prg);
    let mut console = Console::new(rom).unwrap();
    console.reset();
    assert_eq!(console.cpu.pc, 0x1234);
}

#[test]
fn oversized_cartridges_are_refused() {
    let mut data = vec![0x4E, 0x45, 0x53, 0x1A, 3, 0, 0, 0];
    data.extend_from_slice(&[0u8; 8]);
    data.extend(std::iter::repeat(0u8).take(3 * 0x4000));
    let rom = Rom::new(&data).unwrap();
    assert!(Console::new(rom).is_none());
}

#[test]
fn cpu_steps_every_twelfth_tick() {
    // An idle loop: JMP to itself at the reset target.
    let mut prg = vec![0u8; 0x4000];
    prg[0x0000] = 0x4C;
    prg[0x0001] = 0x00;
    prg[0x0002] = 0x80;
    prg[0x3FFC] = 0x00;
    prg[0x3FFD] = 0x80;
    let rom = rom_with_prg(prg);
    let mut console = Console::new(rom).unwrap();
    console.reset();
    for _ in 0..12 {
        console.tick().unwrap();
    }
    assert_eq!(console.cpu.cycles_completed, 1);
    assert_eq!(console.master_ticks, 12);
    for _ in 0..12 {
        console.tick().unwrap();
    }
    assert_eq!(console.cpu.cycles_completed, 2);
}

#[test]
fn a_frame_completes_at_the_expected_tick() {
    let mut prg = vec![0u8; 0x4000];
    prg[0x0000] = 0x4C;
    prg[0x0001] = 0x00;
    prg[0x0002] = 0x80;
    prg[0x3FFC] = 0x00;
    prg[0x3FFD] = 0x80;
    let rom = rom_with_prg(prg);
    let mut console = Console::new(rom).unwrap();
    console.reset();
    // The PPU steps on ticks 0, 4, 8, ...; its 89342nd step happens on
    // tick 4 * 89341 and completes the first frame.
    let mut frames = 0u32;
    let mut frame_tick = 0u64;
    for t in 0..(4 * 89342u64) {
        if console.tick().unwrap() {
            frames += 1;
            frame_tick = t;
        }
    }
    assert_eq!(frames, 1);
    assert_eq!(frame_tick, 4 * 89341);
}
