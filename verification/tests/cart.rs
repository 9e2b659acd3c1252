use nes_core::cart::Cart;
use nes_core::mapper::{Nrom, Pxrom, Exrom};

#[test]
fn cart_refuses_mismatched_stores() {
    let mapper = Nrom::load(0x4000, 0x2000, 0x2000);
    assert!(Cart::try_new(mapper.clone(), vec![0; 0x4000], vec![0; 0x2000], vec![0; 0x1000]).is_none());
    assert!(Cart::try_new(mapper, vec![0; 0x4000], vec![0; 0x2000], vec![0; 0x2000]).is_some());
}

#[test]
fn cart_resolves_reads_and_drives_the_open_bus() {
    let mapper = Nrom::load(0x4000, 0x2000, 0x2000);
    let mut prg_rom = vec![0u8; 0x4000];
    prg_rom[5] = 0x42;
    let mut cart =
        Cart::try_new(mapper, prg_rom, vec![0; 0x2000], vec![0; 0x2000]).expect("matching stores");
    assert_eq!(cart.read(0x8005), 0x42);
    // An unmapped read yields the last value driven on the bus.
    assert_eq!(cart.read(0x4020), 0x42);
    cart.write(0x6001, 7);
    assert_eq!(cart.read(0x6001), 7);
    // Peeking disturbs neither the latch nor the boards.
    assert_eq!(cart.peek(0x8005), 0x42);
    assert_eq!(cart.read(0x4020), 7);
    assert!(!cart.irq_pending());
}

#[test]
fn cart_routes_chr_writes_into_chr_ram() {
    let mapper = Nrom::load(0x8000, 0x2000, 0);
    let mut cart =
        Cart::try_new(mapper, vec![0; 0x8000], vec![0; 0x2000], Vec::new()).expect("matching stores");
    cart.write(0x1234, 0x55);
    assert_eq!(cart.read(0x1234), 0x55);
}

#[test]
fn cart_feeds_the_ppu_hooks() {
    let mapper = Pxrom::load(0x1_0000, 0x4000);
    let mut chr = vec![0u8; 0x4000];
    chr[0x1000] = 0xFD;
    chr[0x2000] = 0xFE;
    let mut cart = Cart::try_new(mapper, vec![0; 0x1_0000], chr, Vec::new()).expect("matching stores");
    cart.write(0xB000, 1); // FD bank for the low window
    cart.write(0xC000, 2); // FE bank for the low window
    assert_eq!(cart.peek(0x0000), 0xFD);
    cart.ppu_bus_read(0x0FE8);
    assert_eq!(cart.peek(0x0000), 0xFE);
}

#[test]
fn cart_answers_mmc5_registers() {
    let mapper = Exrom::load(0x2_0000, 0x2_0000, 0);
    let mut cart = Cart::try_new(mapper, vec![0; 0x2_0000], vec![0; 0x2_0000], Vec::new())
        .expect("matching stores");
    cart.write(0x5205, 6);
    cart.write(0x5206, 7);
    assert_eq!(cart.read(0x5205), 42);
    assert_eq!(cart.read(0x5206), 0);
}
