use rustboy::cart::Cart;
use rustboy::fault::Fault;
use rustboy::memory::Memory;

fn bus() -> Memory {
    let mut boot = [0u8; 256];
    boot[0] = 0x31;
    boot[0xFF] = 0x50;
    let mut rom = vec![0u8; 0x8000];
    rom[0] = 0xAA;
    rom[0x100] = 0x00;
    rom[0x101] = 0xC3;
    rom[0x7FFF] = 0xBB;
    Memory::new(boot, Cart::new(rom))
}

#[test]
fn writes_read_back_in_every_writable_region() {
    let mut m = bus();
    let addresses = [
        0x8000u16, 0x9FFF, 0xA000, 0xBFFF, 0xC000, 0xDFFF, 0xE000, 0xFDFF, 0xFF00, 0xFF01, 0xFF0F,
        0xFF40, 0xFF7F, 0xFF80, 0xFFFE, 0xFFFF,
    ];
    for addr in addresses {
        m.write(addr, 0x5C).unwrap();
        assert_eq!(m.read(addr), Ok(0x5C), "address {:04X}", addr);
        m.write(addr, 0xA3).unwrap();
        assert_eq!(m.read(addr), Ok(0xA3), "address {:04X}", addr);
    }
}

#[test]
fn echo_aliases_work_ram() {
    let mut m = bus();
    m.write(0xC010, 0x42).unwrap();
    assert_eq!(m.read(0xE010), Ok(0x42));
    m.write(0xFDFF, 0x17).unwrap();
    assert_eq!(m.read(0xDDFF), Ok(0x17));
}

#[test]
fn neighbouring_cells_are_untouched() {
    let mut m = bus();
    m.write(0xC011, 0x00).unwrap();
    m.write(0xC010, 0xFF).unwrap();
    assert_eq!(m.read(0xC011), Ok(0x00));
    assert_eq!(m.read(0xC00F), Ok(0x7F));
}

#[test]
fn power_on_contents() {
    let m = bus();
    assert_eq!(m.read(0x8000), Ok(0x7F));
    assert_eq!(m.read(0xC000), Ok(0x7F));
    assert_eq!(m.read(0xA000), Ok(0x00));
    assert_eq!(m.read(0xFF80), Ok(0x00));
    assert_eq!(m.read(0xFFFF), Ok(0x00));
}

#[test]
fn boot_rom_then_cartridge() {
    let mut m = bus();
    assert!(m.boot_rom_mapped());
    assert_eq!(m.read(0x0000), Ok(0x31));
    assert_eq!(m.read(0x00FF), Ok(0x50));
    assert_eq!(m.read(0x0101), Ok(0xC3));
    assert_eq!(m.read(0x7FFF), Ok(0xBB));
    m.disable_boot_rom();
    assert!(!m.boot_rom_mapped());
    assert_eq!(m.read(0x0000), Ok(0xAA));
}

#[test]
fn rom_regions_refuse_writes() {
    let mut m = bus();
    assert_eq!(m.write(0x0000, 1), Err(Fault::UnmappedAddress { addr: 0x0000 }));
    assert_eq!(m.write(0x2000, 1), Err(Fault::UnmappedAddress { addr: 0x2000 }));
    assert_eq!(m.write(0x7FFF, 1), Err(Fault::UnmappedAddress { addr: 0x7FFF }));
    assert_eq!(m.read(0x0000), Ok(0x31));
    assert_eq!(m.read(0x7FFF), Ok(0xBB));
}

#[test]
fn unmapped_page_is_fatal() {
    let mut m = bus();
    assert_eq!(m.read(0xFE00), Err(Fault::UnmappedAddress { addr: 0xFE00 }));
    assert_eq!(m.read(0xFEFF), Err(Fault::UnmappedAddress { addr: 0xFEFF }));
    assert_eq!(m.write(0xFEA0, 1), Err(Fault::UnmappedAddress { addr: 0xFEA0 }));
}

#[test]
fn reads_past_the_cartridge_are_fatal() {
    let m = Memory::new([0u8; 256], Cart::new(vec![1u8; 0x200]));
    assert_eq!(m.read(0x01FF), Ok(1));
    assert_eq!(m.read(0x0200), Err(Fault::UnmappedAddress { addr: 0x0200 }));
}

#[test]
fn read_range_copies_bytes() {
    let mut m = bus();
    m.write(0x8000, 1).unwrap();
    m.write(0x8001, 2).unwrap();
    m.write(0x8002, 3).unwrap();
    assert_eq!(m.read_range(0x8000, 0x8003), Ok(vec![1, 2, 3]));
    assert_eq!(m.read_range(0x8003, 0x8003), Ok(vec![]));
    assert_eq!(m.read_range(0xFDFE, 0xFE02), Err(Fault::UnmappedAddress { addr: 0xFE00 }));
}
