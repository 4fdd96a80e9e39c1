use vstd::prelude::*;

use crate::cart::Cart;
use crate::fault::Fault;

verus! {

pub const BOOTROM_SIZE: usize = 256;

pub const VRAM_SIZE: usize = 0x2000;

pub const XRAM_SIZE: usize = 0x2000;

pub const WRAM_SIZE: usize = 0x2000;

pub const IO_SIZE: usize = 0x7F;

pub const HRAM_SIZE: usize = 0x7F;

/// Address of the interrupt-flag register.
pub const IF_ADDR: u16 = 0xFF0F;

/// Address of the interrupt-enable register.
pub const IE_ADDR: u16 = 0xFFFF;

/// Address of the display-control register.
pub const LCDC_ADDR: u16 = 0xFF40;

/// Address of the current-scanline register.
pub const LY_ADDR: u16 = 0xFF44;

/// The contents of the bus as mathematical values.
pub struct BusModel {
    pub boot_mapped: bool,
    pub boot: Seq<u8>,
    pub cart: Seq<u8>,
    pub vram: Seq<u8>,
    pub xram: Seq<u8>,
    pub wram: Seq<u8>,
    pub input: u8,
    pub io: Seq<u8>,
    pub hram: Seq<u8>,
    pub ie: u8,
}

/// The address whose backing byte `addr` shares: echo addresses fold onto
/// work RAM, every other address is its own cell.
pub open spec fn canonical(addr: u16) -> u16 {
    if 0xE000 <= addr <= 0xFDFF {
        (addr - 0x2000) as u16
    } else {
        addr
    }
}

impl BusModel {
    pub open spec fn wf(self) -> bool {
        &&& self.boot.len() == BOOTROM_SIZE
        &&& self.vram.len() == VRAM_SIZE
        &&& self.xram.len() == XRAM_SIZE
        &&& self.wram.len() == WRAM_SIZE
        &&& self.io.len() == IO_SIZE
        &&& self.hram.len() == HRAM_SIZE
    }

    pub open spec fn cart_byte(self, offset: int) -> Option<u8> {
        if offset < self.cart.len() {
            Some(self.cart[offset])
        } else {
            None
        }
    }

    /// The byte that a read of `addr` yields, or `None` where no region backs it.
    pub open spec fn read(self, addr: u16) -> Option<u8> {
        if addr <= 0x00FF {
            if self.boot_mapped {
                Some(self.boot[addr as int])
            } else {
                self.cart_byte(addr as int)
            }
        } else if addr <= 0x7FFF {
            self.cart_byte(addr as int)
        } else if addr <= 0x9FFF {
            Some(self.vram[addr - 0x8000])
        } else if addr <= 0xBFFF {
            Some(self.xram[addr - 0xA000])
        } else if addr <= 0xDFFF {
            Some(self.wram[addr - 0xC000])
        } else if addr <= 0xFDFF {
            Some(self.wram[addr - 0xE000])
        } else if addr <= 0xFEFF {
            None
        } else if addr == 0xFF00 {
            Some(self.input)
        } else if addr <= 0xFF7F {
            Some(self.io[addr - 0xFF01])
        } else if addr <= 0xFFFE {
            Some(self.hram[addr - 0xFF80])
        } else {
            Some(self.ie)
        }
    }

    /// Whether a write to `addr` reaches a backing byte: the two ROM regions
    /// and the unmapped page refuse writes.
    pub open spec fn writable(addr: u16) -> bool {
        0x8000 <= addr && !(0xFE00 <= addr <= 0xFEFF)
    }

    /// The bus after `v` is written at `addr` (meaningful where `writable(addr)`).
    pub open spec fn write(self, addr: u16, v: u8) -> BusModel {
        if addr <= 0x9FFF {
            BusModel { vram: self.vram.update(addr - 0x8000, v), ..self }
        } else if addr <= 0xBFFF {
            BusModel { xram: self.xram.update(addr - 0xA000, v), ..self }
        } else if addr <= 0xDFFF {
            BusModel { wram: self.wram.update(addr - 0xC000, v), ..self }
        } else if addr <= 0xFDFF {
            BusModel { wram: self.wram.update(addr - 0xE000, v), ..self }
        } else if addr == 0xFF00 {
            BusModel { input: v, ..self }
        } else if addr <= 0xFF7F {
            BusModel { io: self.io.update(addr - 0xFF01, v), ..self }
        } else if addr <= 0xFFFE {
            BusModel { hram: self.hram.update(addr - 0xFF80, v), ..self }
        } else {
            BusModel { ie: v, ..self }
        }
    }
}

/// Writing a byte and reading it back through any address that shares its
/// cell (the address itself, or its echo alias) yields that byte; reads
/// through every other address are unchanged.
pub proof fn lemma_write_read(m: BusModel, a: u16, b: u16, v: u8)
    requires
        m.wf(),
        BusModel::writable(a),
    ensures
        m.write(a, v).wf(),
        canonical(a) == canonical(b) ==> m.write(a, v).read(b) == Some(v),
        canonical(a) != canonical(b) ==> m.write(a, v).read(b) == m.read(b),
{
}

/// The memory bus: owns every backing store and routes each 16-bit address
/// to exactly one byte.
pub struct Memory {
    boot_mapped: bool,
    boot: Vec<u8>,
    cart: Cart,
    vram: Vec<u8>,
    xram: Vec<u8>,
    wram: Vec<u8>,
    input: u8,
    io: Vec<u8>,
    hram: Vec<u8>,
    interrupt: u8,
}

impl View for Memory {
    type V = BusModel;

    closed spec fn view(&self) -> BusModel {
        BusModel {
            boot_mapped: self.boot_mapped,
            boot: self.boot@,
            cart: self.cart.mem@,
            vram: self.vram@,
            xram: self.xram@,
            wram: self.wram@,
            input: self.input,
            io: self.io@,
            hram: self.hram@,
            ie: self.interrupt,
        }
    }
}

fn filled(value: u8, n: usize) -> (v: Vec<u8>)
    ensures
        v@ == Seq::new(n as nat, |_i: int| value),
{
    let mut v: Vec<u8> = Vec::new();
    let mut i: usize = 0;
    while i < n
        invariant
            i <= n,
            v@ == Seq::new(i as nat, |_i: int| value),
        decreases n - i,
    {
        v.push(value);
        i = i + 1;
        assert(v@ =~= Seq::new(i as nat, |_i: int| value));
    }
    v
}

impl Memory {
    pub open spec fn wf(&self) -> bool {
        self@.wf()
    }

    /// A bus over the given boot ROM and cartridge, with the boot ROM mapped,
    /// video and work RAM filled with 0x7F and everything else zeroed.
    pub fn new(boot: [u8; BOOTROM_SIZE], cart: Cart) -> (m: Memory)
        ensures
            m.wf(),
            m@.boot_mapped,
            m@.boot == boot@,
            m@.cart == cart.mem@,
            m@.vram == Seq::new(VRAM_SIZE as nat, |_i: int| 0x7Fu8),
            m@.wram == Seq::new(WRAM_SIZE as nat, |_i: int| 0x7Fu8),
            m@.xram == Seq::new(XRAM_SIZE as nat, |_i: int| 0u8),
            m@.io == Seq::new(IO_SIZE as nat, |_i: int| 0u8),
            m@.hram == Seq::new(HRAM_SIZE as nat, |_i: int| 0u8),
            m@.input == 0,
            m@.ie == 0,
    {
        let mut boot_bytes: Vec<u8> = Vec::new();
        let mut i: usize = 0;
        while i < BOOTROM_SIZE
            invariant
                i <= BOOTROM_SIZE,
                boot_bytes@ == boot@.subrange(0, i as int),
            decreases BOOTROM_SIZE - i,
        {
            boot_bytes.push(boot[i]);
            i = i + 1;
            assert(boot_bytes@ =~= boot@.subrange(0, i as int));
        }
        assert(boot_bytes@ =~= boot@);
        Memory {
            boot_mapped: true,
            boot: boot_bytes,
            cart,
            vram: filled(0x7F, VRAM_SIZE),
            xram: filled(0, XRAM_SIZE),
            wram: filled(0x7F, WRAM_SIZE),
            input: 0,
            io: filled(0, IO_SIZE),
            hram: filled(0, HRAM_SIZE),
            interrupt: 0,
        }
    }

    /// Whether a write to `addr` reaches a backing byte.
    pub fn is_writable(addr: u16) -> (r: bool)
        ensures
            r == BusModel::writable(addr),
    {
        0x8000 <= addr && !(0xFE00 <= addr && addr <= 0xFEFF)
    }

    /// Whether 0x0000–0x00FF still reads the boot ROM.
    pub fn boot_rom_mapped(&self) -> (r: bool)
        ensures
            r == self@.boot_mapped,
    {
        self.boot_mapped
    }

    /// Unmaps the boot ROM: from now on 0x0000–0x00FF reads the cartridge.
    pub fn disable_boot_rom(&mut self)
        ensures
            final(self)@ == (BusModel { boot_mapped: false, ..old(self)@ }),
    {
        self.boot_mapped = false;
    }

    fn cart_byte(&self, offset: usize) -> (r: Result<u8, Fault>)
        requires
            offset <= 0x7FFF,
        ensures
            r == match self@.cart_byte(offset as int) {
                Some(v) => Ok(v),
                None => Err(Fault::UnmappedAddress { addr: offset as u16 }),
            },
    {
        if offset < self.cart.mem.len() {
            Ok(self.cart.mem[offset])
        } else {
            Err(Fault::UnmappedAddress { addr: offset as u16 })
        }
    }

    /// Reads the byte that backs `addr`; an address no region backs is fatal.
    pub fn read(&self, addr: u16) -> (r: Result<u8, Fault>)
        requires
            self.wf(),
        ensures
            r == match self@.read(addr) {
                Some(v) => Ok(v),
                None => Err(Fault::UnmappedAddress { addr }),
            },
    {
        let a = addr as usize;
        if addr <= 0x00FF {
            if self.boot_mapped {
                Ok(self.boot[a])
            } else {
                self.cart_byte(a)
            }
        } else if addr <= 0x7FFF {
            self.cart_byte(a)
        } else if addr <= 0x9FFF {
            Ok(self.vram[a - 0x8000])
        } else if addr <= 0xBFFF {
            Ok(self.xram[a - 0xA000])
        } else if addr <= 0xDFFF {
            Ok(self.wram[a - 0xC000])
        } else if addr <= 0xFDFF {
            Ok(self.wram[a - 0xE000])
        } else if addr <= 0xFEFF {
            Err(Fault::UnmappedAddress { addr })
        } else if addr == 0xFF00 {
            Ok(self.input)
        } else if addr <= 0xFF7F {
            Ok(self.io[a - 0xFF01])
        } else if addr <= 0xFFFE {
            Ok(self.hram[a - 0xFF80])
        } else {
            Ok(self.interrupt)
        }
    }

    /// Writes `v` to the byte that backs `addr`. The ROM regions and the
    /// unmapped page refuse the write, which is fatal; the bus is then unchanged.
    pub fn write(&mut self, addr: u16, v: u8) -> (r: Result<(), Fault>)
        requires
            old(self).wf(),
        ensures
            final(self).wf(),
            BusModel::writable(addr) ==> r is Ok && final(self)@ == old(self)@.write(addr, v),
            !BusModel::writable(addr) ==> r == Err::<(), Fault>(Fault::UnmappedAddress { addr })
                && final(self)@ == old(self)@,
    {
        let a = addr as usize;
        if addr <= 0x7FFF {
            Err(Fault::UnmappedAddress { addr })
        } else if addr <= 0x9FFF {
            self.vram.set(a - 0x8000, v);
            Ok(())
        } else if addr <= 0xBFFF {
            self.xram.set(a - 0xA000, v);
            Ok(())
        } else if addr <= 0xDFFF {
            self.wram.set(a - 0xC000, v);
            Ok(())
        } else if addr <= 0xFDFF {
            self.wram.set(a - 0xE000, v);
            Ok(())
        } else if addr <= 0xFEFF {
            Err(Fault::UnmappedAddress { addr })
        } else if addr == 0xFF00 {
            self.input = v;
            Ok(())
        } else if addr <= 0xFF7F {
            self.io.set(a - 0xFF01, v);
            Ok(())
        } else if addr <= 0xFFFE {
            self.hram.set(a - 0xFF80, v);
            Ok(())
        } else {
            self.interrupt = v;
            Ok(())
        }
    }

    /// Copies out the bytes at `start, start + 1, ..., end - 1`; fails at the
    /// first address that no region backs.
    pub fn read_range(&self, start: u16, end: u16) -> (r: Result<Vec<u8>, Fault>)
        requires
            self.wf(),
        ensures
            r is Ok <==> (forall|a: u16| start <= a < end ==> (#[trigger] self@.read(a)) is Some),
            r is Ok ==> r->Ok_0@.len() == if start <= end { end - start } else { 0 },
            r is Ok ==> forall|i: int| 0 <= i < r->Ok_0@.len()
                ==> self@.read((start + i) as u16) == Some(#[trigger] r->Ok_0@[i]),
            r is Err ==> exists|a: u16| start <= a < end && r == Err::<Vec<u8>, Fault>(
                Fault::UnmappedAddress { addr: a }) && #[trigger] self@.read(a) is None,
    {
        let mut out: Vec<u8> = Vec::new();
        let mut a: u16 = start;
        while a < end
            invariant
                self.wf(),
                start <= end ==> start <= a <= end && out@.len() == a - start,
                start > end ==> a == start && out@.len() == 0,
                forall|b: u16| start <= b < a ==> (#[trigger] self@.read(b)) is Some,
                forall|i: int| 0 <= i < out@.len() ==> self@.read((start + i) as u16) == Some(
                    #[trigger] out@[i]),
            decreases end - a,
        {
            match self.read(a) {
                Ok(v) => {
                    out.push(v);
                },
                Err(e) => {
                    return Err(e);
                },
            }
            a = a + 1;
        }
        Ok(out)
    }
}

} // verus!
