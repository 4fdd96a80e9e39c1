use vstd::prelude::*;

use crate::cart::Cart;
use crate::cpu::{crash_state, step_spec, Cpu, CpuState, Crash, Flags, Registers};
use crate::interrupt::ImeState;
use crate::lcd::{display_enabled, settle, Mode, VideoController};
use crate::memory::{BusModel, Memory, LY_ADDR};

pub use crate::memory::BOOTROM_SIZE;

verus! {

/// CRC-32 (IEEE) of the genuine boot ROM image.
pub const DMG_BOOT_CRC32: u32 = 0x59c8598e;

/// The CRC-32 (IEEE polynomial, reflected, all-ones initial value and final
/// complement) of a byte string.
pub uninterp spec fn crc32_ieee(bytes: Seq<u8>) -> u32;

/// Relies on crc::crc32::checksum_ieee: the CRC-32 (IEEE) of the bytes,
/// which depends on the bytes alone; the empty string gives 0.
#[verifier::external_body]
fn checksum_ieee(bytes: &[u8]) -> (r: u32)
    ensures
        r == crc32_ieee(bytes@),
        bytes@.len() == 0 ==> r == 0,
{
    crc::crc32::checksum_ieee(bytes)
}

/// Whether a boot ROM checksum is the one of the genuine boot ROM.
pub fn is_dmg_boot_crc(crc: u32) -> (r: bool)
    ensures
        r == (crc == DMG_BOOT_CRC32),
{
    crc == DMG_BOOT_CRC32
}

/// Whether a boot ROM image is the genuine one, by its CRC-32.
pub fn bootrom_is_genuine(boot: &[u8; BOOTROM_SIZE]) -> (r: bool)
    ensures
        r == (crc32_ieee(boot@) == DMG_BOOT_CRC32),
{
    let crc = checksum_ieee(boot.as_slice());
    is_dmg_boot_crc(crc)
}

/// One step of the whole machine: the processor executes an instruction,
/// then the video controller advances by the cycles it cost.
pub open spec fn machine_step(s: CpuState, v: VideoController) -> Result<
    (CpuState, VideoController, u32),
    Crash,
> {
    match step_spec(s) {
        Err(e) => Err(e),
        Ok((s1, c)) => if display_enabled(s1.bus) {
            let (m, l, k) = settle(v.mode, v.line, (v.clock + c) as nat);
            Ok((
                CpuState { bus: s1.bus.write(LY_ADDR, l), ..s1 },
                VideoController { mode: m, line: l, clock: k as u32 },
                c,
            ))
        } else {
            Ok((s1, v, c))
        },
    }
}

/// `n` machine steps, stopping at the first crash: the final processor
/// state, the final video state and the crash, if any. A crash leaves the
/// processor as `crash_state` says and the video controller where it was.
pub open spec fn run_spec(s: CpuState, v: VideoController, n: nat) -> (
    CpuState,
    VideoController,
    Option<Crash>,
)
    decreases n,
{
    if n == 0 {
        (s, v, None)
    } else {
        match machine_step(s, v) {
            Err(e) => (crash_state(s), v, Some(e)),
            Ok((s1, v1, _c)) => run_spec(s1, v1, (n - 1) as nat),
        }
    }
}

/// The registers after reset with the boot ROM mapped.
pub open spec fn boot_registers() -> Registers {
    Registers {
        a: 0x01,
        b: 0x00,
        c: 0x13,
        d: 0x00,
        e: 0xD8,
        h: 0x01,
        l: 0x4D,
        flags: Flags { zero: true, subtract: false, half_carry: true, carry: true },
        pc: 0x0000,
        sp: 0xFFFE,
    }
}

/// The bus of a freshly built machine.
pub open spec fn power_on_bus(boot: Seq<u8>, cart: Seq<u8>) -> BusModel {
    BusModel {
        boot_mapped: true,
        boot,
        cart,
        vram: Seq::new(0x2000, |_i: int| 0x7Fu8),
        xram: Seq::new(0x2000, |_i: int| 0u8),
        wram: Seq::new(0x2000, |_i: int| 0x7Fu8),
        input: 0,
        io: Seq::new(0x7F, |_i: int| 0u8),
        hram: Seq::new(0x7F, |_i: int| 0u8),
        ie: 0,
    }
}

/// The processor and the video controller, sharing the processor's bus.
pub struct Gameboy {
    pub cpu: Cpu,
    pub video: VideoController,
}

impl Gameboy {
    pub open spec fn wf(&self) -> bool {
        self.cpu.wf() && self.video.wf()
    }

    /// A machine over the given boot ROM and cartridge, reset, with the boot
    /// ROM mapped and the video controller at line 0 in Hblank.
    pub fn new(boot: [u8; BOOTROM_SIZE], cart: Cart) -> (g: Gameboy)
        ensures
            g.wf(),
            g.cpu@ == (CpuState {
                regs: boot_registers(),
                ime: ImeState::Disabled,
                bus: power_on_bus(boot@, cart.mem@),
            }),
            g.video == (VideoController { mode: Mode::Hblank, line: 0, clock: 0 }),
            g.cpu.operations == 0,
    {
        let ghost cart_mem = cart.mem@;
        let memory = Memory::new(boot, cart);
        let mut cpu = Cpu::new(memory);
        cpu.reset();
        assert(cpu.memory@ =~= power_on_bus(boot@, cart_mem));
        Gameboy { cpu, video: VideoController::new() }
    }

    /// Executes one instruction and advances the video controller by the
    /// cycles it cost; returns those cycles, or the crash.
    pub fn step(&mut self) -> (r: Result<u32, Crash>)
        requires
            old(self).wf(),
        ensures
            final(self).wf(),
            match machine_step(old(self).cpu@, old(self).video) {
                Ok((s, v, c)) => r == Ok::<u32, Crash>(c) && final(self).cpu@ == s
                    && final(self).video == v,
                Err(e) => r == Err::<u32, Crash>(e) && final(self).cpu@ == crash_state(
                    old(self).cpu@,
                ) && final(self).video == old(self).video,
            },
    {
        let c = self.cpu.step()?;
        self.video.advance(&mut self.cpu.memory, c);
        Ok(c)
    }
}

/// Builds a machine and runs it for `max_steps` steps or until it crashes;
/// returns the machine and the crash, if any.
pub fn run(boot: [u8; BOOTROM_SIZE], cart: Cart, max_steps: u64) -> (r: (Gameboy, Option<Crash>))
    ensures
        r.0.wf(),
        (r.0.cpu@, r.0.video, r.1) == run_spec(
            CpuState {
                regs: boot_registers(),
                ime: ImeState::Disabled,
                bus: power_on_bus(boot@, cart.mem@),
            },
            VideoController { mode: Mode::Hblank, line: 0, clock: 0 },
            max_steps as nat,
        ),
{
    let mut gameboy = Gameboy::new(boot, cart);
    let ghost s0 = gameboy.cpu@;
    let ghost v0 = gameboy.video;
    let mut crash: Option<Crash> = None;
    let mut done: u64 = 0;
    while done < max_steps
        invariant_except_break
            crash is None,
            run_spec(s0, v0, max_steps as nat)
                == run_spec(gameboy.cpu@, gameboy.video, (max_steps - done) as nat),
        invariant
            done <= max_steps,
            gameboy.wf(),
        ensures
            gameboy.wf(),
            run_spec(s0, v0, max_steps as nat) == (gameboy.cpu@, gameboy.video, crash),
        decreases max_steps - done,
    {
        let ghost cs = gameboy.cpu@;
        let ghost vs = gameboy.video;
        match gameboy.step() {
            Ok(_) => {},
            Err(e) => {
                assert(run_spec(cs, vs, (max_steps - done) as nat)
                    == (gameboy.cpu@, gameboy.video, Some(e)));
                crash = Some(e);
                break;
            },
        }
        done = done + 1;
    }
    (gameboy, crash)
}

} // verus!
