use vstd::prelude::*;

use crate::fault::Fault;
use crate::memory::{BusModel, Memory, IE_ADDR, IF_ADDR};

verus! {

/// The interrupt master-enable, with the delay that `EI` carries: the
/// enable takes effect only once the instruction after `EI` has completed.
#[derive(Clone, Copy, Debug, PartialEq, Eq, Structural)]
pub enum ImeState {
    Disabled,
    /// `EI` ran in this step.
    EnableRequested,
    /// `EI` ran in the previous step; enabled once this step's instruction completes.
    EnableArmed,
    Enabled,
}

/// What the end of an instruction does to the master-enable.
pub open spec fn ime_after_instruction(s: ImeState) -> ImeState {
    match s {
        ImeState::EnableRequested => ImeState::EnableArmed,
        ImeState::EnableArmed => ImeState::Enabled,
        _ => s,
    }
}

/// Whether bit `i` of `m` is set.
pub open spec fn bit_set(m: u8, i: u8) -> bool {
    (m >> i) & 1 == 1
}

/// The highest-priority interrupt among the requested-and-enabled bits `m`:
/// the lowest of bits 0 to 4 that is set.
pub open spec fn lowest_pending(m: u8) -> Option<u8> {
    if bit_set(m, 0) {
        Some(0u8)
    } else if bit_set(m, 1) {
        Some(1u8)
    } else if bit_set(m, 2) {
        Some(2u8)
    } else if bit_set(m, 3) {
        Some(3u8)
    } else if bit_set(m, 4) {
        Some(4u8)
    } else {
        None
    }
}

/// The fixed handler address of interrupt bit `bit`.
pub open spec fn vector_of(bit: u8) -> u16 {
    (0x40 + 8 * bit) as u16
}

/// The interrupt to dispatch, as (bit, vector): none unless the master
/// enable is on and some bit is set in both the enable register (0xFFFF)
/// and the flag register (0xFF0F).
pub open spec fn pending_spec(enabled: bool, bus: BusModel) -> Option<(u8, u16)> {
    let ie = bus.ie;
    let iflag = bus.io[(IF_ADDR - 0xFF01) as int];
    if !enabled {
        None
    } else {
        match lowest_pending(ie & iflag & 0x1F) {
            Some(bit) => Some((bit, vector_of(bit))),
            None => None,
        }
    }
}

/// Tracks the master-enable and picks the interrupt to dispatch.
#[derive(Clone, Copy, Debug, PartialEq, Eq, Structural)]
pub struct InterruptController {
    pub state: ImeState,
}

impl InterruptController {
    /// A controller with the master-enable off.
    pub fn new() -> (c: InterruptController)
        ensures
            c.state == ImeState::Disabled,
    {
        InterruptController { state: ImeState::Disabled }
    }

    /// Sets or clears the master-enable at once.
    pub fn set_master_enable(&mut self, enable: bool)
        ensures
            final(self).state == if enable { ImeState::Enabled } else { ImeState::Disabled },
    {
        self.state = if enable { ImeState::Enabled } else { ImeState::Disabled };
    }

    /// Whether interrupts are dispatched now.
    pub fn master_enabled(&self) -> (r: bool)
        ensures
            r == (self.state == ImeState::Enabled),
    {
        match self.state {
            ImeState::Enabled => true,
            _ => false,
        }
    }

    /// `EI`: the enable is requested and takes effect after the next instruction.
    pub fn enable_interrupts(&mut self)
        ensures
            final(self).state == if old(self).state == ImeState::Enabled {
                ImeState::Enabled
            } else {
                ImeState::EnableRequested
            },
    {
        if !self.master_enabled() {
            self.state = ImeState::EnableRequested;
        }
    }

    /// `DI`: the master-enable is cleared at once.
    pub fn disable_interrupts(&mut self)
        ensures
            final(self).state == ImeState::Disabled,
    {
        self.state = ImeState::Disabled;
    }

    /// Moves a requested enable one instruction further.
    pub fn instruction_completed(&mut self)
        ensures
            final(self).state == ime_after_instruction(old(self).state),
    {
        self.state = match self.state {
            ImeState::EnableRequested => ImeState::EnableArmed,
            ImeState::EnableArmed => ImeState::Enabled,
            other => other,
        };
    }

    /// The highest-priority interrupt that is requested and enabled, with its vector.
    pub fn pending(&self, bus: &Memory) -> (r: Option<(u8, u16)>)
        requires
            bus.wf(),
        ensures
            r == pending_spec(self.state == ImeState::Enabled, bus@),
    {
        if !self.master_enabled() {
            return None;
        }
        let ie = read_register(bus, IE_ADDR);
        let iflag = read_register(bus, IF_ADDR);
        let m: u8 = ie & iflag & 0x1F;
        let mut i: u8 = 0;
        while i < 5
            invariant
                i <= 5,
                self.state == ImeState::Enabled,
                m == bus@.ie & bus@.io[(IF_ADDR - 0xFF01) as int] & 0x1F,
                forall|j: u8| j < i ==> !bit_set(m, j),
            decreases 5 - i,
        {
            if (m >> i) & 1 == 1 {
                assert(lowest_pending(m) == Some(i));
                return Some((i, 0x40 + 8 * (i as u16)));
            }
            i = i + 1;
        }
        None
    }
}

/// Reads one of the always-mapped interrupt registers.
fn read_register(bus: &Memory, addr: u16) -> (v: u8)
    requires
        bus.wf(),
        addr == IE_ADDR || addr == IF_ADDR,
    ensures
        bus@.read(addr) == Some(v),
        addr == IE_ADDR ==> v == bus@.ie,
        addr == IF_ADDR ==> v == bus@.io[(IF_ADDR - 0xFF01) as int],
{
    match bus.read(addr) {
        Ok(v) => v,
        Err(_) => {
            assert(false);
            0
        },
    }
}

} // verus!
