use vstd::prelude::*;

use crate::fault::Fault;
use crate::interrupt::{
    ime_after_instruction, pending_spec, ImeState, InterruptController,
};
use crate::memory::{canonical, lemma_write_read, BusModel, Memory};

verus! {

/// One of the four condition flags packed into the top nibble of `f`.
#[derive(Clone, Copy, Debug, PartialEq, Eq, Structural)]
pub enum Flag {
    Zero,
    Subtract,
    HalfCarry,
    Carry,
}

/// The four flags as independent booleans.
#[derive(Clone, Copy, Debug, PartialEq, Eq, Structural)]
pub struct Flags {
    pub zero: bool,
    pub subtract: bool,
    pub half_carry: bool,
    pub carry: bool,
}

impl Flags {
    pub open spec fn get(self, flag: Flag) -> bool {
        match flag {
            Flag::Zero => self.zero,
            Flag::Subtract => self.subtract,
            Flag::HalfCarry => self.half_carry,
            Flag::Carry => self.carry,
        }
    }

    pub open spec fn with(self, flag: Flag, v: bool) -> Flags {
        match flag {
            Flag::Zero => Flags { zero: v, ..self },
            Flag::Subtract => Flags { subtract: v, ..self },
            Flag::HalfCarry => Flags { half_carry: v, ..self },
            Flag::Carry => Flags { carry: v, ..self },
        }
    }

    /// The `f` register: Zero in bit 7, Subtract in bit 6, HalfCarry in bit 5,
    /// Carry in bit 4, the low nibble zero.
    pub open spec fn byte(self) -> u8 {
        ((if self.zero { 0x80int } else { 0 }) + (if self.subtract { 0x40int } else { 0 }) + (
        if self.half_carry { 0x20int } else { 0 }) + (if self.carry { 0x10int } else { 0 })) as u8
    }
}

/// The eight-bit general registers.
#[derive(Clone, Copy, Debug, PartialEq, Eq, Structural)]
pub enum Reg {
    A,
    B,
    C,
    D,
    E,
    H,
    L,
}

/// The register file.
#[derive(Clone, Copy, Debug, PartialEq, Eq, Structural)]
pub struct Registers {
    pub a: u8,
    pub b: u8,
    pub c: u8,
    pub d: u8,
    pub e: u8,
    pub h: u8,
    pub l: u8,
    pub flags: Flags,
    pub pc: u16,
    pub sp: u16,
}

/// The 16-bit value with high byte `hi` and low byte `lo`.
pub open spec fn word(hi: u8, lo: u8) -> u16 {
    (hi * 256 + lo) as u16
}

pub open spec fn high(w: u16) -> u8 {
    (w / 256) as u8
}

pub open spec fn low(w: u16) -> u8 {
    (w % 256) as u8
}

/// `x + n` modulo 0x10000.
pub open spec fn add16(x: u16, n: int) -> u16 {
    ((x + n) % 0x10000) as u16
}

/// `x + n` modulo 0x100.
pub open spec fn add8(x: u8, n: int) -> u8 {
    ((x + n) % 0x100) as u8
}

/// A byte read as a two's-complement offset.
pub open spec fn signed(b: u8) -> int {
    if b < 128 {
        b as int
    } else {
        b - 256
    }
}

impl Registers {
    pub open spec fn get(self, r: Reg) -> u8 {
        match r {
            Reg::A => self.a,
            Reg::B => self.b,
            Reg::C => self.c,
            Reg::D => self.d,
            Reg::E => self.e,
            Reg::H => self.h,
            Reg::L => self.l,
        }
    }

    pub open spec fn with(self, r: Reg, v: u8) -> Registers {
        match r {
            Reg::A => Registers { a: v, ..self },
            Reg::B => Registers { b: v, ..self },
            Reg::C => Registers { c: v, ..self },
            Reg::D => Registers { d: v, ..self },
            Reg::E => Registers { e: v, ..self },
            Reg::H => Registers { h: v, ..self },
            Reg::L => Registers { l: v, ..self },
        }
    }

    pub open spec fn de(self) -> u16 {
        word(self.d, self.e)
    }

    pub open spec fn hl(self) -> u16 {
        word(self.h, self.l)
    }

    pub open spec fn with_de(self, w: u16) -> Registers {
        Registers { d: high(w), e: low(w), ..self }
    }

    pub open spec fn with_hl(self, w: u16) -> Registers {
        Registers { h: high(w), l: low(w), ..self }
    }
}

/// The processor and its bus as mathematical values.
pub struct CpuState {
    pub regs: Registers,
    pub ime: ImeState,
    pub bus: BusModel,
}

impl CpuState {
    pub open spec fn with_regs(self, regs: Registers) -> CpuState {
        CpuState { regs, ..self }
    }

    pub open spec fn read8(self, addr: u16) -> Result<u8, Fault> {
        match self.bus.read(addr) {
            Some(v) => Ok(v),
            None => Err(Fault::UnmappedAddress { addr }),
        }
    }

    pub open spec fn write8(self, addr: u16, v: u8) -> Result<CpuState, Fault> {
        if BusModel::writable(addr) {
            Ok(CpuState { bus: self.bus.write(addr, v), ..self })
        } else {
            Err(Fault::UnmappedAddress { addr })
        }
    }

    /// The little-endian word at `addr`, `addr + 1`.
    pub open spec fn read16(self, addr: u16) -> Result<u16, Fault> {
        match self.read8(addr) {
            Ok(lo) => match self.read8(add16(addr, 1)) {
                Ok(hi) => Ok(word(hi, lo)),
                Err(e) => Err(e),
            },
            Err(e) => Err(e),
        }
    }

    /// The byte operand that follows the opcode.
    pub open spec fn imm8(self) -> Result<u8, Fault> {
        self.read8(add16(self.regs.pc, 1))
    }

    /// The word operand that follows the opcode.
    pub open spec fn imm16(self) -> Result<u16, Fault> {
        self.read16(add16(self.regs.pc, 1))
    }

    /// Pushes `w`: the high byte at `sp - 1`, the low byte at `sp - 2`, and
    /// `sp` ends two lower.
    pub open spec fn push16(self, w: u16) -> Result<CpuState, Fault> {
        match self.write8(add16(self.regs.sp, -1), high(w)) {
            Ok(s1) => match s1.write8(add16(self.regs.sp, -2), low(w)) {
                Ok(s2) => Ok(s2.with_regs(Registers { sp: add16(self.regs.sp, -2), ..s2.regs })),
                Err(e) => Err(e),
            },
            Err(e) => Err(e),
        }
    }

    /// Pops a word: the low byte at `sp`, the high byte at `sp + 1`, and `sp`
    /// ends two higher.
    pub open spec fn pop16(self) -> Result<(CpuState, u16), Fault> {
        match self.read16(self.regs.sp) {
            Ok(w) => Ok((self.with_regs(Registers { sp: add16(self.regs.sp, 2), ..self.regs }), w)),
            Err(e) => Err(e),
        }
    }
}

/// A decoded instruction.
#[derive(Clone, Copy, Debug, PartialEq, Eq, Structural)]
pub enum Op {
    Nop,
    Inc(Reg),
    Dec(Reg),
    IncDe,
    IncHl,
    XorA,
    Rla,
    /// `RL C` (prefixed).
    RlC,
    /// `BIT n,H` (prefixed).
    BitH(u8),
    JrR8,
    /// `JR Z` when the payload is true, `JR NZ` when false.
    JrZ(bool),
    JpA16,
    Call,
    Ret,
    CpD8,
    PushBc,
    PopBc,
    PopHl,
    /// `LD to,from` between two registers.
    Ld(Reg, Reg),
    LdD8(Reg),
    LdADe,
    LdHlA,
    LdDeD16,
    LdHlD16,
    LdSpD16,
    LdiHlA,
    LddHlA,
    /// `LDH (a8),A`.
    LdhA8A,
    /// `LDH A,(a8)`.
    LdhAA8,
    /// `LD (C),A`.
    LdCA,
    LdA16A,
    Di,
    Ei,
}

/// The register that the three-bit field `n` of an opcode names (6 is the
/// memory operand, which is not a register).
pub open spec fn reg_code(n: u8) -> Option<Reg> {
    if n == 0 { Some(Reg::B) }
    else if n == 1 { Some(Reg::C) }
    else if n == 2 { Some(Reg::D) }
    else if n == 3 { Some(Reg::E) }
    else if n == 4 { Some(Reg::H) }
    else if n == 5 { Some(Reg::L) }
    else if n == 7 { Some(Reg::A) }
    else { None }
}

/// The dispatch table: the operation of the key `(prefix, opcode)`, where
/// `prefix` is 0xCB for prefixed instructions and 0 otherwise.
pub open spec fn decode_spec(prefix: u8, opcode: u8) -> Option<Op> {
    if prefix == 0xCB {
        if opcode == 0x7C { Some(Op::BitH(7)) }
        else if opcode == 0x11 { Some(Op::RlC) }
        else { None }
    } else if prefix != 0 {
        None
    } else if 0x40 <= opcode <= 0x7F && reg_code(((opcode - 0x40) / 8) as u8) is Some
        && reg_code(opcode % 8) is Some {
        Some(Op::Ld(reg_code(((opcode - 0x40) / 8) as u8)->Some_0, reg_code(opcode % 8)->Some_0))
    } else if opcode < 0x40 && opcode % 8 == 4 {
        match reg_code(opcode / 8) { Some(r) => Some(Op::Inc(r)), None => None }
    } else if opcode < 0x40 && opcode % 8 == 5 {
        match reg_code(opcode / 8) { Some(r) => Some(Op::Dec(r)), None => None }
    } else if opcode < 0x40 && opcode % 8 == 6 {
        match reg_code(opcode / 8) { Some(r) => Some(Op::LdD8(r)), None => None }
    }
    else if opcode == 0x00 { Some(Op::Nop) }
    else if opcode == 0x13 { Some(Op::IncDe) }
    else if opcode == 0x23 { Some(Op::IncHl) }
    else if opcode == 0xAF { Some(Op::XorA) }
    else if opcode == 0x17 { Some(Op::Rla) }
    else if opcode == 0x18 { Some(Op::JrR8) }
    else if opcode == 0x28 { Some(Op::JrZ(true)) }
    else if opcode == 0x20 { Some(Op::JrZ(false)) }
    else if opcode == 0xC3 { Some(Op::JpA16) }
    else if opcode == 0xCD { Some(Op::Call) }
    else if opcode == 0xC9 { Some(Op::Ret) }
    else if opcode == 0xFE { Some(Op::CpD8) }
    else if opcode == 0xC5 { Some(Op::PushBc) }
    else if opcode == 0xC1 { Some(Op::PopBc) }
    else if opcode == 0xE1 { Some(Op::PopHl) }
    else if opcode == 0x1A { Some(Op::LdADe) }
    else if opcode == 0x77 { Some(Op::LdHlA) }
    else if opcode == 0x11 { Some(Op::LdDeD16) }
    else if opcode == 0x21 { Some(Op::LdHlD16) }
    else if opcode == 0x31 { Some(Op::LdSpD16) }
    else if opcode == 0x22 { Some(Op::LdiHlA) }
    else if opcode == 0x32 { Some(Op::LddHlA) }
    else if opcode == 0xE0 { Some(Op::LdhA8A) }
    else if opcode == 0xF0 { Some(Op::LdhAA8) }
    else if opcode == 0xE2 { Some(Op::LdCA) }
    else if opcode == 0xEA { Some(Op::LdA16A) }
    else if opcode == 0xF3 { Some(Op::Di) }
    else if opcode == 0xFB { Some(Op::Ei) }
    else { None }
}

/// Clock cycles an operation takes, given how far it advanced `pc` (0 when
/// it set `pc` itself, which for a conditional jump means it was taken).
pub open spec fn cycles_spec(op: Op, advance: u16) -> u32 {
    match op {
        Op::Nop | Op::Inc(_) | Op::Dec(_) | Op::XorA | Op::Rla | Op::Ld(_, _) | Op::Di
        | Op::Ei => 4,
        Op::IncDe | Op::IncHl | Op::RlC | Op::BitH(_) | Op::CpD8 | Op::LdD8(_) | Op::LdADe
        | Op::LdHlA | Op::LdiHlA | Op::LddHlA | Op::LdCA => 8,
        Op::JrR8 => 12,
        Op::JrZ(_) => if advance == 0 { 12 } else { 8 },
        Op::PopBc | Op::PopHl | Op::LdDeD16 | Op::LdHlD16 | Op::LdSpD16 | Op::LdhA8A
        | Op::LdhAA8 => 12,
        Op::JpA16 | Op::Ret | Op::PushBc | Op::LdA16A => 16,
        Op::Call => 24,
    }
}

/// Flags after an 8-bit increment of `v`: Zero and HalfCarry follow the
/// result, Subtract is cleared, Carry is kept.
pub open spec fn inc_flags(f: Flags, v: u8) -> Flags {
    Flags { zero: add8(v, 1) == 0, subtract: false, half_carry: v % 16 == 15, carry: f.carry }
}

/// Flags after an 8-bit decrement of `v`: Zero and HalfCarry (a borrow out
/// of bit 4) follow the result, Subtract is set, Carry is kept.
pub open spec fn dec_flags(f: Flags, v: u8) -> Flags {
    Flags { zero: add8(v, -1) == 0, subtract: true, half_carry: v % 16 == 0, carry: f.carry }
}

/// Flags after comparing `a` with `v`.
pub open spec fn cp_flags(a: u8, v: u8) -> Flags {
    Flags { zero: a == v, subtract: true, half_carry: a % 16 < v % 16, carry: a < v }
}

/// `v` rotated left through the carry `c`: the result and the new carry.
pub open spec fn rotate_left_through(v: u8, c: bool) -> (u8, bool) {
    ((((v * 2) % 256) + (if c { 1int } else { 0 })) as u8, v >= 128)
}

/// The effect of one operation on the state: the new state and how far `pc`
/// is to advance (0 where the operation set `pc` itself), or the fault that
/// stops it.
#[verifier::opaque]
pub open spec fn op_spec(s: CpuState, op: Op) -> Result<(CpuState, u16), Fault> {
    let r = s.regs;
    match op {
        Op::Nop => Ok((s, 1)),
        Op::Inc(x) => {
            let v = r.get(x);
            Ok((s.with_regs(Registers { flags: inc_flags(r.flags, v), ..r.with(x, add8(v, 1)) }), 1))
        },
        Op::Dec(x) => {
            let v = r.get(x);
            Ok((s.with_regs(Registers { flags: dec_flags(r.flags, v), ..r.with(x, add8(v, -1)) }), 1))
        },
        Op::IncDe => Ok((s.with_regs(r.with_de(add16(r.de(), 1))), 1)),
        Op::IncHl => Ok((s.with_regs(r.with_hl(add16(r.hl(), 1))), 1)),
        Op::XorA => Ok((s.with_regs(Registers {
            a: 0,
            flags: Flags { zero: true, subtract: false, half_carry: false, carry: false },
            ..r
        }), 1)),
        Op::Rla => {
            let (v, c) = rotate_left_through(r.a, r.flags.carry);
            Ok((s.with_regs(Registers {
                a: v,
                flags: Flags { zero: false, subtract: false, half_carry: false, carry: c },
                ..r
            }), 1))
        },
        Op::RlC => {
            let (v, c) = rotate_left_through(r.c, r.flags.carry);
            Ok((s.with_regs(Registers {
                c: v,
                flags: Flags { zero: v == 0, subtract: false, half_carry: false, carry: c },
                ..r
            }), 2))
        },
        Op::BitH(n) => Ok((s.with_regs(Registers {
            flags: Flags { zero: (r.h >> n) & 1 == 0, subtract: false, half_carry: true, ..r.flags },
            ..r
        }), 2)),
        Op::JrR8 => match s.imm8() {
            Ok(off) => Ok((s.with_regs(Registers { pc: add16(r.pc, 2 + signed(off)), ..r }), 0)),
            Err(e) => Err(e),
        },
        Op::JrZ(when) => match s.imm8() {
            Ok(off) => if r.flags.zero == when {
                Ok((s.with_regs(Registers { pc: add16(r.pc, 2 + signed(off)), ..r }), 0))
            } else {
                Ok((s, 2))
            },
            Err(e) => Err(e),
        },
        Op::JpA16 => match s.imm16() {
            Ok(target) => Ok((s.with_regs(Registers { pc: target, ..r }), 0)),
            Err(e) => Err(e),
        },
        Op::Call => match s.imm16() {
            Ok(target) => match s.push16(add16(r.pc, 3)) {
                Ok(s1) => Ok((s1.with_regs(Registers { pc: target, ..s1.regs }), 0)),
                Err(e) => Err(e),
            },
            Err(e) => Err(e),
        },
        Op::Ret => match s.pop16() {
            Ok((s1, target)) => Ok((s1.with_regs(Registers { pc: target, ..s1.regs }), 0)),
            Err(e) => Err(e),
        },
        Op::CpD8 => match s.imm8() {
            Ok(v) => Ok((s.with_regs(Registers { flags: cp_flags(r.a, v), ..r }), 2)),
            Err(e) => Err(e),
        },
        Op::PushBc => match s.push16(word(r.b, r.c)) {
            Ok(s1) => Ok((s1, 1)),
            Err(e) => Err(e),
        },
        Op::PopBc => match s.pop16() {
            Ok((s1, w)) => Ok((s1.with_regs(Registers { b: high(w), c: low(w), ..s1.regs }), 1)),
            Err(e) => Err(e),
        },
        Op::PopHl => match s.pop16() {
            Ok((s1, w)) => Ok((s1.with_regs(s1.regs.with_hl(w)), 1)),
            Err(e) => Err(e),
        },
        Op::Ld(to, from) => Ok((s.with_regs(r.with(to, r.get(from))), 1)),
        Op::LdD8(x) => match s.imm8() {
            Ok(v) => Ok((s.with_regs(r.with(x, v)), 2)),
            Err(e) => Err(e),
        },
        Op::LdADe => match s.read8(r.de()) {
            Ok(v) => Ok((s.with_regs(Registers { a: v, ..r }), 1)),
            Err(e) => Err(e),
        },
        Op::LdHlA => match s.write8(r.hl(), r.a) {
            Ok(s1) => Ok((s1, 1)),
            Err(e) => Err(e),
        },
        Op::LdDeD16 => match s.imm16() {
            Ok(w) => Ok((s.with_regs(r.with_de(w)), 3)),
            Err(e) => Err(e),
        },
        Op::LdHlD16 => match s.imm16() {
            Ok(w) => Ok((s.with_regs(r.with_hl(w)), 3)),
            Err(e) => Err(e),
        },
        Op::LdSpD16 => match s.imm16() {
            Ok(w) => Ok((s.with_regs(Registers { sp: w, ..r }), 3)),
            Err(e) => Err(e),
        },
        Op::LdiHlA => match s.write8(r.hl(), r.a) {
            Ok(s1) => Ok((s1.with_regs(r.with_hl(add16(r.hl(), 1))), 1)),
            Err(e) => Err(e),
        },
        Op::LddHlA => match s.write8(r.hl(), r.a) {
            Ok(s1) => Ok((s1.with_regs(r.with_hl(add16(r.hl(), -1))), 1)),
            Err(e) => Err(e),
        },
        Op::LdhA8A => match s.imm8() {
            Ok(n) => match s.write8((0xFF00 + n) as u16, r.a) {
                Ok(s1) => Ok((s1, 2)),
                Err(e) => Err(e),
            },
            Err(e) => Err(e),
        },
        Op::LdhAA8 => match s.imm8() {
            Ok(n) => match s.read8((0xFF00 + n) as u16) {
                Ok(v) => Ok((s.with_regs(Registers { a: v, ..r }), 2)),
                Err(e) => Err(e),
            },
            Err(e) => Err(e),
        },
        Op::LdCA => match s.write8((0xFF00 + r.c) as u16, r.a) {
            Ok(s1) => Ok((s1, 1)),
            Err(e) => Err(e),
        },
        Op::LdA16A => match s.imm16() {
            Ok(addr) => match s.write8(addr, r.a) {
                Ok(s1) => Ok((s1, 3)),
                Err(e) => Err(e),
            },
            Err(e) => Err(e),
        },
        Op::Di => Ok((CpuState { ime: ImeState::Disabled, ..s }, 1)),
        Op::Ei => Ok((CpuState {
            ime: if s.ime == ImeState::Enabled { ImeState::Enabled } else { ImeState::EnableRequested },
            ..s
        }, 1)),
    }
}

/// The instruction key at `pc`: `(0xCB, next byte)` after the prefix byte,
/// `(0, byte)` otherwise.
pub open spec fn fetch_spec(s: CpuState) -> Result<(u8, u8), Fault> {
    match s.read8(s.regs.pc) {
        Ok(b) => if b == 0xCB {
            match s.read8(add16(s.regs.pc, 1)) {
                Ok(o) => Ok((0xCBu8, o)),
                Err(e) => Err(e),
            }
        } else {
            Ok((0u8, b))
        },
        Err(e) => Err(e),
    }
}

/// Dispatching an interrupt: `pc` is pushed (high byte first, at
/// decreasing addresses), `pc` becomes the vector and the master-enable is
/// cleared.
pub open spec fn service_spec(s: CpuState, vector: u16) -> Result<CpuState, Fault> {
    match s.push16(s.regs.pc) {
        Ok(s1) => Ok(CpuState {
            regs: Registers { pc: vector, ..s1.regs },
            ime: ImeState::Disabled,
            ..s1
        }),
        Err(e) => Err(e),
    }
}

/// Clock cycles charged for dispatching an interrupt.
pub const DISPATCH_CYCLES: u32 = 20;

/// The interrupt check that opens each step: the state after it and the
/// cycles it cost.
pub open spec fn interrupt_spec(s: CpuState) -> Result<(CpuState, u32), Fault> {
    match pending_spec(s.ime == ImeState::Enabled, s.bus) {
        Some((_bit, vector)) => match service_spec(s, vector) {
            Ok(s1) => Ok((s1, DISPATCH_CYCLES)),
            Err(e) => Err(e),
        },
        None => Ok((s, 0)),
    }
}

/// One step of the processor: the interrupt check, then fetch, decode and
/// execute of one instruction, `pc` advanced by the instruction's length
/// unless it set `pc` itself, and a requested interrupt enable moved on.
/// Yields the new state and the cycles consumed, or the crash.
pub open spec fn step_spec(s: CpuState) -> Result<(CpuState, u32), Crash> {
    match interrupt_spec(s) {
        Err(f) => Err(Crash { fault: f, pc: s.regs.pc }),
        Ok((s1, extra)) => match fetch_spec(s1) {
            Err(f) => Err(Crash { fault: f, pc: s1.regs.pc }),
            Ok((prefix, opcode)) => match decode_spec(prefix, opcode) {
                None => Err(Crash { fault: Fault::UnknownOpcode { prefix, opcode }, pc: s1.regs.pc }),
                Some(op) => match op_spec(s1, op) {
                    Err(f) => Err(Crash { fault: f, pc: s1.regs.pc }),
                    Ok((s2, advance)) => Ok((
                        CpuState {
                            regs: Registers { pc: add16(s2.regs.pc, advance as int), ..s2.regs },
                            ime: ime_after_instruction(s2.ime),
                            ..s2
                        },
                        (extra + cycles_spec(op, advance)) as u32,
                    )),
                },
            },
        },
    }
}

/// The state a crashed step leaves behind: the state after the interrupt
/// check (the fault stopped the instruction before it changed anything),
/// or the state before the step where the dispatch itself faulted.
pub open spec fn crash_state(s: CpuState) -> CpuState {
    match interrupt_spec(s) {
        Ok((s1, _c)) => s1,
        Err(_e) => s,
    }
}

/// `n` steps of the processor alone, stopping at the first crash: the
/// final state and the crash, if any.
pub open spec fn run_steps(s: CpuState, n: nat) -> (CpuState, Option<Crash>)
    decreases n,
{
    if n == 0 {
        (s, None)
    } else {
        match step_spec(s) {
            Err(e) => (crash_state(s), Some(e)),
            Ok((s1, _c)) => run_steps(s1, (n - 1) as nat),
        }
    }
}

/// Whether an operation's operands are in range (a bit index below 8).
pub open spec fn op_wf(op: Op) -> bool {
    match op {
        Op::BitH(n) => n < 8,
        _ => true,
    }
}

/// Why the stepping loop stopped: the fault and the address of the
/// instruction that raised it.
#[derive(Clone, Copy, Debug, PartialEq, Eq, Structural)]
pub struct Crash {
    pub fault: Fault,
    pub pc: u16,
}

/// The processor, bound to the bus it owns.
pub struct Cpu {
    pub regs: Registers,
    pub interrupts: InterruptController,
    pub memory: Memory,
    /// Instructions executed so far.
    pub operations: u64,
}

impl View for Cpu {
    type V = CpuState;

    open spec fn view(&self) -> CpuState {
        CpuState { regs: self.regs, ime: self.interrupts.state, bus: self.memory@ }
    }
}

/// `x + y` wrapping at 0x10000, as `add16` states it.
fn wrapping_add16(x: u16, y: u16) -> (r: u16)
    ensures
        r == add16(x, y as int),
{
    x.wrapping_add(y)
}

/// `x - y` wrapping at 0x10000, as `add16` states it.
fn wrapping_sub16(x: u16, y: u16) -> (r: u16)
    ensures
        r == add16(x, -(y as int)),
{
    x.wrapping_sub(y)
}

fn make_word(hi: u8, lo: u8) -> (r: u16)
    ensures
        r == word(hi, lo),
{
    (hi as u16) * 256 + (lo as u16)
}

impl Cpu {
    pub open spec fn wf(&self) -> bool {
        self.memory.wf()
    }

    /// How an operation's result relates the states before and after it to
    /// the outcome that `op_spec` gives.
    pub open spec fn follows(
        before: Cpu,
        after: Cpu,
        r: Result<u16, Fault>,
        expected: Result<(CpuState, u16), Fault>,
    ) -> bool {
        &&& after.wf()
        &&& after.operations == before.operations
        &&& match expected {
            Ok((s, n)) => r == Ok::<u16, Fault>(n) && after@ == s,
            Err(e) => r == Err::<u16, Fault>(e) && after@ == before@,
        }
    }

    /// A processor with every register zero and interrupts disabled.
    pub fn new(memory: Memory) -> (cpu: Cpu)
        requires
            memory.wf(),
        ensures
            cpu.wf(),
            cpu.memory@ == memory@,
            cpu.regs == (Registers {
                a: 0,
                b: 0,
                c: 0,
                d: 0,
                e: 0,
                h: 0,
                l: 0,
                flags: Flags { zero: false, subtract: false, half_carry: false, carry: false },
                pc: 0,
                sp: 0,
            }),
            cpu.interrupts.state == ImeState::Disabled,
            cpu.operations == 0,
    {
        Cpu {
            regs: Registers {
                a: 0,
                b: 0,
                c: 0,
                d: 0,
                e: 0,
                h: 0,
                l: 0,
                flags: Flags { zero: false, subtract: false, half_carry: false, carry: false },
                pc: 0,
                sp: 0,
            },
            interrupts: InterruptController::new(),
            memory,
            operations: 0,
        }
    }

    /// Sets the documented post-boot register values; `pc` starts at 0x0000
    /// while the boot ROM is mapped and at 0x0100 otherwise.
    pub fn reset(&mut self)
        ensures
            final(self).wf() == old(self).wf(),
            final(self).memory == old(self).memory,
            final(self).interrupts == old(self).interrupts,
            final(self).operations == old(self).operations,
            final(self).regs == (Registers {
                a: 0x01,
                b: 0x00,
                c: 0x13,
                d: 0x00,
                e: 0xD8,
                h: 0x01,
                l: 0x4D,
                flags: Flags { zero: true, subtract: false, half_carry: true, carry: true },
                pc: if old(self).memory@.boot_mapped { 0x0000 } else { 0x0100 },
                sp: 0xFFFE,
            }),
            final(self).f() == 0xB0,
    {
        let pc: u16 = if self.memory.boot_rom_mapped() { 0x0000 } else { 0x0100 };
        self.regs = Registers {
            a: 0x01,
            b: 0x00,
            c: 0x13,
            d: 0x00,
            e: 0xD8,
            h: 0x01,
            l: 0x4D,
            flags: Flags { zero: true, subtract: false, half_carry: true, carry: true },
            pc,
            sp: 0xFFFE,
        };
    }

    pub open spec fn f(&self) -> u8 {
        self.regs.flags.byte()
    }

    /// The `f` register.
    pub fn reg_f(&self) -> (r: u8)
        ensures
            r == self.f(),
    {
        let fl = self.regs.flags;
        let mut v: u8 = 0;
        if fl.zero {
            v = v + 0x80;
        }
        if fl.subtract {
            v = v + 0x40;
        }
        if fl.half_carry {
            v = v + 0x20;
        }
        if fl.carry {
            v = v + 0x10;
        }
        v
    }

    pub fn get(&self, flag: Flag) -> (r: bool)
        ensures
            r == self.regs.flags.get(flag),
    {
        match flag {
            Flag::Zero => self.regs.flags.zero,
            Flag::Subtract => self.regs.flags.subtract,
            Flag::HalfCarry => self.regs.flags.half_carry,
            Flag::Carry => self.regs.flags.carry,
        }
    }

    /// Sets or clears one flag and leaves the others.
    pub fn set(&mut self, flag: Flag, set: bool)
        ensures
            final(self).regs == (Registers { flags: old(self).regs.flags.with(flag, set), ..old(self).regs }),
            final(self).memory == old(self).memory,
            final(self).interrupts == old(self).interrupts,
            final(self).operations == old(self).operations,
    {
        match flag {
            Flag::Zero => self.regs.flags.zero = set,
            Flag::Subtract => self.regs.flags.subtract = set,
            Flag::HalfCarry => self.regs.flags.half_carry = set,
            Flag::Carry => self.regs.flags.carry = set,
        }
    }

    /// The value of register `r`.
    pub fn reg(&self, r: Reg) -> (v: u8)
        ensures
            v == self.regs.get(r),
    {
        match r {
            Reg::A => self.regs.a,
            Reg::B => self.regs.b,
            Reg::C => self.regs.c,
            Reg::D => self.regs.d,
            Reg::E => self.regs.e,
            Reg::H => self.regs.h,
            Reg::L => self.regs.l,
        }
    }

    fn store(&mut self, r: Reg, v: u8)
        ensures
            final(self).regs == old(self).regs.with(r, v),
            final(self).memory == old(self).memory,
            final(self).interrupts == old(self).interrupts,
            final(self).operations == old(self).operations,
    {
        match r {
            Reg::A => self.regs.a = v,
            Reg::B => self.regs.b = v,
            Reg::C => self.regs.c = v,
            Reg::D => self.regs.d = v,
            Reg::E => self.regs.e = v,
            Reg::H => self.regs.h = v,
            Reg::L => self.regs.l = v,
        }
    }

    pub fn a(&self) -> (v: u8)
        ensures
            v == self.regs.a,
    {
        self.regs.a
    }

    pub fn b(&self) -> (v: u8)
        ensures
            v == self.regs.b,
    {
        self.regs.b
    }

    pub fn c(&self) -> (v: u8)
        ensures
            v == self.regs.c,
    {
        self.regs.c
    }

    pub fn d(&self) -> (v: u8)
        ensures
            v == self.regs.d,
    {
        self.regs.d
    }

    pub fn e(&self) -> (v: u8)
        ensures
            v == self.regs.e,
    {
        self.regs.e
    }

    pub fn h(&self) -> (v: u8)
        ensures
            v == self.regs.h,
    {
        self.regs.h
    }

    pub fn l(&self) -> (v: u8)
        ensures
            v == self.regs.l,
    {
        self.regs.l
    }

    pub fn de(&self) -> (v: u16)
        ensures
            v == self.regs.de(),
    {
        make_word(self.regs.d, self.regs.e)
    }

    pub fn hl(&self) -> (v: u16)
        ensures
            v == self.regs.hl(),
    {
        make_word(self.regs.h, self.regs.l)
    }

    fn store_hl(&mut self, w: u16)
        ensures
            final(self).regs == old(self).regs.with_hl(w),
            final(self).memory == old(self).memory,
            final(self).interrupts == old(self).interrupts,
            final(self).operations == old(self).operations,
    {
        self.regs.h = (w / 256) as u8;
        self.regs.l = (w % 256) as u8;
    }

    fn store_de(&mut self, w: u16)
        ensures
            final(self).regs == old(self).regs.with_de(w),
            final(self).memory == old(self).memory,
            final(self).interrupts == old(self).interrupts,
            final(self).operations == old(self).operations,
    {
        self.regs.d = (w / 256) as u8;
        self.regs.e = (w % 256) as u8;
    }

    fn read8(&self, addr: u16) -> (r: Result<u8, Fault>)
        requires
            self.wf(),
        ensures
            r == self@.read8(addr),
    {
        self.memory.read(addr)
    }

    fn write8(&mut self, addr: u16, v: u8) -> (r: Result<(), Fault>)
        requires
            old(self).wf(),
        ensures
            final(self).wf(),
            final(self).regs == old(self).regs,
            final(self).interrupts == old(self).interrupts,
            final(self).operations == old(self).operations,
            match old(self)@.write8(addr, v) {
                Ok(s) => r is Ok && final(self)@ == s,
                Err(e) => r == Err::<(), Fault>(e) && final(self)@ == old(self)@,
            },
    {
        self.memory.write(addr, v)
    }

    /// The little-endian word at `address`, `address + 1`.
    pub fn read_word(&self, address: u16) -> (r: Result<u16, Fault>)
        requires
            self.wf(),
        ensures
            r == self@.read16(address),
    {
        let lo = self.read8(address)?;
        let hi = self.read8(wrapping_add16(address, 1))?;
        Ok(make_word(hi, lo))
    }

    fn imm8(&self) -> (r: Result<u8, Fault>)
        requires
            self.wf(),
        ensures
            r == self@.imm8(),
    {
        self.read8(wrapping_add16(self.regs.pc, 1))
    }

    fn imm16(&self) -> (r: Result<u16, Fault>)
        requires
            self.wf(),
        ensures
            r == self@.imm16(),
    {
        self.read_word(wrapping_add16(self.regs.pc, 1))
    }

    fn push_word(&mut self, w: u16) -> (r: Result<(), Fault>)
        requires
            old(self).wf(),
        ensures
            final(self).wf(),
            final(self).operations == old(self).operations,
            match old(self)@.push16(w) {
                Ok(s) => r is Ok && final(self)@ == s,
                Err(e) => r == Err::<(), Fault>(e) && final(self)@ == old(self)@,
            },
    {
        let sp = self.regs.sp;
        let high_addr = wrapping_sub16(sp, 1);
        let low_addr = wrapping_sub16(sp, 2);
        // Both cells are checked first, so a refused push changes nothing.
        if !Memory::is_writable(high_addr) {
            return Err(Fault::UnmappedAddress { addr: high_addr });
        }
        if !Memory::is_writable(low_addr) {
            return Err(Fault::UnmappedAddress { addr: low_addr });
        }
        self.write8(high_addr, (w / 256) as u8)?;
        self.write8(low_addr, (w % 256) as u8)?;
        self.regs.sp = wrapping_sub16(sp, 2);
        Ok(())
    }

    fn pop_word(&mut self) -> (r: Result<u16, Fault>)
        requires
            old(self).wf(),
        ensures
            final(self).wf(),
            final(self).operations == old(self).operations,
            match old(self)@.pop16() {
                Ok((s, w)) => r == Ok::<u16, Fault>(w) && final(self)@ == s,
                Err(e) => r == Err::<u16, Fault>(e) && final(self)@ == old(self)@,
            },
    {
        let w = self.read_word(self.regs.sp)?;
        self.regs.sp = wrapping_add16(self.regs.sp, 2);
        Ok(w)
    }

    /// Steps the processor `max_steps` times or until it crashes; returns the crash, if any.
    pub fn run(&mut self, max_steps: u64) -> (r: Option<Crash>)
        requires
            old(self).wf(),
        ensures
            final(self).wf(),
            final(self)@ == run_steps(old(self)@, max_steps as nat).0,
            r == run_steps(old(self)@, max_steps as nat).1,
    {
        let ghost s0 = self@;
        let mut crash: Option<Crash> = None;
        let mut done: u64 = 0;
        while done < max_steps
            invariant_except_break
                crash is None,
                run_steps(s0, max_steps as nat) == run_steps(self@, (max_steps - done) as nat),
            invariant
                done <= max_steps,
                self.wf(),
            ensures
                self.wf(),
                run_steps(s0, max_steps as nat) == (self@, crash),
            decreases max_steps - done,
        {
            let ghost before = self@;
            match self.step() {
                Ok(_) => {},
                Err(e) => {
                    assert(run_steps(before, (max_steps - done) as nat) == (self@, Some(e)));
                    crash = Some(e);
                    break;
                },
            }
            done = done + 1;
        }
        crash
    }

    /// The rows of the diagnostic dump: for each depth below `height`, the
    /// stack address `0xFFFF - depth` with its byte, and the byte 0x6000
    /// lower, in video memory (`None` where no region backs an address).
    pub fn stack_and_vram(&self, height: u16) -> (rows: Vec<(u16, Option<u8>, Option<u8>)>)
        requires
            self.wf(),
            height <= 0xA000,
        ensures
            rows@.len() == height,
            forall|d: int| 0 <= d < height ==> #[trigger] rows@[d] == (
                (0xFFFF - d) as u16,
                self@.bus.read((0xFFFF - d) as u16),
                self@.bus.read((0xFFFF - d - 0x6000) as u16),
            ),
    {
        let mut rows: Vec<(u16, Option<u8>, Option<u8>)> = Vec::new();
        let mut depth: u16 = 0;
        while depth < height
            invariant
                depth <= height,
                height <= 0xA000,
                self.wf(),
                rows@.len() == depth,
                forall|d: int| 0 <= d < depth ==> #[trigger] rows@[d] == (
                    (0xFFFF - d) as u16,
                    self@.bus.read((0xFFFF - d) as u16),
                    self@.bus.read((0xFFFF - d - 0x6000) as u16),
                ),
            decreases height - depth,
        {
            let address: u16 = 0xFFFF - depth;
            let stack = match self.read8(address) {
                Ok(v) => Some(v),
                Err(_) => None,
            };
            let vram = match self.read8(address - 0x6000) {
                Ok(v) => Some(v),
                Err(_) => None,
            };
            rows.push((address, stack, vram));
            depth = depth + 1;
        }
        rows
    }

    fn fetch(&self) -> (r: Result<(u8, u8), Fault>)
        requires
            self.wf(),
        ensures
            r == fetch_spec(self@),
    {
        let b = self.read8(self.regs.pc)?;
        if b == 0xCB {
            let o = self.read8(wrapping_add16(self.regs.pc, 1))?;
            Ok((0xCB, o))
        } else {
            Ok((0, b))
        }
    }

    fn execute(&mut self, op: Op) -> (r: Result<u16, Fault>)
        requires
            old(self).wf(),
            op_wf(op),
        ensures
            Cpu::follows(*old(self), *final(self), r, op_spec(old(self)@, op)),
    {
        match op {
            Op::Nop => self.nop(),
            Op::Inc(x) => self.inc(x),
            Op::Dec(x) => self.dec(x),
            Op::IncDe => self.inc_de(),
            Op::IncHl => self.inc_hl(),
            Op::XorA => self.xor_a(),
            Op::Rla => self.rla(),
            Op::RlC => self.rl_c(),
            Op::BitH(n) => self.bit_h(n),
            Op::JrR8 => self.jr_r8(),
            Op::JrZ(when) => self.jr(when),
            Op::JpA16 => self.jmp_a16(),
            Op::Call => self.call(),
            Op::Ret => self.ret(),
            Op::CpD8 => self.cp_d8(),
            Op::PushBc => self.push_bc(),
            Op::PopBc => self.pop_bc(),
            Op::PopHl => self.pop_hl(),
            Op::Ld(to, from) => self.ld(to, from),
            Op::LdD8(x) => self.ld_d8(x),
            Op::LdADe => self.ld_a_de(),
            Op::LdHlA => self.ld_hl_a(),
            Op::LdDeD16 => self.ld_de_d16(),
            Op::LdHlD16 => self.ld_hl_d16(),
            Op::LdSpD16 => self.ld_sp_d16(),
            Op::LdiHlA => self.ldi_hl_a(),
            Op::LddHlA => self.ldd_hl_a(),
            Op::LdhA8A => self.ldh_a8_a(),
            Op::LdhAA8 => self.ldh_a_a8(),
            Op::LdCA => self.ldr_c_a(),
            Op::LdA16A => self.ld_a16_a(),
            Op::Di => self.di(),
            Op::Ei => self.ei(),
        }
    }

    /// Dispatches the interrupt at `vector`: pushes `pc` (high byte first, at
    /// decreasing addresses), jumps to `vector` and clears the master-enable.
    pub fn service(&mut self, vector: u16) -> (r: Result<(), Fault>)
        requires
            old(self).wf(),
        ensures
            final(self).wf(),
            final(self).operations == old(self).operations,
            match service_spec(old(self)@, vector) {
                Ok(s) => r is Ok && final(self)@ == s,
                Err(e) => r == Err::<(), Fault>(e) && final(self)@ == old(self)@,
            },
    {
        let pc = self.regs.pc;
        self.push_word(pc)?;
        self.regs.pc = vector;
        self.interrupts.disable_interrupts();
        Ok(())
    }

    /// Dispatches the highest-priority pending interrupt, if any, and
    /// returns the cycles that cost.
    pub fn service_interrupts(&mut self) -> (r: Result<u32, Fault>)
        requires
            old(self).wf(),
        ensures
            final(self).wf(),
            final(self).operations == old(self).operations,
            match interrupt_spec(old(self)@) {
                Ok((s, c)) => r == Ok::<u32, Fault>(c) && final(self)@ == s,
                Err(e) => r == Err::<u32, Fault>(e) && final(self)@ == old(self)@,
            },
    {
        match self.interrupts.pending(&self.memory) {
            Some((_bit, vector)) => {
                self.service(vector)?;
                Ok(DISPATCH_CYCLES)
            },
            None => Ok(0),
        }
    }

    /// Executes one instruction (after the interrupt check) and returns the
    /// cycles it consumed; a fault is fatal and is returned with the `pc` of
    /// the instruction that raised it.
    pub fn step(&mut self) -> (r: Result<u32, Crash>)
        requires
            old(self).wf(),
        ensures
            final(self).wf(),
            match step_spec(old(self)@) {
                Ok((s, c)) => r == Ok::<u32, Crash>(c) && final(self)@ == s,
                Err(e) => r == Err::<u32, Crash>(e) && final(self)@ == crash_state(old(self)@)
                    && final(self).operations == old(self).operations,
            },
            r is Ok ==> final(self).operations == if old(self).operations < u64::MAX {
                old(self).operations + 1
            } else {
                old(self).operations as int
            },
    {
        let start = self.regs.pc;
        let extra = match self.service_interrupts() {
            Ok(c) => c,
            Err(f) => {
                return Err(Crash { fault: f, pc: start });
            },
        };
        let pc = self.regs.pc;
        let (prefix, opcode) = match self.fetch() {
            Ok(key) => key,
            Err(f) => {
                return Err(Crash { fault: f, pc });
            },
        };
        let op = match decode(prefix, opcode) {
            Some(op) => op,
            None => {
                return Err(Crash { fault: Fault::UnknownOpcode { prefix, opcode }, pc });
            },
        };
        let advance = match self.execute(op) {
            Ok(n) => n,
            Err(f) => {
                return Err(Crash { fault: f, pc });
            },
        };
        self.regs.pc = wrapping_add16(self.regs.pc, advance);
        self.interrupts.instruction_completed();
        if self.operations < u64::MAX {
            self.operations = self.operations + 1;
        }
        Ok(extra + cycles(op, advance))
    }

    /// `NOP`: one byte long, touches no register, flag or memory byte.
    pub fn nop(&mut self) -> (r: Result<u16, Fault>)
        requires
            old(self).wf(),
        ensures
            Cpu::follows(*old(self), *final(self), r, op_spec(old(self)@, Op::Nop)),
            r == Ok::<u16, Fault>(1),
            final(self)@ == old(self)@,
    {
        reveal(op_spec);
        Ok(1)
    }

    fn inc(&mut self, x: Reg) -> (r: Result<u16, Fault>)
        requires
            old(self).wf(),
        ensures
            Cpu::follows(*old(self), *final(self), r, op_spec(old(self)@, Op::Inc(x))),
    {
        proof {
            lemma_inc_spec(old(self)@, x);
        }
        let v = self.reg(x);
        let n: u8 = if v == 0xFF { 0 } else { v + 1 };
        assert(n == add8(v, 1));
        let flags = Flags {
            zero: n == 0,
            subtract: false,
            half_carry: v % 16 == 15,
            carry: self.regs.flags.carry,
        };
        assert(flags == inc_flags(self.regs.flags, v));
        self.store(x, n);
        self.regs.flags = flags;
        Ok(1)
    }

    fn dec(&mut self, x: Reg) -> (r: Result<u16, Fault>)
        requires
            old(self).wf(),
        ensures
            Cpu::follows(*old(self), *final(self), r, op_spec(old(self)@, Op::Dec(x))),
    {
        proof {
            lemma_dec_spec(old(self)@, x);
        }
        let v = self.reg(x);
        let n: u8 = if v == 0 { 0xFF } else { v - 1 };
        assert(n == add8(v, -1));
        let flags = Flags {
            zero: n == 0,
            subtract: true,
            half_carry: v % 16 == 0,
            carry: self.regs.flags.carry,
        };
        assert(flags == dec_flags(self.regs.flags, v));
        self.store(x, n);
        self.regs.flags = flags;
        Ok(1)
    }

    fn inc_de(&mut self) -> (r: Result<u16, Fault>)
        requires
            old(self).wf(),
        ensures
            Cpu::follows(*old(self), *final(self), r, op_spec(old(self)@, Op::IncDe)),
    {
        reveal(op_spec);
        let v = self.de();
        self.store_de(wrapping_add16(v, 1));
        Ok(1)
    }

    fn inc_hl(&mut self) -> (r: Result<u16, Fault>)
        requires
            old(self).wf(),
        ensures
            Cpu::follows(*old(self), *final(self), r, op_spec(old(self)@, Op::IncHl)),
    {
        reveal(op_spec);
        let v = self.hl();
        self.store_hl(wrapping_add16(v, 1));
        Ok(1)
    }

    /// `XOR A`: zeroes `a`, sets Zero and clears the other flags.
    pub fn xor_a(&mut self) -> (r: Result<u16, Fault>)
        requires
            old(self).wf(),
        ensures
            Cpu::follows(*old(self), *final(self), r, op_spec(old(self)@, Op::XorA)),
            r == Ok::<u16, Fault>(1),
            final(self).regs == (Registers {
                a: 0,
                flags: Flags { zero: true, subtract: false, half_carry: false, carry: false },
                ..old(self).regs
            }),
            final(self).f() == 0x80,
            final(self).interrupts == old(self).interrupts,
            final(self)@.bus == old(self)@.bus,
    {
        reveal(op_spec);
        let a = self.regs.a;
        let v = a ^ a;
        assert(a ^ a == 0) by (bit_vector);
        self.regs.a = v;
        self.regs.flags = Flags { zero: v == 0, subtract: false, half_carry: false, carry: false };
        Ok(1)
    }

    fn rla(&mut self) -> (r: Result<u16, Fault>)
        requires
            old(self).wf(),
        ensures
            Cpu::follows(*old(self), *final(self), r, op_spec(old(self)@, Op::Rla)),
    {
        reveal(op_spec);
        let (v, c) = rotate_left(self.regs.a, self.regs.flags.carry);
        self.regs.a = v;
        self.regs.flags = Flags { zero: false, subtract: false, half_carry: false, carry: c };
        Ok(1)
    }

    fn rl_c(&mut self) -> (r: Result<u16, Fault>)
        requires
            old(self).wf(),
        ensures
            Cpu::follows(*old(self), *final(self), r, op_spec(old(self)@, Op::RlC)),
    {
        reveal(op_spec);
        let (v, c) = rotate_left(self.regs.c, self.regs.flags.carry);
        self.regs.c = v;
        self.regs.flags = Flags { zero: v == 0, subtract: false, half_carry: false, carry: c };
        Ok(2)
    }

    /// `BIT bit,H`: Zero is set exactly when bit `bit` of `h` is clear;
    /// Subtract is cleared, HalfCarry set, Carry kept.
    pub fn bit_h(&mut self, bit: u8) -> (r: Result<u16, Fault>)
        requires
            old(self).wf(),
            bit < 8,
        ensures
            Cpu::follows(*old(self), *final(self), r, op_spec(old(self)@, Op::BitH(bit))),
            r == Ok::<u16, Fault>(2),
            final(self).regs == (Registers {
                flags: Flags {
                    zero: (old(self).regs.h >> bit) & 1 == 0,
                    subtract: false,
                    half_carry: true,
                    carry: old(self).regs.flags.carry,
                },
                ..old(self).regs
            }),
            final(self).interrupts == old(self).interrupts,
            final(self)@.bus == old(self)@.bus,
    {
        reveal(op_spec);
        let zero = (self.regs.h >> bit) & 1 == 0;
        self.set(Flag::Zero, zero);
        self.set(Flag::Subtract, false);
        self.set(Flag::HalfCarry, true);
        Ok(2)
    }

    fn jr_r8(&mut self) -> (r: Result<u16, Fault>)
        requires
            old(self).wf(),
        ensures
            Cpu::follows(*old(self), *final(self), r, op_spec(old(self)@, Op::JrR8)),
    {
        reveal(op_spec);
        let off = self.imm8()?;
        self.regs.pc = relative_target(self.regs.pc, off);
        Ok(0)
    }

    fn jr(&mut self, when: bool) -> (r: Result<u16, Fault>)
        requires
            old(self).wf(),
        ensures
            Cpu::follows(*old(self), *final(self), r, op_spec(old(self)@, Op::JrZ(when))),
    {
        reveal(op_spec);
        let off = self.imm8()?;
        if self.get(Flag::Zero) == when {
            self.regs.pc = relative_target(self.regs.pc, off);
            Ok(0)
        } else {
            Ok(2)
        }
    }

    fn jmp_a16(&mut self) -> (r: Result<u16, Fault>)
        requires
            old(self).wf(),
        ensures
            Cpu::follows(*old(self), *final(self), r, op_spec(old(self)@, Op::JpA16)),
    {
        reveal(op_spec);
        let target = self.imm16()?;
        self.regs.pc = target;
        Ok(0)
    }

    /// `CALL a16`: pushes the address of the next instruction (high byte at
    /// `sp - 1`, low byte at `sp - 2`) and jumps to the operand.
    pub fn call(&mut self) -> (r: Result<u16, Fault>)
        requires
            old(self).wf(),
        ensures
            Cpu::follows(*old(self), *final(self), r, op_spec(old(self)@, Op::Call)),
            r is Ok ==> r == Ok::<u16, Fault>(0)
                && old(self)@.imm16() is Ok
                && final(self).regs.pc == old(self)@.imm16()->Ok_0
                && final(self).regs.sp == add16(old(self).regs.sp, -2)
                && final(self)@.bus.read(add16(old(self).regs.sp, -1)) == Some(
                    high(add16(old(self).regs.pc, 3)),
                )
                && final(self)@.bus.read(add16(old(self).regs.sp, -2)) == Some(
                    low(add16(old(self).regs.pc, 3)),
                ),
    {
        reveal(op_spec);
        proof {
            let sp = old(self).regs.sp;
            let ret = add16(old(self).regs.pc, 3);
            let b1 = old(self)@.bus.write(add16(sp, -1), high(ret));
            if BusModel::writable(add16(sp, -1)) && BusModel::writable(add16(sp, -2)) {
                lemma_write_read(old(self)@.bus, add16(sp, -1), add16(sp, -1), high(ret));
                lemma_write_read(b1, add16(sp, -2), add16(sp, -2), low(ret));
                lemma_write_read(b1, add16(sp, -2), add16(sp, -1), low(ret));
                assert(canonical(add16(sp, -2)) != canonical(add16(sp, -1)));
            }
        }
        let target = self.imm16()?;
        let return_address = wrapping_add16(self.regs.pc, 3);
        self.push_word(return_address)?;
        self.regs.pc = target;
        Ok(0)
    }

    /// `RET`: pops the return address (low byte at `sp`, high byte at
    /// `sp + 1`) into `pc`.
    pub fn ret(&mut self) -> (r: Result<u16, Fault>)
        requires
            old(self).wf(),
        ensures
            Cpu::follows(*old(self), *final(self), r, op_spec(old(self)@, Op::Ret)),
            r is Ok <==> old(self)@.bus.read(old(self).regs.sp) is Some
                && old(self)@.bus.read(add16(old(self).regs.sp, 1)) is Some,
            r is Ok ==> r == Ok::<u16, Fault>(0)
                && final(self).regs.pc == word(
                    old(self)@.bus.read(add16(old(self).regs.sp, 1))->Some_0,
                    old(self)@.bus.read(old(self).regs.sp)->Some_0,
                )
                && final(self).regs.sp == add16(old(self).regs.sp, 2),
    {
        reveal(op_spec);
        let target = self.pop_word()?;
        self.regs.pc = target;
        Ok(0)
    }

    fn cp_d8(&mut self) -> (r: Result<u16, Fault>)
        requires
            old(self).wf(),
        ensures
            Cpu::follows(*old(self), *final(self), r, op_spec(old(self)@, Op::CpD8)),
    {
        reveal(op_spec);
        let v = self.imm8()?;
        let a = self.regs.a;
        self.regs.flags = Flags { zero: a == v, subtract: true, half_carry: a % 16 < v % 16, carry: a < v };
        Ok(2)
    }

    fn push_bc(&mut self) -> (r: Result<u16, Fault>)
        requires
            old(self).wf(),
        ensures
            Cpu::follows(*old(self), *final(self), r, op_spec(old(self)@, Op::PushBc)),
    {
        reveal(op_spec);
        let w = make_word(self.regs.b, self.regs.c);
        self.push_word(w)?;
        Ok(1)
    }

    fn pop_bc(&mut self) -> (r: Result<u16, Fault>)
        requires
            old(self).wf(),
        ensures
            Cpu::follows(*old(self), *final(self), r, op_spec(old(self)@, Op::PopBc)),
    {
        reveal(op_spec);
        let w = self.pop_word()?;
        self.regs.b = (w / 256) as u8;
        self.regs.c = (w % 256) as u8;
        Ok(1)
    }

    fn pop_hl(&mut self) -> (r: Result<u16, Fault>)
        requires
            old(self).wf(),
        ensures
            Cpu::follows(*old(self), *final(self), r, op_spec(old(self)@, Op::PopHl)),
    {
        reveal(op_spec);
        let w = self.pop_word()?;
        self.store_hl(w);
        Ok(1)
    }

    fn ld(&mut self, to: Reg, from: Reg) -> (r: Result<u16, Fault>)
        requires
            old(self).wf(),
        ensures
            Cpu::follows(*old(self), *final(self), r, op_spec(old(self)@, Op::Ld(to, from))),
    {
        reveal(op_spec);
        let v = self.reg(from);
        self.store(to, v);
        Ok(1)
    }

    fn ld_d8(&mut self, x: Reg) -> (r: Result<u16, Fault>)
        requires
            old(self).wf(),
        ensures
            Cpu::follows(*old(self), *final(self), r, op_spec(old(self)@, Op::LdD8(x))),
    {
        reveal(op_spec);
        let v = self.imm8()?;
        self.store(x, v);
        Ok(2)
    }

    fn ld_a_de(&mut self) -> (r: Result<u16, Fault>)
        requires
            old(self).wf(),
        ensures
            Cpu::follows(*old(self), *final(self), r, op_spec(old(self)@, Op::LdADe)),
    {
        reveal(op_spec);
        let address = self.de();
        let v = self.read8(address)?;
        self.regs.a = v;
        Ok(1)
    }

    fn ld_hl_a(&mut self) -> (r: Result<u16, Fault>)
        requires
            old(self).wf(),
        ensures
            Cpu::follows(*old(self), *final(self), r, op_spec(old(self)@, Op::LdHlA)),
    {
        reveal(op_spec);
        let address = self.hl();
        self.write8(address, self.regs.a)?;
        Ok(1)
    }

    fn ld_de_d16(&mut self) -> (r: Result<u16, Fault>)
        requires
            old(self).wf(),
        ensures
            Cpu::follows(*old(self), *final(self), r, op_spec(old(self)@, Op::LdDeD16)),
    {
        reveal(op_spec);
        let w = self.imm16()?;
        self.store_de(w);
        Ok(3)
    }

    fn ld_hl_d16(&mut self) -> (r: Result<u16, Fault>)
        requires
            old(self).wf(),
        ensures
            Cpu::follows(*old(self), *final(self), r, op_spec(old(self)@, Op::LdHlD16)),
    {
        reveal(op_spec);
        let w = self.imm16()?;
        self.store_hl(w);
        Ok(3)
    }

    fn ld_sp_d16(&mut self) -> (r: Result<u16, Fault>)
        requires
            old(self).wf(),
        ensures
            Cpu::follows(*old(self), *final(self), r, op_spec(old(self)@, Op::LdSpD16)),
    {
        reveal(op_spec);
        let w = self.imm16()?;
        self.regs.sp = w;
        Ok(3)
    }

    fn ldi_hl_a(&mut self) -> (r: Result<u16, Fault>)
        requires
            old(self).wf(),
        ensures
            Cpu::follows(*old(self), *final(self), r, op_spec(old(self)@, Op::LdiHlA)),
    {
        reveal(op_spec);
        let address = self.hl();
        self.write8(address, self.regs.a)?;
        self.store_hl(wrapping_add16(address, 1));
        Ok(1)
    }

    fn ldd_hl_a(&mut self) -> (r: Result<u16, Fault>)
        requires
            old(self).wf(),
        ensures
            Cpu::follows(*old(self), *final(self), r, op_spec(old(self)@, Op::LddHlA)),
    {
        reveal(op_spec);
        let address = self.hl();
        self.write8(address, self.regs.a)?;
        self.store_hl(wrapping_sub16(address, 1));
        Ok(1)
    }

    fn ldh_a8_a(&mut self) -> (r: Result<u16, Fault>)
        requires
            old(self).wf(),
        ensures
            Cpu::follows(*old(self), *final(self), r, op_spec(old(self)@, Op::LdhA8A)),
    {
        reveal(op_spec);
        let n = self.imm8()?;
        self.write8(0xFF00 + n as u16, self.regs.a)?;
        Ok(2)
    }

    fn ldh_a_a8(&mut self) -> (r: Result<u16, Fault>)
        requires
            old(self).wf(),
        ensures
            Cpu::follows(*old(self), *final(self), r, op_spec(old(self)@, Op::LdhAA8)),
    {
        reveal(op_spec);
        let n = self.imm8()?;
        let v = self.read8(0xFF00 + n as u16)?;
        self.regs.a = v;
        Ok(2)
    }

    fn ldr_c_a(&mut self) -> (r: Result<u16, Fault>)
        requires
            old(self).wf(),
        ensures
            Cpu::follows(*old(self), *final(self), r, op_spec(old(self)@, Op::LdCA)),
    {
        reveal(op_spec);
        let address = 0xFF00 + self.regs.c as u16;
        self.write8(address, self.regs.a)?;
        Ok(1)
    }

    fn ld_a16_a(&mut self) -> (r: Result<u16, Fault>)
        requires
            old(self).wf(),
        ensures
            Cpu::follows(*old(self), *final(self), r, op_spec(old(self)@, Op::LdA16A)),
    {
        reveal(op_spec);
        let address = self.imm16()?;
        self.write8(address, self.regs.a)?;
        Ok(3)
    }

    fn di(&mut self) -> (r: Result<u16, Fault>)
        requires
            old(self).wf(),
        ensures
            Cpu::follows(*old(self), *final(self), r, op_spec(old(self)@, Op::Di)),
    {
        reveal(op_spec);
        self.interrupts.disable_interrupts();
        Ok(1)
    }

    fn ei(&mut self) -> (r: Result<u16, Fault>)
        requires
            old(self).wf(),
        ensures
            Cpu::follows(*old(self), *final(self), r, op_spec(old(self)@, Op::Ei)),
    {
        reveal(op_spec);
        self.interrupts.enable_interrupts();
        Ok(1)
    }
}

fn reg_from_code(n: u8) -> (r: Option<Reg>)
    ensures
        r == reg_code(n),
{
    if n == 0 {
        Some(Reg::B)
    } else if n == 1 {
        Some(Reg::C)
    } else if n == 2 {
        Some(Reg::D)
    } else if n == 3 {
        Some(Reg::E)
    } else if n == 4 {
        Some(Reg::H)
    } else if n == 5 {
        Some(Reg::L)
    } else if n == 7 {
        Some(Reg::A)
    } else {
        None
    }
}

/// Looks up the key `(prefix, opcode)` in the dispatch table.
pub fn decode(prefix: u8, opcode: u8) -> (r: Option<Op>)
    ensures
        r == decode_spec(prefix, opcode),
        r matches Some(op) ==> op_wf(op),
{
    if prefix == 0xCB {
        return if opcode == 0x7C {
            Some(Op::BitH(7))
        } else if opcode == 0x11 {
            Some(Op::RlC)
        } else {
            None
        };
    }
    if prefix != 0 {
        return None;
    }
    if 0x40 <= opcode && opcode <= 0x7F {
        if let (Some(to), Some(from)) = (reg_from_code((opcode - 0x40) / 8), reg_from_code(opcode % 8)) {
            return Some(Op::Ld(to, from));
        }
    }
    if opcode < 0x40 && opcode % 8 == 4 {
        return match reg_from_code(opcode / 8) {
            Some(r) => Some(Op::Inc(r)),
            None => None,
        };
    }
    if opcode < 0x40 && opcode % 8 == 5 {
        return match reg_from_code(opcode / 8) {
            Some(r) => Some(Op::Dec(r)),
            None => None,
        };
    }
    if opcode < 0x40 && opcode % 8 == 6 {
        return match reg_from_code(opcode / 8) {
            Some(r) => Some(Op::LdD8(r)),
            None => None,
        };
    }
    match opcode {
        0x00 => Some(Op::Nop),
        0x13 => Some(Op::IncDe),
        0x23 => Some(Op::IncHl),
        0xAF => Some(Op::XorA),
        0x17 => Some(Op::Rla),
        0x18 => Some(Op::JrR8),
        0x28 => Some(Op::JrZ(true)),
        0x20 => Some(Op::JrZ(false)),
        0xC3 => Some(Op::JpA16),
        0xCD => Some(Op::Call),
        0xC9 => Some(Op::Ret),
        0xFE => Some(Op::CpD8),
        0xC5 => Some(Op::PushBc),
        0xC1 => Some(Op::PopBc),
        0xE1 => Some(Op::PopHl),
        0x1A => Some(Op::LdADe),
        0x77 => Some(Op::LdHlA),
        0x11 => Some(Op::LdDeD16),
        0x21 => Some(Op::LdHlD16),
        0x31 => Some(Op::LdSpD16),
        0x22 => Some(Op::LdiHlA),
        0x32 => Some(Op::LddHlA),
        0xE0 => Some(Op::LdhA8A),
        0xF0 => Some(Op::LdhAA8),
        0xE2 => Some(Op::LdCA),
        0xEA => Some(Op::LdA16A),
        0xF3 => Some(Op::Di),
        0xFB => Some(Op::Ei),
        _ => None,
    }
}

/// Clock cycles of `op`, given how far it advanced `pc`.
pub fn cycles(op: Op, advance: u16) -> (r: u32)
    ensures
        r == cycles_spec(op, advance),
{
    match op {
        Op::Nop | Op::Inc(_) | Op::Dec(_) | Op::XorA | Op::Rla | Op::Ld(_, _) | Op::Di
        | Op::Ei => 4,
        Op::IncDe | Op::IncHl | Op::RlC | Op::BitH(_) | Op::CpD8 | Op::LdD8(_) | Op::LdADe
        | Op::LdHlA | Op::LdiHlA | Op::LddHlA | Op::LdCA => 8,
        Op::JrR8 => 12,
        Op::JrZ(_) => if advance == 0 { 12 } else { 8 },
        Op::PopBc | Op::PopHl | Op::LdDeD16 | Op::LdHlD16 | Op::LdSpD16 | Op::LdhA8A
        | Op::LdhAA8 => 12,
        Op::JpA16 | Op::Ret | Op::PushBc | Op::LdA16A => 16,
        Op::Call => 24,
    }
}

/// `NOP` advances `pc` by one byte and changes nothing else.
pub proof fn lemma_nop(s: CpuState)
    ensures
        op_spec(s, Op::Nop) == Ok::<(CpuState, u16), Fault>((s, 1u16)),
{
    reveal(op_spec);
}

/// A step over a `NOP`, with no interrupt to dispatch, moves `pc` one byte
/// on and leaves every other register, every flag and the bus unchanged.
pub proof fn lemma_step_nop(s: CpuState)
    requires
        s.bus.read(s.regs.pc) == Some(0x00u8),
        pending_spec(s.ime == ImeState::Enabled, s.bus) is None,
    ensures
        step_spec(s) matches Ok((s2, c)) && c == 4 && s2.bus == s.bus
            && s2.regs == (Registers { pc: add16(s.regs.pc, 1), ..s.regs }),
{
    reveal(op_spec);
}

/// `XOR A` zeroes `a` and sets Zero, whatever `a` held.
pub proof fn lemma_xor_a(s: CpuState)
    ensures
        op_spec(s, Op::XorA) matches Ok((s2, n)) && n == 1 && s2.regs.a == 0
            && s2.regs.flags.zero,
{
    reveal(op_spec);
}

/// `BIT 7,H` sets Zero exactly when bit 7 of `h` is clear, clears Subtract,
/// sets HalfCarry and keeps Carry.
pub proof fn lemma_bit_7_h(s: CpuState)
    ensures
        op_spec(s, Op::BitH(7)) matches Ok((s2, n)) && n == 2
            && s2.regs.flags.zero == (s.regs.h < 0x80)
            && !s2.regs.flags.subtract
            && s2.regs.flags.half_carry
            && s2.regs.flags.carry == s.regs.flags.carry,
{
    reveal(op_spec);
    let h = s.regs.h;
    assert(((h >> 7u8) & 1u8 == 0u8) == (h < 0x80u8)) by (bit_vector);
}

proof fn lemma_word_parts(w: u16)
    ensures
        word(high(w), low(w)) == w,
{
}

proof fn lemma_call_spec(s: CpuState)
    ensures
        op_spec(s, Op::Call) == match s.imm16() {
            Ok(target) => match s.push16(add16(s.regs.pc, 3)) {
                Ok(s1) => Ok((s1.with_regs(Registers { pc: target, ..s1.regs }), 0u16)),
                Err(e) => Err(e),
            },
            Err(e) => Err(e),
        },
{
    reveal(op_spec);
}

proof fn lemma_ret_spec(s: CpuState)
    ensures
        op_spec(s, Op::Ret) == match s.pop16() {
            Ok((s1, target)) => Ok((s1.with_regs(Registers { pc: target, ..s1.regs }), 0u16)),
            Err(e) => Err(e),
        },
{
    reveal(op_spec);
}

/// `CALL` followed at once by `RET` comes back to the instruction after the
/// `CALL` with `sp` as it was before the `CALL`.
pub proof fn lemma_call_ret(s: CpuState)
    requires
        s.bus.wf(),
        op_spec(s, Op::Call) is Ok,
    ensures
        op_spec(op_spec(s, Op::Call)->Ok_0.0, Op::Ret) matches Ok((s2, n)) && n == 0
            && s2.regs.pc == add16(s.regs.pc, 3)
            && s2.regs.sp == s.regs.sp,
{
    lemma_call_spec(s);
    let sp = s.regs.sp;
    let ret = add16(s.regs.pc, 3);
    let hi_addr = add16(sp, -1);
    let lo_addr = add16(sp, -2);
    let target = s.imm16()->Ok_0;
    let b1 = s.bus.write(hi_addr, high(ret));
    let b2 = b1.write(lo_addr, low(ret));
    assert(s.push16(ret) is Ok);
    let s1 = s.push16(ret)->Ok_0;
    assert(s1.bus == b2);
    assert(s1.regs.sp == lo_addr);
    let c = s1.with_regs(Registers { pc: target, ..s1.regs });
    assert(op_spec(s, Op::Call)->Ok_0.0 == c);
    lemma_ret_spec(c);
    lemma_write_read(s.bus, hi_addr, hi_addr, high(ret));
    lemma_write_read(b1, lo_addr, lo_addr, low(ret));
    lemma_write_read(b1, lo_addr, hi_addr, low(ret));
    assert(canonical(lo_addr) != canonical(hi_addr));
    assert(add16(lo_addr, 1) == hi_addr);
    assert(add16(lo_addr, 2) == sp);
    assert(c.read8(lo_addr) == Ok::<u8, Fault>(low(ret)));
    assert(c.read8(hi_addr) == Ok::<u8, Fault>(high(ret)));
    lemma_word_parts(ret);
    assert(c.pop16() == Ok::<(CpuState, u16), Fault>(
        (c.with_regs(Registers { sp, ..c.regs }), ret),
    ));
}

proof fn lemma_inc_spec(s: CpuState, x: Reg)
    ensures
        op_spec(s, Op::Inc(x)) == Ok::<(CpuState, u16), Fault>((
            s.with_regs(Registers {
                flags: inc_flags(s.regs.flags, s.regs.get(x)),
                ..s.regs.with(x, add8(s.regs.get(x), 1))
            }),
            1u16,
        )),
{
    reveal(op_spec);
}

proof fn lemma_dec_spec(s: CpuState, x: Reg)
    ensures
        op_spec(s, Op::Dec(x)) == Ok::<(CpuState, u16), Fault>((
            s.with_regs(Registers {
                flags: dec_flags(s.regs.flags, s.regs.get(x)),
                ..s.regs.with(x, add8(s.regs.get(x), -1))
            }),
            1u16,
        )),
{
    reveal(op_spec);
}

/// `v` rotated left through the carry `c`.
fn rotate_left(v: u8, c: bool) -> (r: (u8, bool))
    ensures
        r == rotate_left_through(v, c),
{
    let shifted: u8 = ((v as u16 * 2) % 256) as u8;
    (if c { shifted + 1 } else { shifted }, v >= 128)
}

/// The target of a relative jump at `pc` with offset byte `off`.
fn relative_target(pc: u16, off: u8) -> (r: u16)
    ensures
        r == add16(pc, 2 + signed(off)),
{
    let next = wrapping_add16(pc, 2);
    if off < 128 {
        wrapping_add16(next, off as u16)
    } else {
        wrapping_sub16(next, 256 - off as u16)
    }
}

} // verus!
