//! The DMG CPU: its register file, its addressing modes and its
//! fetch-decode-execute engine over a flat 16-bit address space.
use vstd::prelude::*;

use crate::register::{bcd_decode, bcd_encode, wide_of, BitResult, RegPair};

verus! {

/// Number of addressable cells: the whole 16-bit address space.
pub const MEMORY_SIZE: usize = 65536;

/// The largest number of cycles a single instruction costs.
pub const MAX_INSTRUCTION_CYCLES: u32 = 20;

/// Representation of the status flags within the CPU.
/// - (Z) Zero flag
/// - (N) Subtraction flag for BCD
/// - (H) Half-carry flag for BCD
/// - (C) Carry flag
#[derive(Debug, Clone, Copy, PartialEq, Eq, Structural)]
pub struct Flags {
    /// Z flag
    pub zero: bool,
    /// N flag, for BCD
    pub subtraction: bool,
    /// H flag, for BCD
    pub half_carry: bool,
    /// C flag
    pub carry: bool,
}

impl Flags {
    pub fn new() -> (r: Self)
        ensures
            r == (Flags { zero: false, subtraction: false, half_carry: false, carry: false }),
    {
        Flags { zero: false, subtraction: false, half_carry: false, carry: false }
    }
}

/// Representation of the LCD control register.
#[derive(Debug, Clone, Copy, PartialEq, Eq, Structural)]
pub struct LCDReg {
    /// Bit 7 - LCD Display Enable (0=Off, 1=On)
    pub lcd_enable: bool,
    /// Bit 6 - Window Tile Map Display Select (0=9800-9BFF, 1=9C00-9FFF)
    pub window_display_select: bool,
    /// Bit 5 - Window Display Enable (0=Off, 1=On)
    pub window_enable: bool,
    /// Bit 4 - BG & Window Tile Data Select (0=8800-97FF, 1=8000-8FFF)
    pub bg_window_select: bool,
    /// Bit 3 - BG Tile Map Display Select (0=9800-9BFF, 1=9C00-9FFF)
    pub bg_tile_data_select: bool,
    /// Bit 2 - OBJ (Sprite) Size (0=8x8, 1=8x16)
    pub sprite_size: bool,
    /// Bit 1 - OBJ (Sprite) Display Enable (0=Off, 1=On)
    pub sprite_enable: bool,
    /// Bit 0 - BG Display (for CGB see below) (0=Off, 1=On)
    pub bg_display_cgb: bool,
}

/// The LCD control register with every bit reset.
pub open spec fn lcd_reg_reset() -> LCDReg {
    LCDReg {
        lcd_enable: false,
        window_display_select: false,
        window_enable: false,
        bg_window_select: false,
        bg_tile_data_select: false,
        sprite_size: false,
        sprite_enable: false,
        bg_display_cgb: false,
    }
}

impl LCDReg {
    pub fn new() -> (r: Self)
        ensures
            r == lcd_reg_reset(),
    {
        LCDReg {
            lcd_enable: false,
            window_display_select: false,
            window_enable: false,
            bg_window_select: false,
            bg_tile_data_select: false,
            sprite_size: false,
            sprite_enable: false,
            bg_display_cgb: false,
        }
    }
}

/// Where an instruction finds its operand.
pub enum AddressingMode<'a> {
    /// The operand already sits in the memory data register.
    Implied,
    /// One cell at the program counter.
    ImmediateEight,
    /// Two cells at the program counter, low byte first.
    ImmediateSixteen,
    /// The cell at `0xFF00` plus the program counter.
    UnsignedEight,
    /// The cell at the given address.
    AddressSixteen(u16),
    /// The byte at the program counter, sign-extended to a word.
    SignedEight,
    /// The cell whose address is the pair's 16-bit value.
    RegisterPairDirect(&'a RegPair),
    /// The cell whose address is the pair's high (`true`) or low byte.
    RegisterDirect(&'a RegPair, bool),
}

/// Which register pair an instruction operates on.
#[derive(Debug, Clone, Copy, PartialEq, Eq, Structural)]
pub enum RegisterPairs {
    BC,
    DE,
    HL,
}

/// The 8-bit registers, with the stack pointer, that an instruction may name.
#[derive(Debug, Clone, Copy, PartialEq, Eq, Structural)]
pub enum Registers {
    A,
    B,
    C,
    D,
    E,
    H,
    L,
    SP,
}

/// The direction of a rotation of the accumulator.
#[derive(Debug, Clone, Copy, PartialEq, Eq, Structural)]
pub enum RotateDirection {
    Left,
    Right,
}

/// An instruction that was dispatched against a register it cannot act on.
#[derive(Debug)]
pub struct OpcodeError {
    pub info: String,
    pub opcode: u8,
}

impl OpcodeError {
    pub fn new(info: String, opcode: u8) -> (r: OpcodeError)
        ensures
            r.info@ == info@,
            r.opcode == opcode,
    {
        OpcodeError { info, opcode }
    }
}

/// A bulk write that would run past the end of memory.
#[derive(Debug, Clone, Copy, PartialEq, Eq, Structural)]
pub struct MemoryError {
    /// Where the write was to start.
    pub index: usize,
    /// How many cells it was to write.
    pub len: usize,
}

/// The whole CPU: registers, flags, memory and the cycle counter.
pub struct CPU {
    /// The accumulator register.
    pub a: u8,
    /// The stack pointer.
    pub sp: u16,
    /// The program counter.
    pub pc: u16,
    /// The instruction register. Stores the current instruction.
    pub ir: u16,
    /// The memory address register: the address a memory write goes to.
    pub mar: u16,
    /// The memory data register: the value last read or about to be written.
    pub mdr: u16,
    /// The BC register pair.
    pub bc: RegPair,
    /// The DE register pair.
    pub de: RegPair,
    /// The HL register pair.
    pub hl: RegPair,
    /// The status flags.
    pub flags: Flags,
    /// The LCD control register.
    pub lcd_reg: LCDReg,
    /// The total memory access space of the DMG unit.
    pub memory: [u16; 65536],
    /// The number of cycles clocked so far.
    pub cycles: u32,
}

/// The state of a CPU as plain values.
pub struct CpuState {
    pub a: u8,
    pub sp: u16,
    pub pc: u16,
    pub ir: u16,
    pub mar: u16,
    pub mdr: u16,
    pub bc: (u8, u8),
    pub de: (u8, u8),
    pub hl: (u8, u8),
    pub flags: Flags,
    pub lcd_reg: LCDReg,
    pub memory: Seq<u16>,
    pub cycles: int,
}

impl View for CPU {
    type V = CpuState;

    open spec fn view(&self) -> CpuState {
        CpuState {
            a: self.a,
            sp: self.sp,
            pc: self.pc,
            ir: self.ir,
            mar: self.mar,
            mdr: self.mdr,
            bc: self.bc@,
            de: self.de@,
            hl: self.hl@,
            flags: self.flags,
            lcd_reg: self.lcd_reg,
            memory: self.memory@,
            cycles: self.cycles as int,
        }
    }
}

/// `a + n` in the 16-bit address space, wrapping past the top.
pub open spec fn wrap16(a: int, n: int) -> int {
    (a + n) % 65536
}

/// The byte that a word-sized memory cell holds in its low eight bits.
pub open spec fn low_byte(v: u16) -> int {
    v as int % 256
}

/// A byte read as two's complement.
pub open spec fn signed_of(b: int) -> int {
    if b < 128 {
        b
    } else {
        b - 256
    }
}

/// A byte sign-extended to a 16-bit word.
pub open spec fn sign_extend(b: int) -> int {
    if b < 128 {
        b
    } else {
        b + 0xFF00
    }
}

/// The little-endian word made of two cells: `hi` shifted up by eight,
/// combined bitwise with `lo`.
pub open spec fn little_endian(lo: u16, hi: u16) -> u16 {
    ((hi << 8u16) | lo) as u16
}

/// What `read_memory` gives for `mode` in state `s`.
pub open spec fn operand(s: CpuState, mode: AddressingMode) -> u16 {
    match mode {
        AddressingMode::Implied => s.mdr,
        AddressingMode::ImmediateEight => s.memory[s.pc as int],
        AddressingMode::ImmediateSixteen => little_endian(
            s.memory[s.pc as int],
            s.memory[wrap16(s.pc as int, 1)],
        ),
        AddressingMode::UnsignedEight => s.memory[wrap16(0xFF00, s.pc as int)],
        AddressingMode::AddressSixteen(addr) => s.memory[addr as int],
        AddressingMode::SignedEight => sign_extend(low_byte(s.memory[s.pc as int])) as u16,
        AddressingMode::RegisterPairDirect(pair) => s.memory[wide_of(pair@)],
        AddressingMode::RegisterDirect(pair, is_high) => if is_high {
            s.memory[pair@.0 as int]
        } else {
            s.memory[pair@.1 as int]
        },
    }
}

/// A freshly built CPU: every register, flag and cell zero.
pub open spec fn zero_state() -> CpuState {
    CpuState {
        a: 0,
        sp: 0,
        pc: 0,
        ir: 0,
        mar: 0,
        mdr: 0,
        bc: (0u8, 0u8),
        de: (0u8, 0u8),
        hl: (0u8, 0u8),
        flags: Flags { zero: false, subtraction: false, half_carry: false, carry: false },
        lcd_reg: lcd_reg_reset(),
        memory: Seq::new(65536, |i: int| 0u16),
        cycles: 0,
    }
}

/// One entry of the opcode table: the instruction an opcode selects.
#[derive(Debug, Clone, Copy, PartialEq, Eq, Structural)]
pub enum Instruction {
    /// `NOP`
    Nop,
    /// `LD rr,d16`
    LoadPairImmediate(RegisterPairs),
    /// `LD SP,d16`
    LoadSpImmediate,
    /// `LD (rr),A`
    StoreAccumulatorIndirect(RegisterPairs),
    /// `LD A,(rr)`
    LoadAccumulatorIndirect(RegisterPairs),
    /// `INC rr`
    IncrementPair(RegisterPairs),
    /// `DEC rr`
    DecrementPair(RegisterPairs),
    /// `INC r`, on BCD contents
    IncrementRegister(Registers),
    /// `DEC r`, on BCD contents
    DecrementRegister(Registers),
    /// `LD r,d8`
    LoadRegisterImmediate(Registers),
    /// `RLCA` and `RRCA`
    RotateAccumulator(RotateDirection),
    /// `LD (a16),SP`
    StoreStackPointer,
    /// An opcode that has no handler yet: it only costs time.
    Unimplemented,
}

/// The opcode table.
pub open spec fn instruction_of(opcode: u16) -> Instruction {
    match opcode {
        0x00 => Instruction::Nop,
        0x01 => Instruction::LoadPairImmediate(RegisterPairs::BC),
        0x02 => Instruction::StoreAccumulatorIndirect(RegisterPairs::BC),
        0x03 => Instruction::IncrementPair(RegisterPairs::BC),
        0x04 => Instruction::IncrementRegister(Registers::B),
        0x05 => Instruction::DecrementRegister(Registers::B),
        0x06 => Instruction::LoadRegisterImmediate(Registers::B),
        0x07 => Instruction::RotateAccumulator(RotateDirection::Left),
        0x08 => Instruction::StoreStackPointer,
        0x0A => Instruction::LoadAccumulatorIndirect(RegisterPairs::BC),
        0x0B => Instruction::DecrementPair(RegisterPairs::BC),
        0x0C => Instruction::IncrementRegister(Registers::C),
        0x0D => Instruction::DecrementRegister(Registers::C),
        0x0E => Instruction::LoadRegisterImmediate(Registers::C),
        0x0F => Instruction::RotateAccumulator(RotateDirection::Right),
        0x11 => Instruction::LoadPairImmediate(RegisterPairs::DE),
        0x12 => Instruction::StoreAccumulatorIndirect(RegisterPairs::DE),
        0x14 => Instruction::IncrementRegister(Registers::D),
        0x15 => Instruction::DecrementRegister(Registers::D),
        0x16 => Instruction::LoadRegisterImmediate(Registers::D),
        0x1B => Instruction::DecrementPair(RegisterPairs::DE),
        0x1C => Instruction::IncrementRegister(Registers::E),
        0x1D => Instruction::DecrementRegister(Registers::E),
        0x1E => Instruction::LoadRegisterImmediate(Registers::E),
        0x21 => Instruction::LoadPairImmediate(RegisterPairs::HL),
        0x22 => Instruction::StoreAccumulatorIndirect(RegisterPairs::DE),
        0x2B => Instruction::DecrementPair(RegisterPairs::HL),
        0x2C => Instruction::IncrementRegister(Registers::L),
        0x2D => Instruction::DecrementRegister(Registers::L),
        0x2E => Instruction::LoadRegisterImmediate(Registers::L),
        0x31 => Instruction::LoadSpImmediate,
        0x09
        | 0x10 | 0x13 | 0x17 | 0x18 | 0x19 | 0x1A | 0x1F
        | 0x20 | 0x23 | 0x24 | 0x25 | 0x26 | 0x27 | 0x28 | 0x29 | 0x2A | 0x2F
        | 0x30 | 0x32 | 0x33 | 0x34 | 0x35 | 0x36 | 0x37 | 0x38 | 0x39 | 0x3A | 0x3B | 0x3C | 0x3D | 0x3E | 0x3F
        | 0x40 | 0x41 | 0x42 | 0x43 | 0x44 | 0x45 | 0x46 | 0x47 | 0x48 | 0x49 | 0x4A | 0x4B | 0x4C | 0x4D | 0x4E | 0x4F
        | 0x50 | 0x51 | 0x52 | 0x53 | 0x54 | 0x55 | 0x56 | 0x57 | 0x58 | 0x59 | 0x5A | 0x5B | 0x5C | 0x5D | 0x5E | 0x5F
        | 0x60 | 0x61 | 0x62 | 0x63 | 0x64 | 0x65 | 0x66 | 0x67 | 0x68 | 0x69 | 0x6A | 0x6B | 0x6C | 0x6D | 0x6E | 0x6F
        | 0x70 | 0x71 | 0x72 | 0x73 | 0x74 | 0x75 | 0x76 | 0x77 | 0x78 | 0x79 | 0x7A | 0x7B | 0x7C | 0x7D | 0x7E | 0x7F
        | 0x80 | 0x81 | 0x82 | 0x83 | 0x84 | 0x85 | 0x86 | 0x87 | 0x88 | 0x89 | 0x8A | 0x8B | 0x8C | 0x8D | 0x8E | 0x8F
        | 0x90 | 0x91 | 0x92 | 0x93 | 0x94 | 0x95 | 0x96 | 0x97 | 0x98 | 0x99 | 0x9A | 0x9B | 0x9C | 0x9D | 0x9E | 0x9F
        | 0xA0 | 0xA1 | 0xA2 | 0xA3 | 0xA4 | 0xA5 | 0xA6 | 0xA7 | 0xA8 | 0xA9 | 0xAA | 0xAB | 0xAC | 0xAD | 0xAE | 0xAF
        | 0xB0 | 0xB1 | 0xB2 | 0xB3 | 0xB4 | 0xB5 | 0xB6 | 0xB7 | 0xB8 | 0xB9 | 0xBA | 0xBB | 0xBC | 0xBD | 0xBE | 0xBF
        | 0xC0 | 0xC1 | 0xC2 | 0xC3 | 0xC4 | 0xC5 | 0xC6 | 0xC7 | 0xC8 | 0xC9 | 0xCA | 0xCB | 0xCC | 0xCD | 0xCE | 0xCF
        | 0xD0 | 0xD1 | 0xD2 | 0xD3 | 0xD4 | 0xD5 | 0xD6 | 0xD7 | 0xD8 | 0xD9 | 0xDA | 0xDB | 0xDC | 0xDD | 0xDE | 0xDF
        | 0xE0 | 0xE1 | 0xE2 | 0xE3 | 0xE4 | 0xE5 | 0xE6 | 0xE7 | 0xE8 | 0xE9 | 0xEA | 0xEB | 0xEC | 0xED | 0xEE | 0xEF
        | 0xF0 | 0xF1 | 0xF2 | 0xF3 | 0xF4 | 0xF5 | 0xF6 | 0xF7 | 0xF8 | 0xF9 | 0xFA | 0xFB | 0xFC | 0xFD | 0xFE | 0xFF => Instruction::Unimplemented,
        // A cell may hold a value wider than a byte; no opcode has it.
        _ => Instruction::Unimplemented,
    }
}

/// The value of register pair `p`.
pub open spec fn pair_value(s: CpuState, p: RegisterPairs) -> (u8, u8) {
    match p {
        RegisterPairs::BC => s.bc,
        RegisterPairs::DE => s.de,
        RegisterPairs::HL => s.hl,
    }
}

/// `s` with register pair `p` set to `v`.
pub open spec fn with_pair(s: CpuState, p: RegisterPairs, v: (u8, u8)) -> CpuState {
    match p {
        RegisterPairs::BC => CpuState { bc: v, ..s },
        RegisterPairs::DE => CpuState { de: v, ..s },
        RegisterPairs::HL => CpuState { hl: v, ..s },
    }
}

/// A word split into its high and its low byte.
pub open spec fn split_word(v: int) -> (u8, u8) {
    ((v / 256) as u8, (v % 256) as u8)
}

/// The pair and the half of it (`true` for high) that an 8-bit register
/// is; none for the accumulator and the stack pointer.
pub open spec fn half_register(reg: Registers) -> Option<(RegisterPairs, bool)> {
    match reg {
        Registers::B => Some((RegisterPairs::BC, true)),
        Registers::C => Some((RegisterPairs::BC, false)),
        Registers::D => Some((RegisterPairs::DE, true)),
        Registers::E => Some((RegisterPairs::DE, false)),
        Registers::H => Some((RegisterPairs::HL, true)),
        Registers::L => Some((RegisterPairs::HL, false)),
        Registers::A | Registers::SP => None,
    }
}

/// The byte held in one half of pair `p`.
pub open spec fn half_value(s: CpuState, p: RegisterPairs, high: bool) -> u8 {
    if high {
        pair_value(s, p).0
    } else {
        pair_value(s, p).1
    }
}

/// `s` with one half of pair `p` set to `b`.
pub open spec fn with_half(s: CpuState, p: RegisterPairs, high: bool, b: u8) -> CpuState {
    let v = pair_value(s, p);
    with_pair(s, p, if high { (b, v.1) } else { (v.0, b) })
}

/// The decimal value that `INC r` leaves: one more, wrapping from 99 to 0.
pub open spec fn bcd_increment(old: int) -> int {
    (old + 1) % 100
}

/// The decimal value that `DEC r` computes from `old`: one less, with 0 going
/// to 15; above 128 (reachable only from nibbles over nine) the two's
/// complement magnitude of `old - 1` taken as a signed byte.
pub open spec fn bcd_decrement(old: int) -> int {
    if old == 0 {
        15
    } else if old <= 128 {
        old - 1
    } else {
        257 - old
    }
}

/// `INC r` on one half of pair `p`, without its cycle cost.
pub open spec fn increment_half(s: CpuState, p: RegisterPairs, high: bool) -> CpuState {
    let old = bcd_decode(half_value(s, p, high) as int);
    let new = bcd_increment(old);
    CpuState {
        flags: Flags {
            zero: new == 0,
            subtraction: false,
            half_carry: old % 10 == 9 && new == 0,
            carry: s.flags.carry,
        },
        ..with_half(s, p, high, bcd_encode(new) as u8)
    }
}

/// `DEC r` on one half of pair `p`, without its cycle cost.
pub open spec fn decrement_half(s: CpuState, p: RegisterPairs, high: bool) -> CpuState {
    let old = bcd_decode(half_value(s, p, high) as int);
    let decr = bcd_decrement(old);
    let new = decr % 100;
    CpuState {
        flags: Flags {
            zero: new == 0,
            subtraction: true,
            half_carry: (decr / 16) % 2 == 1,
            carry: s.flags.carry,
        },
        ..with_half(s, p, high, bcd_encode(new) as u8)
    }
}

/// The accumulator rotated one bit, the bit shifted out coming back in at
/// the other end.
pub open spec fn rotated(a: u8, dir: RotateDirection) -> u8 {
    match dir {
        RotateDirection::Left => ((a * 2) % 256 + a / 128) as u8,
        RotateDirection::Right => (a / 2 + (a % 2) * 128) as u8,
    }
}

/// The bit that a rotation of the accumulator shifts out.
pub open spec fn rotated_out(a: u8, dir: RotateDirection) -> bool {
    match dir {
        RotateDirection::Left => a >= 128,
        RotateDirection::Right => a % 2 == 1,
    }
}

/// `s` with `n` more cycles counted.
pub open spec fn add_cycles(s: CpuState, n: int) -> CpuState {
    CpuState { cycles: s.cycles + n, ..s }
}

/// Whether the instruction names a register it cannot act on.
pub open spec fn instruction_fails(instr: Instruction) -> bool {
    match instr {
        Instruction::IncrementRegister(reg) => half_register(reg) is None,
        Instruction::DecrementRegister(reg) => half_register(reg) is None,
        Instruction::LoadRegisterImmediate(reg) => half_register(reg) is None,
        _ => false,
    }
}

/// The state after executing `instr` in `s`, whose program counter already
/// points past the opcode. An instruction that fails leaves `s` as it is.
pub open spec fn execute(s: CpuState, instr: Instruction) -> CpuState {
    match instr {
        Instruction::Nop => add_cycles(s, 4),
        Instruction::LoadPairImmediate(p) => {
            let v = operand(s, AddressingMode::ImmediateSixteen);
            CpuState {
                mdr: v,
                pc: wrap16(s.pc as int, 2) as u16,
                cycles: s.cycles + 12,
                ..with_pair(s, p, split_word(v as int))
            }
        },
        Instruction::LoadSpImmediate => {
            let v = operand(s, AddressingMode::ImmediateSixteen);
            CpuState { mdr: v, sp: v, pc: wrap16(s.pc as int, 2) as u16, cycles: s.cycles + 12, ..s }
        },
        Instruction::StoreAccumulatorIndirect(p) => {
            let addr = wide_of(pair_value(s, p));
            CpuState {
                mdr: s.a as u16,
                mar: addr as u16,
                memory: s.memory.update(addr, s.a as u16),
                cycles: s.cycles + 8,
                ..s
            }
        },
        Instruction::LoadAccumulatorIndirect(p) => {
            let addr = wide_of(pair_value(s, p));
            let v = s.memory[addr];
            CpuState { mar: addr as u16, mdr: v, a: low_byte(v) as u8, cycles: s.cycles + 8, ..s }
        },
        Instruction::IncrementPair(p) => add_cycles(
            with_pair(s, p, split_word(wrap16(wide_of(pair_value(s, p)), 1))),
            8,
        ),
        Instruction::DecrementPair(p) => add_cycles(
            with_pair(s, p, split_word(wrap16(wide_of(pair_value(s, p)), 65535))),
            8,
        ),
        Instruction::IncrementRegister(reg) => match half_register(reg) {
            Some((p, high)) => add_cycles(increment_half(s, p, high), 8),
            None => s,
        },
        Instruction::DecrementRegister(reg) => match half_register(reg) {
            Some((p, high)) => add_cycles(decrement_half(s, p, high), 8),
            None => s,
        },
        Instruction::LoadRegisterImmediate(reg) => match half_register(reg) {
            Some((p, high)) => {
                let v = operand(s, AddressingMode::ImmediateEight);
                CpuState {
                    mdr: v,
                    pc: wrap16(s.pc as int, 1) as u16,
                    cycles: s.cycles + 8,
                    ..with_half(s, p, high, low_byte(v) as u8)
                }
            },
            None => s,
        },
        Instruction::RotateAccumulator(dir) => CpuState {
            a: rotated(s.a, dir),
            flags: Flags { carry: rotated_out(s.a, dir), ..s.flags },
            cycles: s.cycles + 4,
            ..s
        },
        Instruction::StoreStackPointer => {
            let addr = operand(s, AddressingMode::ImmediateSixteen) as int;
            let next = wrap16(addr, 1);
            CpuState {
                mar: next as u16,
                mdr: (s.sp / 256) as u16,
                memory: s.memory.update(addr, (s.sp % 256) as u16).update(next, (s.sp / 256) as u16),
                pc: wrap16(s.pc as int, 2) as u16,
                cycles: s.cycles + 20,
                ..s
            }
        },
        Instruction::Unimplemented => add_cycles(s, 4),
    }
}

/// The fetch step: the opcode at the program counter goes to the
/// instruction register and the program counter moves past it.
pub open spec fn fetch(s: CpuState) -> CpuState {
    CpuState { ir: s.memory[s.pc as int], pc: wrap16(s.pc as int, 1) as u16, ..s }
}

/// One full fetch-decode-execute step.
pub open spec fn step(s: CpuState) -> CpuState {
    execute(fetch(s), instruction_of(s.memory[s.pc as int]))
}

/// `a + n` in the 16-bit address space, wrapping past the top.
fn wrapping_offset(a: u16, n: u16) -> (r: u16)
    ensures
        r == wrap16(a as int, n as int),
{
    ((a as u32 + n as u32) % 65536) as u16
}

/// Decode an opcode through the opcode table.
pub fn decode(opcode: u16) -> (r: Instruction)
    ensures
        r == instruction_of(opcode),
{
    match opcode {
        0x00 => Instruction::Nop,
        0x01 => Instruction::LoadPairImmediate(RegisterPairs::BC),
        0x02 => Instruction::StoreAccumulatorIndirect(RegisterPairs::BC),
        0x03 => Instruction::IncrementPair(RegisterPairs::BC),
        0x04 => Instruction::IncrementRegister(Registers::B),
        0x05 => Instruction::DecrementRegister(Registers::B),
        0x06 => Instruction::LoadRegisterImmediate(Registers::B),
        0x07 => Instruction::RotateAccumulator(RotateDirection::Left),
        0x08 => Instruction::StoreStackPointer,
        0x0A => Instruction::LoadAccumulatorIndirect(RegisterPairs::BC),
        0x0B => Instruction::DecrementPair(RegisterPairs::BC),
        0x0C => Instruction::IncrementRegister(Registers::C),
        0x0D => Instruction::DecrementRegister(Registers::C),
        0x0E => Instruction::LoadRegisterImmediate(Registers::C),
        0x0F => Instruction::RotateAccumulator(RotateDirection::Right),
        0x11 => Instruction::LoadPairImmediate(RegisterPairs::DE),
        0x12 => Instruction::StoreAccumulatorIndirect(RegisterPairs::DE),
        0x14 => Instruction::IncrementRegister(Registers::D),
        0x15 => Instruction::DecrementRegister(Registers::D),
        0x16 => Instruction::LoadRegisterImmediate(Registers::D),
        0x1B => Instruction::DecrementPair(RegisterPairs::DE),
        0x1C => Instruction::IncrementRegister(Registers::E),
        0x1D => Instruction::DecrementRegister(Registers::E),
        0x1E => Instruction::LoadRegisterImmediate(Registers::E),
        0x21 => Instruction::LoadPairImmediate(RegisterPairs::HL),
        0x22 => Instruction::StoreAccumulatorIndirect(RegisterPairs::DE),
        0x2B => Instruction::DecrementPair(RegisterPairs::HL),
        0x2C => Instruction::IncrementRegister(Registers::L),
        0x2D => Instruction::DecrementRegister(Registers::L),
        0x2E => Instruction::LoadRegisterImmediate(Registers::L),
        0x31 => Instruction::LoadSpImmediate,
        0x09
        | 0x10 | 0x13 | 0x17 | 0x18 | 0x19 | 0x1A | 0x1F
        | 0x20 | 0x23 | 0x24 | 0x25 | 0x26 | 0x27 | 0x28 | 0x29 | 0x2A | 0x2F
        | 0x30 | 0x32 | 0x33 | 0x34 | 0x35 | 0x36 | 0x37 | 0x38 | 0x39 | 0x3A | 0x3B | 0x3C | 0x3D | 0x3E | 0x3F
        | 0x40 | 0x41 | 0x42 | 0x43 | 0x44 | 0x45 | 0x46 | 0x47 | 0x48 | 0x49 | 0x4A | 0x4B | 0x4C | 0x4D | 0x4E | 0x4F
        | 0x50 | 0x51 | 0x52 | 0x53 | 0x54 | 0x55 | 0x56 | 0x57 | 0x58 | 0x59 | 0x5A | 0x5B | 0x5C | 0x5D | 0x5E | 0x5F
        | 0x60 | 0x61 | 0x62 | 0x63 | 0x64 | 0x65 | 0x66 | 0x67 | 0x68 | 0x69 | 0x6A | 0x6B | 0x6C | 0x6D | 0x6E | 0x6F
        | 0x70 | 0x71 | 0x72 | 0x73 | 0x74 | 0x75 | 0x76 | 0x77 | 0x78 | 0x79 | 0x7A | 0x7B | 0x7C | 0x7D | 0x7E | 0x7F
        | 0x80 | 0x81 | 0x82 | 0x83 | 0x84 | 0x85 | 0x86 | 0x87 | 0x88 | 0x89 | 0x8A | 0x8B | 0x8C | 0x8D | 0x8E | 0x8F
        | 0x90 | 0x91 | 0x92 | 0x93 | 0x94 | 0x95 | 0x96 | 0x97 | 0x98 | 0x99 | 0x9A | 0x9B | 0x9C | 0x9D | 0x9E | 0x9F
        | 0xA0 | 0xA1 | 0xA2 | 0xA3 | 0xA4 | 0xA5 | 0xA6 | 0xA7 | 0xA8 | 0xA9 | 0xAA | 0xAB | 0xAC | 0xAD | 0xAE | 0xAF
        | 0xB0 | 0xB1 | 0xB2 | 0xB3 | 0xB4 | 0xB5 | 0xB6 | 0xB7 | 0xB8 | 0xB9 | 0xBA | 0xBB | 0xBC | 0xBD | 0xBE | 0xBF
        | 0xC0 | 0xC1 | 0xC2 | 0xC3 | 0xC4 | 0xC5 | 0xC6 | 0xC7 | 0xC8 | 0xC9 | 0xCA | 0xCB | 0xCC | 0xCD | 0xCE | 0xCF
        | 0xD0 | 0xD1 | 0xD2 | 0xD3 | 0xD4 | 0xD5 | 0xD6 | 0xD7 | 0xD8 | 0xD9 | 0xDA | 0xDB | 0xDC | 0xDD | 0xDE | 0xDF
        | 0xE0 | 0xE1 | 0xE2 | 0xE3 | 0xE4 | 0xE5 | 0xE6 | 0xE7 | 0xE8 | 0xE9 | 0xEA | 0xEB | 0xEC | 0xED | 0xEE | 0xEF
        | 0xF0 | 0xF1 | 0xF2 | 0xF3 | 0xF4 | 0xF5 | 0xF6 | 0xF7 | 0xF8 | 0xF9 | 0xFA | 0xFB | 0xFC | 0xFD | 0xFE | 0xFF => Instruction::Unimplemented,
        // A cell may hold a value wider than a byte; no opcode has it.
        _ => Instruction::Unimplemented,
    }
}

/// The pair and half that an 8-bit register is, if it is one.
fn half_target(reg: Registers) -> (r: Option<(RegisterPairs, bool)>)
    ensures
        r == half_register(reg),
{
    match reg {
        Registers::B => Some((RegisterPairs::BC, true)),
        Registers::C => Some((RegisterPairs::BC, false)),
        Registers::D => Some((RegisterPairs::DE, true)),
        Registers::E => Some((RegisterPairs::DE, false)),
        Registers::H => Some((RegisterPairs::HL, true)),
        Registers::L => Some((RegisterPairs::HL, false)),
        Registers::A | Registers::SP => None,
    }
}

/// The decimal value that `DEC r` computes from the old one: `old - 1`
/// taken as a signed byte and then as its magnitude, with 0 going to 15.
fn bcd_decrement_value(oldval: u8) -> (r: u8)
    ensures
        r == bcd_decrement(oldval as int),
{
    if oldval != 0 {
        let minus_one = ((oldval as u16 + 0xFF) % 256) as u8;
        get_magnitude_tc(from_signed_byte(minus_one))
    } else {
        0xF
    }
}

impl CPU {
    pub fn new() -> (r: Self)
        ensures
            r@ == zero_state(),
    {
        let cpu = CPU {
            a: 0,
            sp: 0,
            pc: 0,
            ir: 0,
            mar: 0,
            mdr: 0,
            bc: RegPair::new(),
            de: RegPair::new(),
            hl: RegPair::new(),
            flags: Flags::new(),
            lcd_reg: LCDReg::new(),
            memory: [0; 65536],
            cycles: 0,
        };
        assert(cpu.memory@ =~= Seq::new(65536, |i: int| 0u16));
        cpu
    }

    /// The register pair that `p` names.
    fn pair(&self, p: RegisterPairs) -> (r: &RegPair)
        ensures
            r@ == pair_value(self@, p),
    {
        match p {
            RegisterPairs::BC => &self.bc,
            RegisterPairs::DE => &self.de,
            RegisterPairs::HL => &self.hl,
        }
    }

    /// A mutable handle on the register pair that `p` names.
    fn pair_mut(&mut self, p: RegisterPairs) -> (r: &mut RegPair)
        ensures
            r@ == pair_value(old(self)@, p),
            final(self)@ == with_pair(old(self)@, p, final(r)@),
    {
        match p {
            RegisterPairs::BC => &mut self.bc,
            RegisterPairs::DE => &mut self.de,
            RegisterPairs::HL => &mut self.hl,
        }
    }

    /// Load the value in the memory data register into a register pair.
    /// Example: `LD BC,d16`, whose operand the caller has already read.
    fn ld_reg_pair(&mut self, reg: RegisterPairs) -> (r: BitResult)
        requires
            old(self).cycles + 12 <= u32::MAX,
        ensures
            final(self)@ == (CpuState {
                pc: wrap16(old(self).pc as int, 2) as u16,
                cycles: old(self).cycles + 12,
                ..with_pair(old(self)@, reg, split_word(old(self).mdr as int))
            }),
            r == BitResult::Standard,
    {
        let value = self.mdr;
        let res = self.pair_mut(reg).set_wide(value);
        self.pc = wrapping_offset(self.pc, 2);
        self.cycles = self.cycles + 12;
        res
    }

    /// Store the value in the memory data register at the address held in
    /// the memory address register.
    fn ld_memory(&mut self)
        ensures
            final(self)@ == (CpuState {
                memory: old(self)@.memory.update(old(self).mar as int, old(self).mdr),
                ..old(self)@
            }),
    {
        self.memory[self.mar as usize] = self.mdr;
    }

    /// Increment an 8-bit register holding two BCD digits: 99 wraps to 0.
    /// Sets Z when the result is 0, clears N, and sets H when the units digit
    /// was 9 and the value wrapped. Returns the decimal value now held.
    /// Fails, changing nothing, on the accumulator or the stack pointer.
    pub fn inc_reg_8(&mut self, reg: Registers) -> (r: Result<u8, OpcodeError>)
        ensures
            match half_register(reg) {
                Some((p, high)) => final(self)@ == increment_half(old(self)@, p, high) && (
                r matches Ok(v) && v == bcd_increment(
                    bcd_decode(half_value(old(self)@, p, high) as int),
                )),
                None => final(self)@ == old(self)@ && (r matches Err(e) && e.opcode
                    == low_byte(old(self).ir)),
            },
    {
        match half_target(reg) {
            None => Err(
                OpcodeError::new(
                    "Attempted to increment the A or SP register.".to_string(),
                    lsb(self.ir),
                ),
            ),
            Some((p, high)) => {
                let byte = if high {
                    self.pair(p).get_high()
                } else {
                    self.pair(p).get_low()
                };
                let oldval = RegPair::bcd_to_decimal(byte);
                let newval = (oldval + 1) % 100;
                let target = self.pair_mut(p);
                if high {
                    let _ = target.set_high_bcd(newval);
                } else {
                    let _ = target.set_low_bcd(newval);
                }
                self.flags.zero = newval == 0;
                self.flags.subtraction = false;
                self.flags.half_carry = oldval % 10 == 9 && newval == 0;
                Ok(newval)
            },
        }
    }

    /// Decrement an 8-bit register holding two BCD digits. Sets Z when the
    /// stored result is 0, sets N, and sets H from bit 4 of the decremented
    /// value. Returns the decimal value now held.
    /// Fails, changing nothing, on the accumulator or the stack pointer.
    pub fn dec_reg_8(&mut self, reg: Registers) -> (r: Result<u8, OpcodeError>)
        ensures
            match half_register(reg) {
                Some((p, high)) => final(self)@ == decrement_half(old(self)@, p, high) && (
                r matches Ok(v) && v == bcd_decrement(
                    bcd_decode(half_value(old(self)@, p, high) as int),
                ) % 100),
                None => final(self)@ == old(self)@ && (r matches Err(e) && e.opcode
                    == low_byte(old(self).ir)),
            },
    {
        match half_target(reg) {
            None => Err(
                OpcodeError::new(
                    "Attempted to decrement the A or SP register.".to_string(),
                    lsb(self.ir),
                ),
            ),
            Some((p, high)) => {
                let byte = if high {
                    self.pair(p).get_high()
                } else {
                    self.pair(p).get_low()
                };
                let oldval = RegPair::bcd_to_decimal(byte);
                let decr = bcd_decrement_value(oldval);
                let newval = decr % 100;
                let target = self.pair_mut(p);
                if high {
                    let _ = target.set_high_bcd(newval);
                } else {
                    let _ = target.set_low_bcd(newval);
                }
                self.flags.zero = newval == 0;
                self.flags.subtraction = true;
                self.flags.half_carry = (decr / 16) % 2 == 1;
                Ok(newval)
            },
        }
    }

    /// Rotate the accumulator one bit; the bit shifted out goes to the carry
    /// flag and back in at the other end.
    fn rotate_a(&mut self, dir: RotateDirection)
        ensures
            final(self)@ == (CpuState {
                a: rotated(old(self).a, dir),
                flags: Flags { carry: rotated_out(old(self).a, dir), ..old(self).flags },
                ..old(self)@
            }),
    {
        let a = self.a;
        match dir {
            RotateDirection::Left => {
                self.flags.carry = (a & 0b1000_0000) == 0b1000_0000;
                assert((a & 0x80 == 0x80) == (a >= 128)) by (bit_vector);
                assert(((a << 1u8) | (a >> 7u8)) == (a * 2) % 256 + a / 128) by (bit_vector);
                self.a = (a << 1) | (a >> 7);
            },
            RotateDirection::Right => {
                self.flags.carry = (a & 0b0000_0001) == 0b0000_0001;
                assert((a & 1 == 1) == (a % 2 == 1)) by (bit_vector);
                assert(((a >> 1u8) | (a << 7u8)) == a / 2 + (a % 2) * 128) by (bit_vector);
                self.a = (a >> 1) | (a << 7);
            },
        }
    }

    /// Execute one fetch-decode-execute step: fetch the opcode at the program
    /// counter, move the program counter past it, and run its handler.
    /// Every opcode of the table names registers its handler can act on, so
    /// a step always succeeds. The cycle counter must have room for the
    /// costliest instruction.
    pub fn cycle(&mut self) -> (r: Result<(), OpcodeError>)
        requires
            old(self).cycles + MAX_INSTRUCTION_CYCLES <= u32::MAX,
        ensures
            final(self)@ == step(old(self)@),
            final(self).cycles > old(self).cycles,
            r is Ok,
    {
        self.ir = self.memory[self.pc as usize];
        self.pc = wrapping_offset(self.pc, 1);
        self.decode_execute()
    }

    /// Decode the opcode in the instruction register and execute it. Each
    /// handler reads its operands, moves the program counter past them and
    /// counts the instruction's cycles.
    fn decode_execute(&mut self) -> (r: Result<(), OpcodeError>)
        requires
            old(self).cycles + MAX_INSTRUCTION_CYCLES <= u32::MAX,
        ensures
            final(self)@ == execute(old(self)@, instruction_of(old(self).ir)),
            r is Err <==> instruction_fails(instruction_of(old(self).ir)),
    {
        let instr = decode(self.ir);
        self.execute_instruction(instr)
    }

    /// Run the handler of one instruction.
    fn execute_instruction(&mut self, instr: Instruction) -> (r: Result<(), OpcodeError>)
        requires
            old(self).cycles + MAX_INSTRUCTION_CYCLES <= u32::MAX,
        ensures
            final(self)@ == execute(old(self)@, instr),
            r is Err <==> instruction_fails(instr),
    {
        match instr {
            Instruction::Nop | Instruction::Unimplemented => {
                self.cycles = self.cycles + 4;
            },
            Instruction::LoadPairImmediate(p) => {
                self.mdr = self.read_memory(AddressingMode::ImmediateSixteen);
                self.ld_reg_pair(p);
            },
            Instruction::LoadSpImmediate => self.ld_sp_immediate(),
            Instruction::StoreAccumulatorIndirect(p) => self.ld_pair_address_a(p),
            Instruction::LoadAccumulatorIndirect(p) => self.ld_a_pair_address(p),
            Instruction::IncrementPair(p) => self.step_reg_pair(p, 1),
            Instruction::DecrementPair(p) => self.step_reg_pair(p, 0xFFFF),
            Instruction::IncrementRegister(reg) => {
                self.inc_reg_8(reg)?;
                self.cycles = self.cycles + 8;
            },
            Instruction::DecrementRegister(reg) => {
                self.dec_reg_8(reg)?;
                self.cycles = self.cycles + 8;
            },
            Instruction::LoadRegisterImmediate(reg) => {
                return self.ld_reg_8_immediate(reg);
            },
            Instruction::RotateAccumulator(dir) => {
                self.rotate_a(dir);
                self.cycles = self.cycles + 4;
            },
            Instruction::StoreStackPointer => self.ld_address_sp(),
        }
        Ok(())
    }

    /// `LD SP,d16`: load the 16-bit immediate operand into the stack pointer.
    fn ld_sp_immediate(&mut self)
        requires
            old(self).cycles + 12 <= u32::MAX,
        ensures
            final(self)@ == execute(old(self)@, Instruction::LoadSpImmediate),
    {
        self.mdr = self.read_memory(AddressingMode::ImmediateSixteen);
        self.sp = self.mdr;
        self.pc = wrapping_offset(self.pc, 2);
        self.cycles = self.cycles + 12;
    }

    /// `LD (rr),A`: store the accumulator at the address held in a pair.
    fn ld_pair_address_a(&mut self, p: RegisterPairs)
        requires
            old(self).cycles + 8 <= u32::MAX,
        ensures
            final(self)@ == execute(old(self)@, Instruction::StoreAccumulatorIndirect(p)),
    {
        self.mdr = self.a as u16;
        self.mar = self.pair(p).get_wide();
        self.ld_memory();
        self.cycles = self.cycles + 8;
    }

    /// `LD A,(rr)`: load the accumulator from the address held in a pair.
    fn ld_a_pair_address(&mut self, p: RegisterPairs)
        requires
            old(self).cycles + 8 <= u32::MAX,
        ensures
            final(self)@ == execute(old(self)@, Instruction::LoadAccumulatorIndirect(p)),
    {
        self.mar = self.pair(p).get_wide();
        self.mdr = self.read_memory(AddressingMode::RegisterPairDirect(self.pair(p)));
        self.a = lsb(self.mdr);
        self.cycles = self.cycles + 8;
    }

    /// `INC rr` (`delta` 1) and `DEC rr` (`delta` 0xFFFF): add to a pair's
    /// 16-bit value, wrapping around; no flag is touched.
    fn step_reg_pair(&mut self, p: RegisterPairs, delta: u16)
        requires
            old(self).cycles + 8 <= u32::MAX,
            delta == 1 || delta == 0xFFFF,
        ensures
            delta == 1 ==> final(self)@ == execute(old(self)@, Instruction::IncrementPair(p)),
            delta == 0xFFFF ==> final(self)@ == execute(
                old(self)@,
                Instruction::DecrementPair(p),
            ),
    {
        let wide = self.pair(p).get_wide();
        self.pair_mut(p).set_wide(wrapping_offset(wide, delta));
        self.cycles = self.cycles + 8;
    }

    /// `LD r,d8`: load the 8-bit immediate operand, as a raw byte, into one
    /// half of a register pair. Fails on the accumulator or the stack pointer.
    fn ld_reg_8_immediate(&mut self, reg: Registers) -> (r: Result<(), OpcodeError>)
        requires
            old(self).cycles + 8 <= u32::MAX,
        ensures
            final(self)@ == execute(old(self)@, Instruction::LoadRegisterImmediate(reg)),
            r is Err <==> half_register(reg) is None,
    {
        match half_target(reg) {
            Some((p, high)) => {
                self.mdr = self.read_memory(AddressingMode::ImmediateEight);
                let byte = lsb(self.mdr);
                if high {
                    self.pair_mut(p).set_high_bin(byte);
                } else {
                    self.pair_mut(p).set_low_bin(byte);
                }
                self.pc = wrapping_offset(self.pc, 1);
                self.cycles = self.cycles + 8;
                Ok(())
            },
            None => Err(
                OpcodeError::new(
                    "Attempted to load a byte into the A or SP register.".to_string(),
                    lsb(self.ir),
                ),
            ),
        }
    }

    /// `LD (a16),SP`: store the low byte of the stack pointer at the 16-bit
    /// immediate address and its high byte at the address after it.
    fn ld_address_sp(&mut self)
        requires
            old(self).cycles + 20 <= u32::MAX,
        ensures
            final(self)@ == execute(old(self)@, Instruction::StoreStackPointer),
    {
        self.mdr = lsb(self.sp) as u16;
        self.mar = self.read_memory(AddressingMode::ImmediateSixteen);
        self.ld_memory();
        self.mdr = msb(self.sp) as u16;
        self.mar = wrapping_offset(self.mar, 1);
        self.ld_memory();
        self.pc = wrapping_offset(self.pc, 2);
        self.cycles = self.cycles + 20;
    }

    /// The operand that `mode` designates in the current state. Nothing is
    /// changed: advancing the program counter is left to the instruction.
    pub fn read_memory(&self, mode: AddressingMode) -> (r: u16)
        ensures
            r == operand(self@, mode),
    {
        match mode {
            AddressingMode::Implied => self.mdr,
            AddressingMode::ImmediateEight => self.memory[self.pc as usize],
            AddressingMode::ImmediateSixteen => {
                let hi = self.memory[wrapping_offset(self.pc, 1) as usize];
                let lo = self.memory[self.pc as usize];
                (hi << 8) | lo
            },
            AddressingMode::UnsignedEight => self.memory[wrapping_offset(0xFF00, self.pc) as usize],
            AddressingMode::AddressSixteen(addr) => self.memory[addr as usize],
            AddressingMode::SignedEight => {
                let byte = lsb(self.memory[self.pc as usize]);
                let extended = from_signed_byte(byte) as u16;
                assert(extended == sign_extend(byte as int)) by {
                    let s = signed_of(byte as int) as i8;
                    assert(-128 <= s < 0 ==> s as u16 == s + 65536) by (bit_vector);
                };
                extended
            },
            AddressingMode::RegisterPairDirect(pair) => self.memory[pair.get_wide() as usize],
            AddressingMode::RegisterDirect(pair, is_high) => {
                if is_high {
                    self.memory[pair.get_high() as usize]
                } else {
                    self.memory[pair.get_low() as usize]
                }
            },
        }
    }

    /// Copy `bytes` into memory starting at `index`. Fails, writing nothing,
    /// when the run would go past the last cell.
    pub fn write_bytes(&mut self, bytes: &[u16], index: usize) -> (r: Result<(), MemoryError>)
        ensures
            index + bytes@.len() <= MEMORY_SIZE ==> r is Ok && final(self)@ == (CpuState {
                memory: Seq::new(
                    65536,
                    |i: int|
                        if index <= i < index + bytes@.len() {
                            bytes@[i - index]
                        } else {
                            old(self)@.memory[i]
                        },
                ),
                ..old(self)@
            }),
            index + bytes@.len() > MEMORY_SIZE ==> r == Err::<(), MemoryError>(
                MemoryError { index, len: bytes@.len() as usize },
            ) && final(self)@ == old(self)@,
    {
        if bytes.len() > MEMORY_SIZE || index > MEMORY_SIZE - bytes.len() {
            return Err(MemoryError { index, len: bytes.len() });
        }
        let ghost before = self@;
        let mut i: usize = 0;
        while i < bytes.len()
            invariant
                index + bytes@.len() <= MEMORY_SIZE,
                0 <= i <= bytes@.len(),
                self@ == (CpuState { memory: self@.memory, ..before }),
                self@.memory.len() == 65536,
                forall|j: int|
                    0 <= j < 65536 ==> self@.memory[j] == if index <= j < index + i {
                        bytes@[j - index]
                    } else {
                        before.memory[j]
                    },
            decreases bytes@.len() - i,
        {
            self.memory[index + i] = bytes[i];
            i += 1;
        }
        assert(self@.memory =~= Seq::new(
            65536,
            |j: int|
                if index <= j < index + bytes@.len() {
                    bytes@[j - index]
                } else {
                    before.memory[j]
                },
        ));
        Ok(())
    }
}

/// The upper byte of a word.
pub fn msb(v: u16) -> (r: u8)
    ensures
        r == v / 256,
{
    assert(v >> 8 == v / 256) by (bit_vector);
    (v >> 8) as u8
}

/// The lower byte of a word.
pub fn lsb(v: u16) -> (r: u8)
    ensures
        r == v % 256,
{
    assert((v << 8) >> 8 == v % 256) by (bit_vector);
    ((v << 8) >> 8) as u8
}

/// Read a byte as a two's complement number.
pub fn from_signed_byte(tc: u8) -> (r: i8)
    ensures
        r == signed_of(tc as int),
{
    if tc < 128 {
        tc as i8
    } else {
        ((tc - 128) as i8) - 127 - 1
    }
}

/// The magnitude of a signed byte, as an unsigned byte.
pub fn get_magnitude_tc(from: i8) -> (r: u8)
    ensures
        r == if from < 0 {
            -from
        } else {
            from as int
        },
{
    if from < 0 {
        (-(from as i16)) as u8
    } else {
        from as u8
    }
}

/// An `ImmediateSixteen` read is little-endian: the cell at the program
/// counter gives the low byte and the next cell the high byte.
pub proof fn lemma_immediate_sixteen_little_endian(cpu: CPU, lo: u16, hi: u16)
    requires
        cpu.memory@[cpu.pc as int] == lo,
        cpu.memory@[wrap16(cpu.pc as int, 1)] == hi,
    ensures
        operand(cpu@, AddressingMode::ImmediateSixteen) == ((hi << 8u16) | lo),
        lo < 256 && hi < 256 ==> operand(cpu@, AddressingMode::ImmediateSixteen) == hi * 256
            + lo,
{
    assert(lo < 256 && hi < 256 ==> ((hi << 8u16) | lo) == hi * 256 + lo) by (bit_vector);
}

/// `NOP` leaves every register pair and the stack pointer as they were and
/// moves the program counter one past the opcode; from a fresh CPU they all
/// stay zero and the program counter becomes 1.
pub proof fn lemma_nop_identity(cpu: CPU)
    requires
        cpu.memory@[cpu.pc as int] == 0,
    ensures
        step(cpu@).bc == cpu@.bc,
        step(cpu@).de == cpu@.de,
        step(cpu@).hl == cpu@.hl,
        step(cpu@).sp == cpu.sp,
        step(cpu@).pc == wrap16(cpu.pc as int, 1),
        cpu@ == zero_state() ==> wide_of(step(cpu@).bc) == 0 && wide_of(step(cpu@).de) == 0
            && wide_of(step(cpu@).hl) == 0 && step(cpu@).sp == 0 && step(cpu@).pc == 1,
{
}

/// `LD BC,d16` loads BC with the little-endian word stored after the opcode.
pub proof fn lemma_load_pair_immediate(cpu: CPU)
    requires
        cpu.memory@[cpu.pc as int] == 0x01,
    ensures
        wide_of(step(cpu@).bc) == little_endian(
            cpu.memory@[wrap16(cpu.pc as int, 1)],
            cpu.memory@[wrap16(cpu.pc as int, 2)],
        ),
{
}

/// `INC BC` adds one to BC's 16-bit value and `DEC BC` takes one away, both
/// wrapping around: 0xFFFF steps up to 0 and 0 steps down to 0xFFFF.
pub proof fn lemma_pair_increment_decrement_wrap(cpu: CPU)
    ensures
        cpu.memory@[cpu.pc as int] == 0x03 ==> wide_of(step(cpu@).bc) == (wide_of(cpu@.bc) + 1)
            % 65536,
        cpu.memory@[cpu.pc as int] == 0x0B ==> wide_of(step(cpu@).bc) == (wide_of(cpu@.bc)
            + 65535) % 65536,
        cpu.memory@[cpu.pc as int] == 0x03 && wide_of(cpu@.bc) == 0xFFFF ==> wide_of(
            step(cpu@).bc,
        ) == 0,
        cpu.memory@[cpu.pc as int] == 0x0B && wide_of(cpu@.bc) == 0 ==> wide_of(step(cpu@).bc)
            == 0xFFFF,
{
}

} // verus!
