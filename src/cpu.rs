use vstd::prelude::*;
use crate::bus::{MemoryBus, stored, IF_ADDRESS, IE_ADDRESS};
use crate::instructions::{AluOp, Instruction, JumpTest, Operand, Reg16, Reg8, StackTarget, decode, PREFIX_BYTE};
use crate::interrupts::{Interrupt, highest_pending, interrupt_mask, interrupt_vector};
use crate::lcd::{LCDMode, LCD_LY_ADDRESS, timing_after};
use crate::ppu::MEMORY_SIZE;
use crate::registers::{FlagsRegister, Registers, af_of, with_af, pair, high_byte, low_byte, initial_registers};

verus! {

/// What the CPU's instructions can see and change: the register file, the
/// stack pointer, the program counter, the master interrupt enable, and what
/// each bus address reads as.
pub struct CpuState {
    pub regs: Registers,
    pub sp: u16,
    pub pc: u16,
    pub ime: bool,
    pub mem: Seq<u8>,
}

pub open spec fn reg_get(r: Registers, x: Reg8) -> u8 {
    match x {
        Reg8::A => r.a,
        Reg8::B => r.b,
        Reg8::C => r.c,
        Reg8::D => r.d,
        Reg8::E => r.e,
        Reg8::H => r.h,
        Reg8::L => r.l,
    }
}

pub open spec fn reg_set(r: Registers, x: Reg8, v: u8) -> Registers {
    match x {
        Reg8::A => Registers { a: v, ..r },
        Reg8::B => Registers { b: v, ..r },
        Reg8::C => Registers { c: v, ..r },
        Reg8::D => Registers { d: v, ..r },
        Reg8::E => Registers { e: v, ..r },
        Reg8::H => Registers { h: v, ..r },
        Reg8::L => Registers { l: v, ..r },
    }
}

/// The byte an operand reads as.
pub open spec fn operand_value(s: CpuState, o: Operand) -> u8 {
    match o {
        Operand::Reg(x) => reg_get(s.regs, x),
        Operand::HLI => s.mem[pair(s.regs.h, s.regs.l) as int],
        Operand::D8 => s.mem[s.pc.wrapping_add(1) as int],
    }
}

/// The little-endian 16-bit immediate that follows the opcode.
pub open spec fn imm16(s: CpuState) -> u16 {
    pair(s.mem[s.pc.wrapping_add(2) as int], s.mem[s.pc.wrapping_add(1) as int])
}

/// A + v + carry-in, with its flags.
pub open spec fn add_spec(a: u8, v: u8, c: int) -> (u8, FlagsRegister) {
    let sum = a + v + c;
    let r = (sum % 256) as u8;
    (r, FlagsRegister { zero: r == 0, subtract: false, half_carry: a % 16 + v % 16 + c > 15, carry: sum > 255 })
}

/// A - v - carry-in, with its flags.
pub open spec fn sub_spec(a: u8, v: u8, c: int) -> (u8, FlagsRegister) {
    let r = ((a - v - c + 512) % 256) as u8;
    (r, FlagsRegister { zero: r == 0, subtract: true, half_carry: a % 16 < v % 16 + c, carry: a < v + c })
}

pub open spec fn logic_flags(r: u8, half: bool) -> FlagsRegister {
    FlagsRegister { zero: r == 0, subtract: false, half_carry: half, carry: false }
}

/// The new A and flags of an arithmetic or logic operation.
pub open spec fn alu_result(op: AluOp, a: u8, v: u8, f: FlagsRegister) -> (u8, FlagsRegister) {
    let c: int = if f.carry { 1 } else { 0 };
    match op {
        AluOp::Add => add_spec(a, v, 0),
        AluOp::Adc => add_spec(a, v, c),
        AluOp::Sub => sub_spec(a, v, 0),
        AluOp::Sbc => sub_spec(a, v, c),
        AluOp::And => ((a & v) as u8, logic_flags((a & v) as u8, true)),
        AluOp::Xor => ((a ^ v) as u8, logic_flags((a ^ v) as u8, false)),
        AluOp::Or => ((a | v) as u8, logic_flags((a | v) as u8, false)),
        AluOp::Cp => (a, sub_spec(a, v, 0).1),
    }
}

pub open spec fn test_holds(t: JumpTest, f: FlagsRegister) -> bool {
    match t {
        JumpTest::NotZero => !f.zero,
        JumpTest::Zero => f.zero,
        JumpTest::NotCarry => !f.carry,
        JumpTest::Carry => f.carry,
        JumpTest::Always => true,
    }
}

pub open spec fn stack_value(r: Registers, t: StackTarget) -> u16 {
    match t {
        StackTarget::BC => pair(r.b, r.c),
        StackTarget::DE => pair(r.d, r.e),
        StackTarget::HL => pair(r.h, r.l),
        StackTarget::AF => af_of(r),
    }
}

pub open spec fn stack_load(r: Registers, t: StackTarget, v: u16) -> Registers {
    match t {
        StackTarget::BC => Registers { b: high_byte(v), c: low_byte(v), ..r },
        StackTarget::DE => Registers { d: high_byte(v), e: low_byte(v), ..r },
        StackTarget::HL => Registers { h: high_byte(v), l: low_byte(v), ..r },
        StackTarget::AF => with_af(r, v),
    }
}

/// The bus image after a 16-bit push: high byte at SP-1, low byte at SP-2.
pub open spec fn push_mem(mem: Seq<u8>, sp: u16, v: u16) -> Seq<u8> {
    stored(stored(mem, sp.wrapping_sub(1), high_byte(v)), sp.wrapping_sub(2), low_byte(v))
}

/// The 16-bit value a pop reads: low byte at SP, high byte at SP+1.
pub open spec fn popped(mem: Seq<u8>, sp: u16) -> u16 {
    pair(mem[sp.wrapping_add(1) as int], mem[sp as int])
}

/// The signed displacement a relative jump's operand byte encodes.
pub open spec fn displacement(d: u8) -> int {
    if d < 128 {
        d as int
    } else {
        d - 256
    }
}

pub open spec fn bit_of(v: u8, n: u8) -> bool {
    (v >> (n & 7u8)) & 1u8 == 1u8
}

pub open spec fn with_pc(s: CpuState, pc: u16) -> CpuState {
    CpuState { pc, ..s }
}

/// The state after an instruction (its `pc` the next program counter) and
/// the cycles it takes.
pub open spec fn execute_spec(s: CpuState, inst: Instruction) -> (CpuState, u8) {
    let pc1 = s.pc.wrapping_add(1);
    let pc2 = s.pc.wrapping_add(2);
    let pc3 = s.pc.wrapping_add(3);
    let r = s.regs;
    match inst {
        Instruction::Nop => (with_pc(s, pc1), 4),
        Instruction::Alu(op, o) => {
            let (v, f) = alu_result(op, r.a, operand_value(s, o), r.flags);
            let next = CpuState { regs: Registers { a: v, flags: f, ..r }, ..s };
            match o {
                Operand::Reg(_) => (with_pc(next, pc1), 4),
                Operand::HLI => (with_pc(next, pc1), 8),
                Operand::D8 => (with_pc(next, pc2), 8),
            }
        },
        Instruction::Inc(x) => {
            let v = reg_get(r, x);
            let n = ((v + 1) % 256) as u8;
            let f = FlagsRegister { zero: n == 0, subtract: false, half_carry: v % 16 == 15, carry: r.flags.carry };
            (CpuState { regs: Registers { flags: f, ..reg_set(r, x, n) }, pc: pc1, ..s }, 4)
        },
        Instruction::Dec(x) => {
            let v = reg_get(r, x);
            let n = ((v + 255) % 256) as u8;
            let f = FlagsRegister { zero: n == 0, subtract: true, half_carry: v % 16 == 0, carry: r.flags.carry };
            (CpuState { regs: Registers { flags: f, ..reg_set(r, x, n) }, pc: pc1, ..s }, 4)
        },
        Instruction::Ld(x, o) => {
            let next = CpuState { regs: reg_set(r, x, operand_value(s, o)), ..s };
            match o {
                Operand::Reg(_) => (with_pc(next, pc1), 4),
                Operand::HLI => (with_pc(next, pc1), 8),
                Operand::D8 => (with_pc(next, pc2), 8),
            }
        },
        Instruction::StoreHl(x) => (
            CpuState { mem: stored(s.mem, pair(r.h, r.l), reg_get(r, x)), pc: pc1, ..s },
            8,
        ),
        Instruction::Ld16(t) => {
            let v = imm16(s);
            let next = match t {
                Reg16::BC => CpuState { regs: stack_load(r, StackTarget::BC, v), ..s },
                Reg16::DE => CpuState { regs: stack_load(r, StackTarget::DE, v), ..s },
                Reg16::HL => CpuState { regs: stack_load(r, StackTarget::HL, v), ..s },
                Reg16::SP => CpuState { sp: v, ..s },
            };
            (with_pc(next, pc3), 12)
        },
        Instruction::Jp(t) => if test_holds(t, r.flags) {
            (with_pc(s, imm16(s)), 16)
        } else {
            (with_pc(s, pc3), 12)
        },
        Instruction::Jr(t) => if test_holds(t, r.flags) {
            let target = ((s.pc + 2 + displacement(s.mem[pc1 as int])) % 65536) as u16;
            (with_pc(s, target), 12)
        } else {
            (with_pc(s, pc2), 8)
        },
        Instruction::Call(t) => if test_holds(t, r.flags) {
            (
                CpuState {
                    mem: push_mem(s.mem, s.sp, pc3),
                    sp: s.sp.wrapping_sub(2),
                    pc: imm16(s),
                    ..s
                },
                24,
            )
        } else {
            (with_pc(s, pc3), 12)
        },
        Instruction::Ret(t) => if test_holds(t, r.flags) {
            (
                CpuState { sp: s.sp.wrapping_add(2), pc: popped(s.mem, s.sp), ..s },
                if t == JumpTest::Always { 16u8 } else { 20u8 },
            )
        } else {
            (with_pc(s, pc1), 8)
        },
        Instruction::Push(t) => (
            CpuState {
                mem: push_mem(s.mem, s.sp, stack_value(r, t)),
                sp: s.sp.wrapping_sub(2),
                pc: pc1,
                ..s
            },
            16,
        ),
        Instruction::Pop(t) => (
            CpuState {
                regs: stack_load(r, t, popped(s.mem, s.sp)),
                sp: s.sp.wrapping_add(2),
                pc: pc1,
                ..s
            },
            12,
        ),
        Instruction::Di => (CpuState { ime: false, pc: pc1, ..s }, 4),
        Instruction::Ei => (CpuState { ime: true, pc: pc1, ..s }, 4),
        Instruction::TestBit(n, x) => {
            let f = FlagsRegister {
                zero: !bit_of(reg_get(r, x), n),
                subtract: false,
                half_carry: true,
                carry: r.flags.carry,
            };
            (CpuState { regs: Registers { flags: f, ..r }, pc: pc2, ..s }, 8)
        },
        Instruction::ResetBit(n, x) => {
            let v = reg_get(r, x);
            (CpuState { regs: reg_set(r, x, v & !(1u8 << (n & 7u8))), pc: pc2, ..s }, 8)
        },
        Instruction::SetBit(n, x) => {
            let v = reg_get(r, x);
            (CpuState { regs: reg_set(r, x, v | (1u8 << (n & 7u8))), pc: pc2, ..s }, 8)
        },
        Instruction::Swap(x) => {
            let v = reg_get(r, x);
            let n = ((v & 0x0Fu8) << 4u8 | v >> 4u8) as u8;
            (
                CpuState { regs: Registers { flags: logic_flags(n, false), ..reg_set(r, x, n) }, pc: pc2, ..s },
                8,
            )
        },
    }
}

/// The opcode byte at PC, or the one after it when PC holds the prefix, and
/// whether it came from the extended table.
pub open spec fn fetch(s: CpuState) -> (u8, bool) {
    if s.mem[s.pc as int] == PREFIX_BYTE {
        (s.mem[s.pc.wrapping_add(1) as int], true)
    } else {
        (s.mem[s.pc as int], false)
    }
}

/// The bus image after `data` is copied in from address 0.
pub open spec fn loaded(data: Seq<u8>) -> Seq<u8> {
    Seq::new(
        MEMORY_SIZE as nat,
        |a: int|
            if a < data.len() && a != LCD_LY_ADDRESS {
                data[a]
            } else {
                0u8
            },
    )
}

/// The new A and flags of an arithmetic or logic operation.
pub fn alu_compute(op: AluOp, a: u8, v: u8, f: FlagsRegister) -> (r: (u8, FlagsRegister))
    ensures
        r == alu_result(op, a, v, f),
{
    let cin: u16 = match op {
        AluOp::Adc | AluOp::Sbc => if f.carry { 1 } else { 0 },
        _ => 0,
    };
    match op {
        AluOp::Add | AluOp::Adc => {
            let sum: u16 = a as u16 + v as u16 + cin;
            let r = (sum % 256) as u8;
            (r, FlagsRegister { zero: r == 0, subtract: false, half_carry: (a % 16) as u16 + (v % 16) as u16 + cin > 15, carry: sum > 255 })
        },
        AluOp::Sub | AluOp::Sbc | AluOp::Cp => {
            let r = ((a as u16 + 512 - v as u16 - cin) % 256) as u8;
            let f2 = FlagsRegister {
                zero: r == 0,
                subtract: true,
                half_carry: ((a % 16) as u16) < (v % 16) as u16 + cin,
                carry: (a as u16) < v as u16 + cin,
            };
            match op {
                AluOp::Cp => (a, f2),
                _ => (r, f2),
            }
        },
        AluOp::And => {
            let r = a & v;
            (r, FlagsRegister { zero: r == 0, subtract: false, half_carry: true, carry: false })
        },
        AluOp::Xor => {
            let r = a ^ v;
            (r, FlagsRegister { zero: r == 0, subtract: false, half_carry: false, carry: false })
        },
        AluOp::Or => {
            let r = a | v;
            (r, FlagsRegister { zero: r == 0, subtract: false, half_carry: false, carry: false })
        },
    }
}

fn test_compute(t: JumpTest, f: FlagsRegister) -> (r: bool)
    ensures
        r == test_holds(t, f),
{
    match t {
        JumpTest::NotZero => !f.zero,
        JumpTest::Zero => f.zero,
        JumpTest::NotCarry => !f.carry,
        JumpTest::Carry => f.carry,
        JumpTest::Always => true,
    }
}

/// The source that is serviced at the next interrupt check, if any.
pub open spec fn interrupt_due(s: CpuState) -> Option<Interrupt> {
    if s.ime {
        highest_pending(s.mem[IE_ADDRESS as int], s.mem[IF_ADDRESS as int])
    } else {
        None
    }
}

/// The state after `i` is serviced: its request bit cleared, master enable
/// cleared, PC pushed, and PC set to the service routine.
pub open spec fn dispatched(s: CpuState, i: Interrupt) -> CpuState {
    let mem = s.mem.update(IF_ADDRESS as int, s.mem[IF_ADDRESS as int] & !interrupt_mask(i));
    CpuState {
        mem: push_mem(mem, s.sp, s.pc),
        sp: s.sp.wrapping_sub(2),
        pc: interrupt_vector(i),
        ime: false,
        ..s
    }
}

/// The state after the interrupt check.
pub open spec fn after_interrupts(s: CpuState) -> CpuState {
    match interrupt_due(s) {
        Some(i) => dispatched(s, i),
        None => s,
    }
}

/// The bus image after an LCD tick: the scanline register shows the new
/// scanline, and the VBlank request bit is set when `vblank` holds.
pub open spec fn ticked_mem(mem: Seq<u8>, scanline: u8, vblank: bool) -> Seq<u8> {
    let req = mem[IF_ADDRESS as int];
    mem.update(IF_ADDRESS as int, if vblank { req | interrupt_mask(Interrupt::VBlank) } else { req }).update(
        LCD_LY_ADDRESS as int,
        scanline,
    )
}

/// An opcode that neither table defines.
#[derive(Clone, Copy, Debug, PartialEq, Eq, Structural)]
pub struct DecodeError {
    pub opcode: u8,
    /// Whether the opcode came from the extended table.
    pub prefixed: bool,
}

/// The emulated machine: register file, stack pointer, program counter,
/// master interrupt enable, and the bus that owns memory, LCD and interrupt
/// registers.
pub struct CPU {
    pub regs: Registers,
    pub sp: u16,
    pub pc: u16,
    pub ime: bool,
    pub bus: MemoryBus,
}

/// `new` is `old` after `inst`, and `r` holds the next program counter and
/// the cycles taken; PC itself and the LCD's own state are unchanged.
#[verifier::opaque]
pub open spec fn executes(old: &CPU, new: &CPU, inst: Instruction, r: (u16, u8)) -> bool {
    let (t, cycles) = execute_spec(old.state(), inst);
    &&& new.wf()
    &&& new.regs == t.regs
    &&& new.sp == t.sp
    &&& new.ime == t.ime
    &&& new.bus@ == t.mem
    &&& r == (t.pc, cycles)
    &&& new.pc == old.pc
    &&& new.bus.same_lcd_timing(&old.bus)
}

impl CPU {
    pub open spec fn wf(&self) -> bool {
        self.bus.wf()
    }

    pub open spec fn state(&self) -> CpuState {
        CpuState { regs: self.regs, sp: self.sp, pc: self.pc, ime: self.ime, mem: self.bus@ }
    }

    /// A machine with `boot` copied onto the bus from address 0.
    pub fn new(boot: &Vec<u8>) -> (r: CPU)
        requires
            boot@.len() <= MEMORY_SIZE,
        ensures
            r.wf(),
            r.regs == initial_registers(),
            r.sp == 0 && r.pc == 0 && !r.ime,
            r.bus@ == loaded(boot@),
            r.bus.lcd.mode == LCDMode::SearchingOAM,
            r.bus.lcd.clock == 0,
            r.bus.lcd.scanline == 0,
    {
        let mut bus = MemoryBus::new();
        let mut i: usize = 0;
        while i < boot.len()
            invariant
                i <= boot@.len() <= MEMORY_SIZE,
                bus.wf(),
                bus.lcd.mode == LCDMode::SearchingOAM,
                bus.lcd.clock == 0,
                bus.lcd.scanline == 0,
                bus@ =~= Seq::new(
                    MEMORY_SIZE as nat,
                    |a: int|
                        if a < i && a != LCD_LY_ADDRESS {
                            boot@[a]
                        } else {
                            0u8
                        },
                ),
            decreases boot@.len() - i,
        {
            bus.write_byte(i as u16, boot[i]);
            i = i + 1;
        }
        CPU { regs: Registers::new(), sp: 0, pc: 0, ime: false, bus }
    }

    /// Fetches the opcode at PC (from the extended table after the prefix
    /// byte), executes it and moves PC on. An opcode that neither table
    /// defines leaves the machine as it was and is reported.
    pub fn step(&mut self) -> (r: Result<u8, DecodeError>)
        requires
            old(self).wf(),
        ensures
            final(self).wf(),
            final(self).bus.same_lcd_timing(&old(self).bus),
            ({
                let (op, prefixed) = fetch(old(self).state());
                match decode(op, prefixed) {
                    None => r == Err::<u8, DecodeError>(DecodeError { opcode: op, prefixed })
                        && final(self).state() == old(self).state(),
                    Some(i) => {
                        let (t, cycles) = execute_spec(old(self).state(), i);
                        final(self).state() == t && r == Ok::<u8, DecodeError>(cycles)
                    },
                }
            }),
    {
        let first = self.bus.read_byte(self.pc);
        let prefixed = first == PREFIX_BYTE;
        let op = if prefixed {
            self.bus.read_byte(self.pc.wrapping_add(1))
        } else {
            first
        };
        match Instruction::from_byte(op, prefixed) {
            None => Err(DecodeError { opcode: op, prefixed }),
            Some(inst) => {
                let (next, cycles) = self.execute(inst);
                proof {
                    reveal(executes);
                }
                self.pc = next;
                Ok(cycles)
            },
        }
    }

    /// Services the highest-priority interrupt that is enabled and
    /// requested, when the master enable is set.
    pub fn handle_interrupts(&mut self) -> (r: Option<Interrupt>)
        requires
            old(self).wf(),
        ensures
            final(self).wf(),
            final(self).bus.same_lcd_timing(&old(self).bus),
            r == interrupt_due(old(self).state()),
            final(self).state() == after_interrupts(old(self).state()),
    {
        if !self.ime {
            return None;
        }
        match self.bus.interrupts.pending() {
            None => None,
            Some(i) => {
                let ghost before = self.bus@;
                self.bus.interrupts.clear(i);
                assert(self.bus@ =~= before.update(
                    IF_ADDRESS as int,
                    before[IF_ADDRESS as int] & !interrupt_mask(i),
                ));
                self.ime = false;
                let pc = self.pc;
                self.push_word(pc);
                self.pc = i.vector();
                Some(i)
            },
        }
    }

    /// One step of the driving loop: execute an instruction, advance the LCD
    /// by the cycles it took, then check for interrupts.
    pub fn run_step(&mut self) -> (r: Result<u8, DecodeError>)
        requires
            old(self).wf(),
        ensures
            final(self).wf(),
            ({
                let (op, prefixed) = fetch(old(self).state());
                match decode(op, prefixed) {
                    None => r == Err::<u8, DecodeError>(DecodeError { opcode: op, prefixed })
                        && final(self).state() == old(self).state()
                        && final(self).bus.same_lcd_timing(&old(self).bus),
                    Some(i) => {
                        let (t, cycles) = execute_spec(old(self).state(), i);
                        let lcd = old(self).bus.lcd;
                        let (timing, vblank) = timing_after(lcd.mode, lcd.clock, lcd.scanline, cycles as u16);
                        &&& r == Ok::<u8, DecodeError>(cycles)
                        &&& final(self).bus.lcd.mode == timing.mode
                        &&& final(self).bus.lcd.clock == timing.clock
                        &&& final(self).bus.lcd.scanline == timing.scanline
                        &&& final(self).state() == after_interrupts(
                            CpuState { mem: ticked_mem(t.mem, timing.scanline, vblank), ..t },
                        )
                    },
                }
            }),
    {
        let cycles = match self.step() {
            Err(e) => {
                return Err(e);
            },
            Ok(c) => c,
        };
        let ghost mid = self.bus@;
        let vblank = self.bus.tick(cycles as u16);
        assert(self.bus@ =~= ticked_mem(mid, self.bus.lcd.scanline, vblank));
        self.handle_interrupts();
        Ok(cycles)
    }

    /// Applies one instruction's effect to registers and bus, and returns
    /// the next program counter and the cycles the instruction takes. PC
    /// itself is left for the caller to set.
    #[verifier::rlimit(100)]
    pub fn execute(&mut self, inst: Instruction) -> (r: (u16, u8))
        requires
            old(self).wf(),
        ensures
            executes(old(self), final(self), inst, r),
    {
        match inst {
            Instruction::Nop => self.exec_nop(),
            Instruction::Di => self.exec_set_ime(false),
            Instruction::Ei => self.exec_set_ime(true),
            Instruction::Alu(op, o) => self.exec_alu(op, o),
            Instruction::Inc(x) => self.exec_inc(x),
            Instruction::Dec(x) => self.exec_dec(x),
            Instruction::Ld(x, o) => self.exec_ld(x, o),
            Instruction::StoreHl(x) => self.exec_store_hl(x),
            Instruction::Ld16(t) => self.exec_ld16(t),
            Instruction::Jp(t) => self.exec_jp(t),
            Instruction::Jr(t) => self.exec_jr(t),
            Instruction::Call(t) => self.exec_call(t),
            Instruction::Ret(t) => self.exec_ret(t),
            Instruction::Push(t) => self.exec_push_pair(t),
            Instruction::Pop(t) => self.exec_pop_pair(t),
            Instruction::TestBit(n, x) => self.exec_test_bit(n, x),
            Instruction::ResetBit(n, x) => self.exec_reset_bit(n, x),
            Instruction::SetBit(n, x) => self.exec_set_bit(n, x),
            Instruction::Swap(x) => self.exec_swap(x),
        }
    }

    fn exec_nop(&mut self) -> (r: (u16, u8))
        requires
            old(self).wf(),
        ensures
            executes(old(self), final(self), Instruction::Nop, r),
    {
        proof {
            reveal(executes);
        }
        (self.pc.wrapping_add(1), 4)
    }

    /// DI and EI: the master interrupt enable takes effect at once.
    fn exec_set_ime(&mut self, on: bool) -> (r: (u16, u8))
        requires
            old(self).wf(),
        ensures
            executes(old(self), final(self), if on { Instruction::Ei } else { Instruction::Di }, r),
    {
        proof {
            reveal(executes);
        }
        self.ime = on;
        (self.pc.wrapping_add(1), 4)
    }

    fn exec_alu(&mut self, op: AluOp, o: Operand) -> (r: (u16, u8))
        requires
            old(self).wf(),
        ensures
            executes(old(self), final(self), Instruction::Alu(op, o), r),
    {
        proof {
            reveal(executes);
        }
        let pc1 = self.pc.wrapping_add(1);
        let pc2 = self.pc.wrapping_add(2);
        let v = self.read_operand(o);
        let (a, f) = alu_compute(op, self.regs.a, v, self.regs.flags);
        self.regs.a = a;
        self.regs.flags = f;
        match o {
            Operand::Reg(_) => (pc1, 4),
            Operand::HLI => (pc1, 8),
            Operand::D8 => (pc2, 8),
        }
    }

    fn exec_inc(&mut self, x: Reg8) -> (r: (u16, u8))
        requires
            old(self).wf(),
        ensures
            executes(old(self), final(self), Instruction::Inc(x), r),
    {
        proof {
            reveal(executes);
        }
        let pc1 = self.pc.wrapping_add(1);
        let v = self.get_reg(x);
        let n: u8 = if v == 255 { 0 } else { v + 1 };
        assert(n == ((v + 1) % 256) as u8);
        self.set_reg(x, n);
        self.regs.flags = FlagsRegister {
            zero: n == 0,
            subtract: false,
            half_carry: v % 16 == 15,
            carry: self.regs.flags.carry,
        };
        (pc1, 4)
    }

    #[verifier::rlimit(30)]
    fn exec_dec(&mut self, x: Reg8) -> (r: (u16, u8))
        requires
            old(self).wf(),
        ensures
            executes(old(self), final(self), Instruction::Dec(x), r),
    {
        proof {
            reveal(executes);
        }
        let pc1 = self.pc.wrapping_add(1);
        let v = self.get_reg(x);
        let n: u8 = if v == 0 { 255 } else { v - 1 };
        self.set_reg(x, n);
        self.regs.flags = FlagsRegister {
            zero: n == 0,
            subtract: true,
            half_carry: v % 16 == 0,
            carry: self.regs.flags.carry,
        };
        (pc1, 4)
    }

    fn exec_ld(&mut self, x: Reg8, o: Operand) -> (r: (u16, u8))
        requires
            old(self).wf(),
        ensures
            executes(old(self), final(self), Instruction::Ld(x, o), r),
    {
        proof {
            reveal(executes);
        }
        let pc1 = self.pc.wrapping_add(1);
        let pc2 = self.pc.wrapping_add(2);
        let v = self.read_operand(o);
        self.set_reg(x, v);
        match o {
            Operand::Reg(_) => (pc1, 4),
            Operand::HLI => (pc1, 8),
            Operand::D8 => (pc2, 8),
        }
    }

    fn exec_store_hl(&mut self, x: Reg8) -> (r: (u16, u8))
        requires
            old(self).wf(),
        ensures
            executes(old(self), final(self), Instruction::StoreHl(x), r),
    {
        proof {
            reveal(executes);
        }
        let pc1 = self.pc.wrapping_add(1);
        let v = self.get_reg(x);
        let addr = self.regs.get_hl();
        self.bus.write_byte(addr, v);
        (pc1, 8)
    }

    fn exec_ld16(&mut self, t: Reg16) -> (r: (u16, u8))
        requires
            old(self).wf(),
        ensures
            executes(old(self), final(self), Instruction::Ld16(t), r),
    {
        proof {
            reveal(executes);
        }
        let pc3 = self.pc.wrapping_add(3);
        let v = self.read_imm16();
        match t {
            Reg16::BC => self.regs.set_bc(v),
            Reg16::DE => self.regs.set_de(v),
            Reg16::HL => self.regs.set_hl(v),
            Reg16::SP => self.sp = v,
        }
        (pc3, 12)
    }

    fn exec_jp(&mut self, t: JumpTest) -> (r: (u16, u8))
        requires
            old(self).wf(),
        ensures
            executes(old(self), final(self), Instruction::Jp(t), r),
    {
        proof {
            reveal(executes);
        }
        let pc3 = self.pc.wrapping_add(3);
        if test_compute(t, self.regs.flags) {
            (self.read_imm16(), 16)
        } else {
            (pc3, 12)
        }
    }

    #[verifier::rlimit(30)]
    fn exec_jr(&mut self, t: JumpTest) -> (r: (u16, u8))
        requires
            old(self).wf(),
        ensures
            executes(old(self), final(self), Instruction::Jr(t), r),
    {
        proof {
            reveal(executes);
        }
        let pc1 = self.pc.wrapping_add(1);
        let pc2 = self.pc.wrapping_add(2);
        if test_compute(t, self.regs.flags) {
            let d = self.bus.read_byte(pc1);
            let back: u32 = if d >= 128 { 256 } else { 0 };
            let target = ((self.pc as u32 + 2 + 65536 + d as u32 - back) % 65536) as u16;
            (target, 12)
        } else {
            (pc2, 8)
        }
    }

    fn exec_call(&mut self, t: JumpTest) -> (r: (u16, u8))
        requires
            old(self).wf(),
        ensures
            executes(old(self), final(self), Instruction::Call(t), r),
    {
        proof {
            reveal(executes);
        }
        let pc3 = self.pc.wrapping_add(3);
        if test_compute(t, self.regs.flags) {
            let target = self.read_imm16();
            self.push_word(pc3);
            (target, 24)
        } else {
            (pc3, 12)
        }
    }

    fn exec_ret(&mut self, t: JumpTest) -> (r: (u16, u8))
        requires
            old(self).wf(),
        ensures
            executes(old(self), final(self), Instruction::Ret(t), r),
    {
        proof {
            reveal(executes);
        }
        let pc1 = self.pc.wrapping_add(1);
        if test_compute(t, self.regs.flags) {
            let target = self.pop_word();
            let cycles: u8 = match t {
                JumpTest::Always => 16,
                _ => 20,
            };
            (target, cycles)
        } else {
            (pc1, 8)
        }
    }

    fn exec_push_pair(&mut self, t: StackTarget) -> (r: (u16, u8))
        requires
            old(self).wf(),
        ensures
            executes(old(self), final(self), Instruction::Push(t), r),
    {
        proof {
            reveal(executes);
        }
        let pc1 = self.pc.wrapping_add(1);
        self.push(t);
        (pc1, 16)
    }

    fn exec_pop_pair(&mut self, t: StackTarget) -> (r: (u16, u8))
        requires
            old(self).wf(),
        ensures
            executes(old(self), final(self), Instruction::Pop(t), r),
    {
        proof {
            reveal(executes);
        }
        let pc1 = self.pc.wrapping_add(1);
        self.pop(t);
        (pc1, 12)
    }

    fn exec_test_bit(&mut self, n: u8, x: Reg8) -> (r: (u16, u8))
        requires
            old(self).wf(),
        ensures
            executes(old(self), final(self), Instruction::TestBit(n, x), r),
    {
        proof {
            reveal(executes);
        }
        let pc2 = self.pc.wrapping_add(2);
        let v = self.get_reg(x);
        let sh = n & 7;
        assert(sh < 8) by (bit_vector)
            requires
                sh == n & 7u8,
        ;
        let set = (v >> sh) & 1 == 1;
        self.regs.flags = FlagsRegister {
            zero: !set,
            subtract: false,
            half_carry: true,
            carry: self.regs.flags.carry,
        };
        (pc2, 8)
    }

    fn exec_reset_bit(&mut self, n: u8, x: Reg8) -> (r: (u16, u8))
        requires
            old(self).wf(),
        ensures
            executes(old(self), final(self), Instruction::ResetBit(n, x), r),
    {
        proof {
            reveal(executes);
        }
        let pc2 = self.pc.wrapping_add(2);
        let v = self.get_reg(x);
        let sh = n & 7;
        assert(sh < 8) by (bit_vector)
            requires
                sh == n & 7u8,
        ;
        self.set_reg(x, v & !(1u8 << sh));
        (pc2, 8)
    }

    fn exec_set_bit(&mut self, n: u8, x: Reg8) -> (r: (u16, u8))
        requires
            old(self).wf(),
        ensures
            executes(old(self), final(self), Instruction::SetBit(n, x), r),
    {
        proof {
            reveal(executes);
        }
        let pc2 = self.pc.wrapping_add(2);
        let v = self.get_reg(x);
        let sh = n & 7;
        assert(sh < 8) by (bit_vector)
            requires
                sh == n & 7u8,
        ;
        self.set_reg(x, v | (1u8 << sh));
        (pc2, 8)
    }

    fn exec_swap(&mut self, x: Reg8) -> (r: (u16, u8))
        requires
            old(self).wf(),
        ensures
            executes(old(self), final(self), Instruction::Swap(x), r),
    {
        proof {
            reveal(executes);
        }
        let pc2 = self.pc.wrapping_add(2);
        let v = self.get_reg(x);
        let n = (v & 0x0F) << 4 | v >> 4;
        self.set_reg(x, n);
        self.regs.flags = FlagsRegister { zero: n == 0, subtract: false, half_carry: false, carry: false };
        (pc2, 8)
    }

    fn get_reg(&self, x: Reg8) -> (r: u8)
        ensures
            r == reg_get(self.regs, x),
    {
        match x {
            Reg8::A => self.regs.a,
            Reg8::B => self.regs.b,
            Reg8::C => self.regs.c,
            Reg8::D => self.regs.d,
            Reg8::E => self.regs.e,
            Reg8::H => self.regs.h,
            Reg8::L => self.regs.l,
        }
    }

    fn set_reg(&mut self, x: Reg8, v: u8)
        ensures
            final(self).regs == reg_set(old(self).regs, x, v),
            final(self).sp == old(self).sp,
            final(self).pc == old(self).pc,
            final(self).ime == old(self).ime,
            final(self).bus == old(self).bus,
    {
        match x {
            Reg8::A => self.regs.a = v,
            Reg8::B => self.regs.b = v,
            Reg8::C => self.regs.c = v,
            Reg8::D => self.regs.d = v,
            Reg8::E => self.regs.e = v,
            Reg8::H => self.regs.h = v,
            Reg8::L => self.regs.l = v,
        }
    }

    fn read_operand(&self, o: Operand) -> (r: u8)
        requires
            self.wf(),
        ensures
            r == operand_value(self.state(), o),
    {
        match o {
            Operand::Reg(x) => self.get_reg(x),
            Operand::HLI => self.bus.read_byte(self.regs.get_hl()),
            Operand::D8 => self.bus.read_byte(self.pc.wrapping_add(1)),
        }
    }

    fn read_imm16(&self) -> (r: u16)
        requires
            self.wf(),
        ensures
            r == imm16(self.state()),
    {
        let lo = self.bus.read_byte(self.pc.wrapping_add(1));
        let hi = self.bus.read_byte(self.pc.wrapping_add(2));
        hi as u16 * 256 + lo as u16
    }

    /// Pushes a 16-bit value: high byte at SP-1, low byte at SP-2, SP -= 2.
    pub fn push_word(&mut self, v: u16)
        requires
            old(self).wf(),
        ensures
            final(self).wf(),
            final(self).bus@ == push_mem(old(self).bus@, old(self).sp, v),
            final(self).sp == old(self).sp.wrapping_sub(2),
            final(self).regs == old(self).regs,
            final(self).pc == old(self).pc,
            final(self).ime == old(self).ime,
            final(self).bus.same_lcd_timing(&old(self).bus),
    {
        let s1 = self.sp.wrapping_sub(1);
        let s2 = self.sp.wrapping_sub(2);
        self.bus.write_byte(s1, (v / 256) as u8);
        self.bus.write_byte(s2, (v % 256) as u8);
        self.sp = s2;
    }

    /// Pops a 16-bit value: low byte at SP, high byte at SP+1, SP += 2.
    pub fn pop_word(&mut self) -> (r: u16)
        requires
            old(self).wf(),
        ensures
            final(self).wf(),
            r == popped(old(self).bus@, old(self).sp),
            final(self).sp == old(self).sp.wrapping_add(2),
            final(self).regs == old(self).regs,
            final(self).pc == old(self).pc,
            final(self).ime == old(self).ime,
            final(self).bus == old(self).bus,
    {
        let lo = self.bus.read_byte(self.sp);
        let hi = self.bus.read_byte(self.sp.wrapping_add(1));
        self.sp = self.sp.wrapping_add(2);
        hi as u16 * 256 + lo as u16
    }

    /// PUSH rr.
    pub fn push(&mut self, target: StackTarget)
        requires
            old(self).wf(),
        ensures
            final(self).wf(),
            final(self).bus@ == push_mem(old(self).bus@, old(self).sp, stack_value(old(self).regs, target)),
            final(self).sp == old(self).sp.wrapping_sub(2),
            final(self).regs == old(self).regs,
            final(self).pc == old(self).pc,
            final(self).ime == old(self).ime,
            final(self).bus.same_lcd_timing(&old(self).bus),
    {
        let v = match target {
            StackTarget::BC => self.regs.get_bc(),
            StackTarget::DE => self.regs.get_de(),
            StackTarget::HL => self.regs.get_hl(),
            StackTarget::AF => self.regs.get_af(),
        };
        self.push_word(v);
    }

    /// POP rr.
    pub fn pop(&mut self, target: StackTarget)
        requires
            old(self).wf(),
        ensures
            final(self).wf(),
            final(self).regs == stack_load(old(self).regs, target, popped(old(self).bus@, old(self).sp)),
            final(self).sp == old(self).sp.wrapping_add(2),
            final(self).pc == old(self).pc,
            final(self).ime == old(self).ime,
            final(self).bus == old(self).bus,
    {
        let v = self.pop_word();
        match target {
            StackTarget::BC => self.regs.set_bc(v),
            StackTarget::DE => self.regs.set_de(v),
            StackTarget::HL => self.regs.set_hl(v),
            StackTarget::AF => self.regs.set_af(v),
        }
    }
}

} // verus!

verus! {

/// A stack address that a push stores to as written: anything but the
/// scanline register, which only mirrors the LCD's counter.
pub open spec fn stack_slot_ok(sp: u16) -> bool {
    sp.wrapping_sub(1) != LCD_LY_ADDRESS && sp.wrapping_sub(2) != LCD_LY_ADDRESS
}

pub proof fn lemma_popped_pushed(mem: Seq<u8>, sp: u16, v: u16)
    requires
        mem.len() == MEMORY_SIZE,
        stack_slot_ok(sp),
    ensures
        popped(push_mem(mem, sp, v), sp.wrapping_sub(2)) == v,
        sp.wrapping_sub(2).wrapping_add(2) == sp,
{
    let s1 = sp.wrapping_sub(1);
    let s2 = sp.wrapping_sub(2);
    assert(s2.wrapping_add(1) == s1 && s2.wrapping_add(2) == sp && s1 != s2) by (bit_vector)
        requires
            s1 == sp.wrapping_sub(1),
            s2 == sp.wrapping_sub(2),
    ;
    crate::registers::lemma_pair_split(v);
}

/// A push stores the high byte at SP-1 and the low byte at SP-2, and leaves
/// every other address as it was.
pub proof fn lemma_push_mem_reads(mem: Seq<u8>, sp: u16, v: u16)
    requires
        mem.len() == MEMORY_SIZE,
        stack_slot_ok(sp),
    ensures
        push_mem(mem, sp, v).len() == MEMORY_SIZE,
        push_mem(mem, sp, v)[sp.wrapping_sub(1) as int] == high_byte(v),
        push_mem(mem, sp, v)[sp.wrapping_sub(2) as int] == low_byte(v),
        forall|a: int|
            0 <= a < MEMORY_SIZE && a != sp.wrapping_sub(1) && a != sp.wrapping_sub(2)
                ==> #[trigger] push_mem(mem, sp, v)[a] == mem[a],
{
    let s1 = sp.wrapping_sub(1);
    let s2 = sp.wrapping_sub(2);
    assert(s1 != s2) by (bit_vector)
        requires
            s1 == sp.wrapping_sub(1),
            s2 == sp.wrapping_sub(2),
    ;
}

/// PUSH BC (opcode 0xC5) stores B at SP-1 and C at SP-2, lowers SP by two
/// and moves PC on by one. When the next opcode is POP HL (0xE1), HL then
/// holds what BC held and SP is back where it was.
pub proof fn lemma_push_bc_pop_hl_opcodes(s: CpuState)
    requires
        s.mem.len() == MEMORY_SIZE,
        fetch(s) == (0xC5u8, false),
        stack_slot_ok(s.sp),
    ensures
        decode(0xC5, false) == Some(Instruction::Push(StackTarget::BC)),
        decode(0xE1, false) == Some(Instruction::Pop(StackTarget::HL)),
        ({
            let (t, _) = execute_spec(s, Instruction::Push(StackTarget::BC));
            let (u, _) = execute_spec(t, Instruction::Pop(StackTarget::HL));
            &&& t.sp == s.sp.wrapping_sub(2)
            &&& t.mem[s.sp.wrapping_sub(1) as int] == s.regs.b
            &&& t.mem[s.sp.wrapping_sub(2) as int] == s.regs.c
            &&& t.pc == s.pc.wrapping_add(1)
            &&& t.regs == s.regs
            &&& pair(u.regs.h, u.regs.l) == pair(s.regs.b, s.regs.c)
            &&& u.regs.b == s.regs.b && u.regs.c == s.regs.c
            &&& u.sp == s.sp
        }),
{
    let v = pair(s.regs.b, s.regs.c);
    crate::registers::lemma_split_pair(s.regs.b, s.regs.c);
    lemma_push_mem_reads(s.mem, s.sp, v);
    lemma_popped_pushed(s.mem, s.sp, v);
    crate::registers::lemma_pair_split(v);
}

/// POP AF (0xF1) followed by PUSH AF (0xF5) writes back A unchanged and the
/// flags byte with its low nibble cleared: AF goes through the stack with
/// A and the four flags kept.
pub proof fn lemma_pop_push_af_opcodes(s: CpuState)
    requires
        s.mem.len() == MEMORY_SIZE,
        stack_slot_ok(s.sp.wrapping_add(2)),
    ensures
        decode(0xF1, false) == Some(Instruction::Pop(StackTarget::AF)),
        decode(0xF5, false) == Some(Instruction::Push(StackTarget::AF)),
        ({
            let (t, _) = execute_spec(s, Instruction::Pop(StackTarget::AF));
            let (u, _) = execute_spec(t, Instruction::Push(StackTarget::AF));
            &&& t.regs.a == s.mem[s.sp.wrapping_add(1) as int]
            &&& u.sp == s.sp
            &&& u.mem[s.sp.wrapping_add(1) as int] == s.mem[s.sp.wrapping_add(1) as int]
            &&& u.mem[s.sp as int] == s.mem[s.sp as int] & 0xF0u8
            &&& u.mem[s.sp as int] & 0x0Fu8 == 0
        }),
{
    let sp = s.sp;
    let sp2 = sp.wrapping_add(2);
    assert(sp2.wrapping_sub(1) == sp.wrapping_add(1) && sp2.wrapping_sub(2) == sp) by (bit_vector)
        requires
            sp2 == sp.wrapping_add(2),
    ;
    let lo = s.mem[sp as int];
    let hi = s.mem[sp.wrapping_add(1) as int];
    let v = pair(hi, lo);
    crate::registers::lemma_split_pair(hi, lo);
    let t = execute_spec(s, Instruction::Pop(StackTarget::AF)).0;
    assert(t.regs == with_af(s.regs, v));
    crate::registers::lemma_af_round_trip(s.regs, v);
    crate::registers::lemma_split_pair(t.regs.a, crate::registers::flags_to_byte(t.regs.flags));
    crate::registers::lemma_flags_mask(lo);
    crate::registers::lemma_flags_round_trip(t.regs.flags);
    lemma_push_mem_reads(s.mem, sp2, af_of(t.regs));
    assert(lo & 0xF0u8 & 0x0Fu8 == 0) by (bit_vector);
}

/// Pushing a register pair and popping into another: the push lowers SP by
/// two, the pop brings it back, and the second pair ends up with the first
/// one's value (AF keeps only the flag bits of its low byte).
pub proof fn lemma_push_then_pop(s: CpuState, from: StackTarget, to: StackTarget)
    requires
        s.mem.len() == MEMORY_SIZE,
        stack_slot_ok(s.sp),
    ensures
        ({
            let (p, _) = execute_spec(s, Instruction::Push(from));
            let (q, _) = execute_spec(p, Instruction::Pop(to));
            &&& p.sp == s.sp.wrapping_sub(2)
            &&& q.sp == s.sp
            &&& to != StackTarget::AF ==> stack_value(q.regs, to) == stack_value(s.regs, from)
            &&& to == StackTarget::AF ==> stack_value(q.regs, to) == stack_value(s.regs, from) & 0xFFF0u16
        }),
{
    let v = stack_value(s.regs, from);
    lemma_popped_pushed(s.mem, s.sp, v);
    crate::registers::lemma_split_pair(high_byte(v), low_byte(v));
    crate::registers::lemma_pair_split(v);
    crate::registers::lemma_af_round_trip(s.regs, v);
}

/// Servicing a requested, enabled interrupt clears its request bit and the
/// master enable and sends PC to the source's service routine; a return from
/// the routine pops the interrupted PC and restores SP. (The stack bytes must
/// be neither the scanline register nor the request register.)
pub proof fn lemma_dispatch_then_return(s: CpuState)
    requires
        s.mem.len() == MEMORY_SIZE,
        interrupt_due(s) is Some,
        stack_slot_ok(s.sp),
        s.sp.wrapping_sub(1) != IF_ADDRESS,
        s.sp.wrapping_sub(2) != IF_ADDRESS,
    ensures
        ({
            let i = interrupt_due(s).unwrap();
            let d = after_interrupts(s);
            let (back, _) = execute_spec(d, Instruction::Ret(JumpTest::Always));
            &&& d.mem[IF_ADDRESS as int] == s.mem[IF_ADDRESS as int] & !interrupt_mask(i)
            &&& d.mem[IF_ADDRESS as int] & interrupt_mask(i) == 0
            &&& s.mem[IF_ADDRESS as int] & interrupt_mask(i) != 0
            &&& (s.sp.wrapping_sub(1) != IE_ADDRESS && s.sp.wrapping_sub(2) != IE_ADDRESS) ==> d.mem[IE_ADDRESS as int] == s.mem[IE_ADDRESS as int]
            &&& !d.ime
            &&& d.pc == interrupt_vector(i)
            &&& d.sp == s.sp.wrapping_sub(2)
            &&& d.mem[s.sp.wrapping_sub(1) as int] == high_byte(s.pc)
            &&& d.mem[s.sp.wrapping_sub(2) as int] == low_byte(s.pc)
            &&& back.pc == s.pc
            &&& back.sp == s.sp
        }),
{
    let i = interrupt_due(s).unwrap();
    let req = s.mem[IF_ADDRESS as int];
    let mem1 = s.mem.update(IF_ADDRESS as int, req & !interrupt_mask(i));
    lemma_popped_pushed(mem1, s.sp, s.pc);
    lemma_push_mem_reads(mem1, s.sp, s.pc);
    crate::interrupts::lemma_pending_is_highest(s.mem[IE_ADDRESS as int], req);
    let m = interrupt_mask(i);
    assert((req & !m) & m == 0) by (bit_vector);
}

} // verus!
