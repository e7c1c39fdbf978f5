use crate::bus::{physical_address, BusInterface, BusMemoryError, MEMORY_SIZE};
use crate::prim::U20_MAX;
use crate::queue::{Queue, StaticQueue};
use vstd::prelude::*;

verus! {

/// Bytes the prefetch queue holds.
pub const PREFETCH_QUEUE_SIZE: usize = 4;

/// Carry flag.
pub const FLAG_CARRY: u16 = 0x0001;

/// Interrupt-enable flag.
pub const FLAG_INTERRUPT: u16 = 0x0200;

/// Direction flag.
pub const FLAG_DIRECTION: u16 = 0x0400;

/// Selects one of the four segment registers.
#[derive(Debug, Clone, Copy, PartialEq, Eq, Structural)]
pub enum Segment {
    CS,
    DS,
    SS,
    ES,
}

/// Selects one of the eight general registers.
#[derive(Debug, Clone, Copy, PartialEq, Eq, Structural)]
pub enum Register {
    AX,
    BX,
    CX,
    DX,
    SI,
    DI,
    BP,
    SP,
}

/// Phase of a bus transaction. `TS` is the idle state between transactions.
#[derive(Debug, Clone, Copy, PartialEq, Eq, Structural)]
pub enum TState {
    TS,
    T0,
    T1,
    T2,
    T3,
    T4,
}

/// What `advance` reports when it does not fail.
#[derive(Debug, Clone, Copy, PartialEq, Eq, Structural)]
pub enum CpuStatus {
    /// One instruction was executed.
    Okay,
    /// The real instruction pointer sits on a breakpoint; nothing was consumed.
    Breakpoint,
}

impl CpuStatus {
    /// Human-readable description of the status.
    pub fn to_string(&self) -> (r: String) {
        match self {
            CpuStatus::Okay => String::from_str("Execution OK"),
            CpuStatus::Breakpoint => String::from_str("Breakpoint hit."),
        }
    }
}

/// Failures to decode an opcode.
#[derive(Debug, Clone, Copy, PartialEq, Eq, Structural)]
pub enum DecodeError {
    /// No instruction of the 8088 has this opcode.
    UnknownOpcode(u8),
    /// The opcode is an 8088 instruction that this core does not execute.
    UnimplementedOpcode(u8),
}

/// Failures of `advance`.
#[derive(Debug, Clone, Copy, PartialEq, Eq, Structural)]
pub enum CpuError {
    Decode(DecodeError),
}

/// How the core treats an opcode.
#[derive(Debug, Clone, Copy, PartialEq, Eq, Structural)]
pub enum OpcodeClass {
    /// Executed by this core.
    Implemented,
    /// An instruction of the 8088 without an executable body here.
    Unimplemented,
    /// Not an instruction of the 8088.
    Unknown,
}

/// A decoded instruction: its opcode and how the core treats it.
#[derive(Debug, Clone, Copy, PartialEq, Eq, Structural)]
pub struct Instruction {
    pub opcode: u8,
    pub class: OpcodeClass,
}

impl Instruction {
    /// Decodes the opcode `op` through the opcode table.
    pub fn decode(op: u8) -> (r: Instruction)
        ensures
            r == (Instruction { opcode: op, class: opcode_class_of(op) }),
    {
        Instruction { opcode: op, class: classify_opcode(op) }
    }
}

/// Opcodes that the 8088's instruction set leaves undefined.
pub open spec fn is_undefined_opcode(op: u8) -> bool {
    op == 0x0F || (0x60 <= op && op <= 0x6F) || op == 0xC0 || op == 0xC1 || op == 0xC8 || op
        == 0xC9 || op == 0xD6 || op == 0xF1
}

/// Opcodes that this core executes: `NOP` and the flag instructions
/// `CMC`, `CLC`, `STC`, `CLI`, `STI`, `CLD`, `STD`.
pub open spec fn is_implemented_opcode(op: u8) -> bool {
    op == 0x90 || op == 0xF5 || (0xF8 <= op && op <= 0xFD)
}

pub open spec fn opcode_class_of(op: u8) -> OpcodeClass {
    if is_implemented_opcode(op) {
        OpcodeClass::Implemented
    } else if is_undefined_opcode(op) {
        OpcodeClass::Unknown
    } else {
        OpcodeClass::Unimplemented
    }
}

/// The flags after executing the implemented opcode `op` on `flags`.
pub open spec fn flags_after(op: u8, flags: u16) -> u16 {
    if op == 0xF5 {
        flags ^ FLAG_CARRY
    } else if op == 0xF8 {
        flags & !FLAG_CARRY
    } else if op == 0xF9 {
        flags | FLAG_CARRY
    } else if op == 0xFA {
        flags & !FLAG_INTERRUPT
    } else if op == 0xFB {
        flags | FLAG_INTERRUPT
    } else if op == 0xFC {
        flags & !FLAG_DIRECTION
    } else if op == 0xFD {
        flags | FLAG_DIRECTION
    } else {
        flags
    }
}

/// The error `advance` reports for an opcode it does not execute.
pub open spec fn decode_error_of(op: u8) -> CpuError {
    if is_undefined_opcode(op) {
        CpuError::Decode(DecodeError::UnknownOpcode(op))
    } else {
        CpuError::Decode(DecodeError::UnimplementedOpcode(op))
    }
}

/// `x + 1` on 16 bits, wrapping.
pub open spec fn inc16(x: u16) -> u16 {
    ((x as int + 1) % 0x1_0000) as u16
}

/// The instruction pointer of the next byte to execute: `pc` less the bytes
/// already queued, on 16 bits.
pub open spec fn real_ip(pc: u16, queued: nat) -> u16 {
    ((pc as int - queued as int + 0x1_0000) % 0x1_0000) as u16
}

/// The T-state that follows `t`: every cycle moves one step along
/// TS, T0, T1, T2, T3, T4 and back to TS.
pub open spec fn tstate_after(t: TState) -> TState {
    match t {
        TState::TS => TState::T0,
        TState::T0 => TState::T1,
        TState::T1 => TState::T2,
        TState::T2 => TState::T3,
        TState::T3 => TState::T4,
        TState::T4 => TState::TS,
    }
}

/// The register file.
#[derive(Debug, Clone, Copy, PartialEq, Eq, Structural)]
pub struct Registers {
    pub ax: u16,
    pub bx: u16,
    pub cx: u16,
    pub dx: u16,
    pub si: u16,
    pub di: u16,
    pub bp: u16,
    pub sp: u16,
    pub cs: u16,
    pub ds: u16,
    pub ss: u16,
    pub es: u16,
    /// Offset of the next byte to fetch (not to execute).
    pub pc: u16,
    /// Last physical address computed.
    pub le: u32,
    pub flags: u16,
}

/// Every register at zero.
pub open spec fn zero_registers() -> Registers {
    Registers {
        ax: 0,
        bx: 0,
        cx: 0,
        dx: 0,
        si: 0,
        di: 0,
        bp: 0,
        sp: 0,
        cs: 0,
        ds: 0,
        ss: 0,
        es: 0,
        pc: 0,
        le: 0,
        flags: 0,
    }
}

impl Registers {
    /// Every register at zero.
    pub fn zeroed() -> (r: Registers)
        ensures
            r == zero_registers(),
    {
        Registers {
            ax: 0,
            bx: 0,
            cx: 0,
            dx: 0,
            si: 0,
            di: 0,
            bp: 0,
            sp: 0,
            cs: 0,
            ds: 0,
            ss: 0,
            es: 0,
            pc: 0,
            le: 0,
            flags: 0,
        }
    }

    pub open spec fn segment_spec(&self, s: Segment) -> u16 {
        match s {
            Segment::CS => self.cs,
            Segment::DS => self.ds,
            Segment::SS => self.ss,
            Segment::ES => self.es,
        }
    }

    pub open spec fn with_segment(&self, s: Segment, v: u16) -> Registers {
        match s {
            Segment::CS => Registers { cs: v, ..*self },
            Segment::DS => Registers { ds: v, ..*self },
            Segment::SS => Registers { ss: v, ..*self },
            Segment::ES => Registers { es: v, ..*self },
        }
    }

    pub open spec fn register_spec(&self, r: Register) -> u16 {
        match r {
            Register::AX => self.ax,
            Register::BX => self.bx,
            Register::CX => self.cx,
            Register::DX => self.dx,
            Register::SI => self.si,
            Register::DI => self.di,
            Register::BP => self.bp,
            Register::SP => self.sp,
        }
    }

    pub open spec fn with_register(&self, r: Register, v: u16) -> Registers {
        match r {
            Register::AX => Registers { ax: v, ..*self },
            Register::BX => Registers { bx: v, ..*self },
            Register::CX => Registers { cx: v, ..*self },
            Register::DX => Registers { dx: v, ..*self },
            Register::SI => Registers { si: v, ..*self },
            Register::DI => Registers { di: v, ..*self },
            Register::BP => Registers { bp: v, ..*self },
            Register::SP => Registers { sp: v, ..*self },
        }
    }
}

/// The Intel 8088 core: registers, prefetch queue, bus and the T-state of
/// the bus transaction in progress.
pub struct I8088 {
    prefetch_queue: StaticQueue<u8, 4>,
    regs: Registers,
    bus: BusInterface,
    tstate: TState,
    breakpoints: Vec<u16>,
}

impl I8088 {
    /// The invariant: queue and bus are well formed, and the last effective
    /// address mirrors the bus latch.
    pub closed spec fn wf(&self) -> bool {
        &&& self.prefetch_queue.wf()
        &&& self.prefetch_queue.items().len() <= PREFETCH_QUEUE_SIZE
        &&& self.bus.wf()
        &&& self.bus.latch() == self.regs.le
    }

    pub closed spec fn regs(&self) -> Registers {
        self.regs
    }

    /// The bytes in the prefetch queue, next to execute first.
    pub closed spec fn queue(&self) -> Seq<u8> {
        self.prefetch_queue.items()
    }

    pub closed spec fn memory(&self) -> Seq<u8> {
        self.bus.memory()
    }

    pub closed spec fn tstate(&self) -> TState {
        self.tstate
    }

    /// The breakpoint addresses, as instruction pointers.
    pub closed spec fn breakpoints(&self) -> Seq<u16> {
        self.breakpoints@
    }

    /// The next byte to execute, as `advance` will see it.
    pub open spec fn next_opcode(&self) -> u8 {
        if self.queue().len() > 0 {
            self.queue()[0]
        } else {
            self.memory()[physical_address(self.regs().cs, self.regs().pc) as int]
        }
    }

    /// A core on `bus` with every register zero but the last effective
    /// address, which is taken from the bus latch; an empty queue, idle bus
    /// and no breakpoint.
    pub fn with_bus(bus: BusInterface) -> (r: Self)
        requires
            bus.wf(),
        ensures
            r.wf(),
            r.regs() == (Registers { le: bus.latch(), ..zero_registers() }),
            r.queue() == Seq::<u8>::empty(),
            r.memory() == bus.memory(),
            r.tstate() == TState::TS,
            r.breakpoints() == Seq::<u16>::empty(),
    {
        let mut regs = Registers::zeroed();
        regs.le = bus.address_latch();
        I8088 {
            prefetch_queue: StaticQueue::<u8, 4>::new(),
            regs,
            bus,
            tstate: TState::TS,
            breakpoints: Vec::new(),
        }
    }

    /// A core on a fresh, zeroed 1 MiB bus.
    pub fn new() -> (r: Self)
        ensures
            r.wf(),
            r.regs() == zero_registers(),
            r.queue() == Seq::<u8>::empty(),
            r.memory() == Seq::new(MEMORY_SIZE as nat, |i: int| 0u8),
            r.tstate() == TState::TS,
            r.breakpoints() == Seq::<u16>::empty(),
    {
        I8088::with_bus(BusInterface::new())
    }

    /// The T-state of the bus transaction in progress.
    pub fn current_tstate(&self) -> (r: TState)
        ensures
            r == self.tstate(),
    {
        self.tstate
    }

    /// A copy of the register file.
    pub fn registers(&self) -> (r: Registers)
        ensures
            r == self.regs(),
    {
        self.regs
    }

    pub fn segment(&self, s: Segment) -> (r: u16)
        ensures
            r == self.regs().segment_spec(s),
    {
        match s {
            Segment::CS => self.regs.cs,
            Segment::DS => self.regs.ds,
            Segment::SS => self.regs.ss,
            Segment::ES => self.regs.es,
        }
    }

    pub fn set_segment(&mut self, s: Segment, v: u16)
        requires
            old(self).wf(),
        ensures
            final(self).wf(),
            final(self).regs() == old(self).regs().with_segment(s, v),
            final(self).queue() == old(self).queue(),
            final(self).memory() == old(self).memory(),
            final(self).tstate() == old(self).tstate(),
            final(self).breakpoints() == old(self).breakpoints(),
    {
        match s {
            Segment::CS => self.regs.cs = v,
            Segment::DS => self.regs.ds = v,
            Segment::SS => self.regs.ss = v,
            Segment::ES => self.regs.es = v,
        }
    }

    pub fn register(&self, r: Register) -> (v: u16)
        ensures
            v == self.regs().register_spec(r),
    {
        match r {
            Register::AX => self.regs.ax,
            Register::BX => self.regs.bx,
            Register::CX => self.regs.cx,
            Register::DX => self.regs.dx,
            Register::SI => self.regs.si,
            Register::DI => self.regs.di,
            Register::BP => self.regs.bp,
            Register::SP => self.regs.sp,
        }
    }

    pub fn set_register(&mut self, r: Register, v: u16)
        requires
            old(self).wf(),
        ensures
            final(self).wf(),
            final(self).regs() == old(self).regs().with_register(r, v),
            final(self).queue() == old(self).queue(),
            final(self).memory() == old(self).memory(),
            final(self).tstate() == old(self).tstate(),
            final(self).breakpoints() == old(self).breakpoints(),
    {
        match r {
            Register::AX => self.regs.ax = v,
            Register::BX => self.regs.bx = v,
            Register::CX => self.regs.cx = v,
            Register::DX => self.regs.dx = v,
            Register::SI => self.regs.si = v,
            Register::DI => self.regs.di = v,
            Register::BP => self.regs.bp = v,
            Register::SP => self.regs.sp = v,
        }
    }

    /// Calculates the 20-bit physical address of segment register `s` and
    /// offset `o`; keeps it as the last effective address and in the bus latch.
    pub fn calculate_physical_address(&mut self, s: Segment, o: u16) -> (r: u32)
        requires
            old(self).wf(),
        ensures
            r == physical_address(old(self).regs().segment_spec(s), o),
            r <= U20_MAX,
            final(self).wf(),
            final(self).regs() == (Registers { le: r, ..old(self).regs() }),
            final(self).queue() == old(self).queue(),
            final(self).memory() == old(self).memory(),
            final(self).tstate() == old(self).tstate(),
            final(self).breakpoints() == old(self).breakpoints(),
    {
        let seg = self.segment(s);
        let r = self.bus.compute_physical_address(seg, o);
        self.regs.le = r;
        r
    }

    /// The registers once the byte at `cs:pc` has been fetched: `pc` moves on
    /// by one and the fetch address is the last effective address.
    pub open spec fn regs_after_prefetch(&self) -> Registers {
        Registers {
            pc: inc16(self.regs().pc),
            le: physical_address(self.regs().cs, self.regs().pc),
            ..self.regs()
        }
    }

    /// The registers once the next opcode is in hand: unchanged when it was
    /// queued, else as after fetching it.
    pub open spec fn regs_after_opcode(&self) -> Registers {
        if self.queue().len() > 0 {
            self.regs()
        } else {
            self.regs_after_prefetch()
        }
    }

    /// The real instruction pointer of this core.
    pub open spec fn ip(&self) -> u16 {
        real_ip(self.regs().pc, self.queue().len())
    }

    /// Reads the byte at physical address `addr`.
    pub fn read_memory(&self, addr: usize) -> (r: Result<u8, BusMemoryError>)
        requires
            self.wf(),
        ensures
            addr >= MEMORY_SIZE ==> r == Err::<u8, BusMemoryError>(BusMemoryError::OutOfBounds),
            addr < MEMORY_SIZE ==> r == Ok::<u8, BusMemoryError>(self.memory()[addr as int]),
    {
        self.bus.read_8(addr)
    }

    /// Stores `val` at physical address `addr`.
    pub fn write_memory(&mut self, addr: usize, val: u8) -> (r: Result<(), BusMemoryError>)
        requires
            old(self).wf(),
        ensures
            final(self).wf(),
            final(self).regs() == old(self).regs(),
            final(self).queue() == old(self).queue(),
            final(self).tstate() == old(self).tstate(),
            final(self).breakpoints() == old(self).breakpoints(),
            addr >= MEMORY_SIZE ==> r == Err::<(), BusMemoryError>(BusMemoryError::OutOfBounds)
                && final(self).memory() == old(self).memory(),
            addr < MEMORY_SIZE ==> r == Ok::<(), BusMemoryError>(()) && final(self).memory()
                == old(self).memory().update(addr as int, val),
    {
        self.bus.write_8(addr, val)
    }

    pub fn add_breakpoint(&mut self, ip: u16)
        requires
            old(self).wf(),
        ensures
            final(self).wf(),
            final(self).regs() == old(self).regs(),
            final(self).queue() == old(self).queue(),
            final(self).memory() == old(self).memory(),
            final(self).tstate() == old(self).tstate(),
            final(self).breakpoints() == old(self).breakpoints().push(ip),
    {
        self.breakpoints.push(ip);
    }

    pub fn clear_breakpoints(&mut self)
        requires
            old(self).wf(),
        ensures
            final(self).wf(),
            final(self).regs() == old(self).regs(),
            final(self).queue() == old(self).queue(),
            final(self).memory() == old(self).memory(),
            final(self).tstate() == old(self).tstate(),
            final(self).breakpoints() == Seq::<u16>::empty(),
    {
        self.breakpoints = Vec::new();
    }

    /// Instruction pointer of the next byte to execute: `pc` less the bytes
    /// already queued.
    pub fn real_instruction_pointer(&self) -> (r: u16)
        requires
            self.wf(),
        ensures
            r == self.ip(),
    {
        let n = self.prefetch_queue.size() as u16;
        let pc = self.regs.pc;
        if pc >= n {
            pc - n
        } else {
            (pc as u32 + 0x1_0000 - n as u32) as u16
        }
    }

    /// Whether the real instruction pointer is a breakpoint.
    pub fn is_breakpoint(&self) -> (r: bool)
        requires
            self.wf(),
        ensures
            r == self.breakpoints().contains(self.ip()),
    {
        let ip = self.real_instruction_pointer();
        let mut i: usize = 0;
        while i < self.breakpoints.len()
            invariant
                ip == self.ip(),
                i <= self.breakpoints@.len(),
                forall|j: int| 0 <= j < i ==> self.breakpoints@[j] != ip,
            decreases self.breakpoints@.len() - i,
        {
            if self.breakpoints[i] == ip {
                assert(self.breakpoints@[i as int] == ip);
                return true;
            }
            i = i + 1;
        }
        false
    }

    /// Empties the prefetch queue, as a jump does, and points `pc` at the
    /// real instruction pointer so that no instruction byte is skipped.
    pub fn flush_prefetch(&mut self)
        requires
            old(self).wf(),
        ensures
            final(self).wf(),
            final(self).regs() == (Registers { pc: old(self).ip(), ..old(self).regs() }),
            final(self).queue() == Seq::<u8>::empty(),
            final(self).memory() == old(self).memory(),
            final(self).tstate() == old(self).tstate(),
            final(self).breakpoints() == old(self).breakpoints(),
    {
        let ip = self.real_instruction_pointer();
        self.prefetch_queue.clear();
        self.regs.pc = ip;
    }

    /// Fetches the byte at `cs:pc` into the prefetch queue.
    fn prefetch_byte(&mut self)
        requires
            old(self).wf(),
            old(self).queue().len() < PREFETCH_QUEUE_SIZE,
        ensures
            final(self).wf(),
            final(self).regs() == old(self).regs_after_prefetch(),
            final(self).queue() == old(self).queue().push(
                old(self).memory()[physical_address(old(self).regs().cs, old(self).regs().pc) as int],
            ),
            final(self).memory() == old(self).memory(),
            final(self).tstate() == old(self).tstate(),
            final(self).breakpoints() == old(self).breakpoints(),
    {
        let pc = self.regs.pc;
        let addr = self.calculate_physical_address(Segment::CS, pc);
        let b = match self.bus.fetch_8(addr as usize) {
            Ok(b) => b,
            Err(_) => 0,
        };
        let _ = self.prefetch_queue.push(b);
        self.regs.pc = if pc == 0xFFFF { 0 } else { pc + 1 };
    }

    /// Executes one CPU cycle: moves the bus transaction on by exactly one
    /// T-state. On leaving `T4` the fetched byte is delivered into the
    /// prefetch queue and `pc` moves on; when the queue is full the delivery
    /// stalls (queue and `pc` stay as they are) and the byte is fetched again
    /// on a later pass.
    pub fn cycle(&mut self)
        requires
            old(self).wf(),
        ensures
            final(self).wf(),
            final(self).tstate() == tstate_after(old(self).tstate()),
            final(self).memory() == old(self).memory(),
            final(self).breakpoints() == old(self).breakpoints(),
            old(self).tstate() == TState::T4 && old(self).queue().len() < PREFETCH_QUEUE_SIZE
                ==> final(self).regs() == old(self).regs_after_prefetch() && final(self).queue()
                == old(self).queue().push(
                old(self).memory()[physical_address(old(self).regs().cs, old(self).regs().pc) as int],
            ),
            !(old(self).tstate() == TState::T4 && old(self).queue().len() < PREFETCH_QUEUE_SIZE)
                ==> final(self).regs() == old(self).regs() && final(self).queue() == old(
                self,
            ).queue(),
    {
        match self.tstate {
            TState::TS => self.tstate = TState::T0,
            TState::T0 => self.tstate = TState::T1,
            TState::T1 => self.tstate = TState::T2,
            TState::T2 => self.tstate = TState::T3,
            TState::T3 => self.tstate = TState::T4,
            TState::T4 => {
                if !self.prefetch_queue.full() {
                    self.prefetch_byte();
                }
                self.tstate = TState::TS;
            },
        }
    }

    /// Takes the next opcode out of the prefetch queue, fetching it first
    /// when the queue is empty.
    fn next_byte(&mut self) -> (r: u8)
        requires
            old(self).wf(),
        ensures
            r == old(self).next_opcode(),
            final(self).wf(),
            final(self).regs() == old(self).regs_after_opcode(),
            old(self).queue().len() > 0 ==> final(self).queue() == old(self).queue().drop_first(),
            old(self).queue().len() == 0 ==> final(self).queue() == old(self).queue(),
            final(self).memory() == old(self).memory(),
            final(self).tstate() == old(self).tstate(),
            final(self).breakpoints() == old(self).breakpoints(),
    {
        if self.prefetch_queue.empty() {
            self.prefetch_byte();
        }
        match self.prefetch_queue.pop() {
            Some(b) => b,
            None => 0,
        }
    }

    /// Fetches, decodes and executes one instruction. When the real
    /// instruction pointer is a breakpoint, reports it and consumes nothing.
    pub fn advance(&mut self) -> (r: Result<CpuStatus, CpuError>)
        requires
            old(self).wf(),
        ensures
            final(self).wf(),
            final(self).memory() == old(self).memory(),
            final(self).tstate() == old(self).tstate(),
            final(self).breakpoints() == old(self).breakpoints(),
            old(self).breakpoints().contains(old(self).ip()) ==> r == Ok::<CpuStatus, CpuError>(
                CpuStatus::Breakpoint,
            ) && final(self).regs() == old(self).regs() && final(self).queue() == old(
                self,
            ).queue(),
            !old(self).breakpoints().contains(old(self).ip()) ==> {
                let op = old(self).next_opcode();
                &&& old(self).queue().len() > 0 ==> final(self).queue() == old(
                    self,
                ).queue().drop_first()
                &&& old(self).queue().len() == 0 ==> final(self).queue() == old(self).queue()
                &&& is_implemented_opcode(op) ==> r == Ok::<CpuStatus, CpuError>(CpuStatus::Okay)
                    && final(self).regs() == (Registers {
                    flags: flags_after(op, old(self).regs().flags),
                    ..old(self).regs_after_opcode()
                })
                &&& !is_implemented_opcode(op) ==> r == Err::<CpuStatus, CpuError>(
                    decode_error_of(op),
                ) && final(self).regs() == old(self).regs_after_opcode()
            },
    {
        if self.is_breakpoint() {
            return Ok(CpuStatus::Breakpoint);
        }
        let ins = Instruction::decode(self.next_byte());
        let op = ins.opcode;
        match ins.class {
            OpcodeClass::Implemented => {
                self.regs.flags = execute_flags(op, self.regs.flags);
                Ok(CpuStatus::Okay)
            },
            OpcodeClass::Unknown => Err(CpuError::Decode(DecodeError::UnknownOpcode(op))),
            OpcodeClass::Unimplemented => Err(
                CpuError::Decode(DecodeError::UnimplementedOpcode(op)),
            ),
        }
    }
}

/// Looks `op` up in the opcode table.
pub fn classify_opcode(op: u8) -> (r: OpcodeClass)
    ensures
        r == opcode_class_of(op),
{
    if op == 0x90 || op == 0xF5 || (0xF8 <= op && op <= 0xFD) {
        OpcodeClass::Implemented
    } else if op == 0x0F || (0x60 <= op && op <= 0x6F) || op == 0xC0 || op == 0xC1 || op == 0xC8
        || op == 0xC9 || op == 0xD6 || op == 0xF1 {
        OpcodeClass::Unknown
    } else {
        OpcodeClass::Unimplemented
    }
}

/// The flags after executing the implemented opcode `op`.
pub fn execute_flags(op: u8, flags: u16) -> (r: u16)
    ensures
        r == flags_after(op, flags),
{
    if op == 0xF5 {
        flags ^ FLAG_CARRY
    } else if op == 0xF8 {
        flags & !FLAG_CARRY
    } else if op == 0xF9 {
        flags | FLAG_CARRY
    } else if op == 0xFA {
        flags & !FLAG_INTERRUPT
    } else if op == 0xFB {
        flags | FLAG_INTERRUPT
    } else if op == 0xFC {
        flags & !FLAG_DIRECTION
    } else if op == 0xFD {
        flags | FLAG_DIRECTION
    } else {
        flags
    }
}

} // verus!
