use m5150::bus::{BusInterface, BusMemoryError, MEMORY_SIZE};
use m5150::cpu::{
    classify_opcode, CpuError, CpuStatus, DecodeError, Instruction, I8088, OpcodeClass, Register, Segment,
    TState,
};

#[test]
fn test_adder_core() {
    let mut cpu = I8088::new();
    assert_eq!(cpu.calculate_physical_address(Segment::CS, 0xFF), 0xFF);
    assert_ne!(cpu.calculate_physical_address(Segment::CS, 0xFE), 0xFF);
}

#[test]
fn physical_address_wraps_to_20_bits() {
    let mut cpu = I8088::new();
    cpu.set_segment(Segment::ES, 0xFFFF);
    assert_eq!(cpu.calculate_physical_address(Segment::ES, 0x0000), 0xFFFF0);
    assert_eq!(cpu.calculate_physical_address(Segment::ES, 0x0010), 0x00000);
    assert_eq!(cpu.calculate_physical_address(Segment::ES, 0x000F), 0xFFFFF);
    assert_eq!(cpu.registers().le, 0xFFFFF);
}

#[test]
fn physical_address_is_segment_times_16_plus_offset() {
    let mut cpu = I8088::new();
    for (seg, off) in [(0x1234u16, 0x5678u16), (0xF000, 0xFFF0), (0, 0), (0xFFFF, 0xFFFF)] {
        cpu.set_segment(Segment::SS, seg);
        let expected = (((seg as u32) << 4) + off as u32) & 0xFFFFF;
        assert_eq!(cpu.calculate_physical_address(Segment::SS, off), expected);
    }
    let mut bus = BusInterface::new();
    assert_eq!(bus.compute_physical_address(0xFFFF, 0xFFFF), 0x0FFEF);
    assert_eq!(bus.address_latch(), 0x0FFEF);
}

#[test]
fn fresh_core_scenario() {
    let mut cpu = I8088::with_bus(BusInterface::new());
    cpu.set_segment(Segment::CS, 0x1000);
    cpu.set_segment(Segment::DS, 0x2000);
    let addr = cpu.calculate_physical_address(Segment::CS, 0x0005);
    assert_eq!(addr, 0x10005);
    assert_eq!(cpu.write_memory(addr as usize, 0xAB), Ok(()));
    assert_eq!(cpu.read_memory(addr as usize), Ok(0xAB));
    assert_eq!(cpu.read_memory(0x100000), Err(BusMemoryError::OutOfBounds));
    assert_eq!(cpu.calculate_physical_address(Segment::DS, 0), 0x20000);
}

#[test]
fn registers_are_independent() {
    let mut cpu = I8088::new();
    cpu.set_register(Register::AX, 1);
    cpu.set_register(Register::SP, 2);
    assert_eq!(cpu.register(Register::AX), 1);
    assert_eq!(cpu.register(Register::SP), 2);
    assert_eq!(cpu.register(Register::BX), 0);
    assert_eq!(cpu.segment(Segment::CS), 0);
}

#[test]
fn cycle_runs_a_fetch_through_t_states() {
    let mut cpu = I8088::new();
    cpu.set_segment(Segment::CS, 0x0100);
    assert_eq!(cpu.write_memory(0x1000, 0x90), Ok(()));
    let mut seen = Vec::new();
    for _ in 0..6 {
        cpu.cycle();
        seen.push(cpu.current_tstate());
    }
    assert_eq!(
        seen,
        vec![TState::T0, TState::T1, TState::T2, TState::T3, TState::T4, TState::TS]
    );
    assert_eq!(cpu.registers().pc, 1);
    assert_eq!(cpu.registers().le, 0x1000);
    assert_eq!(cpu.real_instruction_pointer(), 0);
}

#[test]
fn full_queue_stalls_the_fetch() {
    let mut cpu = I8088::new();
    assert_eq!(cpu.write_memory(4, 0xF9), Ok(()));
    for _ in 0..(6 * 4) {
        cpu.cycle();
    }
    assert_eq!(cpu.registers().pc, 4);
    assert_eq!(cpu.current_tstate(), TState::TS);
    let mut seen = Vec::new();
    for _ in 0..6 {
        cpu.cycle();
        seen.push(cpu.current_tstate());
    }
    assert_eq!(
        seen,
        vec![TState::T0, TState::T1, TState::T2, TState::T3, TState::T4, TState::TS]
    );
    assert_eq!(cpu.registers().pc, 4);
    assert_eq!(cpu.real_instruction_pointer(), 0);
    assert_eq!(
        cpu.advance(),
        Err(CpuError::Decode(DecodeError::UnimplementedOpcode(0x00)))
    );
    for _ in 0..6 {
        cpu.cycle();
    }
    assert_eq!(cpu.registers().pc, 5);
    assert_eq!(cpu.real_instruction_pointer(), 1);
}

#[test]
fn core_on_a_used_bus_takes_its_latch() {
    let mut bus = BusInterface::new();
    assert_eq!(bus.compute_physical_address(0x1234, 0x0001), 0x12341);
    let cpu = I8088::with_bus(bus);
    assert_eq!(cpu.registers().le, 0x12341);
    assert_eq!(cpu.registers().pc, 0);
}

#[test]
fn advance_executes_flag_instructions() {
    let mut cpu = I8088::new();
    for (i, op) in [0xF9u8, 0xFB, 0xFD, 0x90, 0xF5].iter().enumerate() {
        assert_eq!(cpu.write_memory(i, *op), Ok(()));
    }
    assert_eq!(cpu.advance(), Ok(CpuStatus::Okay));
    assert_eq!(cpu.registers().flags, 0x0001);
    assert_eq!(cpu.advance(), Ok(CpuStatus::Okay));
    assert_eq!(cpu.registers().flags, 0x0201);
    assert_eq!(cpu.advance(), Ok(CpuStatus::Okay));
    assert_eq!(cpu.registers().flags, 0x0601);
    assert_eq!(cpu.advance(), Ok(CpuStatus::Okay));
    assert_eq!(cpu.registers().flags, 0x0601);
    assert_eq!(cpu.advance(), Ok(CpuStatus::Okay));
    assert_eq!(cpu.registers().flags, 0x0600);
    assert_eq!(cpu.real_instruction_pointer(), 5);
}

#[test]
fn advance_uses_queued_bytes_first() {
    let mut cpu = I8088::new();
    assert_eq!(cpu.write_memory(0, 0xF9), Ok(()));
    assert_eq!(cpu.write_memory(1, 0xF8), Ok(()));
    for _ in 0..12 {
        cpu.cycle();
    }
    assert_eq!(cpu.registers().pc, 2);
    assert_eq!(cpu.advance(), Ok(CpuStatus::Okay));
    assert_eq!(cpu.registers().flags, 1);
    assert_eq!(cpu.registers().pc, 2);
    assert_eq!(cpu.real_instruction_pointer(), 1);
}

#[test]
fn advance_reports_decode_errors() {
    let mut cpu = I8088::new();
    assert_eq!(cpu.write_memory(0, 0x0F), Ok(()));
    assert_eq!(cpu.write_memory(1, 0x01), Ok(()));
    assert_eq!(
        cpu.advance(),
        Err(CpuError::Decode(DecodeError::UnknownOpcode(0x0F)))
    );
    assert_eq!(
        cpu.advance(),
        Err(CpuError::Decode(DecodeError::UnimplementedOpcode(0x01)))
    );
    assert_eq!(classify_opcode(0x90), OpcodeClass::Implemented);
    assert_eq!(classify_opcode(0x65), OpcodeClass::Unknown);
    assert_eq!(classify_opcode(0xE9), OpcodeClass::Unimplemented);
}

#[test]
fn breakpoint_consumes_nothing() {
    let mut cpu = I8088::new();
    assert_eq!(cpu.write_memory(0, 0xF9), Ok(()));
    for _ in 0..12 {
        cpu.cycle();
    }
    cpu.add_breakpoint(0);
    let before = cpu.registers();
    assert_eq!(cpu.advance(), Ok(CpuStatus::Breakpoint));
    assert_eq!(cpu.registers(), before);
    assert!(cpu.is_breakpoint());
    cpu.clear_breakpoints();
    assert!(!cpu.is_breakpoint());
    assert_eq!(cpu.advance(), Ok(CpuStatus::Okay));
    assert_eq!(cpu.registers().flags, 1);
}

#[test]
fn flush_keeps_the_real_instruction_pointer() {
    let mut cpu = I8088::new();
    for _ in 0..18 {
        cpu.cycle();
    }
    assert_eq!(cpu.registers().pc, 3);
    assert_eq!(
        cpu.advance(),
        Err(CpuError::Decode(DecodeError::UnimplementedOpcode(0x00)))
    );
    assert_eq!(cpu.real_instruction_pointer(), 1);
    cpu.flush_prefetch();
    assert_eq!(cpu.registers().pc, 1);
    assert_eq!(cpu.real_instruction_pointer(), 1);
}

#[test]
fn memory_is_one_mebibyte_and_zeroed() {
    let cpu = I8088::new();
    assert_eq!(cpu.read_memory(MEMORY_SIZE - 1), Ok(0));
    assert_eq!(cpu.read_memory(MEMORY_SIZE), Err(BusMemoryError::OutOfBounds));
}

#[test]
fn instruction_decode_and_status_texts() {
    let ins = Instruction::decode(0xF8);
    assert_eq!(ins.opcode, 0xF8);
    assert_eq!(ins.class, OpcodeClass::Implemented);
    assert_eq!(Instruction::decode(0xD6).class, OpcodeClass::Unknown);
    assert_eq!(CpuStatus::Breakpoint.to_string(), "Breakpoint hit.");
    assert_eq!(CpuStatus::Okay.to_string(), "Execution OK");
}
