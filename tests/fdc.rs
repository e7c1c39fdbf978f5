use m5150::devices::{Device, PortMappedDevice};
use m5150::fdc::{
    Command, OperationPhase, COMMAND_READ_DATA, COMMAND_SENSE_INTERRUPT_STATUS, COMMAND_SPECIFY,
    FDC_STATUS_DATA_INPUT, FDC_STATUS_FDC_BUSY, FDC_STATUS_REQUEST_FOR_MASTER, PORT_DIGITAL_OUTPUT_REG,
    PORT_FDC_DATA_REG, PORT_FDC_MAIN_STATUS_REG, UPD765,
};
use m5150::machine::{ActivityState, MachineState, M5150};

#[test]
fn specify_walks_the_phases() {
    let mut fdc = UPD765::new();
    assert_eq!(fdc.phase(), OperationPhase::Idle);
    fdc.write_8(PORT_FDC_DATA_REG, COMMAND_SPECIFY);
    assert_eq!(fdc.phase(), OperationPhase::Command);
    assert_eq!(fdc.active_command().cmd, Command::Specify);
    assert_eq!(fdc.active_command().param, 2);
    fdc.write_8(PORT_FDC_DATA_REG, 0xAF);
    assert_eq!(fdc.phase(), OperationPhase::Command);
    fdc.write_8(PORT_FDC_DATA_REG, 0x02);
    assert_eq!(fdc.phase(), OperationPhase::Execution);
    fdc.write_8(PORT_FDC_DATA_REG, 0x00);
    assert_eq!(fdc.phase(), OperationPhase::Result);
}

#[test]
fn execution_is_triggered_by_a_read_too() {
    let mut fdc = UPD765::new();
    fdc.dispatch_data_register_write(COMMAND_SPECIFY);
    fdc.dispatch_data_register_write(1);
    fdc.dispatch_data_register_write(2);
    assert_eq!(fdc.phase(), OperationPhase::Execution);
    assert_eq!(fdc.read_8(PORT_FDC_DATA_REG), 1);
    assert_eq!(fdc.phase(), OperationPhase::Result);
}

#[test]
fn sector_size_lookup() {
    assert_eq!(UPD765::calculate_sector_size(0), Some(128));
    assert_eq!(UPD765::calculate_sector_size(1), Some(256));
    assert_eq!(UPD765::calculate_sector_size(2), Some(512));
    assert_eq!(UPD765::calculate_sector_size(3), Some(1024));
    assert_eq!(UPD765::calculate_sector_size(4), None);
    assert_eq!(UPD765::calculate_sector_size(0xFF), None);
}

#[test]
fn read_data_takes_eight_parameters_and_sizes_sectors() {
    let mut fdc = UPD765::new();
    fdc.write_8(PORT_FDC_DATA_REG, 0xE0 | COMMAND_READ_DATA);
    assert_eq!(fdc.active_command().cmd, Command::ReadData);
    for (i, p) in [0x01u8, 0, 0, 1, 2, 9, 0x2A, 0xFF].iter().enumerate() {
        assert_eq!(fdc.phase(), OperationPhase::Command);
        assert_eq!(fdc.active_command().param, 8 - i as u8);
        fdc.write_8(PORT_FDC_DATA_REG, *p);
    }
    assert_eq!(fdc.phase(), OperationPhase::Execution);
    assert_eq!(fdc.read_8(PORT_FDC_DATA_REG), 0x01);
    assert_eq!(fdc.sector_size(), Some(512));
}

#[test]
fn invalid_size_code_gives_no_sector_size() {
    let mut fdc = UPD765::new();
    fdc.write_8(PORT_FDC_DATA_REG, COMMAND_READ_DATA);
    for p in [0u8, 0, 0, 1, 7, 9, 0x2A, 0xFF] {
        fdc.write_8(PORT_FDC_DATA_REG, p);
    }
    fdc.write_8(PORT_FDC_DATA_REG, 0);
    assert_eq!(fdc.phase(), OperationPhase::Result);
    assert_eq!(fdc.sector_size(), None);
}

#[test]
fn invalid_opcode_is_rejected() {
    let mut fdc = UPD765::new();
    fdc.write_8(PORT_FDC_DATA_REG, 0x1F);
    assert_eq!(fdc.phase(), OperationPhase::Idle);
    assert_eq!(fdc.active_command().cmd, Command::Invalid);
    fdc.write_8(PORT_FDC_DATA_REG, 0x00);
    assert_eq!(fdc.phase(), OperationPhase::Idle);
}

#[test]
fn command_without_parameters_goes_to_execution() {
    let mut fdc = UPD765::new();
    fdc.write_8(PORT_FDC_DATA_REG, COMMAND_SENSE_INTERRUPT_STATUS);
    assert_eq!(fdc.phase(), OperationPhase::Execution);
    assert_eq!(fdc.read_8(PORT_FDC_DATA_REG), 0);
    assert_eq!(fdc.phase(), OperationPhase::Result);
}

#[test]
fn result_phase_restarts_on_the_next_command() {
    let mut fdc = UPD765::new();
    fdc.write_8(PORT_FDC_DATA_REG, COMMAND_SENSE_INTERRUPT_STATUS);
    fdc.write_8(PORT_FDC_DATA_REG, 0);
    assert_eq!(fdc.phase(), OperationPhase::Result);
    fdc.write_8(PORT_FDC_DATA_REG, COMMAND_SPECIFY);
    assert_eq!(fdc.phase(), OperationPhase::Command);
    assert_eq!(fdc.active_command().cmd, Command::Specify);
}

#[test]
fn main_status_follows_the_phase() {
    let mut fdc = UPD765::new();
    assert_eq!(fdc.read_8(PORT_FDC_MAIN_STATUS_REG), FDC_STATUS_REQUEST_FOR_MASTER);
    fdc.write_8(PORT_FDC_DATA_REG, COMMAND_SPECIFY);
    assert_eq!(
        fdc.read_8(PORT_FDC_MAIN_STATUS_REG),
        FDC_STATUS_REQUEST_FOR_MASTER | FDC_STATUS_FDC_BUSY
    );
    fdc.write_8(PORT_FDC_DATA_REG, 0);
    fdc.write_8(PORT_FDC_DATA_REG, 0);
    fdc.write_8(PORT_FDC_DATA_REG, 0);
    assert_eq!(
        fdc.read_8(PORT_FDC_MAIN_STATUS_REG),
        FDC_STATUS_REQUEST_FOR_MASTER | FDC_STATUS_DATA_INPUT | FDC_STATUS_FDC_BUSY
    );
    assert_eq!(fdc.read_8(0x3F0), 0);
}

#[test]
fn ports_and_digital_output_register() {
    let mut fdc = UPD765::new();
    assert_eq!(fdc.ports(), vec![0x3F2, 0x3F4, 0x3F5]);
    fdc.write_8(PORT_DIGITAL_OUTPUT_REG, 0x1C);
    assert_eq!(fdc.phase(), OperationPhase::Idle);
    assert_eq!(fdc.debug_info(), "FDC phase: idle");
}

#[test]
fn machine_activity_predicates() {
    assert!(ActivityState::Paused.can_resume());
    assert!(!ActivityState::Paused.can_pause());
    assert!(ActivityState::Running.can_pause());
    assert!(!ActivityState::Running.can_run());
    assert!(ActivityState::Breakpoint.can_run());
    assert!(ActivityState::SingleStep.can_step());
    let mut m = M5150::new();
    m.start();
    assert_eq!(m.state(), (MachineState::On, ActivityState::Running));
    m.stop();
    assert_eq!(m.state(), (MachineState::Off, ActivityState::Paused));
    assert_eq!(ActivityState::SingleStep.to_string(), "SingleStep");
}

#[test]
fn default_controller_is_idle_and_cycle_changes_nothing() {
    let mut fdc = UPD765::default();
    assert_eq!(fdc.phase(), OperationPhase::Idle);
    assert_eq!(fdc.active_command().cmd, Command::Invalid);
    fdc.write_8(PORT_FDC_DATA_REG, COMMAND_SPECIFY);
    fdc.cycle();
    assert_eq!(fdc.phase(), OperationPhase::Command);
    assert_eq!(fdc.active_command().param, 2);
}
