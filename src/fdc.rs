use crate::devices::{Device, PortMappedDevice};
use vstd::prelude::*;

verus! {

/// Data register: command, parameter and result bytes.
pub const PORT_FDC_DATA_REG: u16 = 0x3F5;

/// Main status register.
pub const PORT_FDC_MAIN_STATUS_REG: u16 = 0x3F4;

/// Digital output register.
pub const PORT_DIGITAL_OUTPUT_REG: u16 = 0x3F2;

/// Only the low 5 bits of a command byte select the command.
pub const FDC_COMMAND_MASK: u8 = 0b0001_1111;

/// Four 5-1/4" diskette drives (two internal, two external).
pub const FDC_MAX_DRIVES: u8 = 0x04;

// Digital output register: bits 1..0 select a drive whose motor is on.
pub const DOR_DRIVE_SELECT_A: u8 = 0b0000_0000;
pub const DOR_DRIVE_SELECT_B: u8 = 0b0000_0001;
pub const DOR_DRIVE_SELECT_C: u8 = 0b0000_0010;
pub const DOR_DRIVE_SELECT_D: u8 = 0b0000_0011;
/// The controller is held in reset while this bit is clear.
pub const DOR_FDC_HELD_RESET: u8 = 0b0000_0100;
/// Gates the controller's interrupt and DMA requests onto the I/O interface.
pub const DOR_FDC_DMA_ACTIVE: u8 = 0b0000_1000;
/// Motor enables of drives A, B, C and D.
pub const DOR_DRIVE_MOTOR_A: u8 = 0b0001_0000;
pub const DOR_DRIVE_MOTOR_B: u8 = 0b0010_0000;
pub const DOR_DRIVE_MOTOR_C: u8 = 0b0100_0000;
pub const DOR_DRIVE_MOTOR_D: u8 = 0b1000_0000;

// Main status register: bits 3..0 tell which drives are seeking.
pub const FDC_STATUS_FDD_BUSY_A: u8 = 0b0000_0001;
pub const FDC_STATUS_FDD_BUSY_B: u8 = 0b0000_0010;
pub const FDC_STATUS_FDD_BUSY_C: u8 = 0b0000_0100;
pub const FDC_STATUS_FDD_BUSY_D: u8 = 0b0000_1000;
/// A command is in progress.
pub const FDC_STATUS_FDC_BUSY: u8 = 0b0001_0000;
/// The controller is in non-DMA mode.
pub const FDC_STATUS_NON_DMA_MODE: u8 = 0b0010_0000;
/// Set when data moves from the controller to the processor.
pub const FDC_STATUS_DATA_INPUT: u8 = 0b0100_0000;
/// The data register is ready for a transfer.
pub const FDC_STATUS_REQUEST_FOR_MASTER: u8 = 0b1000_0000;

pub const COMMAND_READ_DATA: u8 = 0b0000_0110;
pub const COMMAND_READ_DELETED_DATA: u8 = 0b0000_1100;
pub const COMMAND_WRITE_DATA: u8 = 0b0000_0101;
pub const COMMAND_WRITE_DELETED_DATA: u8 = 0b0000_1001;
pub const COMMAND_READ_TRACK: u8 = 0b0000_0010;
pub const COMMAND_READ_ID: u8 = 0b0000_1010;
pub const COMMAND_FORMAT_TRACK: u8 = 0b0000_1101;
pub const COMMAND_SCAN_EQUAL: u8 = 0b0001_0001;
pub const COMMAND_SCAN_LOW_OR_EQUAL: u8 = 0b0001_1001;
pub const COMMAND_SCAN_HIGH_OR_EQUAL: u8 = 0b0001_1101;
pub const COMMAND_RECALIBRATE: u8 = 0b0000_0111;
pub const COMMAND_SENSE_INTERRUPT_STATUS: u8 = 0b0000_1000;
pub const COMMAND_SPECIFY: u8 = 0b0000_0011;
pub const COMMAND_SENSE_DRIVE_STATUS: u8 = 0b0000_0100;
pub const COMMAND_SEEK: u8 = 0b0000_1111;

/// Direction of a data transfer.
#[derive(Debug, Clone, Copy, PartialEq, Eq, Structural)]
pub enum IoDirection {
    FdcToCpu,
    CpuToFdc,
}

/// Phase of the command protocol.
#[derive(Debug, Clone, Copy, PartialEq, Eq, Structural)]
pub enum OperationPhase {
    /// No command selected; the next data byte is a command opcode.
    Idle,
    /// The controller receives the parameters of the selected command.
    Command,
    /// The controller performs the operation it was instructed to do.
    Execution,
    /// Status and other information are made available to the processor.
    Result,
}

/// The commands of the controller.
#[derive(Debug, Clone, Copy, PartialEq, Eq, Structural)]
pub enum Command {
    ReadData,
    ReadDeletedData,
    WriteData,
    WriteDeletedData,
    ReadTrack,
    ReadId,
    FormatTrack,
    ScanEqual,
    ScanLowOrEqual,
    ScanHighOrEqual,
    Recalibrate,
    SenseInterruptStatus,
    Specify,
    SenseDriveStatus,
    Seek,
    Invalid,
}

/// The command that the low 5 bits `code` of a command byte select.
pub open spec fn command_of_code(code: u8) -> Command {
    if code == COMMAND_READ_DATA {
        Command::ReadData
    } else if code == COMMAND_READ_DELETED_DATA {
        Command::ReadDeletedData
    } else if code == COMMAND_WRITE_DATA {
        Command::WriteData
    } else if code == COMMAND_WRITE_DELETED_DATA {
        Command::WriteDeletedData
    } else if code == COMMAND_READ_TRACK {
        Command::ReadTrack
    } else if code == COMMAND_READ_ID {
        Command::ReadId
    } else if code == COMMAND_FORMAT_TRACK {
        Command::FormatTrack
    } else if code == COMMAND_SCAN_EQUAL {
        Command::ScanEqual
    } else if code == COMMAND_SCAN_LOW_OR_EQUAL {
        Command::ScanLowOrEqual
    } else if code == COMMAND_SCAN_HIGH_OR_EQUAL {
        Command::ScanHighOrEqual
    } else if code == COMMAND_RECALIBRATE {
        Command::Recalibrate
    } else if code == COMMAND_SENSE_INTERRUPT_STATUS {
        Command::SenseInterruptStatus
    } else if code == COMMAND_SPECIFY {
        Command::Specify
    } else if code == COMMAND_SENSE_DRIVE_STATUS {
        Command::SenseDriveStatus
    } else if code == COMMAND_SEEK {
        Command::Seek
    } else {
        Command::Invalid
    }
}

/// Parameter bytes that command `c` expects after its opcode.
pub open spec fn param_count_of(c: Command) -> u8 {
    match c {
        Command::ReadId | Command::Recalibrate | Command::SenseDriveStatus | Command::Seek => 1,
        Command::Specify => 2,
        Command::FormatTrack => 5,
        Command::SenseInterruptStatus | Command::Invalid => 0,
        _ => 8,
    }
}

/// Bytes per sector for the size code `code`: 128 shifted left by the code,
/// for codes 0 to 3; no size for any other code.
pub open spec fn sector_size_of(code: u8) -> Option<u16> {
    if code == 0 {
        Some(128u16)
    } else if code == 1 {
        Some(256u16)
    } else if code == 2 {
        Some(512u16)
    } else if code == 3 {
        Some(1024u16)
    } else {
        None
    }
}

/// Position of the sector size code among the parameters of command `c`,
/// for the commands that carry one.
pub open spec fn size_code_index(c: Command) -> Option<int> {
    match c {
        Command::ReadData | Command::ReadDeletedData | Command::WriteData
        | Command::WriteDeletedData | Command::ReadTrack | Command::ScanEqual
        | Command::ScanLowOrEqual | Command::ScanHighOrEqual => Some(4int),
        Command::FormatTrack => Some(1int),
        _ => None,
    }
}

/// First result byte: the unit that the first parameter selects, with normal
/// termination; zero for a command without parameters.
pub open spec fn result_status_of(params: Seq<u8>) -> u8 {
    if params.len() > 0 {
        params[0] & 0x03
    } else {
        0
    }
}

/// The command in flight and the parameter bytes it still expects.
#[derive(Debug, Clone, Copy, PartialEq, Eq, Structural)]
pub struct FdcCommand {
    pub cmd: Command,
    pub param: u8,
}

impl FdcCommand {
    pub fn new() -> (r: Self)
        ensures
            r == (FdcCommand { cmd: Command::Invalid, param: 0 }),
    {
        FdcCommand { cmd: Command::Invalid, param: 0 }
    }
}

/// The controller's state as plain values, without the parameter bytes.
#[derive(Debug, Clone, Copy, PartialEq, Eq, Structural)]
pub struct FdcState {
    pub phase: OperationPhase,
    pub command: FdcCommand,
    /// Last value written to the digital output register.
    pub dor: u8,
    /// The byte the data register offers in the result phase.
    pub data: u8,
    /// Sector size that the last executed command selected, if it carried a valid one.
    pub sector_size: Option<u16>,
}

/// The state after the bound operation of the command in flight has run on
/// the parameter bytes `params`.
pub open spec fn executed(s: FdcState, params: Seq<u8>) -> FdcState {
    FdcState {
        phase: OperationPhase::Result,
        data: result_status_of(params),
        sector_size: match size_code_index(s.command.cmd) {
            Some(i) => if 0 <= i < params.len() {
                sector_size_of(params[i])
            } else {
                None
            },
            None => None,
        },
        ..s
    }
}

/// The state after command byte `val` arrives with no command in flight.
pub open spec fn selected(s: FdcState, val: u8) -> FdcState {
    let c = command_of_code(val & FDC_COMMAND_MASK);
    if c == Command::Invalid {
        FdcState { phase: OperationPhase::Idle, ..s }
    } else {
        FdcState {
            phase: if param_count_of(c) == 0 {
                OperationPhase::Execution
            } else {
                OperationPhase::Command
            },
            command: FdcCommand { cmd: c, param: param_count_of(c) },
            ..s
        }
    }
}

/// The state after `val` is written to the data register.
pub open spec fn after_data_write(s: FdcState, params: Seq<u8>, val: u8) -> FdcState {
    match s.phase {
        OperationPhase::Command => FdcState {
            phase: if s.command.param == 1 {
                OperationPhase::Execution
            } else {
                OperationPhase::Command
            },
            command: FdcCommand { param: (s.command.param - 1) as u8, ..s.command },
            ..s
        },
        OperationPhase::Execution => executed(s, params),
        _ => selected(s, val),
    }
}

/// The parameter bytes after `val` is written to the data register.
pub open spec fn params_after_data_write(s: FdcState, params: Seq<u8>, val: u8) -> Seq<u8> {
    match s.phase {
        OperationPhase::Command => params.push(val),
        OperationPhase::Execution => params,
        _ => if command_of_code(val & FDC_COMMAND_MASK) == Command::Invalid {
            params
        } else {
            Seq::<u8>::empty()
        },
    }
}

/// The state after the data register is read.
pub open spec fn after_data_read(s: FdcState, params: Seq<u8>) -> FdcState {
    if s.phase == OperationPhase::Execution {
        executed(s, params)
    } else {
        s
    }
}

/// The main status register in phase `p`: always ready for a transfer, busy
/// while a command is in flight, and reporting controller-to-processor
/// direction in the result phase.
pub open spec fn main_status_of(p: OperationPhase) -> u8 {
    match p {
        OperationPhase::Idle => FDC_STATUS_REQUEST_FOR_MASTER,
        OperationPhase::Result => (FDC_STATUS_REQUEST_FOR_MASTER | FDC_STATUS_DATA_INPUT
            | FDC_STATUS_FDC_BUSY) as u8,
        _ => (FDC_STATUS_REQUEST_FOR_MASTER | FDC_STATUS_FDC_BUSY) as u8,
    }
}

/// The uPD765 floppy disk controller.
pub struct UPD765 {
    data_register: u8,
    dor: u8,
    phase: OperationPhase,
    command: FdcCommand,
    params: Vec<u8>,
    sector_size: Option<u16>,
}

impl View for UPD765 {
    type V = FdcState;

    closed spec fn view(&self) -> FdcState {
        FdcState {
            phase: self.phase,
            command: self.command,
            dor: self.dor,
            data: self.data_register,
            sector_size: self.sector_size,
        }
    }
}

impl UPD765 {
    /// The parameter bytes received for the command in flight.
    pub closed spec fn params(&self) -> Seq<u8> {
        self.params@
    }

    /// The protocol invariant: while parameters are awaited, the bytes
    /// received and those still expected add up to the command's count; in
    /// the execution phase all of them have arrived.
    pub open spec fn wf(&self) -> bool {
        let s = self@;
        &&& s.phase == OperationPhase::Command ==> s.command.param > 0 && self.params().len()
            + s.command.param == param_count_of(s.command.cmd)
        &&& s.phase == OperationPhase::Execution ==> s.command.param == 0 && self.params().len()
            == param_count_of(s.command.cmd)
    }

    pub fn new() -> (r: Self)
        ensures
            r.wf(),
            r@ == (FdcState {
                phase: OperationPhase::Idle,
                command: FdcCommand { cmd: Command::Invalid, param: 0 },
                dor: 0,
                data: 0,
                sector_size: None,
            }),
            r.params() == Seq::<u8>::empty(),
    {
        UPD765 {
            data_register: 0,
            dor: 0,
            phase: OperationPhase::Idle,
            command: FdcCommand::new(),
            params: Vec::new(),
            sector_size: None,
        }
    }

    pub fn phase(&self) -> (r: OperationPhase)
        ensures
            r == self@.phase,
    {
        self.phase
    }

    pub fn active_command(&self) -> (r: FdcCommand)
        ensures
            r == self@.command,
    {
        self.command
    }

    pub fn sector_size(&self) -> (r: Option<u16>)
        ensures
            r == self@.sector_size,
    {
        self.sector_size
    }

    /// Bytes per sector for the size code `val`; `None` for a code above 3.
    pub fn calculate_sector_size(val: u8) -> (r: Option<u16>)
        ensures
            r == sector_size_of(val),
    {
        match val {
            0 => Some(128),
            1 => Some(256),
            2 => Some(512),
            3 => Some(1024),
            _ => None,
        }
    }

    /// Looks up the command that a command byte selects.
    pub fn decode_command(val: u8) -> (r: Command)
        ensures
            r == command_of_code(val & FDC_COMMAND_MASK),
    {
        let code = val & FDC_COMMAND_MASK;
        if code == COMMAND_READ_DATA {
            Command::ReadData
        } else if code == COMMAND_READ_DELETED_DATA {
            Command::ReadDeletedData
        } else if code == COMMAND_WRITE_DATA {
            Command::WriteData
        } else if code == COMMAND_WRITE_DELETED_DATA {
            Command::WriteDeletedData
        } else if code == COMMAND_READ_TRACK {
            Command::ReadTrack
        } else if code == COMMAND_READ_ID {
            Command::ReadId
        } else if code == COMMAND_FORMAT_TRACK {
            Command::FormatTrack
        } else if code == COMMAND_SCAN_EQUAL {
            Command::ScanEqual
        } else if code == COMMAND_SCAN_LOW_OR_EQUAL {
            Command::ScanLowOrEqual
        } else if code == COMMAND_SCAN_HIGH_OR_EQUAL {
            Command::ScanHighOrEqual
        } else if code == COMMAND_RECALIBRATE {
            Command::Recalibrate
        } else if code == COMMAND_SENSE_INTERRUPT_STATUS {
            Command::SenseInterruptStatus
        } else if code == COMMAND_SPECIFY {
            Command::Specify
        } else if code == COMMAND_SENSE_DRIVE_STATUS {
            Command::SenseDriveStatus
        } else if code == COMMAND_SEEK {
            Command::Seek
        } else {
            Command::Invalid
        }
    }

    /// Parameter bytes that command `c` expects.
    pub fn param_count(c: Command) -> (r: u8)
        ensures
            r == param_count_of(c),
    {
        match c {
            Command::ReadId | Command::Recalibrate | Command::SenseDriveStatus | Command::Seek => 1,
            Command::Specify => 2,
            Command::FormatTrack => 5,
            Command::SenseInterruptStatus | Command::Invalid => 0,
            _ => 8,
        }
    }

    /// Selects `cmd`, expecting `param` parameter bytes.
    fn set_active_command(&mut self, cmd: Command, param: u8)
        requires
            param == param_count_of(cmd),
        ensures
            final(self)@ == (FdcState {
                phase: if param == 0 {
                    OperationPhase::Execution
                } else {
                    OperationPhase::Command
                },
                command: FdcCommand { cmd, param },
                ..old(self)@
            }),
            final(self).params() == Seq::<u8>::empty(),
            final(self).wf(),
    {
        self.command = FdcCommand { cmd, param };
        self.params = Vec::new();
        self.phase = if param == 0 {
            OperationPhase::Execution
        } else {
            OperationPhase::Command
        };
    }

    /// The sector size that the parameter at `idx` selects, if present.
    fn size_from_param(&self, idx: usize) -> (r: Option<u16>)
        ensures
            r == (if idx < self.params().len() {
                sector_size_of(self.params()[idx as int])
            } else {
                None
            }),
    {
        if idx < self.params.len() {
            UPD765::calculate_sector_size(self.params[idx])
        } else {
            None
        }
    }

    /// Runs the bound operation of the command in flight and enters the
    /// result phase.
    fn execute_command(&mut self)
        requires
            old(self).wf(),
        ensures
            final(self)@ == executed(old(self)@, old(self).params()),
            final(self).params() == old(self).params(),
            final(self).wf(),
    {
        self.sector_size = match self.command.cmd {
            Command::ReadData | Command::ReadDeletedData | Command::WriteData
            | Command::WriteDeletedData | Command::ReadTrack | Command::ScanEqual
            | Command::ScanLowOrEqual | Command::ScanHighOrEqual => self.size_from_param(4),
            Command::FormatTrack => self.size_from_param(1),
            _ => None,
        };
        self.data_register = if self.params.len() > 0 {
            self.params[0] & 0x03
        } else {
            0
        };
        self.phase = OperationPhase::Result;
    }

    /// Handles a byte written to the data register: a command opcode when no
    /// command is in flight (or the last one has delivered its result), a
    /// parameter byte in the command phase, and the trigger of the bound
    /// operation in the execution phase. An opcode that selects no command is
    /// rejected and leaves the controller idle.
    pub fn dispatch_data_register_write(&mut self, val: u8)
        requires
            old(self).wf(),
        ensures
            final(self).wf(),
            final(self)@ == after_data_write(old(self)@, old(self).params(), val),
            final(self).params() == params_after_data_write(old(self)@, old(self).params(), val),
    {
        match self.phase {
            OperationPhase::Command => {
                self.params.push(val);
                self.command.param = self.command.param - 1;
                if self.command.param == 0 {
                    self.phase = OperationPhase::Execution;
                }
            },
            OperationPhase::Execution => {
                self.execute_command();
            },
            _ => {
                let cmd = UPD765::decode_command(val);
                match cmd {
                    Command::Invalid => {
                        self.phase = OperationPhase::Idle;
                    },
                    _ => {
                        let n = UPD765::param_count(cmd);
                        self.set_active_command(cmd, n);
                    },
                }
            },
        }
    }

    /// The main status register.
    pub fn main_status(&self) -> (r: u8)
        ensures
            r == main_status_of(self@.phase),
    {
        match self.phase {
            OperationPhase::Idle => FDC_STATUS_REQUEST_FOR_MASTER,
            OperationPhase::Result => FDC_STATUS_REQUEST_FOR_MASTER | FDC_STATUS_DATA_INPUT
                | FDC_STATUS_FDC_BUSY,
            _ => FDC_STATUS_REQUEST_FOR_MASTER | FDC_STATUS_FDC_BUSY,
        }
    }

    /// Handles a read of the data register: in the execution phase it runs
    /// the bound operation first; it returns the data register.
    pub fn dispatch_data_register_read(&mut self) -> (r: u8)
        requires
            old(self).wf(),
        ensures
            final(self).wf(),
            final(self)@ == after_data_read(old(self)@, old(self).params()),
            final(self).params() == old(self).params(),
            r == final(self)@.data,
    {
        if self.phase == OperationPhase::Execution {
            self.execute_command();
        }
        self.data_register
    }

    /// Handles a write to port `port`: the data register goes through the
    /// command protocol, the digital output register is stored, other ports
    /// are ignored.
    pub fn write_port(&mut self, port: u16, val: u8)
        requires
            old(self).wf(),
        ensures
            final(self).wf(),
            port == PORT_FDC_DATA_REG ==> final(self)@ == after_data_write(
                old(self)@,
                old(self).params(),
                val,
            ) && final(self).params() == params_after_data_write(
                old(self)@,
                old(self).params(),
                val,
            ),
            port == PORT_DIGITAL_OUTPUT_REG ==> final(self)@ == (FdcState { dor: val, ..old(self)@ })
                && final(self).params() == old(self).params(),
            port != PORT_FDC_DATA_REG && port != PORT_DIGITAL_OUTPUT_REG ==> final(self)@ == old(
                self,
            )@ && final(self).params() == old(self).params(),
    {
        if port == PORT_FDC_DATA_REG {
            self.dispatch_data_register_write(val);
        } else if port == PORT_DIGITAL_OUTPUT_REG {
            self.dor = val;
        }
    }

    /// Handles a read of port `port`: the main status register, the data
    /// register, or zero for any other port.
    pub fn read_port(&mut self, port: u16) -> (r: u8)
        requires
            old(self).wf(),
        ensures
            final(self).wf(),
            port == PORT_FDC_DATA_REG ==> final(self)@ == after_data_read(
                old(self)@,
                old(self).params(),
            ) && r == final(self)@.data,
            port == PORT_FDC_MAIN_STATUS_REG ==> final(self)@ == old(self)@ && r == main_status_of(
                old(self)@.phase,
            ),
            port != PORT_FDC_DATA_REG && port != PORT_FDC_MAIN_STATUS_REG ==> final(self)@ == old(
                self,
            )@ && r == 0,
            final(self).params() == old(self).params(),
    {
        if port == PORT_FDC_DATA_REG {
            self.dispatch_data_register_read()
        } else if port == PORT_FDC_MAIN_STATUS_REG {
            self.main_status()
        } else {
            0
        }
    }
}

impl Default for UPD765 {
    fn default() -> (r: Self)
        ensures
            r.wf(),
            r@ == (FdcState {
                phase: OperationPhase::Idle,
                command: FdcCommand { cmd: Command::Invalid, param: 0 },
                dor: 0,
                data: 0,
                sector_size: None,
            }),
            r.params() == Seq::<u8>::empty(),
    {
        UPD765::new()
    }
}

impl Device for UPD765 {
    open spec fn device_wf(&self) -> bool {
        self.wf()
    }

    /// The controller makes no progress of its own between port accesses:
    /// its operations complete on the access that triggers them.
    fn cycle(&mut self)
        ensures
            final(self)@ == old(self)@,
            final(self).params() == old(self).params(),
    {
    }
}

impl PortMappedDevice for UPD765 {
    open spec fn port_wf(&self) -> bool {
        self.wf()
    }

    open spec fn owned_ports(&self) -> Seq<u16> {
        seq![PORT_DIGITAL_OUTPUT_REG, PORT_FDC_MAIN_STATUS_REG, PORT_FDC_DATA_REG]
    }

    fn write_8(&mut self, port: u16, val: u8)
        ensures
            port == PORT_FDC_DATA_REG ==> final(self)@ == after_data_write(
                old(self)@,
                old(self).params(),
                val,
            ) && final(self).params() == params_after_data_write(
                old(self)@,
                old(self).params(),
                val,
            ),
            port == PORT_DIGITAL_OUTPUT_REG ==> final(self)@ == (FdcState { dor: val, ..old(self)@ })
                && final(self).params() == old(self).params(),
            port != PORT_FDC_DATA_REG && port != PORT_DIGITAL_OUTPUT_REG ==> final(self)@ == old(
                self,
            )@ && final(self).params() == old(self).params(),
    {
        self.write_port(port, val);
    }

    fn read_8(&mut self, port: u16) -> (r: u8)
        ensures
            port == PORT_FDC_DATA_REG ==> final(self)@ == after_data_read(
                old(self)@,
                old(self).params(),
            ) && r == final(self)@.data,
            port == PORT_FDC_MAIN_STATUS_REG ==> final(self)@ == old(self)@ && r == main_status_of(
                old(self)@.phase,
            ),
            port != PORT_FDC_DATA_REG && port != PORT_FDC_MAIN_STATUS_REG ==> final(self)@ == old(
                self,
            )@ && r == 0,
            final(self).params() == old(self).params(),
    {
        self.read_port(port)
    }

    fn ports(&self) -> (r: Vec<u16>) {
        vec![PORT_DIGITAL_OUTPUT_REG, PORT_FDC_MAIN_STATUS_REG, PORT_FDC_DATA_REG]
    }

    fn debug_info(&self) -> String {
        match self.phase {
            OperationPhase::Idle => String::from_str("FDC phase: idle"),
            OperationPhase::Command => String::from_str("FDC phase: command"),
            OperationPhase::Execution => String::from_str("FDC phase: execution"),
            OperationPhase::Result => String::from_str("FDC phase: result"),
        }
    }
}

/// Phase law of `Specify`: from an idle controller (or one showing a
/// result), the opcode 0x03 selects `Specify` and enters the command phase
/// expecting 2 parameters; the first parameter keeps it there, the second
/// moves it to the execution phase with both bytes kept in order; the next
/// write or read of the data register runs the bound operation and enters
/// the result phase.
pub proof fn lemma_specify_phases(s: FdcState, params: Seq<u8>, p1: u8, p2: u8, x: u8)
    requires
        s.phase == OperationPhase::Idle || s.phase == OperationPhase::Result,
    ensures
        ({
            let s1 = after_data_write(s, params, COMMAND_SPECIFY);
            let q1 = params_after_data_write(s, params, COMMAND_SPECIFY);
            let s2 = after_data_write(s1, q1, p1);
            let q2 = params_after_data_write(s1, q1, p1);
            let s3 = after_data_write(s2, q2, p2);
            let q3 = params_after_data_write(s2, q2, p2);
            &&& s1.phase == OperationPhase::Command
            &&& s1.command == (FdcCommand { cmd: Command::Specify, param: 2 })
            &&& s2.phase == OperationPhase::Command
            &&& s2.command.param == 1
            &&& s3.phase == OperationPhase::Execution
            &&& q3 == seq![p1, p2]
            &&& after_data_write(s3, q3, x).phase == OperationPhase::Result
            &&& after_data_read(s3, q3).phase == OperationPhase::Result
        }),
{
    assert(COMMAND_SPECIFY & FDC_COMMAND_MASK == COMMAND_SPECIFY) by (bit_vector);
    let q1 = params_after_data_write(s, params, COMMAND_SPECIFY);
    assert(q1 == Seq::<u8>::empty());
    assert(q1.push(p1).push(p2) =~= seq![p1, p2]);
}

} // verus!
