use vstd::prelude::*;

verus! {

/// Power state of the machine.
#[derive(Debug, Clone, Copy, PartialEq, Eq, Structural)]
pub enum MachineState {
    On,
    Off,
    Rebooting,
}

impl MachineState {
    pub fn to_string(&self) -> (r: String) {
        match self {
            MachineState::On => String::from_str("On"),
            MachineState::Off => String::from_str("Off"),
            MachineState::Rebooting => String::from_str("Rebooting"),
        }
    }
}

/// What the emulated processor is doing.
#[derive(Debug, Clone, Copy, PartialEq, Eq, Structural)]
pub enum ActivityState {
    Paused,
    Running,
    Breakpoint,
    SingleStep,
}

impl ActivityState {
    /// Can we resume from a paused state?
    pub fn can_resume(&self) -> (r: bool)
        ensures
            r == (*self == ActivityState::Paused),
    {
        matches!(self, ActivityState::Paused)
    }

    /// Can we pause the running machine?
    pub fn can_pause(&self) -> (r: bool)
        ensures
            r == (*self != ActivityState::Paused),
    {
        matches!(self, ActivityState::Running | ActivityState::Breakpoint | ActivityState::SingleStep)
    }

    /// Can we resume execution of a stopped machine?
    pub fn can_run(&self) -> (r: bool)
        ensures
            r == (*self == ActivityState::Breakpoint || *self == ActivityState::SingleStep),
    {
        matches!(self, ActivityState::Breakpoint | ActivityState::SingleStep)
    }

    /// Can we single-step the machine?
    pub fn can_step(&self) -> (r: bool)
        ensures
            r == (*self == ActivityState::Breakpoint || *self == ActivityState::SingleStep),
    {
        self.can_run()
    }

    pub fn to_string(&self) -> (r: String) {
        match self {
            ActivityState::Paused => String::from_str("Paused"),
            ActivityState::Running => String::from_str("Running"),
            ActivityState::Breakpoint => String::from_str("Breakpoint"),
            ActivityState::SingleStep => String::from_str("SingleStep"),
        }
    }
}

/// Operations that a front end asks of the machine.
#[derive(Debug, Clone, Copy, PartialEq, Eq, Structural)]
pub enum MachineOperation {
    Pause,
    Resume,
    Run,
    SingleStep,
    StepOver,
    StepInto,
    Reset,
}

impl MachineOperation {
    pub fn to_string(&self) -> (r: String) {
        match self {
            MachineOperation::Pause => String::from_str("Pause"),
            MachineOperation::Resume => String::from_str("Resume"),
            MachineOperation::Run => String::from_str("Run"),
            MachineOperation::SingleStep => String::from_str("SingleStep"),
            MachineOperation::StepOver => String::from_str("StepOver"),
            MachineOperation::StepInto => String::from_str("StepInto"),
            MachineOperation::Reset => String::from_str("Reset"),
        }
    }
}

/// The IBM 5150 machine: its power and activity states.
pub struct M5150 {
    mstate: MachineState,
    astate: ActivityState,
}

impl M5150 {
    pub closed spec fn machine_state(&self) -> MachineState {
        self.mstate
    }

    pub closed spec fn activity_state(&self) -> ActivityState {
        self.astate
    }

    /// A machine that is off and paused.
    pub fn new() -> (r: Self)
        ensures
            r.machine_state() == MachineState::Off,
            r.activity_state() == ActivityState::Paused,
    {
        M5150 { mstate: MachineState::Off, astate: ActivityState::Paused }
    }

    /// Powers the machine on and lets it run.
    pub fn start(&mut self)
        ensures
            final(self).machine_state() == MachineState::On,
            final(self).activity_state() == ActivityState::Running,
    {
        self.mstate = MachineState::On;
        self.astate = ActivityState::Running;
    }

    /// Powers the machine off; it is left paused.
    pub fn stop(&mut self)
        ensures
            final(self).machine_state() == MachineState::Off,
            final(self).activity_state() == ActivityState::Paused,
    {
        self.mstate = MachineState::Off;
        self.astate = ActivityState::Paused;
    }

    pub fn state(&self) -> (r: (MachineState, ActivityState))
        ensures
            r == (self.machine_state(), self.activity_state()),
    {
        (self.mstate, self.astate)
    }
}

} // verus!
