use vstd::prelude::*;

verus! {

/// The operating mode of an indoor unit.
#[derive(Clone, Copy, Debug, PartialEq, Eq, Structural)]
pub enum IndoorUnitMode {
    Auto,
    Heat,
    Cool,
    Dry,
    Fan,
}

/// The fan speed of an indoor unit.
#[derive(Clone, Copy, Debug, PartialEq, Eq, Structural)]
pub enum IndoorUnitFanSpeed {
    Auto,
    Low,
    Medium,
    High,
}

/// The local, mutable state of one indoor unit: what "change settings"
/// commands write and "read status" commands report.
#[derive(Clone, Copy, Debug, PartialEq, Eq, Structural)]
pub struct IndoorUnitState {
    pub power: bool,
    pub mode: IndoorUnitMode,
    pub fan_speed: IndoorUnitFanSpeed,
    pub setpoint_temp: u8,
    pub defrost: bool,
    pub s_plasma_ion: bool,
    pub clean_filter: bool,
    pub humidifier: bool,
    pub oa_intake: bool,
    pub away_mds: bool,
}

} // verus!
