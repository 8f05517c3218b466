use vstd::prelude::*;

verus! {

/// Operating state that the inverter reports.
#[derive(Debug, Clone, Copy, PartialEq, Eq, Structural)]
pub enum InverterState {
    Online,
    Offline,
    Alert,
}

impl InverterState {
    /// The numeric code of the state on the wire.
    pub open spec fn spec_code(self) -> u8 {
        match self {
            InverterState::Online => 1,
            InverterState::Offline => 2,
            InverterState::Alert => 3,
        }
    }

    pub fn code(&self) -> (r: u8)
        ensures
            r == self.spec_code(),
    {
        match self {
            InverterState::Online => 1,
            InverterState::Offline => 2,
            InverterState::Alert => 3,
        }
    }

    /// The state with the given wire code, if there is one.
    pub fn from_code(c: u8) -> (r: Option<InverterState>)
        ensures
            r matches Some(s) ==> s.spec_code() == c,
            r is None <==> !(1 <= c <= 3),
    {
        if c == 1 {
            Some(InverterState::Online)
        } else if c == 2 {
            Some(InverterState::Offline)
        } else if c == 3 {
            Some(InverterState::Alert)
        } else {
            None
        }
    }
}

/// A remote parameter of the inverter that can be read and written.
#[derive(Debug, Clone, Copy, PartialEq, Eq, Structural)]
pub enum InverterCommand {
    Time,
    AllowGridCharging,
}

impl InverterCommand {
    /// The vendor's command identifier.
    pub open spec fn spec_code(self) -> u8 {
        match self {
            InverterCommand::Time => 56,
            InverterCommand::AllowGridCharging => 109,
        }
    }

    pub fn code(&self) -> (r: u8)
        ensures
            r == self.spec_code(),
    {
        match self {
            InverterCommand::Time => 56,
            InverterCommand::AllowGridCharging => 109,
        }
    }
}

/// One entry of the inverter list.
#[derive(Debug, Clone)]
pub struct InverterBriefInfo {
    pub sn: String,
    pub id: String,
}

/// A telemetry snapshot, in fixed-point units: the battery charge in hundredths
/// of a percent and the grid voltage in millivolts.
#[derive(Debug, Clone, Copy, PartialEq, Eq, Structural)]
pub struct InverterDetailInfo {
    pub state: InverterState,
    pub battery_centi_percent: u32,
    pub u_ac1_millivolts: u32,
}

/// The failures of one control cycle.
#[derive(Debug, Clone, PartialEq, Eq)]
pub enum ApiError {
    /// Invalid or missing credentials or policy bounds.
    Configuration(String),
    /// Network, timeout or malformed response.
    Transport(String),
    /// The vendor answered with a non-success code; holds its message.
    RemoteApi(String),
    /// The device reports itself offline.
    DeviceUnreachable,
    /// The vendor asks for a polling protocol that is not implemented.
    UnsupportedResponseShape,
}

} // verus!
