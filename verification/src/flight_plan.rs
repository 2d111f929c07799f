//! The status and the priority of a flight, with their wire numbers and
//! names.

use vstd::prelude::*;

verus! {

/// The status of a flight.
#[derive(Clone, Copy, Debug, PartialEq, Eq, Hash, PartialOrd, Ord, Structural)]
pub enum FlightStatus {
    Ready,
    Boarding,
    InFlight,
    Finished,
    Cancelled,
    Draft,
}

/// The priority of a flight.
#[derive(Clone, Copy, Debug, PartialEq, Eq, Hash, PartialOrd, Ord, Structural)]
pub enum FlightPriority {
    Low,
    High,
    Emergency,
}

impl FlightStatus {
    /// The name of the status in the wire protocol.
    pub open spec fn name(self) -> Seq<char> {
        match self {
            FlightStatus::Ready => "READY"@,
            FlightStatus::Boarding => "BOARDING"@,
            FlightStatus::InFlight => "IN_FLIGHT"@,
            FlightStatus::Finished => "FINISHED"@,
            FlightStatus::Cancelled => "CANCELLED"@,
            FlightStatus::Draft => "DRAFT"@,
        }
    }

    /// The number of the status in the wire protocol. There is no status 2.
    pub open spec fn number(self) -> i32 {
        match self {
            FlightStatus::Ready => 0i32,
            FlightStatus::Boarding => 1i32,
            FlightStatus::InFlight => 3i32,
            FlightStatus::Finished => 4i32,
            FlightStatus::Cancelled => 5i32,
            FlightStatus::Draft => 6i32,
        }
    }

    /// The name of the status in the wire protocol.
    pub fn as_str_name(&self) -> (name: &'static str)
        ensures
            name@ == self.name(),
    {
        match self {
            FlightStatus::Ready => "READY",
            FlightStatus::Boarding => "BOARDING",
            FlightStatus::InFlight => "IN_FLIGHT",
            FlightStatus::Finished => "FINISHED",
            FlightStatus::Cancelled => "CANCELLED",
            FlightStatus::Draft => "DRAFT",
        }
    }

    /// The number of the status in the wire protocol.
    pub fn as_i32(&self) -> (number: i32)
        ensures
            number == self.number(),
    {
        match self {
            FlightStatus::Ready => 0,
            FlightStatus::Boarding => 1,
            FlightStatus::InFlight => 3,
            FlightStatus::Finished => 4,
            FlightStatus::Cancelled => 5,
            FlightStatus::Draft => 6,
        }
    }

    /// The status with the given number, if there is one.
    pub fn from_i32(number: i32) -> (status: Option<FlightStatus>)
        ensures
            match status {
                Some(s) => s.number() == number,
                None => forall|s: FlightStatus| s.number() != number,
            },
    {
        if number == 0 {
            Some(FlightStatus::Ready)
        } else if number == 1 {
            Some(FlightStatus::Boarding)
        } else if number == 3 {
            Some(FlightStatus::InFlight)
        } else if number == 4 {
            Some(FlightStatus::Finished)
        } else if number == 5 {
            Some(FlightStatus::Cancelled)
        } else if number == 6 {
            Some(FlightStatus::Draft)
        } else {
            None
        }
    }
}

impl FlightPriority {
    /// The name of the priority in the wire protocol.
    pub open spec fn name(self) -> Seq<char> {
        match self {
            FlightPriority::Low => "LOW"@,
            FlightPriority::High => "HIGH"@,
            FlightPriority::Emergency => "EMERGENCY"@,
        }
    }

    /// The number of the priority in the wire protocol.
    pub open spec fn number(self) -> i32 {
        match self {
            FlightPriority::Low => 0i32,
            FlightPriority::High => 1i32,
            FlightPriority::Emergency => 2i32,
        }
    }

    /// The name of the priority in the wire protocol.
    pub fn as_str_name(&self) -> (name: &'static str)
        ensures
            name@ == self.name(),
    {
        match self {
            FlightPriority::Low => "LOW",
            FlightPriority::High => "HIGH",
            FlightPriority::Emergency => "EMERGENCY",
        }
    }

    /// The number of the priority in the wire protocol.
    pub fn as_i32(&self) -> (number: i32)
        ensures
            number == self.number(),
    {
        match self {
            FlightPriority::Low => 0,
            FlightPriority::High => 1,
            FlightPriority::Emergency => 2,
        }
    }

    /// The priority with the given number, if there is one.
    pub fn from_i32(number: i32) -> (priority: Option<FlightPriority>)
        ensures
            match priority {
                Some(p) => p.number() == number,
                None => forall|p: FlightPriority| p.number() != number,
            },
    {
        if number == 0 {
            Some(FlightPriority::Low)
        } else if number == 1 {
            Some(FlightPriority::High)
        } else if number == 2 {
            Some(FlightPriority::Emergency)
        } else {
            None
        }
    }
}

} // verus!
