//! The system state that each system event leads to.

use vstd::prelude::*;

verus! {

/// An event of the system.
#[derive(Debug, Clone, Copy, PartialEq, Eq, Structural)]
pub enum SystemEvent {
    ButtonPressed,
    SensorError,
    NetworkConnected,
    LowBattery,
}

/// The state of the system.
#[derive(Debug, Clone, Copy, PartialEq, Eq, Structural)]
pub enum SystemState {
    Initializing,
    Running,
    Error,
    Sleeping,
}

/// The state that an event leads to: a button or a network connection
/// resumes operation, a sensor error is an error, a low battery puts the
/// system to sleep.
pub fn state_after_event(event: SystemEvent) -> (r: SystemState)
    ensures
        r == match event {
            SystemEvent::ButtonPressed => SystemState::Running,
            SystemEvent::SensorError => SystemState::Error,
            SystemEvent::NetworkConnected => SystemState::Running,
            SystemEvent::LowBattery => SystemState::Sleeping,
        },
{
    match event {
        SystemEvent::ButtonPressed => SystemState::Running,
        SystemEvent::SensorError => SystemState::Error,
        SystemEvent::NetworkConnected => SystemState::Running,
        SystemEvent::LowBattery => SystemState::Sleeping,
    }
}

/// The shared counter after one more increment, and whether it is reported:
/// every tenth value is.
pub fn count_and_report(counter: u32) -> (r: (u32, bool))
    requires
        counter < u32::MAX,
    ensures
        r.0 == counter + 1,
        r.1 == ((counter + 1) % 10 == 0),
{
    let next = counter + 1;
    (next, next % 10 == 0)
}

/// The byte that the pipe writer sends after `data_counter`.
pub fn next_data_counter(data_counter: u8) -> (r: u8)
    ensures
        r == (data_counter + 1) % 256,
{
    data_counter.wrapping_add(1)
}

} // verus!
