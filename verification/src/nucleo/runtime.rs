//! One polling cycle over the registered devices.
use crate::nucleo::cycle::{after_sensor, cycle_step, CycleCall};
use crate::nucleo::traits::actuator::{Actuator, ActuatorError};
use crate::nucleo::traits::communicator::{Communicator, CommunicatorError};
use crate::nucleo::traits::sensor::Sensor;
use crate::nucleo::types::SensorError;
use vstd::prelude::*;

verus! {

/// What became of one sensor in one cycle.
pub enum CycleOutcome<T> {
    /// The sensor could not be read; nothing was forwarded.
    ReadFailed(SensorError),
    /// The sensor was read. The reading went to the communicator, then to
    /// every actuator in the order of registration; `sent` and `executed` say
    /// how each of them took it.
    Forwarded {
        reading: T,
        sent: Option<CommunicatorError>,
        executed: Vec<Option<ActuatorError>>,
    },
}

/// What a report notes of a call to a device: nothing where the call went
/// well, its error where it failed.
pub fn failure_of<R, E>(result: Result<R, E>) -> (noted: Option<E>)
    ensures
        noted == match result {
            Ok(_) => None::<E>,
            Err(e) => Some(e),
        },
{
    match result {
        Ok(_) => None,
        Err(e) => Some(e),
    }
}

/// Whether the loop is between two cycles or in one.
#[derive(Debug, Clone, Copy, PartialEq, Eq, Structural)]
pub enum LoopState {
    /// Waiting for the next tick of the timer.
    Idle,
    /// Going over the registered sensors.
    CycleRunning,
}

/// What can happen to the loop.
#[derive(Debug, Clone, Copy, PartialEq, Eq, Structural)]
pub enum LoopEvent {
    /// The timer has fired.
    Tick,
    /// Every registered sensor has been dealt with for this tick.
    CycleDone,
}

/// What the loop does next.
#[derive(Debug, Clone, Copy, PartialEq, Eq, Structural)]
pub enum LoopAction {
    /// Run one cycle, then report that it is done.
    RunCycle,
    /// Wait for the timer.
    AwaitTick,
    /// Go on with what is under way.
    Carry,
}

/// The loop's one rule: a tick starts a cycle only when none is running, and
/// a cycle that is done leaves the loop waiting for the next tick. There is
/// no state from which the loop does not go on.
pub open spec fn loop_next(state: LoopState, event: LoopEvent) -> (LoopState, LoopAction) {
    match (state, event) {
        (LoopState::Idle, LoopEvent::Tick) => (LoopState::CycleRunning, LoopAction::RunCycle),
        (LoopState::CycleRunning, LoopEvent::CycleDone) => (LoopState::Idle, LoopAction::AwaitTick),
        (LoopState::CycleRunning, LoopEvent::Tick) => (LoopState::CycleRunning, LoopAction::Carry),
        (LoopState::Idle, LoopEvent::CycleDone) => (LoopState::Idle, LoopAction::AwaitTick),
    }
}

/// Takes the loop from one state to the next.
pub fn loop_step(state: LoopState, event: LoopEvent) -> (next: (LoopState, LoopAction))
    ensures
        next == loop_next(state, event),
{
    match (state, event) {
        (LoopState::Idle, LoopEvent::Tick) => (LoopState::CycleRunning, LoopAction::RunCycle),
        (LoopState::CycleRunning, LoopEvent::CycleDone) => (LoopState::Idle, LoopAction::AwaitTick),
        (LoopState::CycleRunning, LoopEvent::Tick) => (LoopState::CycleRunning, LoopAction::Carry),
        (LoopState::Idle, LoopEvent::CycleDone) => (LoopState::Idle, LoopAction::AwaitTick),
    }
}

/// Cycles never overlap. A tick starts a cycle exactly when the loop is idle;
/// a tick that comes while a cycle runs starts nothing and changes nothing;
/// and once a cycle is reported done the loop is idle, so that the next tick
/// starts the next cycle.
pub proof fn lemma_cycles_do_not_overlap(state: LoopState)
    ensures
        loop_next(state, LoopEvent::Tick).1 == LoopAction::RunCycle <==> state == LoopState::Idle,
        loop_next(state, LoopEvent::Tick).0 == LoopState::CycleRunning,
        loop_next(LoopState::CycleRunning, LoopEvent::Tick) == (
            LoopState::CycleRunning,
            LoopAction::Carry,
        ),
        loop_next(state, LoopEvent::CycleDone).0 == LoopState::Idle,
        loop_next(loop_next(state, LoopEvent::CycleDone).0, LoopEvent::Tick).1
            == LoopAction::RunCycle,
{
}

/// The sensors, the actuators and the communicator of one gateway, and the
/// pause between two of its cycles.
pub struct RuntimeController<S, C, A> {
    sensors: Vec<S>,
    actuators: Vec<A>,
    communicator: C,
    interval: u64,
}

impl<S, C, A> RuntimeController<S, C, A> where
    S: Sensor,
    C: Communicator<Command = S::Output>,
    A: Actuator<Command = S::Output>,
    S::Output: Clone,
 {
    /// The sensors, in the order of registration.
    pub closed spec fn sensors(&self) -> Seq<S> {
        self.sensors@
    }

    /// The actuators, in the order of registration.
    pub closed spec fn actuators(&self) -> Seq<A> {
        self.actuators@
    }

    /// The communicator.
    pub closed spec fn communicator(&self) -> C {
        self.communicator
    }

    /// How many sensors are registered.
    pub open spec fn sensor_count(&self) -> nat {
        self.sensors().len()
    }

    /// How many actuators are registered.
    pub open spec fn actuator_count(&self) -> nat {
        self.actuators().len()
    }

    /// The pause between two cycles, in seconds.
    pub closed spec fn interval(&self) -> u64 {
        self.interval
    }

    /// Binds the devices into one gateway that polls every `interval`
    /// seconds.
    pub fn new(sensors: Vec<S>, actuators: Vec<A>, communicator: C, interval: u64) -> (controller:
        Self)
        ensures
            controller.sensors() == sensors@,
            controller.actuators() == actuators@,
            controller.communicator() == communicator,
            controller.interval() == interval,
    {
        RuntimeController { sensors, actuators, communicator, interval }
    }

    /// The pause between two cycles, in seconds.
    pub fn interval_secs(&self) -> (secs: u64)
        ensures
            secs == self.interval(),
    {
        self.interval
    }

    /// Deals with what the read of sensor number `sensor` gave. A reading is
    /// sent, then handed to every actuator in the order of registration,
    /// however the send and the actuators before took it; a failed read is
    /// noted and nothing is sent or handed on. Each call is the one that
    /// [`cycle_step`] names after the call before.
    ///
    /// Returns what became of the sensor, and the call that the cycle goes on
    /// with: the read of the next sensor, or the end.
    pub fn forward(&mut self, sensor: usize, read: Result<S::Output, SensorError>) -> (done: (
        CycleOutcome<S::Output>,
        CycleCall,
    ))
        ensures
            final(self).sensor_count() == old(self).sensor_count(),
            final(self).actuator_count() == old(self).actuator_count(),
            final(self).interval() == old(self).interval(),
            match read {
                Err(e) => done.0 matches CycleOutcome::ReadFailed(noted) && noted == e,
                Ok(value) => done.0 matches CycleOutcome::Forwarded { reading, executed, .. }
                    && reading == value && executed@.len() == old(self).actuator_count(),
            },
            done.1 == after_sensor(old(self).sensor_count(), sensor),
    {
        let sensors: usize = self.sensors.len();
        let actuators: usize = self.actuators.len();
        match read {
            Err(e) => (
                CycleOutcome::ReadFailed(e),
                cycle_step(sensors, actuators, Some(CycleCall::Read { sensor }), false),
            ),
            Ok(value) => {
                let mut sent: Option<CommunicatorError> = None;
                let mut executed: Vec<Option<ActuatorError>> = Vec::new();
                let mut sending: bool = true;
                let mut call = cycle_step(
                    sensors,
                    actuators,
                    Some(CycleCall::Read { sensor }),
                    true,
                );
                loop
                    invariant
                        sensors == self.sensors@.len(),
                        actuators == self.actuators@.len(),
                        self.sensors@.len() == old(self).sensors@.len(),
                        self.actuators@.len() == old(self).actuators@.len(),
                        self.interval == old(self).interval,
                        executed@.len() <= actuators,
                        sending ==> executed@.len() == 0 && call == (CycleCall::Send { sensor }),
                        !sending ==> call == (if executed@.len() < actuators {
                            CycleCall::Execute { sensor, actuator: executed@.len() as usize }
                        } else {
                            after_sensor(sensors as nat, sensor)
                        }),
                    ensures
                        executed@.len() == actuators,
                        call == after_sensor(sensors as nat, sensor),
                    decreases (if sending {
                        1int
                    } else {
                        0int
                    }) + actuators - executed@.len(),
                {
                    match call {
                        CycleCall::Send { .. } => {
                            sent = failure_of(self.communicator.send(value.clone()));
                            sending = false;
                        },
                        CycleCall::Execute { actuator, .. } => {
                            executed.push(
                                failure_of(self.actuators[actuator].execute(value.clone())),
                            );
                        },
                        _ => {
                            break ;
                        },
                    }
                    call = cycle_step(sensors, actuators, Some(call), false);
                }
                (CycleOutcome::Forwarded { reading: value, sent, executed }, call)
            },
        }
    }

    /// Runs one cycle: reads every sensor once, in the order of registration,
    /// and deals with each answer by [`Self::forward`] before the next sensor
    /// is read. No failure ends the cycle or passes over a device. The calls
    /// of the cycle are those that [`cycle_step`] names, one after the other,
    /// from the start to the end.
    ///
    /// The report has one entry for each sensor, in order. The devices
    /// themselves decide what the entries hold, so nothing is promised of
    /// that here; [`Self::forward`] says what an entry holds for each answer
    /// of a sensor.
    pub fn run_cycle(&mut self) -> (report: Vec<CycleOutcome<S::Output>>)
        ensures
            final(self).sensor_count() == old(self).sensor_count(),
            final(self).actuator_count() == old(self).actuator_count(),
            final(self).interval() == old(self).interval(),
            report@.len() == old(self).sensor_count(),
            forall|i: int|
                0 <= i < report@.len() ==> ((#[trigger] report@[i]) matches CycleOutcome::Forwarded {
                    executed,
                    ..
                } ==> executed@.len() == old(self).actuator_count()),
    {
        let mut report: Vec<CycleOutcome<S::Output>> = Vec::new();
        let sensors: usize = self.sensors.len();
        let actuators: usize = self.actuators.len();
        let mut call = cycle_step(sensors, actuators, None, false);
        loop
            invariant
                sensors == self.sensors@.len(),
                actuators == self.actuators@.len(),
                self.sensors@.len() == old(self).sensors@.len(),
                self.actuators@.len() == old(self).actuators@.len(),
                self.interval == old(self).interval,
                report@.len() <= sensors,
                call == (if report@.len() < sensors {
                    CycleCall::Read { sensor: report@.len() as usize }
                } else {
                    CycleCall::Finish
                }),
                forall|k: int|
                    0 <= k < report@.len() ==> ((#[trigger] report@[k]) matches CycleOutcome::Forwarded {
                        executed,
                        ..
                    } ==> executed@.len() == old(self).actuators@.len()),
            ensures
                report@.len() == sensors,
            decreases sensors - report@.len(),
        {
            match call {
                CycleCall::Read { sensor } => {
                    let read = self.sensors[sensor].read();
                    let (outcome, next) = self.forward(sensor, read);
                    report.push(outcome);
                    call = next;
                },
                _ => {
                    break ;
                },
            }
        }
        report
    }
}

} // verus!
