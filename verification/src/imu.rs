use vstd::prelude::*;

verus! {

/// How many times the sensor is initialised before the link gives up.
pub const RECONNECTS_NUM: u8 = 3;

/// An operation on the IMU link.
#[derive(Clone, Copy, PartialEq, Eq, Structural, Debug)]
pub enum ImuOperation {
    /// (Re)connect to the sensor.
    Connect,
    /// Read the pitch from the accelerometer angles, reconnecting first
    /// when the link is down.
    Pitch,
    /// Read the acceleration, reconnecting and reading once more when the
    /// link is down or the first read fails.
    Acceleration,
}

/// Where an operation on the link stands.
#[derive(Clone, Copy, PartialEq, Eq, Structural, Debug)]
pub enum ImuPhase {
    /// No operation is running.
    Idle,
    /// Initialising the sensor, attempt number `attempt` (from 1), on the
    /// way to completing `operation`.
    Connecting { attempt: u8, operation: ImuOperation },
    /// Waiting for the accelerometer angles.
    ReadingAngles,
    /// Waiting for the acceleration; `retry_left` tells whether a failed
    /// read is followed by a reconnect and a second read.
    ReadingAcceleration { retry_left: bool },
}

/// What the sensor driver is asked to do next.
#[derive(Clone, Copy, PartialEq, Eq, Structural, Debug)]
pub enum ImuAction {
    /// Initialise the sensor (attempt number `attempt`, from 1).
    Connect { attempt: u8 },
    /// Read the accelerometer angles.
    ReadAngles,
    /// Read the acceleration.
    ReadAcceleration,
    /// The operation is over; `success` tells whether it connected or
    /// produced a reading.
    Finish { success: bool },
}

/// What the sensor driver reports back: whether the initialisation or
/// the read succeeded (a timeout counts as a failure).
#[derive(Clone, Copy, PartialEq, Eq, Structural, Debug)]
pub enum ImuEvent {
    ConnectResult(bool),
    ReadResult(bool),
}

/// The abstract state of an [`ImuLink`].
pub struct ImuLinkView {
    pub is_up: bool,
    pub phase: ImuPhase,
}

impl ImuLinkView {
    /// Attempts are numbered `1..=3`; reads happen only while the link is
    /// up; reconnecting on the way to a reading happens only while it is
    /// down.
    pub open spec fn wf(self) -> bool {
        match self.phase {
            ImuPhase::Idle => true,
            ImuPhase::Connecting { attempt, operation } => {
                &&& 1 <= attempt <= RECONNECTS_NUM
                &&& operation != ImuOperation::Connect ==> !self.is_up
            },
            ImuPhase::ReadingAngles => self.is_up,
            ImuPhase::ReadingAcceleration { .. } => self.is_up,
        }
    }
}

/// The driver request that a phase waits on.
pub open spec fn pending_action(phase: ImuPhase) -> ImuAction {
    match phase {
        ImuPhase::Idle => ImuAction::Finish { success: false },
        ImuPhase::Connecting { attempt, .. } => ImuAction::Connect { attempt },
        ImuPhase::ReadingAngles => ImuAction::ReadAngles,
        ImuPhase::ReadingAcceleration { .. } => ImuAction::ReadAcceleration,
    }
}

/// The most driver requests that a phase can still lead to, counting the
/// one it waits on.
pub open spec fn remaining_requests(phase: ImuPhase) -> nat {
    match phase {
        ImuPhase::Idle => 0,
        ImuPhase::Connecting { attempt, operation } => {
            let connects = (RECONNECTS_NUM - attempt + 1) as nat;
            if operation == ImuOperation::Connect {
                connects
            } else {
                connects + 1
            }
        },
        ImuPhase::ReadingAngles => 1,
        ImuPhase::ReadingAcceleration { retry_left } => if retry_left {
            (1 + RECONNECTS_NUM + 1) as nat
        } else {
            1
        },
    }
}

/// State and first request when an operation starts: reconnecting starts
/// with attempt 1; a reading starts with the read when the link is up and
/// with attempt 1 of reconnecting otherwise.
pub open spec fn start_spec(s: ImuLinkView, operation: ImuOperation) -> (ImuLinkView, ImuAction) {
    let connect = ImuPhase::Connecting { attempt: 1, operation };
    let phase = match operation {
        ImuOperation::Connect => connect,
        ImuOperation::Pitch => if s.is_up {
            ImuPhase::ReadingAngles
        } else {
            connect
        },
        ImuOperation::Acceleration => if s.is_up {
            ImuPhase::ReadingAcceleration { retry_left: true }
        } else {
            connect
        },
    };
    (ImuLinkView { is_up: s.is_up, phase }, pending_action(phase))
}

/// State and next request after the driver reports back.
/// - A successful initialisation marks the link up and goes on with the
///   operation (done for `Connect`, the read otherwise, with no further
///   retry for the acceleration).
/// - A failed initialisation tries again up to attempt 3, then gives up.
/// - A successful read finishes the operation successfully.
/// - A failed read marks the link down; a first acceleration read then
///   reconnects from attempt 1, any other read finishes unsuccessfully.
/// - A report that the phase does not wait for ends the operation
///   unsuccessfully.
pub open spec fn step_spec(s: ImuLinkView, event: ImuEvent) -> (ImuLinkView, ImuAction) {
    let done = |is_up: bool, success: bool|
        (ImuLinkView { is_up, phase: ImuPhase::Idle }, ImuAction::Finish { success });
    match (s.phase, event) {
        (ImuPhase::Connecting { attempt, operation }, ImuEvent::ConnectResult(true)) => {
            match operation {
                ImuOperation::Connect => done(true, true),
                ImuOperation::Pitch => (
                    ImuLinkView { is_up: true, phase: ImuPhase::ReadingAngles },
                    ImuAction::ReadAngles,
                ),
                ImuOperation::Acceleration => (
                    ImuLinkView {
                        is_up: true,
                        phase: ImuPhase::ReadingAcceleration { retry_left: false },
                    },
                    ImuAction::ReadAcceleration,
                ),
            }
        },
        (ImuPhase::Connecting { attempt, operation }, ImuEvent::ConnectResult(false)) => {
            if attempt < RECONNECTS_NUM {
                let next = (attempt + 1) as u8;
                (
                    ImuLinkView {
                        is_up: s.is_up,
                        phase: ImuPhase::Connecting { attempt: next, operation },
                    },
                    ImuAction::Connect { attempt: next },
                )
            } else {
                done(s.is_up, false)
            }
        },
        (ImuPhase::ReadingAngles, ImuEvent::ReadResult(ok)) => done(ok, ok),
        (ImuPhase::ReadingAcceleration { retry_left }, ImuEvent::ReadResult(ok)) => {
            if ok {
                done(true, true)
            } else if retry_left {
                (
                    ImuLinkView {
                        is_up: false,
                        phase: ImuPhase::Connecting {
                            attempt: 1,
                            operation: ImuOperation::Acceleration,
                        },
                    },
                    ImuAction::Connect { attempt: 1 },
                )
            } else {
                done(false, false)
            }
        },
        _ => done(s.is_up, false),
    }
}

/// Starting an operation asks the driver for the request the new phase
/// waits on; an operation can lead to at most five driver requests in all,
/// and reconnecting alone to at most three.
pub proof fn lemma_start_bounded(s: ImuLinkView, operation: ImuOperation)
    requires
        s.wf(),
    ensures
        start_spec(s, operation).0.wf(),
        start_spec(s, operation).0.phase != ImuPhase::Idle,
        start_spec(s, operation).1 == pending_action(start_spec(s, operation).0.phase),
        remaining_requests(start_spec(s, operation).0.phase) <= 5,
        operation == ImuOperation::Connect ==> remaining_requests(
            start_spec(s, operation).0.phase,
        ) == RECONNECTS_NUM,
{
}

/// Each report either finishes the operation, or issues the request that
/// the new phase waits on while fewer requests remain than before: every
/// operation finishes after at most the number of requests that it could
/// lead to at its start.
pub proof fn lemma_step_progress(s: ImuLinkView, event: ImuEvent)
    requires
        s.wf(),
        s.phase != ImuPhase::Idle,
    ensures
        step_spec(s, event).0.wf(),
        ({
            let (t, a) = step_spec(s, event);
            ||| (t.phase == ImuPhase::Idle && a is Finish)
            ||| (!(a is Finish) && a == pending_action(t.phase) && remaining_requests(t.phase)
                < remaining_requests(s.phase))
        }),
{
}

/// An operation finishes successfully only right after a successful
/// initialisation or read, and then the link is up; a failed read always
/// marks the link down; a successful initialisation always marks it up.
pub proof fn lemma_link_status(s: ImuLinkView, event: ImuEvent)
    requires
        s.wf(),
    ensures
        step_spec(s, event).1 == (ImuAction::Finish { success: true }) ==> (event
            == ImuEvent::ConnectResult(true) || event == ImuEvent::ReadResult(true))
            && step_spec(s, event).0.is_up,
        (s.phase is ReadingAngles || s.phase is ReadingAcceleration) && event
            == ImuEvent::ReadResult(false) ==> !step_spec(s, event).0.is_up,
        s.phase is Connecting && event == ImuEvent::ConnectResult(true) ==> step_spec(
            s,
            event,
        ).0.is_up,
{
}

/// Whether a phase belongs to carrying out `operation`: a reconnect
/// records the operation it serves, an angles read serves only a pitch
/// reading and an acceleration read only an acceleration reading.
pub open spec fn phase_serves(phase: ImuPhase, operation: ImuOperation) -> bool {
    match phase {
        ImuPhase::Idle => true,
        ImuPhase::Connecting { operation: o, .. } => o == operation,
        ImuPhase::ReadingAngles => operation == ImuOperation::Pitch,
        ImuPhase::ReadingAcceleration { .. } => operation == ImuOperation::Acceleration,
    }
}

/// Whether a driver request belongs to carrying out `operation`: only a
/// pitch reading reads angles, only an acceleration reading reads the
/// acceleration, and reconnecting alone never reads.
pub open spec fn action_serves(action: ImuAction, operation: ImuOperation) -> bool {
    match action {
        ImuAction::ReadAngles => operation == ImuOperation::Pitch,
        ImuAction::ReadAcceleration => operation == ImuOperation::Acceleration,
        _ => true,
    }
}

/// An operation only ever issues the requests of its own kind: starting it
/// records it in the reconnect phase, and every later report keeps to it,
/// so an acceleration reading never reads angles, a pitch reading never
/// reads the acceleration, and reconnecting never reads at all.
pub proof fn lemma_operation_kept(s: ImuLinkView, operation: ImuOperation, event: ImuEvent)
    ensures
        phase_serves(start_spec(s, operation).0.phase, operation),
        action_serves(start_spec(s, operation).1, operation),
        start_spec(s, operation).0.phase matches ImuPhase::Connecting { operation: o, attempt }
            ==> o == operation && attempt == 1,
        phase_serves(s.phase, operation) && s.phase != ImuPhase::Idle ==> phase_serves(
            step_spec(s, event).0.phase,
            operation,
        ) && action_serves(step_spec(s, event).1, operation),
{
}

/// The connection logic of the IMU: which driver request comes next, how
/// often to retry, and whether the link is up. The driver calls themselves
/// are made by the caller, which reports each outcome back.
pub struct ImuLink {
    is_up: bool,
    phase: ImuPhase,
}

impl View for ImuLink {
    type V = ImuLinkView;

    closed spec fn view(&self) -> ImuLinkView {
        ImuLinkView { is_up: self.is_up, phase: self.phase }
    }
}

impl ImuLink {
    #[verifier::type_invariant]
    spec fn inv(self) -> bool {
        self@.wf()
    }

    /// A link that is down and idle.
    pub fn new() -> (l: ImuLink)
        ensures
            !l@.is_up,
            l@.phase == ImuPhase::Idle,
            l@.wf(),
    {
        ImuLink { is_up: false, phase: ImuPhase::Idle }
    }

    /// Whether the sensor is known to be connected.
    pub fn is_up(&self) -> (b: bool)
        ensures
            b == self@.is_up,
    {
        self.is_up
    }

    /// Starts an operation (abandoning any running one) and returns the
    /// first driver request.
    pub fn start(&mut self, operation: ImuOperation) -> (action: ImuAction)
        ensures
            (final(self)@, action) == start_spec(old(self)@, operation),
            final(self)@.wf(),
    {
        let connect = ImuPhase::Connecting { attempt: 1, operation };
        let phase = match operation {
            ImuOperation::Connect => connect,
            ImuOperation::Pitch => if self.is_up {
                ImuPhase::ReadingAngles
            } else {
                connect
            },
            ImuOperation::Acceleration => if self.is_up {
                ImuPhase::ReadingAcceleration { retry_left: true }
            } else {
                connect
            },
        };
        self.phase = phase;
        Self::pending(phase)
    }

    fn pending(phase: ImuPhase) -> (action: ImuAction)
        ensures
            action == pending_action(phase),
    {
        match phase {
            ImuPhase::Idle => ImuAction::Finish { success: false },
            ImuPhase::Connecting { attempt, .. } => ImuAction::Connect { attempt },
            ImuPhase::ReadingAngles => ImuAction::ReadAngles,
            ImuPhase::ReadingAcceleration { .. } => ImuAction::ReadAcceleration,
        }
    }

    fn finish(&mut self, is_up: bool, success: bool) -> (action: ImuAction)
        ensures
            final(self)@ == (ImuLinkView { is_up, phase: ImuPhase::Idle }),
            action == (ImuAction::Finish { success }),
    {
        *self = ImuLink { is_up, phase: ImuPhase::Idle };
        ImuAction::Finish { success }
    }

    /// Takes in what the driver reports and returns the next request.
    pub fn on_event(&mut self, event: ImuEvent) -> (action: ImuAction)
        ensures
            (final(self)@, action) == step_spec(old(self)@, event),
            final(self)@.wf(),
    {
        proof {
            use_type_invariant(&*self);
        }
        match (self.phase, event) {
            (ImuPhase::Connecting { attempt, operation }, ImuEvent::ConnectResult(true)) => {
                match operation {
                    ImuOperation::Connect => self.finish(true, true),
                    ImuOperation::Pitch => {
                        *self = ImuLink { is_up: true, phase: ImuPhase::ReadingAngles };
                        ImuAction::ReadAngles
                    },
                    ImuOperation::Acceleration => {
                        *self = ImuLink {
                            is_up: true,
                            phase: ImuPhase::ReadingAcceleration { retry_left: false },
                        };
                        ImuAction::ReadAcceleration
                    },
                }
            },
            (ImuPhase::Connecting { attempt, operation }, ImuEvent::ConnectResult(false)) => {
                if attempt < RECONNECTS_NUM {
                    let next = attempt + 1;
                    self.phase = ImuPhase::Connecting { attempt: next, operation };
                    ImuAction::Connect { attempt: next }
                } else {
                    let up = self.is_up;
                    self.finish(up, false)
                }
            },
            (ImuPhase::ReadingAngles, ImuEvent::ReadResult(ok)) => self.finish(ok, ok),
            (ImuPhase::ReadingAcceleration { retry_left }, ImuEvent::ReadResult(ok)) => {
                if ok {
                    self.finish(true, true)
                } else if retry_left {
                    *self = ImuLink {
                        is_up: false,
                        phase: ImuPhase::Connecting {
                            attempt: 1,
                            operation: ImuOperation::Acceleration,
                        },
                    };
                    ImuAction::Connect { attempt: 1 }
                } else {
                    self.finish(false, false)
                }
            },
            _ => {
                let up = self.is_up;
                self.finish(up, false)
            },
        }
    }
}

} // verus!
