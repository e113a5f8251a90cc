//! The supervisor of continuous listening: it keeps track of the three
//! threads of the pipeline and decides the order in which they are
//! started and stopped.
//!
//! The supervisor starts and joins no thread itself. It hands out the
//! steps to take and is told what happened.

use vstd::prelude::*;
use crate::continuous::ContinuousListeningStatus;

verus! {

/// The threads of the pipeline.
#[derive(Debug, Clone, Copy, PartialEq, Eq, Structural)]
pub enum Role {
    /// Captures audio and fills the frame queue.
    Producer,
    /// Runs detector and segmenter and fills the segment queue.
    Segmenter,
    /// Transcribes segments and keeps the results.
    Worker,
}

/// Where the pipeline stands.
#[derive(Debug, Clone, Copy, PartialEq, Eq, Structural)]
pub enum Phase {
    /// Nothing runs.
    Stopped,
    /// The threads are being started or run.
    Running,
    /// A stop was requested; threads may still be alive.
    Stopping,
}

/// Why the pipeline cannot be started.
#[derive(Debug, Clone, Copy, PartialEq, Eq, Structural)]
pub enum PipelineError {
    /// The pipeline is running or has not come to a stop yet.
    AlreadyRunning,
}

/// One step of stopping the pipeline.
#[derive(Debug, Clone, Copy, PartialEq, Eq, Structural)]
pub enum StopStep {
    /// Raise the flag that all threads look at.
    RaiseStopFlag,
    /// Stop and join the thread of this role.
    Join(Role),
}

/// The supervisor as a mathematical value.
pub ghost struct PipelineModel {
    /// Where the pipeline stands.
    pub phase: Phase,
    /// Whether the producer thread is alive.
    pub producer: bool,
    /// Whether the segmenting thread is alive.
    pub segmenter: bool,
    /// Whether the worker thread is alive.
    pub worker: bool,
    /// Number of segments transcribed and kept in this session.
    pub segment_count: nat,
}

/// What can happen to the supervisor.
pub ghost enum PipelineEvent {
    /// A start is asked for.
    Start,
    /// The thread of a role has been started.
    Started(Role),
    /// A stop is asked for, or a thread could not be started.
    Stop,
    /// The thread of a role has ended and been joined.
    Joined(Role),
    /// The worker has kept a transcription.
    Kept,
}

impl PipelineModel {
    /// A supervisor with nothing running.
    pub open spec fn initial() -> PipelineModel {
        PipelineModel {
            phase: Phase::Stopped,
            producer: false,
            segmenter: false,
            worker: false,
            segment_count: 0,
        }
    }

    /// Whether the thread of a role is alive.
    pub open spec fn alive(self, role: Role) -> bool {
        match role {
            Role::Producer => self.producer,
            Role::Segmenter => self.segmenter,
            Role::Worker => self.worker,
        }
    }

    /// Whether any thread is alive.
    pub open spec fn any_alive(self) -> bool {
        self.producer || self.segmenter || self.worker
    }

    /// The state in which the thread of a role is alive or not.
    pub open spec fn with_alive(self, role: Role, alive: bool) -> PipelineModel {
        match role {
            Role::Producer => PipelineModel { producer: alive, ..self },
            Role::Segmenter => PipelineModel { segmenter: alive, ..self },
            Role::Worker => PipelineModel { worker: alive, ..self },
        }
    }

    /// The state after an event.
    pub open spec fn step(self, event: PipelineEvent) -> PipelineModel {
        match event {
            PipelineEvent::Start => if self.phase is Stopped {
                PipelineModel { phase: Phase::Running, segment_count: 0, ..self }
            } else {
                self
            },
            PipelineEvent::Started(role) => if self.phase is Stopped {
                self
            } else {
                self.with_alive(role, true)
            },
            PipelineEvent::Stop => if self.phase is Stopped {
                self
            } else if self.any_alive() {
                PipelineModel { phase: Phase::Stopping, ..self }
            } else {
                PipelineModel { phase: Phase::Stopped, ..self }
            },
            PipelineEvent::Joined(role) => {
                let rest = self.with_alive(role, false);
                if self.phase is Stopping && !rest.any_alive() {
                    PipelineModel { phase: Phase::Stopped, ..rest }
                } else {
                    rest
                }
            },
            PipelineEvent::Kept => PipelineModel {
                segment_count: if self.segment_count < u32::MAX {
                    self.segment_count + 1
                } else {
                    self.segment_count
                },
                ..self
            },
        }
    }

    /// A stopped supervisor owns no live thread.
    pub open spec fn valid(self) -> bool {
        &&& self.phase is Stopped ==> !self.any_alive()
        &&& self.segment_count <= u32::MAX
    }

    /// The state after a run of events.
    pub open spec fn after(self, events: Seq<PipelineEvent>) -> PipelineModel
        decreases events.len(),
    {
        if events.len() == 0 {
            self
        } else {
            self.after(events.drop_last()).step(events.last())
        }
    }

    /// The steps that stop the pipeline, in order: the flag goes up, the
    /// producer is stopped first, which closes the frame queue; the
    /// segmenting thread then finishes its segment and closes the segment
    /// queue; the worker transcribes what is queued and ends last.
    pub open spec fn stop_steps(self) -> Seq<StopStep> {
        if self.phase is Stopped {
            seq![]
        } else {
            seq![StopStep::RaiseStopFlag] + (if self.producer {
                seq![StopStep::Join(Role::Producer)]
            } else {
                seq![]
            }) + (if self.segmenter {
                seq![StopStep::Join(Role::Segmenter)]
            } else {
                seq![]
            }) + (if self.worker {
                seq![StopStep::Join(Role::Worker)]
            } else {
                seq![]
            })
        }
    }
}

/// No event brings a supervisor into the stopped state with a thread
/// alive.
pub proof fn lemma_step_keeps_valid(s: PipelineModel, event: PipelineEvent)
    requires
        s.valid(),
    ensures
        s.step(event).valid(),
{
}

/// Whatever happens to a supervisor from its start on: whenever it is in
/// the stopped state, none of its threads is alive.
pub proof fn theorem_stopped_means_no_thread(events: Seq<PipelineEvent>)
    ensures
        PipelineModel::initial().after(events).valid(),
        PipelineModel::initial().after(events).phase is Stopped ==> !PipelineModel::initial().after(
            events,
        ).any_alive(),
    decreases events.len(),
{
    if events.len() > 0 {
        theorem_stopped_means_no_thread(events.drop_last());
        lemma_step_keeps_valid(PipelineModel::initial().after(events.drop_last()), events.last());
    }
}

/// The order in which the threads are started.
pub open spec fn start_order() -> Seq<Role> {
    seq![Role::Producer, Role::Segmenter, Role::Worker]
}

/// The supervisor of continuous listening.
pub struct ContinuousPipeline {
    phase: Phase,
    producer: bool,
    segmenter: bool,
    worker: bool,
    segment_count: u32,
}

impl View for ContinuousPipeline {
    type V = PipelineModel;

    closed spec fn view(&self) -> PipelineModel {
        PipelineModel {
            phase: self.phase,
            producer: self.producer,
            segmenter: self.segmenter,
            worker: self.worker,
            segment_count: self.segment_count as nat,
        }
    }
}

impl ContinuousPipeline {
    /// A supervisor with nothing running.
    pub fn new() -> (r: ContinuousPipeline)
        ensures
            r@ == PipelineModel::initial(),
    {
        ContinuousPipeline {
            phase: Phase::Stopped,
            producer: false,
            segmenter: false,
            worker: false,
            segment_count: 0,
        }
    }

    /// Where the pipeline stands.
    pub fn phase(&self) -> (r: Phase)
        ensures
            r == self@.phase,
    {
        self.phase
    }

    /// Number of segments transcribed and kept in this session.
    pub fn segment_count(&self) -> (r: u32)
        ensures
            r == self@.segment_count,
    {
        self.segment_count
    }

    /// Whether listening is on, and the count of the session.
    pub fn status(&self) -> (r: ContinuousListeningStatus)
        ensures
            r.is_listening == !(self@.phase is Stopped),
            r.segment_count == self@.segment_count,
    {
        ContinuousListeningStatus {
            is_listening: match self.phase {
                Phase::Stopped => false,
                _ => true,
            },
            segment_count: self.segment_count,
        }
    }

    /// Starts a session and gives the order in which the threads are to
    /// be started. A supervisor that has not come to a stop refuses.
    pub fn start(&mut self) -> (r: Result<Vec<Role>, PipelineError>)
        ensures
            final(self)@ == old(self)@.step(PipelineEvent::Start),
            match r {
                Ok(order) => old(self)@.phase is Stopped && order@ == start_order(),
                Err(e) => !(old(self)@.phase is Stopped) && e == PipelineError::AlreadyRunning,
            },
    {
        match self.phase {
            Phase::Stopped => {},
            _ => {
                return Err(PipelineError::AlreadyRunning);
            },
        }
        self.phase = Phase::Running;
        self.segment_count = 0;
        let mut order: Vec<Role> = Vec::new();
        order.push(Role::Producer);
        order.push(Role::Segmenter);
        order.push(Role::Worker);
        assert(order@ =~= start_order());
        Ok(order)
    }

    fn set_alive(&mut self, role: Role, alive: bool)
        ensures
            final(self)@ == old(self)@.with_alive(role, alive),
    {
        match role {
            Role::Producer => {
                self.producer = alive;
            },
            Role::Segmenter => {
                self.segmenter = alive;
            },
            Role::Worker => {
                self.worker = alive;
            },
        }
    }

    /// Notes that the thread of a role has been started.
    pub fn thread_started(&mut self, role: Role)
        ensures
            final(self)@ == old(self)@.step(PipelineEvent::Started(role)),
    {
        match self.phase {
            Phase::Stopped => {},
            _ => {
                self.set_alive(role, true);
            },
        }
    }

    /// Asks for a stop and gives the steps to take, in order. On a
    /// supervisor that is stopped there is nothing to do. This is also
    /// the way out when a thread could not be started.
    pub fn stop(&mut self) -> (steps: Vec<StopStep>)
        ensures
            final(self)@ == old(self)@.step(PipelineEvent::Stop),
            steps@ == old(self)@.stop_steps(),
    {
        let mut steps: Vec<StopStep> = Vec::new();
        match self.phase {
            Phase::Stopped => {
                return steps;
            },
            _ => {},
        }
        steps.push(StopStep::RaiseStopFlag);
        if self.producer {
            steps.push(StopStep::Join(Role::Producer));
        }
        if self.segmenter {
            steps.push(StopStep::Join(Role::Segmenter));
        }
        if self.worker {
            steps.push(StopStep::Join(Role::Worker));
        }
        assert(steps@ =~= old(self)@.stop_steps());
        if self.producer || self.segmenter || self.worker {
            self.phase = Phase::Stopping;
        } else {
            self.phase = Phase::Stopped;
        }
        steps
    }

    /// Notes that the thread of a role has ended and been joined. With
    /// the last thread of a stopping pipeline the supervisor comes to a
    /// stop; the count of the session is then final.
    pub fn thread_joined(&mut self, role: Role) -> (stopped_with: Option<u32>)
        ensures
            final(self)@ == old(self)@.step(PipelineEvent::Joined(role)),
            stopped_with == if final(self)@.phase is Stopped {
                Some(old(self)@.segment_count as u32)
            } else {
                None
            },
    {
        self.set_alive(role, false);
        match self.phase {
            Phase::Stopping => {
                if !self.producer && !self.segmenter && !self.worker {
                    self.phase = Phase::Stopped;
                }
            },
            _ => {},
        }
        match self.phase {
            Phase::Stopped => Some(self.segment_count),
            _ => None,
        }
    }

    /// Notes that the worker has kept a transcription.
    pub fn segment_kept(&mut self)
        ensures
            final(self)@ == old(self)@.step(PipelineEvent::Kept),
    {
        if self.segment_count < u32::MAX {
            self.segment_count = self.segment_count + 1;
        }
    }
}

/// Stopping follows the flow of the data: the flag is raised first, and
/// the threads are joined producer first and worker last.
pub proof fn lemma_stop_order(s: PipelineModel)
    requires
        s.producer && s.segmenter && s.worker,
        !(s.phase is Stopped),
    ensures
        s.stop_steps() == seq![
            StopStep::RaiseStopFlag,
            StopStep::Join(Role::Producer),
            StopStep::Join(Role::Segmenter),
            StopStep::Join(Role::Worker),
        ],
{
    assert(s.stop_steps() =~= seq![
        StopStep::RaiseStopFlag,
        StopStep::Join(Role::Producer),
        StopStep::Join(Role::Segmenter),
        StopStep::Join(Role::Worker),
    ]);
}

} // verus!
