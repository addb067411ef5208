//! The cadence of the metric samplers: which task sends when.

use crate::event_bus::Topic;
use vstd::prelude::*;

verus! {

/// Pause between two samples of a periodic task, in milliseconds.
pub const SAMPLE_MILLIS: u64 = 1000;

/// A sampler task. The three run independently of each other.
#[derive(Debug, Clone, Copy, PartialEq, Eq, Structural)]
pub enum SamplerTask {
    /// Sends the facts about the machine once and ends.
    Basic,
    /// Samples and sends the changing metrics, then pauses, for ever.
    Changing,
    /// Pauses, then samples and sends the network counters, for ever.
    Network,
}

/// Where a task stands in its cycle.
#[derive(Debug, Clone, Copy, PartialEq, Eq, Structural)]
pub enum Phase {
    /// About to sample and send.
    Sample,
    /// About to pause.
    Pause,
    /// Ended.
    Finished,
}

/// What a task does next.
#[derive(Debug, Clone, Copy, PartialEq, Eq, Structural)]
pub enum TaskAction {
    /// Take a sample and send it on the topic.
    Emit(Topic),
    /// Sleep for so many milliseconds.
    Sleep(u64),
    /// End the task.
    Stop,
}

/// State of one sampler task.
#[derive(Debug, Clone, Copy, PartialEq, Eq, Structural)]
pub struct Sampler {
    pub task: SamplerTask,
    pub phase: Phase,
}

impl SamplerTask {
    /// The topic on which a task sends.
    pub open spec fn topic_of(self) -> Topic {
        match self {
            SamplerTask::Basic => Topic::BasicMachineInfo,
            SamplerTask::Changing => Topic::ChangingMachineInfo,
            SamplerTask::Network => Topic::NetworkInfo,
        }
    }

    /// Returns the topic on which the task sends.
    pub fn topic(&self) -> (out: Topic)
        ensures
            out == self.topic_of(),
    {
        match self {
            SamplerTask::Basic => Topic::BasicMachineInfo,
            SamplerTask::Changing => Topic::ChangingMachineInfo,
            SamplerTask::Network => Topic::NetworkInfo,
        }
    }
}

impl Sampler {
    /// The state in which a task starts. The network task starts with its
    /// pause, the others with a sample.
    pub open spec fn initial(task: SamplerTask) -> Sampler {
        Sampler {
            task,
            phase: match task {
                SamplerTask::Network => Phase::Pause,
                _ => Phase::Sample,
            },
        }
    }

    /// What the task does in this state.
    pub open spec fn action(self) -> TaskAction {
        match self.phase {
            Phase::Sample => TaskAction::Emit(self.task.topic_of()),
            Phase::Pause => TaskAction::Sleep(1000),
            Phase::Finished => TaskAction::Stop,
        }
    }

    /// The state after that action.
    pub open spec fn next(self) -> Sampler {
        Sampler {
            task: self.task,
            phase: match self.phase {
                Phase::Sample => match self.task {
                    SamplerTask::Basic => Phase::Finished,
                    _ => Phase::Pause,
                },
                Phase::Pause => Phase::Sample,
                Phase::Finished => Phase::Finished,
            },
        }
    }

    /// Number of samples that a task in this state sends within the next
    /// `millis` milliseconds, on a clock on which only pauses take time. A
    /// sample that falls on the end of the span is not counted.
    pub open spec fn emissions_within(self, millis: nat) -> nat
        decreases millis, (if self.phase == Phase::Sample {
            1nat
        } else {
            0nat
        }),
    {
        if millis == 0 {
            0
        } else {
            match self.action() {
                TaskAction::Stop => 0,
                TaskAction::Emit(_) => 1 + self.next().emissions_within(millis),
                TaskAction::Sleep(pause) => if millis <= pause {
                    0
                } else {
                    self.next().emissions_within((millis - pause) as nat)
                },
            }
        }
    }

    /// Starts a task.
    pub fn start(task: SamplerTask) -> (out: Sampler)
        ensures
            out == Sampler::initial(task),
    {
        let phase = match task {
            SamplerTask::Network => Phase::Pause,
            _ => Phase::Sample,
        };
        Sampler { task, phase }
    }

    /// Gives the next action of the task and moves on to the state after
    /// it.
    pub fn step(&mut self) -> (out: TaskAction)
        ensures
            out == old(self).action(),
            *final(self) == old(self).next(),
    {
        match self.phase {
            Phase::Sample => {
                self.phase = match self.task {
                    SamplerTask::Basic => Phase::Finished,
                    _ => Phase::Pause,
                };
                TaskAction::Emit(self.task.topic())
            },
            Phase::Pause => {
                self.phase = Phase::Sample;
                TaskAction::Sleep(SAMPLE_MILLIS)
            },
            Phase::Finished => TaskAction::Stop,
        }
    }
}

/// The task that samples first and pauses afterwards has sent one sample
/// for every second begun.
pub proof fn lemma_changing_emissions(millis: nat)
    ensures
        Sampler::initial(SamplerTask::Changing).emissions_within(millis) == (millis + 999) / 1000,
    decreases millis,
{
    let start = Sampler::initial(SamplerTask::Changing);
    if millis > 0 {
        let paused = start.next();
        assert(paused.next() == start);
        assert(start.emissions_within(millis) == 1 + paused.emissions_within(millis));
        if millis > 1000 {
            lemma_changing_emissions((millis - 1000) as nat);
            assert(paused.emissions_within(millis) == start.emissions_within(
                (millis - 1000) as nat,
            ));
        } else {
            assert(paused.emissions_within(millis) == 0);
        }
    }
}

/// The task that pauses first has sent one sample for every second that is
/// over.
pub proof fn lemma_network_emissions(millis: nat)
    ensures
        Sampler::initial(SamplerTask::Network).emissions_within(millis) == if millis == 0 {
            0
        } else {
            (millis - 1) / 1000
        },
    decreases millis,
{
    let start = Sampler::initial(SamplerTask::Network);
    if millis > 1000 {
        let rest = (millis - 1000) as nat;
        let sampling = start.next();
        assert(sampling.next() == start);
        lemma_network_emissions(rest);
        assert(start.emissions_within(millis) == sampling.emissions_within(rest));
        assert(sampling.emissions_within(rest) == 1 + start.emissions_within(rest));
    }
}

/// Within any span of five seconds, wherever it begins, each of the two
/// periodic tasks sends at least four and at most six samples.
pub proof fn lemma_periodic_cadence(task: SamplerTask, begin: nat)
    requires
        task == SamplerTask::Changing || task == SamplerTask::Network,
    ensures
        4 <= Sampler::initial(task).emissions_within(begin + 5000) - Sampler::initial(
            task,
        ).emissions_within(begin) <= 6,
{
    lemma_changing_emissions(begin);
    lemma_changing_emissions(begin + 5000);
    lemma_network_emissions(begin);
    lemma_network_emissions(begin + 5000);
}

/// The facts about the machine are sent exactly once, however long the
/// task is watched.
pub proof fn lemma_basic_sent_once(millis: nat)
    requires
        millis > 0,
    ensures
        Sampler::initial(SamplerTask::Basic).emissions_within(millis) == 1,
{
    let start = Sampler::initial(SamplerTask::Basic);
    assert(start.next().emissions_within(millis) == 0);
}

} // verus!
