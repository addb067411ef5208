use widget_bridge::event_bus::Topic;
use widget_bridge::schedule::{Phase, Sampler, SamplerTask, TaskAction, SAMPLE_MILLIS};

/// Runs a task on a clock on which only pauses take time and counts the
/// samples sent at a time in `begin..end`.
fn emissions(task: SamplerTask, begin: u64, end: u64) -> u64 {
    let mut sampler = Sampler::start(task);
    let mut now = 0;
    let mut count = 0;
    while now < end {
        match sampler.step() {
            TaskAction::Emit(topic) => {
                assert_eq!(topic, task.topic());
                if now >= begin {
                    count += 1;
                }
            }
            TaskAction::Sleep(millis) => now += millis,
            TaskAction::Stop => break,
        }
    }
    count
}

#[test]
fn topic_names() {
    assert_eq!(Topic::BasicMachineInfo.name(), "basicMachineInfo");
    assert_eq!(Topic::ChangingMachineInfo.name(), "changingMachineInfo");
    assert_eq!(Topic::NetworkInfo.name(), "networkInfo");
    assert_eq!(Topic::MediaControl.name(), "mediaControl");
    assert_eq!(Topic::MediaPlayerCommand.name(), "mediaPlayerCommand");
}

#[test]
fn only_commands_are_received() {
    assert!(Topic::MediaPlayerCommand.is_received());
    assert!(!Topic::BasicMachineInfo.is_received());
    assert!(!Topic::ChangingMachineInfo.is_received());
    assert!(!Topic::NetworkInfo.is_received());
    assert!(!Topic::MediaControl.is_received());
}

#[test]
fn tasks_send_on_their_topics() {
    assert_eq!(SamplerTask::Basic.topic(), Topic::BasicMachineInfo);
    assert_eq!(SamplerTask::Changing.topic(), Topic::ChangingMachineInfo);
    assert_eq!(SamplerTask::Network.topic(), Topic::NetworkInfo);
}

#[test]
fn basic_task_sends_once_and_stops() {
    let mut s = Sampler::start(SamplerTask::Basic);
    assert_eq!(s, Sampler { task: SamplerTask::Basic, phase: Phase::Sample });
    assert_eq!(s.step(), TaskAction::Emit(Topic::BasicMachineInfo));
    assert_eq!(s.step(), TaskAction::Stop);
    assert_eq!(s.step(), TaskAction::Stop);
    assert_eq!(s.phase, Phase::Finished);
}

#[test]
fn changing_task_samples_then_pauses() {
    assert_eq!(SAMPLE_MILLIS, 1000);
    let mut s = Sampler::start(SamplerTask::Changing);
    for _ in 0..4 {
        assert_eq!(s.step(), TaskAction::Emit(Topic::ChangingMachineInfo));
        assert_eq!(s.step(), TaskAction::Sleep(1000));
    }
}

#[test]
fn network_task_pauses_then_samples() {
    let mut s = Sampler::start(SamplerTask::Network);
    assert_eq!(s.phase, Phase::Pause);
    for _ in 0..4 {
        assert_eq!(s.step(), TaskAction::Sleep(1000));
        assert_eq!(s.step(), TaskAction::Emit(Topic::NetworkInfo));
    }
}

#[test]
fn five_seconds_hold_four_to_six_samples() {
    for begin in [0u64, 1, 500, 999, 1000, 1001, 4999, 5000, 123_456] {
        for task in [SamplerTask::Changing, SamplerTask::Network] {
            let n = emissions(task, begin, begin + 5000);
            assert!((4..=6).contains(&n), "{:?} from {}: {}", task, begin, n);
        }
    }
    assert_eq!(emissions(SamplerTask::Changing, 0, 5000), 5);
    assert_eq!(emissions(SamplerTask::Network, 0, 5000), 4);
    assert_eq!(emissions(SamplerTask::Network, 1, 5001), 5);
}

#[test]
fn machine_facts_are_sent_once_in_five_seconds() {
    assert_eq!(emissions(SamplerTask::Basic, 0, 5000), 1);
    assert_eq!(emissions(SamplerTask::Basic, 0, 1), 1);
    assert_eq!(emissions(SamplerTask::Basic, 0, 1_000_000), 1);
}
