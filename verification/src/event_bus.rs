//! The topics of the event bus between the backend and the widgets.

use vstd::prelude::*;
use vstd::string::StringExecFns;

verus! {

/// A topic of the event bus.
#[derive(Debug, Clone, Copy, PartialEq, Eq, Structural)]
pub enum Topic {
    /// Facts about the machine; sent once.
    BasicMachineInfo,
    /// Processor, graphics, memory and disk metrics; sent every second.
    ChangingMachineInfo,
    /// Counters of the network interfaces; sent every second.
    NetworkInfo,
    /// Snapshot of the media session; sent with every media poll.
    MediaControl,
    /// Commands for the media session; received from the widgets.
    MediaPlayerCommand,
}

impl Topic {
    /// The key of the topic on the bus.
    pub open spec fn name_of(self) -> Seq<char> {
        match self {
            Topic::BasicMachineInfo => "basicMachineInfo"@,
            Topic::ChangingMachineInfo => "changingMachineInfo"@,
            Topic::NetworkInfo => "networkInfo"@,
            Topic::MediaControl => "mediaControl"@,
            Topic::MediaPlayerCommand => "mediaPlayerCommand"@,
        }
    }

    /// Returns the key of the topic on the bus.
    pub fn name(&self) -> (out: &'static str)
        ensures
            out@ == self.name_of(),
    {
        match self {
            Topic::BasicMachineInfo => "basicMachineInfo",
            Topic::ChangingMachineInfo => "changingMachineInfo",
            Topic::NetworkInfo => "networkInfo",
            Topic::MediaControl => "mediaControl",
            Topic::MediaPlayerCommand => "mediaPlayerCommand",
        }
    }

    /// Tells whether the backend listens on the topic rather than sends on
    /// it. It listens for media commands only.
    pub fn is_received(&self) -> (out: bool)
        ensures
            out == (*self == Topic::MediaPlayerCommand),
    {
        match self {
            Topic::MediaPlayerCommand => true,
            _ => false,
        }
    }
}

} // verus!
