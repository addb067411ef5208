//! System metrics: what a sample of the machine holds and how the samples
//! are shaped into the payloads that the widgets receive.

use crate::name_map::{collected, map_of, NameMap};
use crate::scalar::Real32;
use crate::text::{trim, trimmed};
use vstd::prelude::*;

verus! {

/// Memory in bytes.
#[derive(Debug, Clone, Copy, PartialEq, Eq, Structural)]
pub struct RamInfo {
    pub total: u64,
    pub used: u64,
    pub free: u64,
    pub avail: u64,
}

impl RamInfo {
    /// Used and free memory together do not exceed the total.
    pub open spec fn well_formed(&self) -> bool {
        self.used + self.free <= self.total
    }

    /// Tells whether used and free memory together do not exceed the total.
    pub fn is_consistent(&self) -> (out: bool)
        ensures
            out == self.well_formed(),
    {
        self.used <= self.total && self.free <= self.total - self.used
    }
}

/// One disk.
#[derive(Debug)]
pub struct DiskInfo {
    pub name: String,
    pub kind: String,
    pub fs: String,
    pub mount_point: String,
    pub total_space: u64,
    pub available_space: u64,
}

/// Usage of one graphics device, in percent.
#[derive(Debug)]
pub struct GpuInfo {
    pub id: String,
    pub memory_usage: u32,
    pub encoder_usage: u32,
    pub decoder_usage: u32,
    pub global_utilization: u32,
}

/// An internet address, by its bytes in network order.
#[derive(Debug, Clone, Copy, PartialEq, Eq)]
pub enum IpAddress {
    V4([u8; 4]),
    V6([u8; 16]),
}

/// One network of an interface: an address and the length of its prefix.
#[derive(Debug, Clone, Copy, PartialEq, Eq)]
pub struct IpNetworksInfo {
    pub ip: IpAddress,
    pub mask: u8,
}

/// Counters and addresses of one network interface. A counter without
/// `total_` counts since the sample before, one with it since the interface
/// came up.
#[derive(Debug)]
pub struct NetworkInfo {
    pub received: u64,
    pub total_received: u64,
    pub transmitted: u64,
    pub total_transmitted: u64,
    pub packets_received: u64,
    pub total_packets_received: u64,
    pub packets_transmitted: u64,
    pub total_packets_transmitted: u64,
    pub errors_on_received: u64,
    pub total_errors_on_received: u64,
    pub errors_on_transmitted: u64,
    pub total_errors_on_transmitted: u64,
    pub mac_address: [u8; 6],
    pub ip_networks: Vec<IpNetworksInfo>,
}

/// Facts about the machine that do not change while it runs.
#[derive(Debug)]
pub struct BasicMachineInfo {
    pub os_name: String,
    pub os_version: String,
    pub kernel_version: String,
    pub hostname: String,
    pub distribution: String,
    pub cpu: String,
    pub total_processors: usize,
    pub gpu: Vec<String>,
}

/// One sample of the metrics that change.
#[derive(Debug)]
pub struct ChangingMachineInfo {
    /// Load of every logical processor, in percent.
    pub cpu_usage: Vec<Real32>,
    pub gpu_usage: Vec<GpuInfo>,
    pub ram_usage: RamInfo,
    pub disk_usage: Vec<DiskInfo>,
}

impl ChangingMachineInfo {
    /// Every processor load is a percentage and the memory figures agree.
    pub open spec fn well_formed(&self) -> bool {
        &&& forall|i: int| 0 <= i < self.cpu_usage@.len() ==> (#[trigger] self.cpu_usage@[i]).is_percent()
        &&& self.ram_usage.well_formed()
    }

    /// Tells whether every processor load is a percentage and the memory
    /// figures agree.
    pub fn is_consistent(&self) -> (out: bool)
        ensures
            out == self.well_formed(),
    {
        let mut i: usize = 0;
        while i < self.cpu_usage.len()
            invariant
                i <= self.cpu_usage@.len(),
                forall|k: int| 0 <= k < i ==> (#[trigger] self.cpu_usage@[k]).is_percent(),
            decreases self.cpu_usage@.len() - i,
        {
            if !self.cpu_usage[i].in_percent_range() {
                return false;
            }
            i = i + 1;
        }
        self.ram_usage.is_consistent()
    }
}

/// What the machine reports of itself, as it comes.
#[derive(Debug)]
pub struct SystemDetails {
    pub os_name: String,
    pub os_version: String,
    pub kernel_version: String,
    pub hostname: String,
    pub distribution: String,
    pub processor_brand: String,
    pub total_processors: usize,
    /// Names of the graphics cards.
    pub graphics: Vec<String>,
}

/// Shapes the machine's report of itself into the payload: every text
/// without the white space around it, the cards in their order.
pub fn get_basic_machine_info(details: &SystemDetails) -> (out: BasicMachineInfo)
    ensures
        out.os_name@ == trimmed(details.os_name@),
        out.os_version@ == trimmed(details.os_version@),
        out.kernel_version@ == trimmed(details.kernel_version@),
        out.hostname@ == trimmed(details.hostname@),
        out.distribution@ == trimmed(details.distribution@),
        out.cpu@ == trimmed(details.processor_brand@),
        out.total_processors == details.total_processors,
        out.gpu@.len() == details.graphics@.len(),
        forall|i: int|
            0 <= i < out.gpu@.len() ==> (#[trigger] out.gpu@[i])@ == trimmed(details.graphics@[i]@),
{
    let mut gpu: Vec<String> = Vec::with_capacity(details.graphics.len());
    let mut i: usize = 0;
    while i < details.graphics.len()
        invariant
            i <= details.graphics@.len(),
            gpu@.len() == i,
            forall|k: int| 0 <= k < i ==> (#[trigger] gpu@[k])@ == trimmed(details.graphics@[k]@),
        decreases details.graphics@.len() - i,
    {
        gpu.push(trim(details.graphics[i].as_str()));
        i = i + 1;
    }
    BasicMachineInfo {
        os_name: trim(details.os_name.as_str()),
        os_version: trim(details.os_version.as_str()),
        kernel_version: trim(details.kernel_version.as_str()),
        hostname: trim(details.hostname.as_str()),
        distribution: trim(details.distribution.as_str()),
        cpu: trim(details.processor_brand.as_str()),
        total_processors: details.total_processors,
        gpu,
    }
}

/// Usage of one graphics device as the driver reports it.
#[derive(Debug)]
pub struct GraphicsReading {
    pub id: String,
    /// Memory utilisation in percent.
    pub memory_usage: u32,
    /// Encoder utilisation in percent.
    pub encoder: u32,
    /// Decoder utilisation in percent.
    pub decoder: u32,
    /// Utilisation of the device in percent.
    pub gpu: u32,
}

/// Whether a payload entry says what a reading of a graphics device says.
pub open spec fn gpu_info_of(info: GpuInfo, reading: GraphicsReading) -> bool {
    &&& info.id@ == reading.id@
    &&& info.memory_usage == reading.memory_usage
    &&& info.encoder_usage == reading.encoder
    &&& info.decoder_usage == reading.decoder
    &&& info.global_utilization == reading.gpu
}

/// Shapes the readings of the graphics devices into the payload, one entry
/// for each device in the order of the readings. No device gives an empty
/// list.
pub fn get_gpu_info(readings: &Vec<GraphicsReading>) -> (out: Vec<GpuInfo>)
    ensures
        out@.len() == readings@.len(),
        forall|i: int| 0 <= i < out@.len() ==> gpu_info_of(#[trigger] out@[i], readings@[i]),
{
    let mut out: Vec<GpuInfo> = Vec::with_capacity(readings.len());
    let mut i: usize = 0;
    while i < readings.len()
        invariant
            i <= readings@.len(),
            out@.len() == i,
            forall|k: int| 0 <= k < i ==> gpu_info_of(#[trigger] out@[k], readings@[k]),
        decreases readings@.len() - i,
    {
        let reading = &readings[i];
        out.push(
            GpuInfo {
                id: reading.id.clone(),
                memory_usage: reading.memory_usage,
                encoder_usage: reading.encoder,
                decoder_usage: reading.decoder,
                global_utilization: reading.gpu,
            },
        );
        i = i + 1;
    }
    out
}

/// One disk as the system lists it. A text that is not valid Unicode is
/// `None`.
#[derive(Debug)]
pub struct DiskReading {
    pub name: Option<String>,
    pub kind: String,
    pub file_system: Option<String>,
    pub mount_point: Option<String>,
    pub total_space: u64,
    pub available_space: u64,
}

/// A text field of a disk.
#[derive(Debug, Clone, Copy, PartialEq, Eq, Structural)]
pub enum DiskField {
    Name,
    FileSystem,
    MountPoint,
}

/// Why a sample could not be shaped into a payload.
#[derive(Debug, Clone, Copy, PartialEq, Eq, Structural)]
pub enum SamplingError {
    /// A text of the disk at this position is not valid Unicode.
    NotUnicode { index: usize, field: DiskField },
}

/// The first text of a disk that is not valid Unicode, if there is one.
pub open spec fn unreadable_field(reading: DiskReading) -> Option<DiskField> {
    if reading.name is None {
        Some(DiskField::Name)
    } else if reading.file_system is None {
        Some(DiskField::FileSystem)
    } else if reading.mount_point is None {
        Some(DiskField::MountPoint)
    } else {
        None
    }
}

/// The first disk, from `from` on, with a text that is not valid Unicode.
pub open spec fn first_unreadable(readings: Seq<DiskReading>, from: int) -> Option<int>
    decreases readings.len() - from,
{
    if from < 0 || from >= readings.len() {
        None
    } else if unreadable_field(readings[from]) is Some {
        Some(from)
    } else {
        first_unreadable(readings, from + 1)
    }
}

/// Whether a payload entry says what a reading of a disk says.
pub open spec fn disk_info_of(info: DiskInfo, reading: DiskReading) -> bool {
    &&& reading.name == Some(info.name)
    &&& info.kind@ == reading.kind@
    &&& reading.file_system == Some(info.fs)
    &&& reading.mount_point == Some(info.mount_point)
    &&& info.total_space == reading.total_space
    &&& info.available_space == reading.available_space
}

/// Shapes one disk reading into a payload entry, or names the first text
/// that is not valid Unicode.
pub fn disk_info(reading: &DiskReading) -> (out: Result<DiskInfo, DiskField>)
    ensures
        match out {
            Ok(info) => unreadable_field(*reading) is None && disk_info_of(info, *reading),
            Err(field) => unreadable_field(*reading) == Some(field),
        },
{
    let name = match &reading.name {
        Some(text) => text.clone(),
        None => {
            return Err(DiskField::Name);
        },
    };
    let fs = match &reading.file_system {
        Some(text) => text.clone(),
        None => {
            return Err(DiskField::FileSystem);
        },
    };
    let mount_point = match &reading.mount_point {
        Some(text) => text.clone(),
        None => {
            return Err(DiskField::MountPoint);
        },
    };
    Ok(
        DiskInfo {
            name,
            kind: reading.kind.clone(),
            fs,
            mount_point,
            total_space: reading.total_space,
            available_space: reading.available_space,
        },
    )
}

/// Shapes the disk readings into the payload, one entry for each disk in
/// the order of the readings. A text that is not valid Unicode makes the
/// sample fail: the error names the first such disk and its first such
/// text.
pub fn get_disk_info(readings: &Vec<DiskReading>) -> (out: Result<Vec<DiskInfo>, SamplingError>)
    ensures
        match out {
            Ok(disks) => {
                &&& first_unreadable(readings@, 0) is None
                &&& disks@.len() == readings@.len()
                &&& forall|i: int|
                    0 <= i < disks@.len() ==> disk_info_of(#[trigger] disks@[i], readings@[i])
            },
            Err(SamplingError::NotUnicode { index, field }) => {
                &&& first_unreadable(readings@, 0) == Some(index as int)
                &&& unreadable_field(readings@[index as int]) == Some(field)
            },
        },
{
    let mut disks: Vec<DiskInfo> = Vec::with_capacity(readings.len());
    let mut i: usize = 0;
    while i < readings.len()
        invariant
            i <= readings@.len(),
            disks@.len() == i,
            first_unreadable(readings@, 0) == first_unreadable(readings@, i as int),
            forall|k: int| 0 <= k < i ==> disk_info_of(#[trigger] disks@[k], readings@[k]),
        decreases readings@.len() - i,
    {
        match disk_info(&readings[i]) {
            Ok(info) => {
                disks.push(info);
            },
            Err(field) => {
                return Err(SamplingError::NotUnicode { index: i, field });
            },
        }
        i = i + 1;
    }
    Ok(disks)
}

/// Puts the parts of one sample together. The sample fails where the disks
/// do.
pub fn get_changing_machine_info(
    cpu_usage: Vec<Real32>,
    graphics: &Vec<GraphicsReading>,
    ram_usage: RamInfo,
    disks: &Vec<DiskReading>,
) -> (out: Result<ChangingMachineInfo, SamplingError>)
    ensures
        match out {
            Ok(info) => {
                &&& first_unreadable(disks@, 0) is None
                &&& info.cpu_usage@ == cpu_usage@
                &&& info.ram_usage == ram_usage
                &&& info.gpu_usage@.len() == graphics@.len()
                &&& forall|i: int|
                    0 <= i < graphics@.len() ==> gpu_info_of(
                        #[trigger] info.gpu_usage@[i],
                        graphics@[i],
                    )
                &&& info.disk_usage@.len() == disks@.len()
                &&& forall|i: int|
                    0 <= i < disks@.len() ==> disk_info_of(#[trigger] info.disk_usage@[i], disks@[i])
            },
            Err(SamplingError::NotUnicode { index, field }) => {
                &&& first_unreadable(disks@, 0) == Some(index as int)
                &&& unreadable_field(disks@[index as int]) == Some(field)
            },
        },
{
    match get_disk_info(disks) {
        Err(e) => Err(e),
        Ok(disk_usage) => Ok(
            ChangingMachineInfo {
                cpu_usage,
                gpu_usage: get_gpu_info(graphics),
                ram_usage,
                disk_usage,
            },
        ),
    }
}

/// Collects the samples of the network interfaces into a map by interface
/// name. Where an interface was sampled more than once, its last sample
/// counts.
pub fn get_network_info(readings: Vec<(String, NetworkInfo)>) -> (out: NameMap<NetworkInfo>)
    ensures
        out.well_formed(),
        out@ == map_of(readings@),
        out.entries@ == collected(readings@),
{
    NameMap::from_entries(readings)
}

} // verus!
