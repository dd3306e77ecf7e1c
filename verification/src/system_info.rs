use vstd::prelude::*;

use crate::labels::{friendly_label, lower_of, remap_label};
use crate::quantity::{gb, gb_of, mb, mb_of, percent, percent_of, Quantity};

verus! {

// ---------------------------------------------------------------------------
// Raw readings: what the host's telemetry source hands the normalizer.
// ---------------------------------------------------------------------------

/// The identity strings of the host as the source reports them; a facet
/// the source cannot supply is absent, not empty.
pub struct RawIdentity {
    /// OS name, when the source can supply it.
    pub name: Option<String>,
    /// Kernel version, when the source can supply it.
    pub kernel_version: Option<String>,
    /// OS version, when the source can supply it.
    pub os_version: Option<String>,
    /// Host name, when the source can supply it.
    pub host_name: Option<String>,
}

/// Aggregate memory counters of the host, in raw bytes.
pub struct RawMemory {
    /// Total RAM in bytes.
    pub total_ram: u64,
    /// Used RAM in bytes.
    pub used_ram: u64,
    /// Total swap in bytes.
    pub total_swap: u64,
    /// Used swap in bytes.
    pub used_swap: u64,
}

/// One mounted volume as the source reports it, with byte counters.
pub struct RawDisk {
    /// Device name, transcoded losslessly into a display string.
    pub name: String,
    /// Mount point, transcoded losslessly into a display string.
    pub mount_point: String,
    /// Available space in bytes.
    pub available_space: u64,
    /// Total space in bytes.
    pub total_space: u64,
}

/// One thermal sensor as the source reports it.
pub struct RawSensor {
    /// The vendor-specific raw label.
    pub label: String,
    /// The current reading in thousandths of a degree Celsius; absent when
    /// the sensor exposes no current value.
    pub temperature: Option<i64>,
}

/// One fresh set of raw readings, every facet sampled by the source just
/// before the snapshot is built.
pub struct SourceReadings {
    /// Identity strings.
    pub identity: RawIdentity,
    /// Memory counters.
    pub memory: RawMemory,
    /// Mounted volumes, in the order the source enumerated them.
    pub disks: Vec<RawDisk>,
    /// Thermal sensors, in the order the source enumerated them.
    pub sensors: Vec<RawSensor>,
}

// ---------------------------------------------------------------------------
// The normalized snapshot.
// ---------------------------------------------------------------------------

/// OS and host identity strings; a facet the source could not supply is
/// the empty string, never an omitted field.
pub struct SystemDetails {
    /// OS name, or empty.
    pub name: String,
    /// Kernel version, or empty.
    pub kernel_version: String,
    /// OS version, or empty.
    pub os_version: String,
    /// Host name, or empty.
    pub host_name: String,
}

/// RAM and swap utilization, each counter in decimal gigabytes and
/// megabytes, plus a utilization percentage with the zero-total guard.
pub struct MemoryInfo {
    /// Total RAM in gigabytes.
    pub total_ram_gb: Quantity,
    /// Total RAM in megabytes.
    pub total_ram_mb: Quantity,
    /// Used RAM in gigabytes.
    pub used_ram_gb: Quantity,
    /// Used RAM in megabytes.
    pub used_ram_mb: Quantity,
    /// Used RAM as a percentage of total RAM; zero when there is no RAM.
    pub ram_percent: Quantity,
    /// Total swap in gigabytes.
    pub total_swap_gb: Quantity,
    /// Total swap in megabytes.
    pub total_swap_mb: Quantity,
    /// Used swap in gigabytes.
    pub used_swap_gb: Quantity,
    /// Used swap in megabytes.
    pub used_swap_mb: Quantity,
    /// Used swap as a percentage of total swap; zero when there is no swap.
    pub swap_percent: Quantity,
}

/// One mounted volume, its space counters in decimal units.
pub struct DiskInfo {
    /// Device name.
    pub name: String,
    /// Mount point.
    pub mount_point: String,
    /// Available space in gigabytes.
    pub available_space_gb: Quantity,
    /// Available space in megabytes.
    pub available_space_mb: Quantity,
    /// Total space in gigabytes.
    pub total_space_gb: Quantity,
    /// Total space in megabytes.
    pub total_space_mb: Quantity,
}

/// One thermal sensor: a display label and an optional reading.
pub struct ComponentInfo {
    /// The display label, remapped from the raw label when the table
    /// knows it.
    pub label: String,
    /// The current reading in thousandths of a degree Celsius; absent when
    /// the sensor reported none — never a numeric placeholder.
    pub temperature: Option<i64>,
}

/// One point-in-time structured capture of host telemetry.
pub struct SystemInfo {
    /// Identity strings.
    pub system: SystemDetails,
    /// Memory utilization.
    pub memory: MemoryInfo,
    /// Mounted volumes, in source order.
    pub disks: Vec<DiskInfo>,
    /// Thermal sensors, in source order.
    pub components: Vec<ComponentInfo>,
}

// ---------------------------------------------------------------------------
// What the normalizer promises, facet by facet.
// ---------------------------------------------------------------------------

/// The text of an optional identity string: its characters when present,
/// the empty-string sentinel when absent.
pub open spec fn sentinel_view(o: Option<String>) -> Seq<char> {
    match o {
        Option::Some(s) => s@,
        Option::None => Seq::empty(),
    }
}

/// The identity block carries each source string verbatim, with the
/// empty-string sentinel for every absent facet.
pub open spec fn identity_matches(details: SystemDetails, raw: RawIdentity) -> bool {
    &&& details.name@ == sentinel_view(raw.name)
    &&& details.kernel_version@ == sentinel_view(raw.kernel_version)
    &&& details.os_version@ == sentinel_view(raw.os_version)
    &&& details.host_name@ == sentinel_view(raw.host_name)
}

/// Every memory field is the exact conversion of the raw counters: decimal
/// units for each counter and the guarded percentage for each pool.
pub open spec fn memory_matches(memory: MemoryInfo, raw: RawMemory) -> bool {
    &&& memory.total_ram_gb == gb_of(raw.total_ram)
    &&& memory.total_ram_mb == mb_of(raw.total_ram)
    &&& memory.used_ram_gb == gb_of(raw.used_ram)
    &&& memory.used_ram_mb == mb_of(raw.used_ram)
    &&& memory.ram_percent == percent_of(raw.used_ram, raw.total_ram)
    &&& memory.total_swap_gb == gb_of(raw.total_swap)
    &&& memory.total_swap_mb == mb_of(raw.total_swap)
    &&& memory.used_swap_gb == gb_of(raw.used_swap)
    &&& memory.used_swap_mb == mb_of(raw.used_swap)
    &&& memory.swap_percent == percent_of(raw.used_swap, raw.total_swap)
}

/// A disk entry carries the names verbatim and the exact decimal
/// conversion of both space counters.
pub open spec fn disk_matches(disk: DiskInfo, raw: RawDisk) -> bool {
    &&& disk.name@ == raw.name@
    &&& disk.mount_point@ == raw.mount_point@
    &&& disk.available_space_gb == gb_of(raw.available_space)
    &&& disk.available_space_mb == mb_of(raw.available_space)
    &&& disk.total_space_gb == gb_of(raw.total_space)
    &&& disk.total_space_mb == mb_of(raw.total_space)
}

/// A sensor entry carries the remapped display label and the reading
/// exactly as reported — present stays present, absent stays absent.
pub open spec fn sensor_matches(component: ComponentInfo, raw: RawSensor) -> bool {
    &&& component.label@ == friendly_label(lower_of(raw.label@), raw.label@)
    &&& component.temperature == raw.temperature
}

/// The whole snapshot is the normalization of the readings: every facet
/// converted exactly, and the disk and sensor entries in the source's
/// order, one for one.
pub open spec fn snapshot_matches(info: SystemInfo, raw: SourceReadings) -> bool {
    &&& identity_matches(info.system, raw.identity)
    &&& memory_matches(info.memory, raw.memory)
    &&& info.disks@.len() == raw.disks@.len()
    &&& forall|i: int|
        0 <= i < raw.disks@.len() ==> disk_matches(#[trigger] info.disks@[i], raw.disks@[i])
    &&& info.components@.len() == raw.sensors@.len()
    &&& forall|i: int|
        0 <= i < raw.sensors@.len() ==> sensor_matches(
            #[trigger] info.components@[i],
            raw.sensors@[i],
        )
}

// ---------------------------------------------------------------------------
// The normalizer.
// ---------------------------------------------------------------------------

/// The string itself when present, the empty-string sentinel when absent.
fn unwrap_or_empty(o: Option<String>) -> (r: String)
    ensures
        r@ == sentinel_view(o),
{
    match o {
        Option::Some(s) => s,
        Option::None => String::new(),
    }
}

/// Builds the identity block, substituting the empty-string sentinel for
/// every facet the source could not supply.
pub fn build_identity(raw: RawIdentity) -> (details: SystemDetails)
    ensures
        identity_matches(details, raw),
{
    SystemDetails {
        name: unwrap_or_empty(raw.name),
        kernel_version: unwrap_or_empty(raw.kernel_version),
        os_version: unwrap_or_empty(raw.os_version),
        host_name: unwrap_or_empty(raw.host_name),
    }
}

/// Builds the memory block: exact decimal conversions of every counter
/// and the guarded utilization percentages.
pub fn build_memory(raw: RawMemory) -> (memory: MemoryInfo)
    ensures
        memory_matches(memory, raw),
{
    MemoryInfo {
        total_ram_gb: gb(raw.total_ram),
        total_ram_mb: mb(raw.total_ram),
        used_ram_gb: gb(raw.used_ram),
        used_ram_mb: mb(raw.used_ram),
        ram_percent: percent(raw.used_ram, raw.total_ram),
        total_swap_gb: gb(raw.total_swap),
        total_swap_mb: mb(raw.total_swap),
        used_swap_gb: gb(raw.used_swap),
        used_swap_mb: mb(raw.used_swap),
        swap_percent: percent(raw.used_swap, raw.total_swap),
    }
}

/// Normalizes one volume: names kept verbatim, space counters converted
/// to exact decimal units.
pub fn build_disk(raw: &RawDisk) -> (disk: DiskInfo)
    ensures
        disk_matches(disk, *raw),
{
    DiskInfo {
        name: raw.name.clone(),
        mount_point: raw.mount_point.clone(),
        available_space_gb: gb(raw.available_space),
        available_space_mb: mb(raw.available_space),
        total_space_gb: gb(raw.total_space),
        total_space_mb: mb(raw.total_space),
    }
}

/// Normalizes the volumes one for one, keeping the source's order.
pub fn build_disks(raws: &Vec<RawDisk>) -> (disks: Vec<DiskInfo>)
    ensures
        disks@.len() == raws@.len(),
        forall|i: int| 0 <= i < raws@.len() ==> disk_matches(#[trigger] disks@[i], raws@[i]),
{
    let mut disks: Vec<DiskInfo> = Vec::new();
    let mut i: usize = 0;
    while i < raws.len()
        invariant
            i <= raws@.len(),
            disks@.len() == i as int,
            forall|j: int| 0 <= j < i ==> disk_matches(#[trigger] disks@[j], raws@[j]),
        decreases raws@.len() - i,
    {
        let disk = build_disk(&raws[i]);
        disks.push(disk);
        i = i + 1;
    }
    disks
}

/// Normalizes one sensor: the label goes through the remap table, the
/// reading is kept exactly as reported, absent when absent.
pub fn build_sensor(raw: &RawSensor) -> (component: ComponentInfo)
    ensures
        sensor_matches(component, *raw),
{
    ComponentInfo { label: remap_label(raw.label.as_str()), temperature: raw.temperature }
}

/// Normalizes the sensors one for one, keeping the source's order.
pub fn build_sensors(raws: &Vec<RawSensor>) -> (components: Vec<ComponentInfo>)
    ensures
        components@.len() == raws@.len(),
        forall|i: int|
            0 <= i < raws@.len() ==> sensor_matches(#[trigger] components@[i], raws@[i]),
{
    let mut components: Vec<ComponentInfo> = Vec::new();
    let mut i: usize = 0;
    while i < raws.len()
        invariant
            i <= raws@.len(),
            components@.len() == i as int,
            forall|j: int| 0 <= j < i ==> sensor_matches(#[trigger] components@[j], raws@[j]),
        decreases raws@.len() - i,
    {
        let component = build_sensor(&raws[i]);
        components.push(component);
        i = i + 1;
    }
    components
}

/// Normalizes one fresh set of raw readings into the canonical snapshot.
///
/// The call never fails and drops nothing: every absent facet is already
/// represented structurally in the readings, every counter is converted
/// exactly, and the disk and sensor entries keep the source's order.
pub fn get_info(raw: SourceReadings) -> (info: SystemInfo)
    ensures
        snapshot_matches(info, raw),
{
    let disks = build_disks(&raw.disks);
    let components = build_sensors(&raw.sensors);
    SystemInfo {
        system: build_identity(raw.identity),
        memory: build_memory(raw.memory),
        disks,
        components,
    }
}

/// The shape of a snapshot is a function of the readings' shape alone:
/// snapshots built from readings with equally many disks and sensors have
/// equally many disk and sensor entries, and the rest of the structure is
/// fixed by the types — so successive collections always agree on the
/// structure of the result, whatever the values.
pub proof fn lemma_snapshot_shape(
    info1: SystemInfo,
    raw1: SourceReadings,
    info2: SystemInfo,
    raw2: SourceReadings,
)
    requires
        snapshot_matches(info1, raw1),
        snapshot_matches(info2, raw2),
        raw1.disks@.len() == raw2.disks@.len(),
        raw1.sensors@.len() == raw2.sensors@.len(),
    ensures
        info1.disks@.len() == info2.disks@.len(),
        info1.components@.len() == info2.components@.len(),
{
}

} // verus!
