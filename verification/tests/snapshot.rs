use system_info::cli::Args;
use system_info::labels::remap_label;
use system_info::quantity::{gb, mb, Quantity};
use system_info::system_info::{
    build_identity, build_memory, build_sensor, get_info, RawDisk, RawIdentity, RawMemory,
    RawSensor, SourceReadings,
};

fn as_f64(q: Quantity) -> f64 {
    q.numer as f64 / q.denom as f64
}

fn no_identity() -> RawIdentity {
    RawIdentity {
        name: None,
        kernel_version: None,
        os_version: None,
        host_name: None,
    }
}

fn zero_memory() -> RawMemory {
    RawMemory {
        total_ram: 0,
        used_ram: 0,
        total_swap: 0,
        used_swap: 0,
    }
}

#[test]
fn gb_is_decimal_division() {
    let q = gb(1_500_000_000);
    assert_eq!(q.numer, 1_500_000_000);
    assert_eq!(q.denom, 1_000_000_000);
    assert_eq!(as_f64(q), 1.5);
    assert_eq!(as_f64(gb(0)), 0.0);
    assert_eq!(as_f64(gb(2_000_000_000)), 2.0);
}

#[test]
fn mb_is_decimal_division() {
    let q = mb(1_500_000_000);
    assert_eq!(q.numer, 1_500_000_000);
    assert_eq!(q.denom, 1_000_000);
    assert_eq!(as_f64(q), 1500.0);
    assert_eq!(as_f64(mb(0)), 0.0);
}

#[test]
fn gb_is_not_binary_division() {
    // One binary gibibyte is more than one decimal gigabyte.
    let q = gb(1 << 30);
    assert_eq!(as_f64(q), (1u64 << 30) as f64 / 1_000_000_000.0);
    assert_ne!(as_f64(q), 1.0);
}

#[test]
fn percent_zero_total_is_exactly_zero() {
    let memory = build_memory(RawMemory {
        total_ram: 0,
        used_ram: 0,
        total_swap: 0,
        used_swap: 0,
    });
    assert_eq!(memory.ram_percent.numer, 0);
    assert_eq!(memory.ram_percent.denom, 1);
    assert_eq!(as_f64(memory.ram_percent), 0.0);
    assert_eq!(as_f64(memory.swap_percent), 0.0);
    assert!(as_f64(memory.ram_percent).is_finite());
    assert!(as_f64(memory.swap_percent).is_finite());
}

#[test]
fn percent_half_is_exactly_fifty() {
    let memory = build_memory(RawMemory {
        total_ram: 8_000_000_000,
        used_ram: 4_000_000_000,
        total_swap: 0,
        used_swap: 0,
    });
    assert_eq!(as_f64(memory.ram_percent), 50.0);
}

#[test]
fn memory_conversions_are_exact() {
    let memory = build_memory(RawMemory {
        total_ram: 8_000_000_000,
        used_ram: 2_000_000_000,
        total_swap: 4_000_000_000,
        used_swap: 1_000_000_000,
    });
    assert_eq!(as_f64(memory.total_ram_gb), 8.0);
    assert_eq!(as_f64(memory.total_ram_mb), 8000.0);
    assert_eq!(as_f64(memory.used_ram_gb), 2.0);
    assert_eq!(as_f64(memory.used_ram_mb), 2000.0);
    assert_eq!(as_f64(memory.ram_percent), 25.0);
    assert_eq!(as_f64(memory.total_swap_gb), 4.0);
    assert_eq!(as_f64(memory.total_swap_mb), 4000.0);
    assert_eq!(as_f64(memory.used_swap_gb), 1.0);
    assert_eq!(as_f64(memory.used_swap_mb), 1000.0);
    assert_eq!(as_f64(memory.swap_percent), 25.0);
}

#[test]
fn label_remap_is_case_insensitive() {
    assert_eq!(remap_label("TCTL"), "CPU (Tctl)");
    assert_eq!(remap_label("TcTl"), "CPU (Tctl)");
    assert_eq!(remap_label("tctl"), "CPU (Tctl)");
}

#[test]
fn label_remap_covers_the_whole_table() {
    assert_eq!(remap_label("iwlwifi_1 temp1"), "Wi-Fi Module");
    assert_eq!(remap_label("Iwlwifi_1 Temp1"), "Wi-Fi Module");
    assert_eq!(remap_label("Sensor 1"), "Sensor 1");
    assert_eq!(remap_label("sensor 2"), "Sensor 2");
    assert_eq!(remap_label("Composite"), "Chipset");
    assert_eq!(remap_label("edge"), "GPU (Edge)");
    assert_eq!(remap_label("EDGE"), "GPU (Edge)");
}

#[test]
fn label_remap_passes_unknown_labels_through() {
    assert_eq!(remap_label("unknown_sensor"), "unknown_sensor");
    // The original casing of an unmapped label is kept.
    assert_eq!(remap_label("Unknown_Sensor"), "Unknown_Sensor");
    assert_eq!(remap_label(""), "");
}

#[test]
fn sensor_without_reading_keeps_label_and_absent_temperature() {
    let component = build_sensor(&RawSensor {
        label: "composite".to_string(),
        temperature: None,
    });
    assert_eq!(component.label, "Chipset");
    assert_eq!(component.temperature, None);
}

#[test]
fn sensor_reading_is_passed_through_exactly() {
    let component = build_sensor(&RawSensor {
        label: "nvme sensor".to_string(),
        temperature: Some(36_850),
    });
    assert_eq!(component.label, "nvme sensor");
    assert_eq!(component.temperature, Some(36_850));
}

#[test]
fn absent_identity_becomes_empty_strings() {
    let details = build_identity(no_identity());
    assert_eq!(details.name, "");
    assert_eq!(details.kernel_version, "");
    assert_eq!(details.os_version, "");
    assert_eq!(details.host_name, "");
}

#[test]
fn present_identity_is_kept_verbatim() {
    let details = build_identity(RawIdentity {
        name: Some("Linux".to_string()),
        kernel_version: Some("6.1.0".to_string()),
        os_version: None,
        host_name: Some("box".to_string()),
    });
    assert_eq!(details.name, "Linux");
    assert_eq!(details.kernel_version, "6.1.0");
    assert_eq!(details.os_version, "");
    assert_eq!(details.host_name, "box");
}

#[test]
fn disks_and_sensors_keep_source_order() {
    let info = get_info(SourceReadings {
        identity: no_identity(),
        memory: zero_memory(),
        disks: vec![
            RawDisk {
                name: "/dev/sdb2".to_string(),
                mount_point: "/data".to_string(),
                available_space: 1,
                total_space: 2,
            },
            RawDisk {
                name: "/dev/sda1".to_string(),
                mount_point: "/".to_string(),
                available_space: 3,
                total_space: 4,
            },
        ],
        sensors: vec![
            RawSensor {
                label: "tctl".to_string(),
                temperature: Some(55_000),
            },
            RawSensor {
                label: "zz_last".to_string(),
                temperature: None,
            },
            RawSensor {
                label: "aa_first".to_string(),
                temperature: Some(20_000),
            },
        ],
    });
    assert_eq!(info.disks.len(), 2);
    assert_eq!(info.disks[0].name, "/dev/sdb2");
    assert_eq!(info.disks[0].mount_point, "/data");
    assert_eq!(info.disks[1].name, "/dev/sda1");
    assert_eq!(info.disks[1].mount_point, "/");
    assert_eq!(info.components.len(), 3);
    assert_eq!(info.components[0].label, "CPU (Tctl)");
    assert_eq!(info.components[1].label, "zz_last");
    assert_eq!(info.components[2].label, "aa_first");
}

#[test]
fn empty_enumerations_yield_empty_sequences() {
    let info = get_info(SourceReadings {
        identity: no_identity(),
        memory: zero_memory(),
        disks: vec![],
        sensors: vec![],
    });
    assert_eq!(info.disks.len(), 0);
    assert_eq!(info.components.len(), 0);
}

#[test]
fn successive_snapshots_share_their_shape() {
    let first = get_info(SourceReadings {
        identity: no_identity(),
        memory: RawMemory {
            total_ram: 8_000_000_000,
            used_ram: 1_000_000_000,
            total_swap: 0,
            used_swap: 0,
        },
        disks: vec![RawDisk {
            name: "/dev/sda1".to_string(),
            mount_point: "/".to_string(),
            available_space: 10,
            total_space: 20,
        }],
        sensors: vec![RawSensor {
            label: "edge".to_string(),
            temperature: Some(40_000),
        }],
    });
    // The host moved on between the calls: the values differ, the shape
    // does not.
    let second = get_info(SourceReadings {
        identity: no_identity(),
        memory: RawMemory {
            total_ram: 8_000_000_000,
            used_ram: 3_000_000_000,
            total_swap: 0,
            used_swap: 0,
        },
        disks: vec![RawDisk {
            name: "/dev/sda1".to_string(),
            mount_point: "/".to_string(),
            available_space: 9,
            total_space: 20,
        }],
        sensors: vec![RawSensor {
            label: "edge".to_string(),
            temperature: None,
        }],
    });
    assert_eq!(first.disks.len(), second.disks.len());
    assert_eq!(first.components.len(), second.components.len());
    assert_eq!(first.components[0].label, second.components[0].label);
    assert_ne!(
        as_f64(first.memory.ram_percent),
        as_f64(second.memory.ram_percent)
    );
}

#[test]
fn end_to_end_scenario() {
    let info = get_info(SourceReadings {
        identity: no_identity(),
        memory: RawMemory {
            total_ram: 16_000_000_000,
            used_ram: 8_000_000_000,
            total_swap: 0,
            used_swap: 0,
        },
        disks: vec![RawDisk {
            name: "/dev/sda1".to_string(),
            mount_point: "/".to_string(),
            available_space: 250_000_000_000,
            total_space: 500_000_000_000,
        }],
        sensors: vec![RawSensor {
            label: "edge".to_string(),
            temperature: Some(45_000),
        }],
    });
    assert_eq!(as_f64(info.memory.total_ram_gb), 16.0);
    assert_eq!(as_f64(info.memory.ram_percent), 50.0);
    assert_eq!(info.disks.len(), 1);
    assert_eq!(as_f64(info.disks[0].total_space_gb), 500.0);
    assert_eq!(as_f64(info.disks[0].available_space_gb), 250.0);
    assert_eq!(info.components.len(), 1);
    assert_eq!(info.components[0].label, "GPU (Edge)");
    let temperature = info.components[0].temperature.expect("reading is present");
    assert_eq!(temperature as f32 / 1000.0, 45.0);
}

#[test]
fn default_configuration_listens_on_7878() {
    let args = Args::default();
    assert_eq!(args.port, 7878);
    assert_eq!(system_info::cli::DEFAULT_PORT, 7878);
}
