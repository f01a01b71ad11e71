use pomky::config::{Config, LoadAction, LoadEvent, SaveAction, SaveEvent, WindowAnchor};
use pomky::cpu::cpu_core_widget_name;
use pomky::disk::{disk_usage, DiskSpace};
use pomky::graph::graph_sample_indices;
use pomky::network::{classify_interface, NetworkDevice, DEVICE_ETHERNET, DEVICE_WIFI};
use pomky::processes::top_processes;
use pomky::text::decimal_string;
use pomky::uptime::format_uptime;
use pomky::util::{msec_2_duration, pretty_bytes_unit, ByteUnit};

#[test]
fn msec_2_duration_converts_milliseconds() {
    assert_eq!(msec_2_duration(0).as_nanos(), 0);
    assert_eq!(msec_2_duration(1).as_nanos(), 1_000_000);
    assert_eq!(msec_2_duration(1000).as_secs(), 1);
    assert_eq!(msec_2_duration(1000).subsec_nanos(), 0);
    assert_eq!(msec_2_duration(1500).as_millis(), 1500);
    assert_eq!(msec_2_duration(4294).as_millis(), 4294);
}

#[test]
fn msec_2_duration_beyond_u32_nanoseconds() {
    assert_eq!(msec_2_duration(5000), std::time::Duration::from_secs(5));
    assert_eq!(msec_2_duration(4295).as_millis(), 4295);
    assert_eq!(msec_2_duration(60_000).as_secs(), 60);
    let max = msec_2_duration(u32::MAX);
    assert_eq!(max, std::time::Duration::from_millis(u32::MAX as u64));
    assert_eq!(max.as_secs(), (u32::MAX / 1000) as u64);
    assert_eq!(max.subsec_nanos(), (u32::MAX % 1000) * 1_000_000);
}

#[test]
fn pretty_bytes_unit_thresholds() {
    assert_eq!(pretty_bytes_unit(0), ByteUnit::Byte);
    assert_eq!(pretty_bytes_unit(999), ByteUnit::Byte);
    assert_eq!(pretty_bytes_unit(1000), ByteUnit::Kilobyte);
    assert_eq!(pretty_bytes_unit(999_999), ByteUnit::Kilobyte);
    assert_eq!(pretty_bytes_unit(1_000_000), ByteUnit::Megabyte);
    assert_eq!(pretty_bytes_unit(999_999_999), ByteUnit::Megabyte);
    assert_eq!(pretty_bytes_unit(1_000_000_000), ByteUnit::Gigabyte);
    assert_eq!(pretty_bytes_unit(u64::MAX), ByteUnit::Gigabyte);
}

#[test]
fn byte_unit_sizes_and_symbols() {
    assert_eq!(ByteUnit::Gigabyte.size(), 1_000_000_000);
    assert_eq!(ByteUnit::Megabyte.size(), 1_000_000);
    assert_eq!(ByteUnit::Kilobyte.size(), 1000);
    assert_eq!(ByteUnit::Byte.size(), 1);
    assert_eq!(ByteUnit::Gigabyte.symbol(), "GB");
    assert_eq!(ByteUnit::Megabyte.symbol(), "MB");
    assert_eq!(ByteUnit::Kilobyte.symbol(), "KB");
    assert_eq!(ByteUnit::Byte.symbol(), "B");
}

#[test]
fn decimal_string_matches_display() {
    for n in [0u64, 7, 9, 10, 42, 100, 1234567890, u64::MAX] {
        assert_eq!(decimal_string(n), format!("{}", n));
    }
    assert_eq!(decimal_string(u64::MAX), "18446744073709551615");
}

#[test]
fn decimal_string_reads_back() {
    for n in [0u64, 1, 10, 99, 1000, 987654321, u64::MAX] {
        assert_eq!(decimal_string(n).parse::<u64>().unwrap(), n);
    }
}

#[test]
fn format_uptime_minutes_only() {
    assert_eq!(format_uptime(0), "0 minutes");
    assert_eq!(format_uptime(59), "0 minutes");
    assert_eq!(format_uptime(60), "1 minutes");
    assert_eq!(format_uptime(3599), "59 minutes");
    assert_eq!(format_uptime(3600), "60 minutes");
}

#[test]
fn format_uptime_hours_and_days() {
    assert_eq!(format_uptime(3601), "1 hours 0 minutes");
    assert_eq!(format_uptime(7325), "2 hours 2 minutes");
    assert_eq!(format_uptime(86400), "24 hours 0 minutes");
    assert_eq!(format_uptime(86401), "1 days 0 minutes");
    assert_eq!(format_uptime(90000), "1 days 60 minutes");
    assert_eq!(format_uptime(93784), "1 days 2 hours 3 minutes");
    assert_eq!(format_uptime(10 * 86400 + 5 * 3600 + 59), "10 days 5 hours 0 minutes");
}

fn shown(text: &str, word: &str) -> u64 {
    let parts: Vec<&str> = text.split(' ').collect();
    for i in 1..parts.len() {
        if parts[i] == word {
            return parts[i - 1].parse().unwrap();
        }
    }
    0
}

#[test]
fn format_uptime_counts_whole_minutes() {
    for uptime in [0u64, 61, 3600, 3601, 86400, 86401, 90000, 93784, 1_000_000, 123_456_789] {
        let text = format_uptime(uptime);
        let minutes = shown(&text, "days") * 1440 + shown(&text, "hours") * 60 + shown(&text, "minutes");
        assert_eq!(minutes, uptime / 60, "{}", text);
    }
}

#[test]
fn default_config_values() {
    let c = Config::default_config();
    assert_eq!(c.anchor, WindowAnchor::TopRight);
    assert_eq!(c.margin_x, 10);
    assert_eq!(c.margin_y, 40);
    assert_eq!(c.update_interval_cpu, 1);
    assert_eq!(c.update_interval_disk, 10);
    assert_eq!(c.update_interval_general, 60);
    assert_eq!(c.update_interval_memory, 1);
    assert_eq!(c.update_interval_process, 1);
}

#[test]
fn calculate_position_per_anchor() {
    let mut c = Config::default_config();
    c.margin_x = 10;
    c.margin_y = 40;
    c.anchor = WindowAnchor::TopLeft;
    assert_eq!(c.calculate_position(300, 900, 1920, 1080), (10, 40));
    c.anchor = WindowAnchor::TopRight;
    assert_eq!(c.calculate_position(300, 900, 1920, 1080), (1610, 40));
    c.anchor = WindowAnchor::BottomRight;
    assert_eq!(c.calculate_position(300, 900, 1920, 1080), (1610, 140));
    c.anchor = WindowAnchor::BottomLeft;
    assert_eq!(c.calculate_position(300, 900, 1920, 1080), (10, 140));
}

#[test]
fn calculate_position_keeps_margins() {
    let mut c = Config::default_config();
    for anchor in [WindowAnchor::TopRight, WindowAnchor::BottomRight] {
        c.anchor = anchor;
        let (x, _) = c.calculate_position(250, 700, 2560, 1440);
        assert_eq!(x + 250 + c.margin_x, 2560);
    }
    c.anchor = WindowAnchor::BottomLeft;
    let (_, y) = c.calculate_position(250, 700, 2560, 1440);
    assert_eq!(y + 700 + c.margin_y, 1440);
}

#[test]
fn get_config_path_prefers_xdg() {
    assert_eq!(
        Config::get_config_path(Some("/etc/xdg".to_string()), Some("/home/u".to_string())),
        Some("/etc/xdg/pomky/config.json".to_string())
    );
    assert_eq!(
        Config::get_config_path(Some("/x".to_string()), None),
        Some("/x/pomky/config.json".to_string())
    );
}

#[test]
fn get_config_path_ignores_empty_or_relative_xdg() {
    assert_eq!(
        Config::get_config_path(Some("".to_string()), Some("/home/u".to_string())),
        Some("/home/u/.config/pomky/config.json".to_string())
    );
    assert_eq!(
        Config::get_config_path(Some("cfg".to_string()), Some("/home/u".to_string())),
        Some("/home/u/.config/pomky/config.json".to_string())
    );
    assert_eq!(Config::get_config_path(Some("".to_string()), None), None);
    assert_eq!(Config::get_config_path(Some("relative/dir".to_string()), None), None);
}

#[test]
fn calculate_position_same_side_same_coordinate() {
    let mut c1 = Config::default_config();
    let mut c2 = Config::default_config();
    c1.anchor = WindowAnchor::TopRight;
    c2.anchor = WindowAnchor::BottomRight;
    assert_eq!(
        c1.calculate_position(300, 900, 1920, 1080).0,
        c2.calculate_position(300, 900, 1920, 1080).0
    );
    c1.anchor = WindowAnchor::BottomLeft;
    assert_eq!(
        c1.calculate_position(300, 900, 1920, 1080).1,
        c2.calculate_position(300, 900, 1920, 1080).1
    );
}

#[test]
fn get_config_path_falls_back_to_home() {
    assert_eq!(
        Config::get_config_path(None, Some("/home/u".to_string())),
        Some("/home/u/.config/pomky/config.json".to_string())
    );
    assert_eq!(Config::get_config_path(None, None), None);
}

#[test]
fn load_step_paths() {
    match Config::load_step(LoadEvent::PathResolved(None)) {
        LoadAction::Fail(m) => assert_eq!(m, "Failed to locate config file"),
        _ => panic!("expected failure"),
    }
    match Config::load_step(LoadEvent::PathResolved(Some("/a/config.json".to_string()))) {
        LoadAction::Parse(p) => assert_eq!(p, "/a/config.json"),
        _ => panic!("expected parse"),
    }
    let c = Config::default_config();
    match Config::load_step(LoadEvent::Parsed(Some(c))) {
        LoadAction::Use(d) => assert_eq!(d, c),
        _ => panic!("expected use"),
    }
    assert!(matches!(Config::load_step(LoadEvent::Parsed(None)), LoadAction::SaveDefault));
    assert!(matches!(Config::load_step(LoadEvent::DefaultSaved(Ok(()))), LoadAction::Done));
    match Config::load_step(LoadEvent::DefaultSaved(Err("disk full".to_string()))) {
        LoadAction::Fail(m) => assert_eq!(m, "Failed to create default configuration file.\ndisk full"),
        _ => panic!("expected failure"),
    }
}

#[test]
fn save_step_failures() {
    match Config::save_step(SaveEvent::Serialized(false)) {
        SaveAction::Fail(m) => assert_eq!(m, "Failed to serialize configuration data"),
        _ => panic!("expected failure"),
    }
    match Config::save_step(SaveEvent::PathResolved(None)) {
        SaveAction::Fail(m) => assert_eq!(m, "Failed to locate config file"),
        _ => panic!("expected failure"),
    }
    match Config::save_step(SaveEvent::FileCreated(false)) {
        SaveAction::Fail(m) => assert_eq!(m, "Failed to create configuration file"),
        _ => panic!("expected failure"),
    }
    match Config::save_step(SaveEvent::Written(Err("No space left on device".to_string()))) {
        SaveAction::Fail(m) => {
            assert_eq!(m, "Failed to save configuration file.\nNo space left on device")
        }
        _ => panic!("expected failure"),
    }
}

#[test]
fn save_step_success_path() {
    assert!(matches!(Config::save_step(SaveEvent::Serialized(true)), SaveAction::ResolvePath));
    match Config::save_step(SaveEvent::PathResolved(Some("/h/.config/pomky/config.json".to_string()))) {
        SaveAction::CreateFile(p) => assert_eq!(p, "/h/.config/pomky/config.json"),
        _ => panic!("expected file creation"),
    }
    assert!(matches!(Config::save_step(SaveEvent::FileCreated(true)), SaveAction::Write));
    assert!(matches!(Config::save_step(SaveEvent::Written(Ok(()))), SaveAction::Done));
}

#[test]
fn disk_space_used() {
    let d = DiskSpace { total_space: 500, available_space: 120 };
    assert_eq!(d.used(), 380);
    let full = DiskSpace { total_space: 7, available_space: 0 };
    assert_eq!(full.used(), 7);
}

#[test]
fn disk_usage_sums_partitions() {
    let parts = vec![
        DiskSpace { total_space: 1000, available_space: 400 },
        DiskSpace { total_space: 250, available_space: 250 },
        DiskSpace { total_space: 10, available_space: 1 },
    ];
    let (total, used) = disk_usage(&parts);
    assert_eq!(total, 1260);
    assert_eq!(used, 609);
    assert_eq!(used + 651, total);
    assert_eq!(disk_usage(&vec![]), (0, 0));
}

#[test]
fn classify_interface_routes_devices() {
    assert_eq!(classify_interface(DEVICE_ETHERNET), Some(NetworkDevice::Ethernet));
    assert_eq!(classify_interface("enp0s20f0u3u4"), Some(NetworkDevice::Ethernet));
    assert_eq!(classify_interface(DEVICE_WIFI), Some(NetworkDevice::Wifi));
    assert_eq!(classify_interface("wlp0s20f3"), Some(NetworkDevice::Wifi));
    assert_eq!(classify_interface("lo"), None);
    assert_eq!(classify_interface(""), None);
    assert_eq!(classify_interface("wlp0s20f"), None);
}

#[test]
fn top_processes_highest_first() {
    let keys = vec![3u32, 10, 7, 1, 8];
    assert_eq!(top_processes(&keys, 3), vec![1, 4, 2]);
    assert_eq!(top_processes(&keys, 5), vec![1, 4, 2, 0, 3]);
    assert_eq!(top_processes(&keys, 0), Vec::<usize>::new());
}

#[test]
fn top_processes_ties_keep_input_order() {
    let keys = vec![5u32, 9, 5, 9, 1];
    assert_eq!(top_processes(&keys, 3), vec![1, 3, 0]);
    let same = vec![4u32, 4, 4, 4];
    assert_eq!(top_processes(&same, 3), vec![0, 1, 2]);
}

#[test]
fn top_processes_matches_stable_sort() {
    let keys: Vec<u32> = (0..40u32).map(|i| (i * 7919) % 13).collect();
    let mut sorted: Vec<usize> = (0..keys.len()).collect();
    sorted.sort_by(|a, b| keys[*b].cmp(&keys[*a]));
    assert_eq!(top_processes(&keys, 3), sorted[..3].to_vec());
    assert_eq!(top_processes(&keys, 40), sorted);
}

#[test]
fn cpu_core_widget_names() {
    assert_eq!(cpu_core_widget_name(0, "_bar"), "cpu0_bar");
    assert_eq!(cpu_core_widget_name(7, "_graph"), "cpu7_graph");
    assert_eq!(cpu_core_widget_name(12, "_bar"), "cpu12_bar");
}

#[test]
fn graph_sample_indices_wrap() {
    let from_start = graph_sample_indices(0);
    assert_eq!(from_start, (0..500).collect::<Vec<usize>>());
    let from_end = graph_sample_indices(499);
    assert_eq!(from_end.len(), 500);
    assert_eq!(from_end[0], 499);
    assert_eq!(from_end[1], 0);
    assert_eq!(from_end[499], 498);
    let middle = graph_sample_indices(250);
    assert_eq!(middle[249], 499);
    assert_eq!(middle[250], 0);
}
