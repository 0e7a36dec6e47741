//! The value producers: parsing of raw sources and the exact rendered
//! text of each block.

use sway_status::blocks::{Block, Sources};
use sway_status::blocks::battery::Battery;
use sway_status::blocks::memory::Memory;
use sway_status::blocks::time::Time;
use sway_status::blocks::volume::Volume;

fn battery_sources(
    online: Option<&str>,
    capacity: Option<&str>,
    power: Option<&str>,
    current: Option<&str>,
    voltage: Option<&str>,
) -> Sources {
    Sources {
        ac_online: online.map(str::to_string),
        battery_capacity: capacity.map(str::to_string),
        battery_power_now: power.map(str::to_string),
        battery_current_now: current.map(str::to_string),
        battery_voltage_now: voltage.map(str::to_string),
        meminfo: None,
    }
}

#[test]
fn volume_round_trip() {
    let v = Volume::from_str("alsa_output.pci-0000_00_1f.3.analog-stereo\t0.37\tfalse").unwrap();
    assert_eq!(v.render(), " vol/37%/p");
    assert_eq!(v, Volume { volume: 37, muted: false, device: 'p' });
}

#[test]
fn volume_muted_renders_a_flag() {
    let v = Volume::from_str("alsa_output.pci-0000_00_1f.3.analog-stereo\t0.5\ttrue").unwrap();
    assert_eq!(v.render(), "m vol/50%/p");
}

#[test]
fn volume_rounds_to_the_nearest_percent() {
    assert_eq!(Volume::from_str("a.b\t0.374\tfalse").unwrap().volume, 37);
    assert_eq!(Volume::from_str("a.b\t0.375\tfalse").unwrap().volume, 38);
    assert_eq!(Volume::from_str("a.b\t0.999\tfalse").unwrap().volume, 100);
    assert_eq!(Volume::from_str("a.b\t1\tfalse").unwrap().volume, 100);
    assert_eq!(Volume::from_str("a.b\t.5\ttrue").unwrap().volume, 50);
    assert_eq!(Volume::from_str("a.b\t2.\tfalse").unwrap().volume, 200);
}

#[test]
fn volume_saturates_over_the_range() {
    assert_eq!(Volume::from_str("a.b\t700\tfalse").unwrap().volume, 65535);
    assert_eq!(
        Volume::from_str("a.b\t99999999999999999999999.9\tfalse").unwrap().volume,
        65535
    );
}

#[test]
fn volume_rejects_malformed_lines() {
    assert!(Volume::from_str("").is_err());
    assert!(Volume::from_str("no tabs at all").is_err());
    assert!(Volume::from_str("a.b\t0.5").is_err());
    assert!(Volume::from_str("nodot\t0.5\tfalse").is_err());
    assert!(Volume::from_str("endsindot.\t0.5\tfalse").is_err());
    assert!(Volume::from_str("a.b\t0.3a\tfalse").is_err());
    assert!(Volume::from_str("a.b\t0..3\tfalse").is_err());
    assert!(Volume::from_str("a.b\t.\tfalse").is_err());
    assert!(Volume::from_str("a.b\t\tfalse").is_err());
    assert!(Volume::from_str("a.b\t0.5\tyes").is_err());
    assert!(Volume::from_str("a.b\t0.5\tTrue").is_err());
    let err = Volume::from_str("a.b").unwrap_err();
    assert_eq!(err.message(), "could not parse volume");
}

#[test]
fn volume_third_field_keeps_its_tabs() {
    // only the first two tabs separate; a third tab stays in the flag
    assert!(Volume::from_str("a.b\t0.5\tfalse\textra").is_err());
}

#[test]
fn memory_reads_the_known_counters() {
    let content = "MemTotal:       16384000 kB\n\
                   MemFree:         8192000 kB\n\
                   MemAvailable:   12000000 kB\n\
                   Buffers:          100000 kB\n\
                   Cached:           200000 kB\n\
                   SReclaimable:      50000 kB\n\
                   SwapTotal:       4000000 kB\n\
                   SwapFree:        4000000 kB\n\
                   SwapCached:            0 kB\n\
                   VmallocTotal:   34359738367 kB\n";
    let m = Memory::from_meminfo(content);
    assert_eq!(m.mem_total, 16384000);
    assert_eq!(m.mem_free, 8192000);
    assert_eq!(m.mem_available, 12000000);
    assert_eq!(m.buffers, 100000);
    assert_eq!(m.cache, 200000);
    assert_eq!(m.s_reclaimable, 50000);
    assert_eq!(m.swap_total, 4000000);
    assert_eq!(m.swap_free, 4000000);
    assert_eq!(m.swap_cached, 0);
}

#[test]
fn memory_ignores_what_it_cannot_read() {
    let m = Memory::from_meminfo("MemTotal:\nMemFree: abc kB\n\n  \nJunk\nMemTotal: 7 kB");
    assert_eq!(m.mem_total, 7);
    assert_eq!(m.mem_free, 0);
}

#[test]
fn memory_renders_used_gibibytes() {
    let m = Memory {
        mem_total: 8388608,
        mem_free: 1048576,
        ..Memory::default()
    };
    assert_eq!(m.render(), "mem/7.0Gi");
    assert_eq!(Memory::default().render(), "mem/0.0Gi");
}

#[test]
fn memory_saturates_instead_of_underflowing() {
    let m = Memory {
        mem_total: 100,
        mem_free: 1000,
        ..Memory::default()
    };
    assert_eq!(m.render(), "mem/0.0Gi");
}

#[test]
fn battery_reads_its_properties() {
    let s = battery_sources(Some("1\n"), Some("57\n"), Some("12345678\n"), None, None);
    let b = Battery::of_sources(&s);
    assert_eq!(b, Battery { ac: true, capacity: 57, power_uw: 12345678 });
    assert_eq!(b.render(), "ac/57%/12.3w");
}

#[test]
fn battery_defaults_missing_properties_to_zero() {
    let b = Battery::of_sources(&Sources::empty());
    assert_eq!(b, Battery { ac: false, capacity: 0, power_uw: 0 });
    assert_eq!(b.render(), "bat/0%/0.0w");
    let s = battery_sources(Some("0\n"), Some("abc\n"), None, None, None);
    assert_eq!(Battery::of_sources(&s), Battery { ac: false, capacity: 0, power_uw: 0 });
}

#[test]
fn battery_falls_back_to_current_times_voltage() {
    let s = battery_sources(None, Some("80"), None, Some("2000000\n"), Some("12000000\n"));
    let b = Battery::of_sources(&s);
    assert_eq!(b.power_uw, 24000000);
    assert_eq!(b.render(), "bat/80%/24.0w");
    // one of the two alone is not enough
    let s = battery_sources(None, None, None, Some("2000000\n"), None);
    assert_eq!(Battery::of_sources(&s).power_uw, 0);
}

#[test]
fn battery_capacity_at_the_numeric_boundary() {
    // the largest readable value parses; one past it is unreadable and defaults
    let s = battery_sources(None, Some("18446744073709551615\n"), None, None, None);
    assert_eq!(Battery::of_sources(&s).capacity, u64::MAX);
    let s = battery_sources(None, Some("18446744073709551616\n"), None, None, None);
    assert_eq!(Battery::of_sources(&s).capacity, 0);
}

#[test]
fn battery_online_means_exactly_one() {
    let s = battery_sources(Some("0\n"), None, None, None, None);
    assert!(!Battery::of_sources(&s).ac);
    let s = battery_sources(Some("2\n"), None, None, None, None);
    assert!(!Battery::of_sources(&s).ac);
    let s = battery_sources(Some("1"), None, None, None, None);
    assert!(Battery::of_sources(&s).ac);
}

#[test]
fn battery_rounds_deciwatts_half_up() {
    let b = Battery { ac: false, capacity: 1, power_uw: 12350000 };
    assert_eq!(b.render(), "bat/1%/12.4w");
    let b = Battery { ac: false, capacity: 1, power_uw: 12349999 };
    assert_eq!(b.render(), "bat/1%/12.3w");
}

#[test]
fn time_renders_the_calendar_parts() {
    assert_eq!(Time::default().render(), "Thu Jan 1  00:00");
    let t = Time { weekday: 0, month: 5, day: 7, hour: 9, minute: 5 };
    assert_eq!(t.render(), "Mon May 7  09:05");
    let t = Time { weekday: 6, month: 12, day: 31, hour: 23, minute: 59 };
    assert_eq!(t.render(), "Sun Dec 31  23:59");
}

#[test]
fn time_now_is_well_formed() {
    let t = Time::now();
    assert!(t.weekday < 7);
    assert!((1..=12).contains(&t.month));
    assert!((1..=31).contains(&t.day));
    assert!(t.hour < 24);
    assert!(t.minute < 60);
}
