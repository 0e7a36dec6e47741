//! The dispatch engine: registry construction, message application,
//! signal translation, and the end-to-end refresh scenario.

use sway_status::blocks::{Block, BlockSignal, BlockState, Blocks, Sources};
use sway_status::blocks::battery::Battery;
use sway_status::blocks::memory::Memory;
use sway_status::blocks::time::Time;
use sway_status::blocks::volume::Volume;
use sway_status::Message;

fn sample_sources() -> Sources {
    Sources {
        ac_online: Some("1\n".to_string()),
        battery_capacity: Some("57\n".to_string()),
        battery_power_now: Some("12345678\n".to_string()),
        battery_current_now: None,
        battery_voltage_now: None,
        meminfo: Some("MemTotal:        8388608 kB\nMemFree:         1048576 kB\n".to_string()),
    }
}

#[test]
fn new_registry_renders_defaults() {
    let blocks = Blocks::new();
    assert_eq!(
        blocks.render_line(),
        " bat/0%/0.0w   mem/0.0Gi   Thu Jan 1  00:00    vol/0%/\0 "
    );
}

#[test]
fn slots_match_their_identities() {
    let blocks = Blocks::new();
    assert_eq!(blocks.battery.signal(), BlockSignal::Battery);
    assert_eq!(blocks.memory.signal(), BlockSignal::Memory);
    assert_eq!(blocks.time.signal(), BlockSignal::Time);
    assert_eq!(blocks.volume.signal(), BlockSignal::Volume);
}

#[test]
fn update_all_refreshes_every_slot() {
    let mut blocks = Blocks::new();
    blocks.update_all(&sample_sources());
    assert_eq!(blocks.battery, Battery { ac: true, capacity: 57, power_uw: 12345678 });
    assert_eq!(blocks.memory.mem_total, 8388608);
    assert_eq!(blocks.memory.mem_free, 1048576);
    assert!(blocks.time.weekday < 7);
    assert!((1..=12).contains(&blocks.time.month));
    assert!((1..=31).contains(&blocks.time.day));
    assert!(blocks.time.hour < 24);
    assert!(blocks.time.minute < 60);
    assert_eq!(blocks.volume, Volume { volume: 0, muted: false, device: '\0' });
}

#[test]
fn targeted_refresh_touches_one_slot() {
    let mut blocks = Blocks::new();
    let before = blocks;
    blocks.update_by_signal(BlockSignal::Battery, &sample_sources());
    assert_eq!(blocks.battery, Battery { ac: true, capacity: 57, power_uw: 12345678 });
    assert_eq!(blocks.memory, before.memory);
    assert_eq!(blocks.time, before.time);
    assert_eq!(blocks.volume, before.volume);
}

#[test]
fn targeted_refresh_of_volume_changes_nothing() {
    let mut blocks = Blocks::new();
    let before = blocks;
    blocks.update_by_signal(BlockSignal::Volume, &sample_sources());
    assert_eq!(blocks, before);
}

#[test]
fn state_update_replaces_exactly_its_slot() {
    let mut blocks = Blocks::new();
    let before = blocks;
    let state = Volume { volume: 42, muted: true, device: 'p' };
    blocks.update_by_block(BlockState::Volume(state));
    assert_eq!(blocks.volume, state);
    assert_eq!(blocks.battery, before.battery);
    assert_eq!(blocks.memory, before.memory);
    assert_eq!(blocks.time, before.time);
}

#[test]
fn last_state_update_wins() {
    let mut blocks = Blocks::new();
    blocks.update_by_block(BlockState::Volume(Volume { volume: 10, muted: false, device: 'a' }));
    blocks.update_by_block(BlockState::Memory(Memory { mem_total: 5, ..Memory::default() }));
    blocks.update_by_block(BlockState::Volume(Volume { volume: 99, muted: true, device: 'b' }));
    assert_eq!(blocks.volume, Volume { volume: 99, muted: true, device: 'b' });
    assert_eq!(blocks.memory.mem_total, 5);
}

#[test]
fn noop_changes_nothing_any_number_of_times() {
    let mut blocks = Blocks::new();
    blocks.update_all(&sample_sources());
    let before = blocks;
    let line = blocks.render_line();
    for _ in 0..5 {
        blocks.apply(Message::Usr2, &sample_sources());
    }
    assert_eq!(blocks, before);
    assert_eq!(blocks.render_line(), line);
}

#[test]
fn apply_dispatches_by_message() {
    let mut blocks = Blocks::new();
    blocks.apply(
        Message::Block(BlockState::Volume(Volume { volume: 7, muted: false, device: 'x' })),
        &Sources::empty(),
    );
    assert_eq!(blocks.volume.volume, 7);
    blocks.apply(Message::Custom(BlockSignal::Memory), &sample_sources());
    assert_eq!(blocks.memory.mem_total, 8388608);
    blocks.apply(Message::Usr1, &sample_sources());
    assert_eq!(blocks.battery.capacity, 57);
    assert_eq!(blocks.volume.volume, 7);
}

#[test]
fn signal_offsets_enumerate_the_identities() {
    assert_eq!(BlockSignal::from_offset(0), Some(BlockSignal::Battery));
    assert_eq!(BlockSignal::from_offset(1), Some(BlockSignal::Memory));
    assert_eq!(BlockSignal::from_offset(2), Some(BlockSignal::Time));
    assert_eq!(BlockSignal::from_offset(3), Some(BlockSignal::Volume));
    assert_eq!(BlockSignal::from_offset(4), None);
    assert_eq!(BlockSignal::from_offset(-1), None);
    assert_eq!(BlockSignal::Battery.offset(), 0);
    assert_eq!(BlockSignal::Volume.offset(), 3);
}

#[test]
fn signals_translate_to_messages() {
    let (usr1, usr2, rtmin) = (10, 12, 34);
    assert!(matches!(Message::from_signal(10, usr1, usr2, rtmin), Ok(Message::Usr1)));
    assert!(matches!(Message::from_signal(12, usr1, usr2, rtmin), Ok(Message::Usr2)));
    assert!(matches!(
        Message::from_signal(34, usr1, usr2, rtmin),
        Ok(Message::Custom(BlockSignal::Battery))
    ));
    assert!(matches!(
        Message::from_signal(37, usr1, usr2, rtmin),
        Ok(Message::Custom(BlockSignal::Volume))
    ));
    let err = Message::from_signal(38, usr1, usr2, rtmin).unwrap_err();
    assert_eq!(err.offset, 4);
    assert_eq!(err.message(), "unknown signal: 4");
    let err = Message::from_signal(20, usr1, usr2, rtmin).unwrap_err();
    assert_eq!(err.offset, -14);
    assert_eq!(err.message(), "unknown signal: -14");
}

#[test]
fn full_refresh_scenario() {
    // all four producers defaulted
    let mut blocks = Blocks::new();
    let stale = blocks.render_line();
    // the first user signal asks for a full refresh
    let msg = Message::from_signal(10, 10, 12, 34).unwrap();
    blocks.apply(msg, &sample_sources());
    let line = blocks.render_line();
    assert_ne!(line, stale);
    assert!(line.contains("ac/57%/12.3w"));
    assert!(line.contains("mem/7.0Gi"));
    // an out-of-range realtime signal is refused before it reaches the
    // registry; one diagnostic line is emitted, the line is unchanged
    let err = Message::from_signal(34 + 9, 10, 12, 34).unwrap_err();
    assert!(!err.message().is_empty());
    assert_eq!(blocks.render_line(), line);
}

#[test]
fn snapshots_carry_their_identity() {
    let states = [
        BlockState::Battery(Battery::default()),
        BlockState::Memory(Memory::default()),
        BlockState::Time(Time::default()),
        BlockState::Volume(Volume::default()),
    ];
    let expected = [
        BlockSignal::Battery,
        BlockSignal::Memory,
        BlockSignal::Time,
        BlockSignal::Volume,
    ];
    for (state, id) in states.iter().zip(expected.iter()) {
        assert_eq!(state.signal(), *id);
    }
}
