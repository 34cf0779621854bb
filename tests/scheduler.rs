use current_logger::currentlogs::{CurrentLog, CAPACITY};
use current_logger::scheduler::{next_interval, LoggingStatus, Scheduler};
use current_logger::transfer::Transfer;

fn sample(clock: u32) -> CurrentLog {
    CurrentLog { voltage: 1, current: 2, power: 3, clock, battery: 4 }
}

#[test]
fn interval_ladder_cycles() {
    let mut i = 4;
    let mut seen = Vec::new();
    for _ in 0..7 {
        i = next_interval(i);
        seen.push(i);
    }
    assert_eq!(seen, vec![9, 49, 99, 499, 999, 4, 9]);
    assert_eq!(next_interval(500), 4);
    assert_eq!(next_interval(999), 4);
}

#[test]
fn start_clears_log_and_stop_keeps_it() {
    let mut s = Scheduler::new(0);
    s.apply_buttons(true, false, 10);
    assert!(s.logging_active());
    assert_eq!(s.status(), LoggingStatus::Start);
    s.record_sample(sample(1));
    s.record_sample(sample(2));
    s.apply_buttons(true, false, 20);
    assert!(!s.logging_active());
    assert_eq!(s.status(), LoggingStatus::Stop);
    assert_eq!(s.records().get_size(), 2);
    s.record_sample(sample(3));
    assert_eq!(s.records().get_size(), 2);
    s.apply_buttons(true, false, 30);
    assert_eq!(s.records().get_size(), 0);
    assert_eq!(s.sample_count(), 0);
}

#[test]
fn interval_button_restarts_cycle() {
    let mut s = Scheduler::new(0);
    assert_eq!(s.interval(), 4);
    s.apply_buttons(false, true, 1000);
    assert_eq!(s.interval(), 9);
    assert_eq!(s.sample_count(), 0);
    assert!(!s.is_due(1000));
    assert!(s.is_due(1001));
    s.begin_tick(1001);
    assert!(!s.is_due(1009));
    assert!(s.is_due(1010));
}

#[test]
fn deadlines_come_from_cycle_start() {
    let mut s = Scheduler::new(100);
    assert!(!s.is_due(100));
    assert!(s.is_due(101));
    assert_eq!(s.begin_tick(101), 1);
    assert!(s.tick_light());
    assert_eq!(s.sample_count(), 1);
    assert!(!s.is_due(104));
    assert!(s.is_due(105));
    assert_eq!(s.begin_tick(107), 7);
    assert!(!s.tick_light());
    assert!(!s.is_due(108));
    assert!(s.is_due(109));
    assert_eq!(s.begin_tick(109), 9);
    assert!(!s.is_due(112));
    assert!(s.is_due(113));
}

#[test]
fn starting_restarts_the_cycle() {
    let mut s = Scheduler::new(0);
    s.begin_tick(1);
    s.begin_tick(5);
    s.apply_buttons(true, false, 500);
    assert_eq!(s.sample_count(), 0);
    assert!(!s.is_due(500));
    assert!(s.is_due(501));
    assert_eq!(s.begin_tick(501), 1);
    assert!(!s.is_due(504));
}

#[test]
fn timestamp_is_zero_when_clock_goes_back() {
    let mut s = Scheduler::new(100);
    assert_eq!(s.begin_tick(50), 0);
}

#[test]
fn logging_stops_when_log_fills() {
    let mut s = Scheduler::new(0);
    s.apply_buttons(true, false, 0);
    for i in 0..(CAPACITY as u32 - 1) {
        s.record_sample(sample(i));
        assert!(s.logging_active());
    }
    assert_eq!(s.records().get_size(), 4094);
    assert!(s.logging_active());
    s.record_sample(sample(4094));
    assert_eq!(s.records().get_size(), 4095);
    assert!(!s.logging_active());
    s.record_sample(sample(4095));
    assert_eq!(s.records().get_size(), 4095);
    assert_eq!(s.buffer_watermark(), 100);
}

#[test]
fn watermark_rounds_down() {
    let mut s = Scheduler::new(0);
    s.apply_buttons(true, false, 0);
    for i in 0..41 {
        s.record_sample(sample(i));
    }
    assert_eq!(s.buffer_watermark(), 1);
}

#[test]
fn offer_claims_and_evicts() {
    let mut s = Scheduler::new(0);
    s.apply_buttons(true, false, 0);
    for i in 0..70 {
        s.record_sample(sample(i));
    }
    let mut tx = Transfer::new("host:80".to_string());
    assert_eq!(s.offer_transfer(true, &mut tx), 64);
    assert_eq!(s.records().get_size(), 6);
    assert!(tx.in_flight());
    assert_eq!(s.offer_transfer(true, &mut tx), 0);
    assert_eq!(s.records().get_size(), 6);
    tx.complete_delivery();
    assert_eq!(s.offer_transfer(true, &mut tx), 6);
    assert_eq!(s.records().get_size(), 0);
}

#[test]
fn offer_skipped_without_link() {
    let mut s = Scheduler::new(0);
    s.apply_buttons(true, false, 0);
    s.record_sample(sample(0));
    let mut tx = Transfer::new("host:80".to_string());
    assert_eq!(s.offer_transfer(false, &mut tx), 0);
    assert_eq!(s.records().get_size(), 1);
    assert!(!tx.in_flight());
}
