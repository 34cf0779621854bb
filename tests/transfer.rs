use current_logger::currentlogs::{CurrentLog, CurrentRecord};
use current_logger::transfer::{serialize, Transfer, CHUNK};

fn sample(clock: u32) -> CurrentLog {
    CurrentLog { voltage: 1, current: 2, power: 3, clock, battery: 4 }
}

fn two_samples() -> Vec<CurrentLog> {
    vec![
        CurrentLog { voltage: 330000, current: 12345, power: 40738, clock: 0, battery: 370 },
        CurrentLog { voltage: 329999, current: -250, power: 0, clock: 5, battery: 415 },
    ]
}

const TWO_SAMPLES_JSON: &str = "[ { \"measurement\": \"currentlogger\", \"tag\": \"currentch1\", \"timestamp\": 0, \"current\": 0.12345, \"voltage\": 3.30000,  \"power\": 0.40738, \"bat\": 3.70 },{ \"measurement\": \"currentlogger\", \"tag\": \"currentch1\", \"timestamp\": 5, \"current\": -0.00250, \"voltage\": 3.29999,  \"power\": 0.00000, \"bat\": 4.15 }]";

#[test]
fn payload_of_two_samples_is_exact() {
    assert_eq!(serialize(&two_samples()), TWO_SAMPLES_JSON);
}

#[test]
fn payload_of_nothing_is_empty_array() {
    assert_eq!(serialize(&[]), "[ ]");
}

#[test]
fn request_frames_the_payload() {
    let mut tx = Transfer::new("192.168.1.10:8086".to_string());
    assert_eq!(tx.set_transfer_data(&two_samples()), 2);
    let req = tx.request().unwrap();
    let expected = format!(
        "POST / HTTP/1.1\r\nHost: 192.168.1.10:8086\r\nContent-Type: application/json\r\nAccept: */*\r\nUser-Agent: temp-logger\r\nContent-Length:{}\r\n\r\n{}",
        TWO_SAMPLES_JSON.len(),
        TWO_SAMPLES_JSON
    );
    assert_eq!(req, expected);
}

#[test]
fn no_request_while_idle() {
    let tx = Transfer::new("host:80".to_string());
    assert!(tx.request().is_none());
    assert!(!tx.in_flight());
}

#[test]
fn claim_of_empty_is_zero() {
    let mut tx = Transfer::new("host:80".to_string());
    assert_eq!(tx.set_transfer_data(&Vec::new()), 0);
    assert!(!tx.in_flight());
}

#[test]
fn claim_takes_at_most_a_chunk() {
    let mut tx = Transfer::new("host:80".to_string());
    let data: Vec<CurrentLog> = (0..200).map(sample).collect();
    assert_eq!(tx.set_transfer_data(&data), 64);
    assert_eq!(CHUNK, 64);
    assert!(tx.in_flight());
}

#[test]
fn seventy_samples_claim_then_refuse() {
    let mut record = CurrentRecord::new();
    for i in 0..70 {
        record.record(sample(i));
    }
    let mut tx = Transfer::new("host:80".to_string());
    let n = tx.set_transfer_data(record.get_all_data());
    assert_eq!(n, 64);
    record.remove_data(n);
    assert_eq!(record.get_size(), 6);
    assert_eq!(record.get_all_data()[0].clock, 64);
    assert!(tx.in_flight());
    assert_eq!(tx.set_transfer_data(record.get_all_data()), 0);
    assert_eq!(record.get_size(), 6);
}

#[test]
fn completed_delivery_allows_next_claim() {
    let mut tx = Transfer::new("host:80".to_string());
    let data: Vec<CurrentLog> = (0..3).map(sample).collect();
    assert_eq!(tx.set_transfer_data(&data), 3);
    tx.complete_delivery();
    assert!(!tx.in_flight());
    assert!(tx.request().is_none());
    assert_eq!(tx.set_transfer_data(&data[1..].to_vec()), 2);
}
