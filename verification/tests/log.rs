use std::sync::Arc;

use sensd::errors::ErrorKind;
use sensd::io::{IOData, IODirection, IOEvent, IOKind, RawValue};
use sensd::storage::{Chronicle, Log};
use sensd::time::Timestamp;

fn event(id: u32, nanos: i128) -> IOEvent {
    IOEvent {
        id,
        timestamp: Timestamp { nanos },
        direction: IODirection::In,
        data: IOData { kind: IOKind::PH, value: RawValue::PosInt8(7) },
    }
}

#[test]
fn a_log_grows_in_order() {
    let mut log = Log::new(3, None);
    assert_eq!(3, log.id());
    assert!(log.is_empty());
    assert_eq!(0, log.len());
    assert!(log.root_path().is_none());

    log.push(event(3, 10));
    log.push(event(3, 5));

    assert!(!log.is_empty());
    assert_eq!(2, log.len());
    assert_eq!(&[event(3, 10), event(3, 5)], log.events());
}

#[test]
fn only_a_log_that_holds_something_is_saved() {
    let mut log = Log::new(3, None);
    assert_eq!(ErrorKind::ContainerEmpty, log.check_save().unwrap_err().kind());
    log.push(event(3, 10));
    assert!(log.check_save().is_ok());
}

#[test]
fn only_an_empty_log_is_loaded() {
    let mut log = Log::new(3, None);
    assert!(log.load(vec![event(3, 1), event(3, 2)]).is_ok());
    assert_eq!(&[event(3, 1), event(3, 2)], log.events());

    let error = log.load(vec![event(3, 9)]).unwrap_err();
    assert_eq!(ErrorKind::ContainerNotEmpty, error.kind());
    assert_eq!(&[event(3, 1), event(3, 2)], log.events());
}

#[test]
fn a_log_knows_its_directory() {
    let root = Arc::new(String::from("data"));
    let mut log = Log::new(1, Some(root.clone()));
    assert_eq!(Some(root), log.root_path());
    log.push(event(1, 1));
    log.set_root(Arc::new(String::from("elsewhere")));
    assert_eq!("elsewhere", log.root_path().unwrap().as_str());
    assert_eq!(1, log.len());
    assert_eq!(1, log.id());
}

#[test]
fn a_log_records_the_events_of_its_own_device() {
    let mut log = Log::new(3, None);
    assert!(log.record(event(3, 10)).is_ok());
    assert_eq!(ErrorKind::ContainerError, log.record(event(4, 11)).unwrap_err().kind());
    assert!(log.record(event(3, 12)).is_ok());
    assert_eq!(&[event(3, 10), event(3, 12)], log.events());
}

#[test]
fn check_load_admits_an_empty_log_only() {
    let mut log = Log::new(3, None);
    assert!(log.check_load().is_ok());
    log.push(event(3, 10));
    assert_eq!(ErrorKind::ContainerNotEmpty, log.check_load().unwrap_err().kind());
}
