use wol_nas_listener::activation::{outcome_label, ServiceBatch};
use wol_nas_listener::hardware_address::parse_hardware_address;
use wol_nas_listener::listener::{WakeListener, RECEIVE_BUFFER_LEN};
use wol_nas_listener::magic_packet::validate;

fn names(v: &[&str]) -> Vec<String> {
    v.iter().map(|s| s.to_string()).collect()
}

#[test]
fn failed_start_does_not_stop_the_batch() {
    let mut batch = ServiceBatch::new(names(&["a", "b", "c"]));
    let mut attempted = Vec::new();
    while let Some(name) = batch.next_service() {
        let name = name.to_string();
        let ok = name != "b";
        attempted.push(name);
        batch.record(ok);
    }
    assert_eq!(attempted, names(&["a", "b", "c"]));
    assert_eq!(batch.outcomes(), &vec![true, false, true]);
    assert!(batch.is_done());
}

#[test]
fn empty_batch_is_done_at_once() {
    let batch = ServiceBatch::new(Vec::new());
    assert!(batch.is_done());
    assert_eq!(batch.next_service(), None);
    assert!(batch.outcomes().is_empty());
}

#[test]
fn wake_starts_every_service_in_order() {
    let address = parse_hardware_address("01:02:03:04:05:06").unwrap();
    assert_eq!(address, [1, 2, 3, 4, 5, 6]);
    let mut datagram = vec![0xFFu8; 6];
    datagram.extend_from_slice(&[1, 2, 3, 4, 5, 6, 1, 2, 3, 4, 5, 6]);
    datagram.extend_from_slice(&[0u8; 84]);
    assert_eq!(datagram.len(), 102);
    assert!(validate(&datagram, &address));

    let listener = WakeListener::new(address, names(&["nfs", "smb", "docker"]));
    assert_eq!(listener.address(), [1, 2, 3, 4, 5, 6]);
    let mut batch = listener.handle_datagram(&datagram).unwrap();
    let mut started = Vec::new();
    while let Some(name) = batch.next_service() {
        started.push(name.to_string());
        batch.record(true);
    }
    assert_eq!(started, names(&["nfs", "smb", "docker"]));
}

#[test]
fn foreign_datagrams_start_nothing() {
    let listener = WakeListener::new([1, 2, 3, 4, 5, 6], names(&["a"]));
    let mut buf = [0u8; RECEIVE_BUFFER_LEN];
    assert!(listener.handle_datagram(&buf[..102]).is_none());
    buf[..6].copy_from_slice(&[0xFF; 6]);
    buf[6..12].copy_from_slice(&[1, 2, 3, 4, 5, 7]);
    assert!(listener.handle_datagram(&buf[..200]).is_none());
    buf[11] = 6;
    assert!(listener.handle_datagram(&buf[..101]).is_none());
    assert!(listener.handle_datagram(&buf[..102]).is_some());
}

#[test]
fn outcomes_are_labelled() {
    assert_eq!(outcome_label(true), "OK");
    assert_eq!(outcome_label(false), "Erreur");
}
