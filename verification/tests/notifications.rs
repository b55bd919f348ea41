use gdble::ble_device::BLEDevice;
use gdble::notifications::{NotificationStore, StreamEvent};

#[test]
fn empty_store_polls_nothing() {
    let mut store = NotificationStore::new();
    let key = "abcd".to_string();
    assert!(!store.contains(&key));
    assert_eq!(store.take(&key), Vec::<u8>::new());
}

#[test]
fn poll_returns_latest_then_clears() {
    let mut store = NotificationStore::new();
    let key = "2a37".to_string();
    store.record(&key, StreamEvent::ValueUpdated(vec![1, 2, 3]));
    store.record(&key, StreamEvent::ValueUpdated(vec![9, 8]));
    assert!(store.contains(&key));
    assert_eq!(store.take(&key), vec![9, 8]);
    assert!(!store.contains(&key));
    assert_eq!(store.take(&key), Vec::<u8>::new());
}

#[test]
fn error_item_changes_nothing() {
    let mut store = NotificationStore::new();
    let key = "2a37".to_string();
    store.record(&key, StreamEvent::Failed);
    assert!(!store.contains(&key));
    store.record(&key, StreamEvent::ValueUpdated(vec![4]));
    store.record(&key, StreamEvent::Failed);
    assert_eq!(store.take(&key), vec![4]);
}

#[test]
fn keys_are_kept_apart() {
    let mut store = NotificationStore::new();
    let a = "aaaa".to_string();
    let b = "bbbb".to_string();
    let c = "cccc".to_string();
    store.insert(a.clone(), vec![1]);
    store.insert(b.clone(), vec![2]);
    store.insert(c.clone(), vec![3]);
    assert_eq!(store.take(&b), vec![2]);
    assert_eq!(store.take(&a), vec![1]);
    assert_eq!(store.take(&c), vec![3]);
    assert_eq!(store.take(&b), Vec::<u8>::new());
}

#[test]
fn poll_notification_looks_up_lowercase_uuid() {
    let device: BLEDevice<u32, u32> = BLEDevice::init();
    let mut store = NotificationStore::new();
    store.record(&"0000ffe1-0000-1000-8000-00805f9b34fb".to_string(), StreamEvent::ValueUpdated(vec![42]));
    let got = device.poll_notification(&mut store, &"0000FFE1-0000-1000-8000-00805F9B34FB".to_string());
    assert_eq!(got, vec![42]);
    let again = device.poll_notification(&mut store, &"0000ffe1-0000-1000-8000-00805f9b34fb".to_string());
    assert_eq!(again, Vec::<u8>::new());
}

#[test]
fn poll_notification_lowercases_beyond_ascii() {
    let device: BLEDevice<u32, u32> = BLEDevice::init();
    let mut store = NotificationStore::new();
    store.record(&"ÄÖ".to_lowercase(), StreamEvent::ValueUpdated(vec![7, 7]));
    assert_eq!(device.poll_notification(&mut store, &"ÄÖ".to_string()), vec![7, 7]);
}
