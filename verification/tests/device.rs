use gdble::ble_device::{BLEDevice, DeviceError, SubscribeOutcome};

fn connected_device() -> BLEDevice<u32, u32> {
    let mut d: BLEDevice<u32, u32> =
        BLEDevice::from_peripheral(5u32, Ok::<String, ()>("Heart".to_string()), Ok("AA:BB".to_string()));
    assert_eq!(*d.begin_connect().ok().unwrap(), 5);
    assert!(d.finish_connect(Ok(())).is_ok());
    d
}

#[test]
fn init_is_an_unknown_device() {
    let d: BLEDevice<u32, u32> = BLEDevice::init();
    assert_eq!(d.get_name(), "Unknown");
    assert_eq!(d.get_address(), "");
    assert!(!d.ble_is_connected());
    assert!(d.peripheral().is_none());
}

#[test]
fn from_peripheral_takes_identifier_and_address() {
    let d: BLEDevice<u32, u32> =
        BLEDevice::from_peripheral(1u32, Ok::<String, String>("Sensor".to_string()), Ok("11:22".to_string()));
    assert_eq!(d.get_name(), "Sensor");
    assert_eq!(d.get_address(), "11:22");
    assert!(!d.ble_is_connected());
    assert_eq!(d.peripheral(), Some(&1));
}

#[test]
fn from_peripheral_falls_back_when_unanswered() {
    let d: BLEDevice<u32, u32> =
        BLEDevice::from_peripheral(1u32, Err::<String, String>("no".to_string()), Err("no".to_string()));
    assert_eq!(d.get_name(), "Unknown");
    assert_eq!(d.get_address(), "");
}

#[test]
fn connect_without_peripheral_is_refused() {
    let mut d: BLEDevice<u32, u32> = BLEDevice::init();
    assert!(matches!(d.begin_connect(), Err(DeviceError::NotInitialized)));
    assert!(matches!(d.begin_disconnect(), Err(DeviceError::NotInitialized)));
    assert!(!d.ble_is_connected());
}

#[test]
fn connect_and_disconnect() {
    let mut d = connected_device();
    assert!(d.ble_is_connected());
    let released = d.begin_disconnect().ok().unwrap();
    assert!(released.is_empty());
    assert!(d.finish_disconnect(Ok(())).is_ok());
    assert!(!d.ble_is_connected());
}

#[test]
fn failed_connect_leaves_device_disconnected() {
    let mut d: BLEDevice<u32, u32> =
        BLEDevice::from_peripheral(1u32, Ok::<String, ()>("x".to_string()), Ok("y".to_string()));
    assert!(d.begin_connect().is_ok());
    match d.finish_connect(Err("timeout".to_string())) {
        Err(DeviceError::Failed(msg)) => assert_eq!(msg, "timeout"),
        _ => panic!("expected a failure"),
    }
    assert!(!d.ble_is_connected());
}

#[test]
fn failed_disconnect_keeps_connection_but_releases_listeners() {
    let mut d = connected_device();
    let (_, sub) = d.begin_subscribe("180d".to_string(), "2A37".to_string()).ok().unwrap();
    assert!(d.finish_subscribe(&sub, SubscribeOutcome::Listening(11)).is_ok());
    let released = d.begin_disconnect().ok().unwrap();
    assert_eq!(released.len(), 1);
    assert_eq!(released[0].handle, 11);
    assert!(matches!(d.finish_disconnect(Err("busy".to_string())), Err(DeviceError::Failed(_))));
    assert!(d.ble_is_connected());
    assert!(d.begin_disconnect().ok().unwrap().is_empty());
}

#[test]
fn subscribe_needs_connection() {
    let d: BLEDevice<u32, u32> =
        BLEDevice::from_peripheral(1u32, Ok::<String, ()>("x".to_string()), Ok("y".to_string()));
    assert!(matches!(d.begin_subscribe("180d".to_string(), "2a37".to_string()), Err(DeviceError::NotConnected)));
    let n: BLEDevice<u32, u32> = BLEDevice::init();
    assert!(matches!(n.begin_subscribe("180d".to_string(), "2a37".to_string()), Err(DeviceError::NotConnected)));
}

#[test]
fn subscription_key_is_lowercase_uuid() {
    let d = connected_device();
    let (p, sub) = d.begin_subscribe("180D".to_string(), "2A37-ABCD".to_string()).ok().unwrap();
    assert_eq!(*p, 5);
    assert_eq!(sub.service, "180D");
    assert_eq!(sub.characteristic, "2A37-ABCD");
    assert_eq!(sub.key, "2a37-abcd");
}

#[test]
fn failed_subscriptions_keep_no_listener() {
    let mut d = connected_device();
    let (_, sub) = d.begin_subscribe("180d".to_string(), "2a37".to_string()).ok().unwrap();
    match d.finish_subscribe(&sub, SubscribeOutcome::NotifyFailed("denied".to_string())) {
        Err(DeviceError::Failed(msg)) => assert_eq!(msg, "denied"),
        _ => panic!("expected a failure"),
    }
    assert!(matches!(d.finish_subscribe(&sub, SubscribeOutcome::NoRuntime), Err(DeviceError::NoRuntime)));
    assert!(d.begin_disconnect().ok().unwrap().is_empty());
}

#[test]
fn unsubscribe_releases_only_that_characteristic() {
    let mut d = connected_device();
    let (_, a) = d.begin_subscribe("180d".to_string(), "2A37".to_string()).ok().unwrap();
    assert!(d.finish_subscribe(&a, SubscribeOutcome::Listening(1)).is_ok());
    let (_, b) = d.begin_subscribe("180d".to_string(), "2a38".to_string()).ok().unwrap();
    assert!(d.finish_subscribe(&b, SubscribeOutcome::Listening(2)).is_ok());
    assert!(d.finish_subscribe(&a, SubscribeOutcome::Listening(3)).is_ok());

    let (_, u) = d.begin_unsubscribe("180d".to_string(), "2a37".to_string()).ok().unwrap();
    assert_eq!(u.key, "2a37");
    assert!(matches!(d.finish_unsubscribe(&u, Err("nope".to_string())), Err(DeviceError::Failed(_))));
    let released = d.finish_unsubscribe(&u, Ok(())).ok().unwrap();
    let handles: Vec<u32> = released.iter().map(|l| l.handle).collect();
    assert_eq!(handles, vec![1, 3]);
    let rest = d.begin_disconnect().ok().unwrap();
    let rest_handles: Vec<u32> = rest.iter().map(|l| l.handle).collect();
    assert_eq!(rest_handles, vec![2]);
}

#[test]
fn unsubscribe_needs_only_a_peripheral() {
    let d: BLEDevice<u32, u32> =
        BLEDevice::from_peripheral(9u32, Ok::<String, ()>("x".to_string()), Ok("y".to_string()));
    let (p, sub) = d.begin_unsubscribe("180d".to_string(), "FFE1".to_string()).ok().unwrap();
    assert_eq!(*p, 9);
    assert_eq!(sub.key, "ffe1");
    let n: BLEDevice<u32, u32> = BLEDevice::init();
    assert!(matches!(n.begin_unsubscribe("180d".to_string(), "ffe1".to_string()), Err(DeviceError::NotInitialized)));
}

#[test]
fn write_and_read_need_connection() {
    let d: BLEDevice<u32, u32> =
        BLEDevice::from_peripheral(1u32, Ok::<String, ()>("x".to_string()), Ok("y".to_string()));
    assert!(matches!(d.begin_write("s".to_string(), "c".to_string(), vec![1]), Err(DeviceError::NotConnected)));
    assert!(matches!(d.begin_read("s".to_string(), "c".to_string()), Err(DeviceError::NotConnected)));
}

#[test]
fn write_and_read_hand_back_their_request() {
    let d = connected_device();
    let (p, c, bytes) = d.begin_write("180D".to_string(), "2A39".to_string(), vec![1, 0]).ok().unwrap();
    assert_eq!(*p, 5);
    assert_eq!(c.service, "180D");
    assert_eq!(c.characteristic, "2A39");
    assert_eq!(bytes, vec![1, 0]);
    let (p, c) = d.begin_read("180D".to_string(), "2A38".to_string()).ok().unwrap();
    assert_eq!(*p, 5);
    assert_eq!(c.characteristic, "2A38");
}
