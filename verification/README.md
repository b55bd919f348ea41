# gdble

A Bluetooth LE bridge for the Godot engine, split in two:

- `src/` is the verified library. `gdble.rs` holds the adapter object's
  background-scan state machine and the choice of adapter at start-up;
  `ble_device.rs` holds a device's identity, connection state and notification
  listeners, with each radio request split into a `begin_` step (may it be
  made, and with what) and a `finish_` step (what the answer changes);
  `notifications.rs` holds the latest notification bytes per characteristic;
  `laws.rs` states the properties that span several operations.
- `app/` is the engine-facing extension: the Godot classes, the SimpleBLE
  calls, the tokio runtime and scanning thread, and logging.
