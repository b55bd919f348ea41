//! The device object: its identity, its connection state and the listeners
//! that drain its notification streams. Talking to the radio is left to the
//! caller: each operation is split into a `begin_` step, which decides whether
//! the request may be made and hands back what to send, and, where the
//! outcome changes the device, a `finish_` step that takes the outcome.
use vstd::prelude::*;
use crate::notifications::{polled, NotificationStore};

verus! {

/// What `str::to_lowercase` gives for a string: its lowercase equivalent
/// under the Unicode tables of the standard library.
pub uninterp spec fn lowercased(s: Seq<char>) -> Seq<char>;

/// Calls `str::to_lowercase`. Claims only that the result is the named
/// lowercase form of the argument, a function of the argument alone; what
/// that form is, character by character, is left unsaid.
#[verifier::external_body]
fn to_lowercase(s: &String) -> (r: String)
    ensures
        r@ == lowercased(s@),
{
    s.to_lowercase()
}

/// Why a request to the device was refused or failed.
pub enum DeviceError {
    /// The device has no peripheral handle.
    NotInitialized,
    /// The request needs a connected device.
    NotConnected,
    /// No runtime was there to run the notification listener.
    NoRuntime,
    /// The Bluetooth backend reported this failure.
    Failed(String),
}

/// A characteristic addressed by its service and its own UUID.
pub struct Characteristic {
    pub service: String,
    pub characteristic: String,
}

/// A subscription request: the characteristic and the key under which its
/// notifications are stored (the characteristic UUID in lowercase).
pub struct Subscription {
    pub service: String,
    pub characteristic: String,
    pub key: String,
}

/// What came of asking for notifications after a subscription was begun.
pub enum SubscribeOutcome<T> {
    /// The backend refused to notify; its message.
    NotifyFailed(String),
    /// Notifications started but no runtime was there to drain them.
    NoRuntime,
    /// A listener drains the notifications; its handle.
    Listening(T),
}

/// A listener draining one notification stream, stored under its key.
pub struct Listener<T> {
    pub key: String,
    pub handle: T,
}

/// The mathematical value of a device: its peripheral handle, name, address,
/// whether it is connected, and its listeners (key and handle) in the order
/// they were added.
pub struct DeviceView<P, T> {
    pub peripheral: Option<P>,
    pub name: Seq<char>,
    pub address: Seq<char>,
    pub connected: bool,
    pub listeners: Seq<(Seq<char>, T)>,
}

/// The key and handle of a listener.
pub open spec fn listener_view<T>(l: Listener<T>) -> (Seq<char>, T) {
    (l.key@, l.handle)
}

/// Whether a listener listens under key `k`.
pub open spec fn listens_to<T>(k: Seq<char>) -> spec_fn((Seq<char>, T)) -> bool {
    |l: (Seq<char>, T)| l.0 == k
}

/// Whether a listener listens under another key than `k`.
pub open spec fn listens_elsewhere<T>(k: Seq<char>) -> spec_fn((Seq<char>, T)) -> bool {
    |l: (Seq<char>, T)| l.0 != k
}

/// The device after a connection attempt that `succeeded` or not.
pub open spec fn after_connect<P, T>(v: DeviceView<P, T>, succeeded: bool) -> DeviceView<P, T> {
    if succeeded {
        DeviceView { connected: true, ..v }
    } else {
        v
    }
}

/// The device after a disconnection attempt that `succeeded` or not.
pub open spec fn after_disconnect<P, T>(v: DeviceView<P, T>, succeeded: bool) -> DeviceView<P, T> {
    if succeeded {
        DeviceView { connected: false, ..v }
    } else {
        v
    }
}

/// The device with all its listeners released.
pub open spec fn without_listeners<P, T>(v: DeviceView<P, T>) -> DeviceView<P, T> {
    DeviceView { listeners: Seq::empty(), ..v }
}

/// The device with the listeners under key `k` released.
pub open spec fn without_listeners_for<P, T>(v: DeviceView<P, T>, k: Seq<char>) -> DeviceView<P, T> {
    DeviceView { listeners: v.listeners.filter(listens_elsewhere::<T>(k)), ..v }
}

/// A connected device always has its peripheral handle.
pub open spec fn device_wf<P, T>(v: DeviceView<P, T>) -> bool {
    v.connected ==> v.peripheral is Some
}

/// The device object's own state. `P` is the peripheral handle, `T` the
/// handle of a notification listener.
pub struct BLEDevice<P, T> {
    peripheral: Option<P>,
    name: String,
    address: String,
    is_connected: bool,
    listeners: Vec<Listener<T>>,
}

impl<P, T> View for BLEDevice<P, T> {
    type V = DeviceView<P, T>;

    closed spec fn view(&self) -> DeviceView<P, T> {
        DeviceView {
            peripheral: self.peripheral,
            name: self.name@,
            address: self.address@,
            connected: self.is_connected,
            listeners: self.listeners@.map_values(|l: Listener<T>| listener_view(l)),
        }
    }
}

impl<P, T> BLEDevice<P, T> {
    #[verifier::type_invariant]
    closed spec fn inv(self) -> bool {
        self.is_connected ==> self.peripheral is Some
    }

    /// A device object with no peripheral behind it: named "Unknown", with an
    /// empty address, not connected and with no listeners.
    pub fn init() -> (d: Self)
        ensures
            d@.peripheral is None,
            d@.name == "Unknown"@,
            d@.address == ""@,
            !d@.connected,
            d@.listeners == Seq::<(Seq<char>, T)>::empty(),
    {
        let d = BLEDevice {
            peripheral: None,
            name: String::from_str("Unknown"),
            address: String::from_str(""),
            is_connected: false,
            listeners: Vec::new(),
        };
        assert(d@.listeners =~= Seq::<(Seq<char>, T)>::empty());
        d
    }

    /// A device object for a peripheral found by a scan, given what the
    /// peripheral answered when asked for its identifier and its address.
    /// The name is the identifier, or "Unknown" when it could not be had; the
    /// address is the address, or empty when it could not be had. The device
    /// is not connected and has no listeners.
    pub fn from_peripheral<E>(
        peripheral: P,
        identifier: Result<String, E>,
        address: Result<String, E>,
    ) -> (d: Self)
        ensures
            d@.peripheral == Some(peripheral),
            d@.name == match identifier {
                Ok(s) => s@,
                Err(_) => "Unknown"@,
            },
            d@.address == match address {
                Ok(s) => s@,
                Err(_) => ""@,
            },
            !d@.connected,
            d@.listeners == Seq::<(Seq<char>, T)>::empty(),
    {
        let name = match identifier {
            Ok(s) => s,
            Err(_) => String::from_str("Unknown"),
        };
        let address = match address {
            Ok(s) => s,
            Err(_) => String::from_str(""),
        };
        let d = BLEDevice {
            peripheral: Some(peripheral),
            name,
            address,
            is_connected: false,
            listeners: Vec::new(),
        };
        assert(d@.listeners =~= Seq::<(Seq<char>, T)>::empty());
        d
    }

    /// The device's name.
    pub fn get_name(&self) -> (name: String)
        ensures
            name@ == self@.name,
    {
        self.name.clone()
    }

    /// The device's address.
    pub fn get_address(&self) -> (address: String)
        ensures
            address@ == self@.address,
    {
        self.address.clone()
    }

    /// Whether the device is connected; a connected device has its
    /// peripheral handle.
    pub fn ble_is_connected(&self) -> (connected: bool)
        ensures
            connected == self@.connected,
            connected ==> self@.peripheral is Some,
    {
        proof {
            use_type_invariant(self);
        }
        self.is_connected
    }

    /// The peripheral handle, when the device has one.
    pub fn peripheral(&self) -> (p: Option<&P>)
        ensures
            match p {
                Some(h) => self@.peripheral == Some(*h),
                None => self@.peripheral is None,
            },
    {
        match &self.peripheral {
            Some(h) => Some(h),
            None => None,
        }
    }

    /// Begin connecting: the peripheral to connect, or `NotInitialized` when
    /// the device has none.
    pub fn begin_connect(&self) -> (r: Result<&P, DeviceError>)
        ensures
            match r {
                Ok(h) => self@.peripheral == Some(*h),
                Err(e) => self@.peripheral is None && e is NotInitialized,
            },
    {
        match &self.peripheral {
            Some(h) => Ok(h),
            None => Err(DeviceError::NotInitialized),
        }
    }

    /// Finish connecting with the backend's answer: connected when it
    /// succeeded, unchanged (and the backend's message handed back) when not.
    pub fn finish_connect(&mut self, outcome: Result<(), String>) -> (r: Result<(), DeviceError>)
        requires
            old(self)@.peripheral is Some,
        ensures
            final(self)@ == after_connect(old(self)@, outcome is Ok),
            match outcome {
                Ok(_) => r is Ok,
                Err(msg) => r == Err::<(), DeviceError>(DeviceError::Failed(msg)),
            },
    {
        match outcome {
            Ok(()) => {
                self.is_connected = true;
                Ok(())
            },
            Err(msg) => Err(DeviceError::Failed(msg)),
        }
    }

    /// All listeners, released: the device keeps none afterwards.
    pub fn drain_listeners(&mut self) -> (released: Vec<Listener<T>>)
        ensures
            released@.map_values(|l: Listener<T>| listener_view(l)) == old(self)@.listeners,
            final(self)@ == without_listeners(old(self)@),
    {
        proof {
            use_type_invariant(&*self);
        }
        let mut released: Vec<Listener<T>> = Vec::new();
        std::mem::swap(&mut released, &mut self.listeners);
        assert(self@.listeners =~= Seq::<(Seq<char>, T)>::empty());
        assert(self@ == without_listeners(old(self)@));
        released
    }

    /// Begin disconnecting: refused with `NotInitialized`, and nothing
    /// changed, when the device has no peripheral; otherwise every listener is
    /// released (to be stopped before the peripheral is disconnected), whether
    /// or not the disconnection then succeeds.
    pub fn begin_disconnect(&mut self) -> (r: Result<Vec<Listener<T>>, DeviceError>)
        ensures
            match r {
                Ok(released) => {
                    &&& old(self)@.peripheral is Some
                    &&& released@.map_values(|l: Listener<T>| listener_view(l)) == old(self)@.listeners
                    &&& final(self)@ == without_listeners(old(self)@)
                },
                Err(e) => {
                    &&& old(self)@.peripheral is None
                    &&& e is NotInitialized
                    &&& final(self)@ == old(self)@
                },
            },
    {
        if self.peripheral.is_none() {
            return Err(DeviceError::NotInitialized);
        }
        Ok(self.drain_listeners())
    }

    /// Finish disconnecting with the backend's answer: not connected when it
    /// succeeded, unchanged (and the backend's message handed back) when not.
    pub fn finish_disconnect(&mut self, outcome: Result<(), String>) -> (r: Result<(), DeviceError>)
        requires
            old(self)@.peripheral is Some,
        ensures
            final(self)@ == after_disconnect(old(self)@, outcome is Ok),
            match outcome {
                Ok(_) => r is Ok,
                Err(msg) => r == Err::<(), DeviceError>(DeviceError::Failed(msg)),
            },
    {
        match outcome {
            Ok(()) => {
                self.is_connected = false;
                Ok(())
            },
            Err(msg) => Err(DeviceError::Failed(msg)),
        }
    }

    /// Begin subscribing to a characteristic: refused with `NotConnected` when
    /// the device is not connected, else with `NotInitialized` when it has no
    /// peripheral; otherwise the peripheral to ask and the subscription, whose
    /// key is the characteristic UUID in lowercase.
    pub fn begin_subscribe(&self, service_uuid: String, char_uuid: String) -> (r: Result<
        (&P, Subscription),
        DeviceError,
    >)
        ensures
            match r {
                Ok((h, sub)) => {
                    &&& self@.connected
                    &&& self@.peripheral == Some(*h)
                    &&& sub.service@ == service_uuid@
                    &&& sub.characteristic@ == char_uuid@
                    &&& sub.key@ == lowercased(char_uuid@)
                },
                Err(e) => if !self@.connected {
                    e is NotConnected
                } else {
                    self@.peripheral is None && e is NotInitialized
                },
            },
    {
        if !self.is_connected {
            return Err(DeviceError::NotConnected);
        }
        let key = to_lowercase(&char_uuid);
        match &self.peripheral {
            Some(h) => Ok((h, Subscription { service: service_uuid, characteristic: char_uuid, key })),
            None => Err(DeviceError::NotInitialized),
        }
    }

    /// Finish subscribing: a listener that drains the notifications is kept
    /// under the subscription's key; a refusal to notify, or a missing
    /// runtime, fails the subscription and changes nothing.
    pub fn finish_subscribe(&mut self, sub: &Subscription, outcome: SubscribeOutcome<T>) -> (r: Result<
        (),
        DeviceError,
    >)
        ensures
            match outcome {
                SubscribeOutcome::Listening(handle) => {
                    &&& r is Ok
                    &&& final(self)@ == DeviceView {
                        listeners: old(self)@.listeners.push((sub.key@, handle)),
                        ..old(self)@
                    }
                },
                SubscribeOutcome::NotifyFailed(msg) => {
                    &&& r == Err::<(), DeviceError>(DeviceError::Failed(msg))
                    &&& final(self)@ == old(self)@
                },
                SubscribeOutcome::NoRuntime => {
                    &&& r == Err::<(), DeviceError>(DeviceError::NoRuntime)
                    &&& final(self)@ == old(self)@
                },
            },
    {
        proof {
            use_type_invariant(&*self);
        }
        match outcome {
            SubscribeOutcome::Listening(handle) => {
                let ghost before = self.listeners@;
                let mut listeners: Vec<Listener<T>> = Vec::new();
                std::mem::swap(&mut listeners, &mut self.listeners);
                listeners.push(Listener { key: sub.key.clone(), handle });
                self.listeners = listeners;
                assert(self.listeners@.map_values(|l: Listener<T>| listener_view(l))
                    =~= before.map_values(|l: Listener<T>| listener_view(l)).push((sub.key@, handle)));
                Ok(())
            },
            SubscribeOutcome::NotifyFailed(msg) => Err(DeviceError::Failed(msg)),
            SubscribeOutcome::NoRuntime => Err(DeviceError::NoRuntime),
        }
    }

    /// Begin unsubscribing from a characteristic: refused with
    /// `NotInitialized` when the device has no peripheral; otherwise the
    /// peripheral to ask and the subscription to end, keyed by the
    /// characteristic UUID in lowercase.
    pub fn begin_unsubscribe(&self, service_uuid: String, char_uuid: String) -> (r: Result<
        (&P, Subscription),
        DeviceError,
    >)
        ensures
            match r {
                Ok((h, sub)) => {
                    &&& self@.peripheral == Some(*h)
                    &&& sub.service@ == service_uuid@
                    &&& sub.characteristic@ == char_uuid@
                    &&& sub.key@ == lowercased(char_uuid@)
                },
                Err(e) => self@.peripheral is None && e is NotInitialized,
            },
    {
        let key = to_lowercase(&char_uuid);
        match &self.peripheral {
            Some(h) => Ok((h, Subscription { service: service_uuid, characteristic: char_uuid, key })),
            None => Err(DeviceError::NotInitialized),
        }
    }

    /// Finish unsubscribing with the backend's answer: when it succeeded, the
    /// listeners under the subscription's key are released (in the order they
    /// were added) and the others kept in order; when not, nothing changes.
    pub fn finish_unsubscribe(&mut self, sub: &Subscription, outcome: Result<(), String>) -> (r: Result<
        Vec<Listener<T>>,
        DeviceError,
    >)
        ensures
            match outcome {
                Ok(_) => {
                    &&& r is Ok
                    &&& r->Ok_0@.map_values(|l: Listener<T>| listener_view(l))
                        == old(self)@.listeners.filter(listens_to::<T>(sub.key@))
                    &&& final(self)@ == without_listeners_for(old(self)@, sub.key@)
                },
                Err(msg) => {
                    &&& r == Err::<Vec<Listener<T>>, DeviceError>(DeviceError::Failed(msg))
                    &&& final(self)@ == old(self)@
                },
            },
    {
        match outcome {
            Err(msg) => Err(DeviceError::Failed(msg)),
            Ok(()) => Ok(self.release_listeners_for(&sub.key)),
        }
    }

    /// The listeners under key `k`, released; the others are kept in order.
    fn release_listeners_for(&mut self, k: &String) -> (released: Vec<Listener<T>>)
        ensures
            released@.map_values(|l: Listener<T>| listener_view(l))
                == old(self)@.listeners.filter(listens_to::<T>(k@)),
            final(self)@ == without_listeners_for(old(self)@, k@),
    {
        proof {
            use_type_invariant(&*self);
        }
        let mut rest: Vec<Listener<T>> = Vec::new();
        std::mem::swap(&mut rest, &mut self.listeners);
        let ghost all = rest@;
        let ghost model = all.map_values(|l: Listener<T>| listener_view(l));
        let mut kept: Vec<Listener<T>> = Vec::new();
        let mut released: Vec<Listener<T>> = Vec::new();
        let mut i: usize = 0;
        let n = rest.len();
        assert(model.take(0) =~= Seq::<(Seq<char>, T)>::empty());
        assert(all.subrange(0, all.len() as int) =~= all);
        while i < n
            invariant
                n == all.len(),
                i <= n,
                model == all.map_values(|l: Listener<T>| listener_view(l)),
                rest@ == all.subrange(i as int, n as int),
                kept@.map_values(|l: Listener<T>| listener_view(l))
                    == model.take(i as int).filter(listens_elsewhere::<T>(k@)),
                released@.map_values(|l: Listener<T>| listener_view(l))
                    == model.take(i as int).filter(listens_to::<T>(k@)),
            decreases n - i,
        {
            let l = rest.remove(0);
            assert(l == all[i as int]);
            assert(rest@ =~= all.subrange(i + 1, n as int));
            let ghost kept_before = kept@;
            let ghost released_before = released@;
            assert(model.take(i + 1).drop_last() =~= model.take(i as int));
            assert(model.take(i + 1).last() == listener_view(l));
            proof {
                reveal(Seq::filter);
            }
            if l.key == *k {
                released.push(l);
                assert(released@.map_values(|l: Listener<T>| listener_view(l))
                    =~= released_before.map_values(|l: Listener<T>| listener_view(l)).push(listener_view(l)));
            } else {
                kept.push(l);
                assert(kept@.map_values(|l: Listener<T>| listener_view(l))
                    =~= kept_before.map_values(|l: Listener<T>| listener_view(l)).push(listener_view(l)));
            }
            i = i + 1;
        }
        assert(model.take(n as int) =~= model);
        self.listeners = kept;
        released
    }

    /// Begin writing without response: refused with `NotConnected` when the
    /// device is not connected, else with `NotInitialized` when it has no
    /// peripheral; otherwise the peripheral to write to, the characteristic
    /// and the bytes, unchanged.
    pub fn begin_write(
        &self,
        service_uuid: String,
        characteristic_uuid: String,
        data: Vec<u8>,
    ) -> (r: Result<(&P, Characteristic, Vec<u8>), DeviceError>)
        ensures
            match r {
                Ok((h, c, bytes)) => {
                    &&& self@.connected
                    &&& self@.peripheral == Some(*h)
                    &&& c.service@ == service_uuid@
                    &&& c.characteristic@ == characteristic_uuid@
                    &&& bytes@ == data@
                },
                Err(e) => if !self@.connected {
                    e is NotConnected
                } else {
                    self@.peripheral is None && e is NotInitialized
                },
            },
    {
        if !self.is_connected {
            return Err(DeviceError::NotConnected);
        }
        match &self.peripheral {
            Some(h) => Ok(
                (h, Characteristic { service: service_uuid, characteristic: characteristic_uuid }, data),
            ),
            None => Err(DeviceError::NotInitialized),
        }
    }

    /// Begin reading: refused with `NotConnected` when the device is not
    /// connected, else with `NotInitialized` when it has no peripheral;
    /// otherwise the peripheral to read from and the characteristic.
    pub fn begin_read(&self, service_uuid: String, characteristic_uuid: String) -> (r: Result<
        (&P, Characteristic),
        DeviceError,
    >)
        ensures
            match r {
                Ok((h, c)) => {
                    &&& self@.connected
                    &&& self@.peripheral == Some(*h)
                    &&& c.service@ == service_uuid@
                    &&& c.characteristic@ == characteristic_uuid@
                },
                Err(e) => if !self@.connected {
                    e is NotConnected
                } else {
                    self@.peripheral is None && e is NotInitialized
                },
            },
    {
        if !self.is_connected {
            return Err(DeviceError::NotConnected);
        }
        match &self.peripheral {
            Some(h) => Ok((h, Characteristic { service: service_uuid, characteristic: characteristic_uuid })),
            None => Err(DeviceError::NotInitialized),
        }
    }

    /// The latest notification bytes stored for a characteristic UUID, looked
    /// up in lowercase, which are then forgotten; empty when none arrived
    /// since the last poll.
    pub fn poll_notification(&self, notifications: &mut NotificationStore, char_uuid: &String) -> (data: Vec<u8>)
        ensures
            data@ == polled(old(notifications)@, lowercased(char_uuid@)),
            final(notifications)@ == old(notifications)@.remove(lowercased(char_uuid@)),
    {
        let key = to_lowercase(char_uuid);
        notifications.take(&key)
    }
}

} // verus!
