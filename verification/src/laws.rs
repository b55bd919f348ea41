//! Properties of the library that span several operations, stated over the
//! same models that the operations' contracts use.
use vstd::prelude::*;
use crate::ble_device::{
    after_connect, after_disconnect, device_wf, listens_elsewhere, listens_to, lowercased,
    without_listeners, without_listeners_for, DeviceView,
};
use crate::gdble::{error_taken, finished, phase_wf, results_taken, started, ScanOutcome, ScanPhase};
use crate::notifications::polled;

verus! {

/// A poll hands back the bytes of the latest notification recorded for the
/// characteristic, whatever came before it, and a second poll with no
/// notification in between hands back nothing.
pub proof fn law_poll_returns_latest_once(
    m: Map<Seq<char>, Seq<u8>>,
    k: Seq<char>,
    earlier: Seq<u8>,
    latest: Seq<u8>,
)
    ensures
        polled(m.insert(k, earlier).insert(k, latest), k) == latest,
        polled(m.insert(k, latest).remove(k), k) == Seq::<u8>::empty(),
{
}

/// Polling one characteristic leaves what is stored for every other one.
pub proof fn law_poll_leaves_other_characteristics(m: Map<Seq<char>, Seq<u8>>, k: Seq<char>, other: Seq<char>)
    requires
        k != other,
    ensures
        polled(m.remove(k), other) == polled(m, other),
        m.remove(k).dom().contains(other) == m.dom().contains(other),
{
}

/// Notifications are found by the characteristic UUID in lowercase: a poll
/// with any spelling of the UUID that lowercases alike finds the bytes
/// recorded for a subscription to it.
pub proof fn law_poll_matches_lowercased_uuid(
    m: Map<Seq<char>, Seq<u8>>,
    subscribed_uuid: Seq<char>,
    polled_uuid: Seq<char>,
    data: Seq<u8>,
)
    requires
        lowercased(subscribed_uuid) == lowercased(polled_uuid),
    ensures
        polled(m.insert(lowercased(subscribed_uuid), data), lowercased(polled_uuid)) == data,
{
}

/// A scan that is running cannot be started again: of two starts in a row,
/// the second is always refused and leaves the scan running.
pub proof fn law_scan_not_started_twice<P>(s: ScanPhase<P>)
    ensures
        started(started(s).0) == (ScanPhase::<P>::Scanning, false),
{
}

/// A failed scan is reported once, with a message that is not empty; the
/// object is then idle, reports no further error, and a new scan can start.
pub proof fn law_failed_scan_reported_once<P>(outcome: ScanOutcome<P>)
    requires
        !(outcome is Found),
    ensures
        error_taken(finished(outcome)).0.len() > 0,
        error_taken(finished(outcome)).1 == ScanPhase::<P>::Idle,
        error_taken(error_taken(finished(outcome)).1).0 == Seq::<char>::empty(),
        started(error_taken(finished(outcome)).1) == (ScanPhase::<P>::Scanning, true),
{
    reveal_strlit("Not initialized \u{2014} call initialize() first");
    reveal_strlit("scan_for failed: ");
    reveal_strlit("scan_get_results failed: ");
    reveal_strlit("scan thread panicked");
}

/// The peripherals found by a scan are handed over once, in order; the object
/// is then idle and hands over nothing more.
pub proof fn law_scan_results_handed_over_once<P>(found: Seq<P>, outcome: ScanOutcome<P>)
    requires
        outcome matches ScanOutcome::Found(v) && v@ == found,
    ensures
        results_taken(finished(outcome)) == (found, ScanPhase::<P>::Idle),
        results_taken(results_taken(finished(outcome)).1).0 == Seq::<P>::empty(),
{
}

/// Every way a scan can end leaves a well-formed phase: an error always
/// carries a message.
pub proof fn law_finished_scan_well_formed<P>(outcome: ScanOutcome<P>)
    ensures
        phase_wf(finished(outcome)),
{
    reveal_strlit("Not initialized \u{2014} call initialize() first");
    reveal_strlit("scan_for failed: ");
    reveal_strlit("scan_get_results failed: ");
    reveal_strlit("scan thread panicked");
}

/// A successful connection followed by a successful disconnection leaves the
/// device not connected, with no listeners, and with its peripheral, name and
/// address as they were.
pub proof fn law_connect_then_disconnect<P, T>(v: DeviceView<P, T>)
    requires
        v.peripheral is Some,
    ensures
        after_connect(v, true).connected,
        device_wf(after_connect(v, true)),
        !after_disconnect(without_listeners(after_connect(v, true)), true).connected,
        after_disconnect(without_listeners(after_connect(v, true)), true).listeners.len() == 0,
        after_disconnect(without_listeners(after_connect(v, true)), true).peripheral == v.peripheral,
        after_disconnect(without_listeners(after_connect(v, true)), true).name == v.name,
        after_disconnect(without_listeners(after_connect(v, true)), true).address == v.address,
{
}

/// A failed connection or disconnection leaves the device as it was.
pub proof fn law_failed_connection_changes_nothing<P, T>(v: DeviceView<P, T>)
    ensures
        after_connect(v, false) == v,
        after_disconnect(v, false) == v,
{
}

/// Unsubscribing from a characteristic releases exactly its listeners: none
/// listening under its key stays, every other listener stays, and each
/// listener is either released or kept.
pub proof fn law_unsubscribe_releases_exactly_its_listeners<P, T>(v: DeviceView<P, T>, k: Seq<char>)
    ensures
        forall|i: int|
            0 <= i < without_listeners_for(v, k).listeners.len()
                ==> #[trigger] without_listeners_for(v, k).listeners[i].0 != k,
        forall|i: int|
            0 <= i < v.listeners.filter(listens_to::<T>(k)).len()
                ==> #[trigger] v.listeners.filter(listens_to::<T>(k))[i].0 == k,
        forall|i: int|
            0 <= i < v.listeners.len() && #[trigger] v.listeners[i].0 != k
                ==> without_listeners_for(v, k).listeners.contains(v.listeners[i]),
        v.listeners.filter(listens_to::<T>(k)).len() + without_listeners_for(v, k).listeners.len()
            == v.listeners.len(),
{
    let s = v.listeners;
    let keep = listens_elsewhere::<T>(k);
    broadcast use vstd::seq_lib::group_filter_ensures;
    assert forall|i: int| 0 <= i < s.len() && #[trigger] s[i].0 != k implies s.filter(keep).contains(s[i]) by {
        s.lemma_filter_contains(keep, i);
    }
    lemma_filter_split_len(s, k);
}

proof fn lemma_filter_split_len<T>(s: Seq<(Seq<char>, T)>, k: Seq<char>)
    ensures
        s.filter(listens_to::<T>(k)).len() + s.filter(listens_elsewhere::<T>(k)).len() == s.len(),
    decreases s.len(),
{
    reveal(Seq::filter);
    if s.len() > 0 {
        lemma_filter_split_len(s.drop_last(), k);
    }
}

/// A scan that ends by finding peripherals, however many (none included),
/// leaves the object done and holding exactly that list, which is what
/// taking the results then hands back.
pub proof fn law_found_scan_is_done<P>(outcome: ScanOutcome<P>)
    requires
        outcome is Found,
    ensures
        finished(outcome) == ScanPhase::Done(outcome->Found_0@),
        finished(outcome) is Done,
        !(finished(outcome) is Scanning),
        results_taken(finished(outcome)).0 == outcome->Found_0@,
{
}

/// A scan that ends any other way leaves the object with an error, never done
/// or scanning.
pub proof fn law_failed_scan_is_an_error<P>(outcome: ScanOutcome<P>)
    requires
        !(outcome is Found),
    ensures
        finished(outcome) is Error,
        !(finished(outcome) is Done),
        !(finished(outcome) is Scanning),
{
}

/// The messages that the ways of failing leave behind.
pub proof fn law_scan_error_messages<P>(e: String)
    ensures
        finished(ScanOutcome::<P>::ScanFailed(e)) == ScanPhase::<P>::Error("scan_for failed: "@ + e@),
        finished(ScanOutcome::<P>::ResultsFailed(e)) == ScanPhase::<P>::Error(
            "scan_get_results failed: "@ + e@,
        ),
        finished(ScanOutcome::<P>::NotInitialized) == ScanPhase::<P>::Error(
            "Not initialized \u{2014} call initialize() first"@,
        ),
        finished(ScanOutcome::<P>::Panicked) == ScanPhase::<P>::Error("scan thread panicked"@),
{
}

/// Taking the error when the last scan did not fail hands back nothing and
/// changes nothing; after a failure it hands back the message and the object
/// is idle.
pub proof fn law_error_taken_only_after_failure<P>(s: ScanPhase<P>)
    ensures
        !(s is Error) ==> error_taken(s) == (Seq::<char>::empty(), s),
        s matches ScanPhase::Error(msg) ==> error_taken(s) == (msg, ScanPhase::<P>::Idle),
{
}

/// A start is refused only while a scan runs, and leaves it running; from
/// every other phase it succeeds and the object is scanning.
pub proof fn law_start_refused_only_while_scanning<P>(s: ScanPhase<P>)
    ensures
        !(s is Scanning) ==> started(s) == (ScanPhase::<P>::Scanning, true),
        s is Scanning ==> started(s) == (s, false),
        started(s).0 is Scanning,
        started(s).1 <==> !(s is Scanning),
{
}

/// Taking the results always leaves the object idle; it hands back the list
/// of a finished scan and nothing otherwise.
pub proof fn law_results_taken_always_idle<P>(s: ScanPhase<P>)
    ensures
        results_taken(s).1 == ScanPhase::<P>::Idle,
        s matches ScanPhase::Done(v) ==> results_taken(s).0 == v,
        !(s is Done) ==> results_taken(s).0 == Seq::<P>::empty(),
{
}

/// A successful connection changes only the connected flag: the device is
/// connected and keeps its peripheral, name, address and listeners.
pub proof fn law_connect_changes_only_the_flag<P, T>(v: DeviceView<P, T>)
    ensures
        after_connect(v, true).connected,
        after_connect(v, true).peripheral == v.peripheral,
        after_connect(v, true).name == v.name,
        after_connect(v, true).address == v.address,
        after_connect(v, true).listeners == v.listeners,
{
}

/// After a successful disconnection the device is not connected, whatever it
/// was before, and keeps its peripheral, name, address and listeners.
pub proof fn law_disconnect_changes_only_the_flag<P, T>(v: DeviceView<P, T>)
    ensures
        !after_disconnect(v, true).connected,
        after_disconnect(v, true).peripheral == v.peripheral,
        after_disconnect(v, true).name == v.name,
        after_disconnect(v, true).address == v.address,
        after_disconnect(v, true).listeners == v.listeners,
{
}

/// Releasing listeners changes nothing but the listeners.
pub proof fn law_releasing_listeners_keeps_the_rest<P, T>(v: DeviceView<P, T>, k: Seq<char>)
    ensures
        without_listeners(v).listeners.len() == 0,
        without_listeners(v).peripheral == v.peripheral,
        without_listeners(v).name == v.name,
        without_listeners(v).address == v.address,
        without_listeners(v).connected == v.connected,
        without_listeners_for(v, k).peripheral == v.peripheral,
        without_listeners_for(v, k).name == v.name,
        without_listeners_for(v, k).address == v.address,
        without_listeners_for(v, k).connected == v.connected,
{
}

/// A poll hands back what is stored under the key, or nothing when nothing
/// is, and then nothing is stored under it.
pub proof fn law_poll_hands_back_stored_bytes(m: Map<Seq<char>, Seq<u8>>, k: Seq<char>)
    ensures
        m.dom().contains(k) ==> polled(m, k) == m[k],
        !m.dom().contains(k) ==> polled(m, k).len() == 0,
        !m.remove(k).dom().contains(k),
{
}

} // verus!
