//! The adapter object: picking the adapter at initialisation and the state
//! machine of the background scan.
use vstd::prelude::*;

verus! {

/// Where the background scan stands. `P` is the type of a found peripheral.
pub enum ScanState<P> {
    Idle,
    Scanning,
    Done(Vec<P>),
    Error(String),
}

/// The mathematical value of a [`ScanState`].
pub enum ScanPhase<P> {
    Idle,
    Scanning,
    Done(Seq<P>),
    Error(Seq<char>),
}

impl<P> View for ScanState<P> {
    type V = ScanPhase<P>;

    open spec fn view(&self) -> ScanPhase<P> {
        match self {
            ScanState::Idle => ScanPhase::Idle,
            ScanState::Scanning => ScanPhase::Scanning,
            ScanState::Done(found) => ScanPhase::Done(found@),
            ScanState::Error(msg) => ScanPhase::Error(msg@),
        }
    }
}

/// How the background scan ended, as the scanning thread saw it.
pub enum ScanOutcome<P> {
    /// No adapter had been set up when the scan began.
    NotInitialized,
    /// Scanning failed; the backend's message.
    ScanFailed(String),
    /// Scanning ran but its results could not be fetched; the backend's message.
    ResultsFailed(String),
    /// The peripherals that the scan found.
    Found(Vec<P>),
    /// The scanning thread panicked.
    Panicked,
}

/// Why no adapter could be set up.
pub enum InitError<E> {
    /// Listing the adapters failed with this error.
    ListFailed(E),
    /// The system has no Bluetooth adapter.
    NoAdapters,
}

/// Text of the error reported when a scan runs before initialisation.
pub open spec fn not_initialized_text() -> Seq<char> {
    "Not initialized \u{2014} call initialize() first"@
}

/// Text of the error reported when scanning fails with `e`.
pub open spec fn scan_failed_text(e: Seq<char>) -> Seq<char> {
    "scan_for failed: "@ + e
}

/// Text of the error reported when fetching the results fails with `e`.
pub open spec fn results_failed_text(e: Seq<char>) -> Seq<char> {
    "scan_get_results failed: "@ + e
}

/// Text of the error reported when the scanning thread panics.
pub open spec fn panicked_text() -> Seq<char> {
    "scan thread panicked"@
}

/// The phase that a scan ending with `outcome` leaves behind.
pub open spec fn finished<P>(outcome: ScanOutcome<P>) -> ScanPhase<P> {
    match outcome {
        ScanOutcome::NotInitialized => ScanPhase::Error(not_initialized_text()),
        ScanOutcome::ScanFailed(e) => ScanPhase::Error(scan_failed_text(e@)),
        ScanOutcome::ResultsFailed(e) => ScanPhase::Error(results_failed_text(e@)),
        ScanOutcome::Found(found) => ScanPhase::Done(found@),
        ScanOutcome::Panicked => ScanPhase::Error(panicked_text()),
    }
}

impl<P> ScanOutcome<P> {
    /// The error message that this outcome leaves behind, or `None` when the
    /// scan found its peripherals. Every message is non-empty.
    pub fn error_message(&self) -> (msg: Option<String>)
        ensures
            match msg {
                Some(m) => finished(*self) == ScanPhase::<P>::Error(m@) && m@.len() > 0,
                None => self is Found,
            },
    {
        match self {
            ScanOutcome::NotInitialized => {
                let m = String::from_str("Not initialized \u{2014} call initialize() first");
                proof {
                    reveal_strlit("Not initialized \u{2014} call initialize() first");
                }
                Some(m)
            },
            ScanOutcome::ScanFailed(e) => {
                let mut m = String::from_str("scan_for failed: ");
                proof {
                    reveal_strlit("scan_for failed: ");
                }
                m.append(e.as_str());
                Some(m)
            },
            ScanOutcome::ResultsFailed(e) => {
                let mut m = String::from_str("scan_get_results failed: ");
                proof {
                    reveal_strlit("scan_get_results failed: ");
                }
                m.append(e.as_str());
                Some(m)
            },
            ScanOutcome::Found(_) => None,
            ScanOutcome::Panicked => {
                let m = String::from_str("scan thread panicked");
                proof {
                    reveal_strlit("scan thread panicked");
                }
                Some(m)
            },
        }
    }
}

/// Starting a scan from phase `s`: the phase after, and whether it started.
/// A scan that is already running is left alone.
pub open spec fn started<P>(s: ScanPhase<P>) -> (ScanPhase<P>, bool) {
    match s {
        ScanPhase::Scanning => (s, false),
        _ => (ScanPhase::Scanning, true),
    }
}

/// Taking the error of phase `s`: the message handed back (empty when the
/// last scan did not fail) and the phase after.
pub open spec fn error_taken<P>(s: ScanPhase<P>) -> (Seq<char>, ScanPhase<P>) {
    match s {
        ScanPhase::Error(msg) => (msg, ScanPhase::Idle),
        _ => (Seq::empty(), s),
    }
}

/// Taking the results of phase `s`: the peripherals handed back (none unless
/// a scan has finished) and the phase after, which is always idle.
pub open spec fn results_taken<P>(s: ScanPhase<P>) -> (Seq<P>, ScanPhase<P>) {
    match s {
        ScanPhase::Done(found) => (found, ScanPhase::Idle),
        _ => (Seq::empty(), ScanPhase::Idle),
    }
}

/// Every error phase carries a message that is not empty.
pub open spec fn phase_wf<P>(s: ScanPhase<P>) -> bool {
    s matches ScanPhase::Error(msg) ==> msg.len() > 0
}

/// The adapter object's own state: the background scan.
pub struct GdBLE<P> {
    scan_state: ScanState<P>,
}

impl<P> View for GdBLE<P> {
    type V = ScanPhase<P>;

    closed spec fn view(&self) -> ScanPhase<P> {
        self.scan_state@
    }
}

impl<P> GdBLE<P> {
    #[verifier::type_invariant]
    closed spec fn inv(self) -> bool {
        phase_wf(self.scan_state@)
    }

    /// A fresh adapter object; no scan has run.
    pub fn init() -> (g: Self)
        ensures
            g@ == ScanPhase::<P>::Idle,
    {
        GdBLE { scan_state: ScanState::Idle }
    }

    /// The adapter that initialisation keeps, from the listing of the system's
    /// adapters: the first one. Fails when the listing failed or is empty.
    pub fn initialize<A, E>(adapters: Result<Vec<A>, E>) -> (r: Result<A, InitError<E>>)
        ensures
            match adapters {
                Ok(v) => if v@.len() > 0 {
                    r == Ok::<A, InitError<E>>(v@[0])
                } else {
                    r == Err::<A, InitError<E>>(InitError::NoAdapters)
                },
                Err(e) => r == Err::<A, InitError<E>>(InitError::ListFailed(e)),
            },
    {
        match adapters {
            Err(e) => Err(InitError::ListFailed(e)),
            Ok(v) => {
                let mut v = v;
                if v.len() == 0 {
                    Err(InitError::NoAdapters)
                } else {
                    Ok(v.remove(0))
                }
            },
        }
    }

    /// Begin a background scan. Refused, with nothing changed, while one is
    /// already running; otherwise the object is scanning from now on.
    pub fn start_scan(&mut self) -> (started_now: bool)
        ensures
            (final(self)@, started_now) == started(old(self)@),
    {
        if let ScanState::Scanning = self.scan_state {
            return false;
        }
        self.scan_state = ScanState::Scanning;
        true
    }

    /// Record how the background scan ended.
    pub fn finish_scan(&mut self, outcome: ScanOutcome<P>)
        ensures
            final(self)@ == finished(outcome),
    {
        let next = match outcome.error_message() {
            Some(msg) => ScanState::Error(msg),
            None => match outcome {
                ScanOutcome::Found(found) => ScanState::Done(found),
                _ => ScanState::Idle,
            },
        };
        self.scan_state = next;
    }

    /// Whether a scan has finished and its results are waiting.
    pub fn is_scan_done(&self) -> (done: bool)
        ensures
            done == (self@ is Done),
    {
        match self.scan_state {
            ScanState::Done(_) => true,
            _ => false,
        }
    }

    /// Whether a scan is running.
    pub fn is_scanning(&self) -> (scanning: bool)
        ensures
            scanning == (self@ is Scanning),
    {
        match self.scan_state {
            ScanState::Scanning => true,
            _ => false,
        }
    }

    /// The message of the last scan's failure, after which the object is idle
    /// again; an empty string, with nothing changed, when the last scan did
    /// not fail.
    pub fn take_scan_error(&mut self) -> (msg: String)
        ensures
            (msg@, final(self)@) == error_taken(old(self)@),
            msg@.len() > 0 <==> old(self)@ is Error,
    {
        proof {
            use_type_invariant(&*self);
        }
        if let ScanState::Error(_) = self.scan_state {
            let mut taken: ScanState<P> = ScanState::Idle;
            std::mem::swap(&mut taken, &mut self.scan_state);
            match taken {
                ScanState::Error(msg) => msg,
                _ => String::new(),
            }
        } else {
            String::new()
        }
    }

    /// The peripherals that the last scan found, when it has finished; none
    /// otherwise. The object is idle afterwards either way.
    pub fn take_scan_results(&mut self) -> (found: Vec<P>)
        ensures
            (found@, final(self)@) == results_taken(old(self)@),
    {
        let mut taken: ScanState<P> = ScanState::Idle;
        std::mem::swap(&mut taken, &mut self.scan_state);
        match taken {
            ScanState::Done(found) => found,
            _ => Vec::new(),
        }
    }
}

} // verus!
