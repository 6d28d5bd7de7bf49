use vstd::prelude::*;

use crate::color::RGBColor;
use crate::encoder::{
    encode, encoded_reports, intent_encodable, reports_view, FixedLayoutReport, LightingIntent,
};
use crate::enumerate::DeviceDescriptor;
use crate::errors::{open_fault_kind, EncodeError, ErrorKind, IoError, OpenError};

verus! {

/// How often a transiently failed write may be retried before the
/// session faults. Small and fixed: an interactive tool must never spin
/// behind the UI's back.
pub const MAX_RETRIES: u8 = 2;

/// Where the session stands, as the UI renders it. `Connected` carries
/// the last color the hardware *confirmed* — the last one successfully
/// written, never one merely requested.
#[derive(Clone, Copy, Debug, PartialEq, Eq, Structural)]
pub enum SessionState {
    Unselected,
    Connecting,
    Connected { confirmed_color: RGBColor },
    Faulted { reason: ErrorKind },
}

/// The decision core of the session: tracks the state the UI sees, the
/// one coalesced pending intent, the intent whose reports are on the
/// wire, and whether the surrounding binary currently holds an open OS
/// handle. The binary performs every open, write and close; this machine
/// decides them and records their outcomes.
pub struct SessionMachine {
    pub state: SessionState,
    /// The descriptor the user last selected; what an open attempt targets.
    pub target: Option<DeviceDescriptor>,
    /// At most one queued intent: a newer submission replaces an older
    /// one that was never sent (last-writer-wins coalescing).
    pub pending: Option<LightingIntent>,
    /// The intent whose report sequence has been handed out for writing
    /// and not yet confirmed or failed.
    pub in_flight: Option<LightingIntent>,
    /// Retries left for the in-flight write after transient failures.
    pub retries_left: u8,
    /// Whether the binary holds an open, exclusive device handle right
    /// now. True exactly in `Connected`: a fault or disconnect always
    /// tells the binary to close, so no handle outlives its session.
    pub has_session: bool,
    /// Last color any session confirmed; a fresh connection starts from
    /// it (black until a first write succeeds, discarded on disconnect).
    pub last_confirmed: RGBColor,
}

/// The machine's invariant: the handle exists exactly while connected,
/// commands are queued or on the wire only while connected, anything
/// queued or on the wire is encodable, and the retry budget never grows.
pub open spec fn wf(m: SessionMachine) -> bool {
    &&& m.has_session <==> m.state is Connected
    &&& m.pending is Some ==> m.state is Connected
    &&& m.in_flight is Some ==> m.state is Connected
    &&& (m.pending matches Some(i) ==> intent_encodable(i))
    &&& (m.in_flight matches Some(i) ==> intent_encodable(i))
    &&& m.retries_left <= MAX_RETRIES
}

/// The machine as it stands before any selection.
pub open spec fn initial_machine() -> SessionMachine {
    SessionMachine {
        state: SessionState::Unselected,
        target: None,
        pending: None,
        in_flight: None,
        retries_left: MAX_RETRIES,
        has_session: false,
        last_confirmed: RGBColor { red: 0, green: 0, blue: 0 },
    }
}

/// Selecting a device from any state: the old session (if any) is to be
/// closed first, everything queued is dropped, and an open attempt on
/// `d` begins.
pub open spec fn select_step(m: SessionMachine, d: DeviceDescriptor) -> SessionMachine {
    SessionMachine {
        state: SessionState::Connecting,
        target: Some(d),
        pending: None,
        in_flight: None,
        retries_left: MAX_RETRIES,
        has_session: false,
        last_confirmed: m.last_confirmed,
    }
}

/// A successful open while connecting: the session is connected, showing
/// the last confirmed color (black on a first connection).
pub open spec fn open_ok_step(m: SessionMachine) -> SessionMachine {
    if m.state is Connecting {
        SessionMachine {
            state: SessionState::Connected { confirmed_color: m.last_confirmed },
            has_session: true,
            retries_left: MAX_RETRIES,
            ..m
        }
    } else {
        m
    }
}

/// A failed open while connecting: the session faults with the open
/// error's reason and no handle is held.
pub open spec fn open_err_step(m: SessionMachine, e: OpenError) -> SessionMachine {
    if m.state is Connecting {
        SessionMachine {
            state: SessionState::Faulted { reason: open_fault_kind(e) },
            pending: None,
            in_flight: None,
            retries_left: MAX_RETRIES,
            has_session: false,
            ..m
        }
    } else {
        m
    }
}

/// Submitting an intent: accepted only while connected, where it takes
/// the single pending slot, replacing whatever was still queued there.
/// Anywhere else — faulted included — it changes nothing. An intent the
/// encoder would refuse is rejected outright and changes nothing either.
pub open spec fn submit_step(m: SessionMachine, i: LightingIntent) -> SessionMachine {
    if intent_encodable(i) && m.state is Connected {
        SessionMachine { pending: Some(i), ..m }
    } else {
        m
    }
}

/// Starting the next write: only while connected, with nothing on the
/// wire and something pending, the pending intent moves to in-flight and
/// its report sequence goes out. Otherwise nothing is written.
pub open spec fn start_step(m: SessionMachine) -> (SessionMachine, Option<Seq<Seq<u8>>>) {
    if m.state is Connected && m.in_flight is None && m.pending is Some {
        let i = m.pending.unwrap();
        (
            SessionMachine {
                pending: None,
                in_flight: Some(i),
                retries_left: MAX_RETRIES,
                ..m
            },
            Some(encoded_reports(i)),
        )
    } else {
        (m, None)
    }
}

/// A confirmed write: the in-flight intent is done, and exactly when it
/// set a color does the confirmed (and last-confirmed) color change.
pub open spec fn write_ok_step(m: SessionMachine) -> SessionMachine {
    match m.in_flight {
        Some(i) => {
            let cleared = SessionMachine {
                in_flight: None,
                retries_left: MAX_RETRIES,
                ..m
            };
            match i {
                LightingIntent::SetColor(c) => SessionMachine {
                    state: SessionState::Connected { confirmed_color: c },
                    last_confirmed: c,
                    ..cleared
                },
                LightingIntent::SetMode(_) => cleared,
            }
        },
        None => m,
    }
}

/// The machine after a write failure it cannot retry: faulted, queue
/// dropped, handle to be closed.
pub open spec fn fault_step(m: SessionMachine, reason: ErrorKind) -> SessionMachine {
    SessionMachine {
        state: SessionState::Faulted { reason },
        pending: None,
        in_flight: None,
        retries_left: MAX_RETRIES,
        has_session: false,
        ..m
    }
}

/// A failed write: a transient failure spends one retry while any are
/// left, a terminal failure or an exhausted budget faults the session.
pub open spec fn write_err_step(m: SessionMachine, e: IoError) -> SessionMachine {
    match m.in_flight {
        Some(_) => match e {
            IoError::Transient => if m.retries_left > 0 {
                SessionMachine { retries_left: (m.retries_left - 1) as u8, ..m }
            } else {
                fault_step(m, ErrorKind::TransientExhausted)
            },
            IoError::Terminal => fault_step(m, ErrorKind::Terminal),
        },
        None => m,
    }
}

/// An explicit disconnect from any state: back to the beginning, the
/// handle closed and all confirmed state discarded.
pub open spec fn disconnect_step(m: SessionMachine) -> SessionMachine {
    initial_machine()
}

impl SessionMachine {
    /// A machine with nothing selected and nothing confirmed.
    pub fn new() -> (m: SessionMachine)
        ensures
            m == initial_machine(),
            wf(m),
    {
        SessionMachine {
            state: SessionState::Unselected,
            target: None,
            pending: None,
            in_flight: None,
            retries_left: MAX_RETRIES,
            has_session: false,
            last_confirmed: RGBColor { red: 0, green: 0, blue: 0 },
        }
    }

    /// A snapshot of the state for the UI to render.
    pub fn current_state(&self) -> (s: SessionState)
        ensures
            s == self.state,
    {
        self.state
    }

    /// Select `d` as the device to control. Works from every state —
    /// `Faulted` is recovered from exactly this way. Returns whether the
    /// caller must close an existing handle before opening `d` (true
    /// exactly when a session was connected), keeping at most one handle
    /// open per process.
    pub fn select(&mut self, d: DeviceDescriptor) -> (close_first: bool)
        ensures
            *final(self) == select_step(*old(self), d),
            close_first == old(self).has_session,
            wf(*final(self)),
    {
        let close_first = self.has_session;
        self.state = SessionState::Connecting;
        self.target = Some(d);
        self.pending = None;
        self.in_flight = None;
        self.retries_left = MAX_RETRIES;
        self.has_session = false;
        close_first
    }

    /// Record that the open attempt succeeded and the caller now holds
    /// the handle. Outside `Connecting` (a stale completion) it changes
    /// nothing.
    pub fn open_succeeded(&mut self)
        ensures
            *final(self) == open_ok_step(*old(self)),
            wf(*old(self)) ==> wf(*final(self)),
    {
        if matches!(self.state, SessionState::Connecting) {
            self.state = SessionState::Connected { confirmed_color: self.last_confirmed };
            self.has_session = true;
            self.retries_left = MAX_RETRIES;
        }
    }

    /// Record that the open attempt failed: the session faults with the
    /// error's reason, and no handle is held — a failed open leaks
    /// nothing. Outside `Connecting` it changes nothing.
    pub fn open_failed(&mut self, e: OpenError)
        ensures
            *final(self) == open_err_step(*old(self), e),
            wf(*old(self)) ==> wf(*final(self)),
    {
        if matches!(self.state, SessionState::Connecting) {
            let reason = match e {
                OpenError::NotFound => ErrorKind::NotFound,
                OpenError::PermissionDenied => ErrorKind::PermissionDenied,
                OpenError::AlreadyInUse => ErrorKind::AlreadyInUse,
            };
            self.state = SessionState::Faulted { reason };
            self.pending = None;
            self.in_flight = None;
            self.retries_left = MAX_RETRIES;
            self.has_session = false;
        }
    }

    /// Submit one lighting intent. While connected it takes the pending
    /// slot, replacing any intent still queued there; in every other
    /// state — faulted included — it is a no-op until a new `select`.
    /// An undefined mode is refused as `UnknownMode` and nothing changes.
    pub fn submit(&mut self, i: LightingIntent) -> (r: Result<(), EncodeError>)
        ensures
            *final(self) == submit_step(*old(self), i),
            r is Ok <==> intent_encodable(i),
            wf(*old(self)) ==> wf(*final(self)),
    {
        let encodable = match i {
            LightingIntent::SetColor(_) => true,
            LightingIntent::SetMode(m) => m.0 < crate::encoder::MODE_COUNT,
        };
        if !encodable {
            return Err(EncodeError::UnknownMode);
        }
        if matches!(self.state, SessionState::Connected { .. }) {
            self.pending = Some(i);
        }
        Ok(())
    }

    /// Hand out the next report sequence to write, if any: only while
    /// connected, with nothing already on the wire and an intent
    /// pending. The pending intent becomes the in-flight one, so two
    /// submissions can never interleave their reports — the next
    /// sequence starts only after this one is confirmed or failed.
    pub fn start_pending_write(&mut self) -> (w: Option<Vec<FixedLayoutReport>>)
        requires
            wf(*old(self)),
        ensures
            *final(self) == start_step(*old(self)).0,
            wf(*final(self)),
            (w matches Some(v) ==> start_step(*old(self)).1 == Some(reports_view(v@))),
            w is Some <==> start_step(*old(self)).1 is Some,
    {
        if matches!(self.state, SessionState::Connected { .. }) && self.in_flight.is_none()
            && self.pending.is_some() {
            let i = self.pending.unwrap();
            self.pending = None;
            self.in_flight = Some(i);
            self.retries_left = MAX_RETRIES;
            match encode(&i) {
                Ok(v) => Some(v),
                Err(_) => {
                    proof {
                        assert(false);
                    }
                    None
                },
            }
        } else {
            None
        }
    }

    /// The report sequence of the in-flight intent, for retrying a
    /// transiently failed write. The encoder is pure, so these are
    /// byte-for-byte the reports first handed out.
    pub fn current_write(&self) -> (w: Option<Vec<FixedLayoutReport>>)
        requires
            wf(*self),
        ensures
            (w matches Some(v) ==> (self.in_flight matches Some(i) && reports_view(v@)
                == encoded_reports(i))),
            w is Some <==> self.in_flight is Some,
    {
        match &self.in_flight {
            Some(i) => {
                let i = *i;
                match encode(&i) {
                    Ok(v) => Some(v),
                    Err(_) => {
                        proof {
                            assert(false);
                        }
                        None
                    },
                }
            },
            None => None,
        }
    }

    /// Record that every report of the in-flight sequence was written.
    /// Exactly when that intent set a color does the confirmed color
    /// change to it. With nothing in flight (a stale completion) nothing
    /// changes.
    pub fn write_succeeded(&mut self)
        ensures
            *final(self) == write_ok_step(*old(self)),
            wf(*old(self)) ==> wf(*final(self)),
    {
        match self.in_flight {
            Some(i) => {
                self.in_flight = None;
                self.retries_left = MAX_RETRIES;
                match i {
                    LightingIntent::SetColor(c) => {
                        self.state = SessionState::Connected { confirmed_color: c };
                        self.last_confirmed = c;
                    },
                    LightingIntent::SetMode(_) => {},
                }
            },
            None => {},
        }
    }

    /// Record that writing the in-flight sequence failed. A transient
    /// failure spends one retry while any are left and the caller should
    /// write `current_write` again (returns true); a terminal failure or
    /// an exhausted budget faults the session, whose handle the caller
    /// must now close (returns false).
    pub fn write_failed(&mut self, e: IoError) -> (retry: bool)
        ensures
            *final(self) == write_err_step(*old(self), e),
            retry <==> (old(self).in_flight is Some && e is Transient && old(
                self,
            ).retries_left > 0),
            wf(*old(self)) ==> wf(*final(self)),
    {
        match self.in_flight {
            Some(_) => match e {
                IoError::Transient => {
                    if self.retries_left > 0 {
                        self.retries_left = self.retries_left - 1;
                        true
                    } else {
                        self.fault(ErrorKind::TransientExhausted);
                        false
                    }
                },
                IoError::Terminal => {
                    self.fault(ErrorKind::Terminal);
                    false
                },
            },
            None => false,
        }
    }

    /// Explicitly drop the session from any state: back to `Unselected`
    /// with all confirmed state discarded. Returns whether the caller
    /// holds a handle to close; calling this again is harmless.
    pub fn disconnect(&mut self) -> (close: bool)
        ensures
            *final(self) == disconnect_step(*old(self)),
            close == old(self).has_session,
            wf(*final(self)),
    {
        let close = self.has_session;
        self.state = SessionState::Unselected;
        self.target = None;
        self.pending = None;
        self.in_flight = None;
        self.retries_left = MAX_RETRIES;
        self.has_session = false;
        self.last_confirmed = RGBColor { red: 0, green: 0, blue: 0 };
        close
    }

    fn fault(&mut self, reason: ErrorKind)
        ensures
            *final(self) == fault_step(*old(self), reason),
    {
        self.state = SessionState::Faulted { reason };
        self.pending = None;
        self.in_flight = None;
        self.retries_left = MAX_RETRIES;
        self.has_session = false;
    }
}

/// Coalescing, last writer wins: from a connected session with an empty
/// queue and nothing on the wire, submitting two colors in succession and
/// then starting the write sends exactly one report sequence — the second
/// color's — and once it is confirmed there is nothing further to send.
/// The first color never reaches the wire, and the confirmed color is the
/// second one.
pub proof fn lemma_submit_coalesces_latest(m: SessionMachine, c1: RGBColor, c2: RGBColor)
    requires
        wf(m),
        m.state is Connected,
        m.in_flight is None,
        m.pending is None,
    ensures
        ({
            let m2 = submit_step(submit_step(m, LightingIntent::SetColor(c1)),
                LightingIntent::SetColor(c2));
            let (m3, w) = start_step(m2);
            &&& w == Some(encoded_reports(LightingIntent::SetColor(c2)))
            &&& start_step(write_ok_step(m3)).1 is None
            &&& write_ok_step(m3).state == (SessionState::Connected { confirmed_color: c2 })
        }),
{
}

/// A terminal write failure faults the session, and a faulted session is
/// inert: submitting changes nothing and nothing is ever written, until a
/// new `select` starts a fresh connection attempt.
pub proof fn lemma_fault_blocks_submit(m: SessionMachine, i: LightingIntent, d: DeviceDescriptor)
    requires
        wf(m),
        m.in_flight is Some,
    ensures
        ({
            let f = write_err_step(m, IoError::Terminal);
            &&& f.state == (SessionState::Faulted { reason: ErrorKind::Terminal })
            &&& !f.has_session
            &&& submit_step(f, i) == f
            &&& start_step(submit_step(f, i)).1 is None
            &&& select_step(submit_step(f, i), d).state is Connecting
        }),
{
}

/// An open refused as already-in-use leaves the session faulted with that
/// reason and holding no handle — nothing partially opened leaks — and a
/// later `select` can still connect once the conflict clears.
pub proof fn lemma_already_in_use_leaks_nothing(m: SessionMachine, d: DeviceDescriptor)
    requires
        wf(m),
        m.state is Connecting,
    ensures
        ({
            let f = open_err_step(m, OpenError::AlreadyInUse);
            let retried = open_ok_step(select_step(f, d));
            &&& f.state == (SessionState::Faulted { reason: ErrorKind::AlreadyInUse })
            &&& !f.has_session
            &&& select_step(f, d).state is Connecting
            &&& retried.state is Connected
            &&& retried.has_session
        }),
{
}

} // verus!
