//! The controller that owns the single stream session: starting and stopping
//! it, following its lifecycle, deciding what each decoded frame becomes, and
//! scheduling reconnection after a failure.
//!
//! The controller performs no I/O. Its caller runs the subscription, hands
//! back what happened (a frame, a failure, the end of a wait), and carries
//! out what the controller returns (spawn a session, fire its cancellation,
//! emit lines, wait and retry).

use vstd::prelude::*;

use crate::event::StreamMessage;
use crate::render::{rendered, str_lines, Renderer};

verus! {

/// How many reconnections follow one another, with no frame received in
/// between, before a failed session is left failed.
pub const MAX_RETRIES: u32 = 8;

/// The wait before the first reconnection, in milliseconds.
pub const BACKOFF_BASE_MS: u64 = 1_000;

/// The longest wait before a reconnection, in milliseconds.
pub const BACKOFF_CAP_MS: u64 = 120_000;

/// Where the current (or last) session stands.
#[derive(Clone, Copy, Debug, PartialEq, Eq, Structural)]
pub enum Phase {
    /// No session was ever started.
    Idle,
    /// Spawned, with no frame received yet.
    Pending,
    /// Frames are arriving.
    Running,
    /// Failed, and a reconnection is scheduled.
    Waiting,
    /// Stopped on demand.
    Cancelled,
    /// Failed for good.
    Failed,
}

/// A session is active while it may still deliver frames or be reconnected.
pub open spec fn is_active(p: Phase) -> bool {
    p is Pending || p is Running || p is Waiting
}

#[derive(Clone, Copy, Debug, PartialEq, Eq, Structural)]
pub enum StartError {
    /// The follow list names no account.
    EmptyFollowList,
    /// A session is active already; it must be stopped first.
    AlreadyRunning,
}

/// `stop` found no active session.
#[derive(Clone, Copy, Debug, PartialEq, Eq, Structural)]
pub struct NotRunningError;

/// How a session failed.
#[derive(Clone, Copy, Debug, PartialEq, Eq, Structural)]
pub enum FailureKind {
    /// The subscription could not be opened: never retried.
    Connect,
    /// The open stream broke off: retried where the controller allows it.
    Stream,
}

/// Open a subscription filtered by `follows`, under the id `session`.
pub struct StreamInstance {
    pub session: u64,
    pub follows: Vec<u64>,
}

/// What to do with one decoded frame.
pub enum FrameAction {
    /// Write these lines to the output sink, as one unit.
    Emit(Vec<String>),
    /// Log this description of a payload that is not an event.
    Log(String),
    /// The frame belongs to no live session: drop it.
    Ignore,
}

/// The state of a controller, as values.
pub struct ControllerView {
    pub phase: Phase,
    /// Id of the current (or last) session.
    pub session: u64,
    /// Follow list of the current (or last) session.
    pub follows: Seq<u64>,
    /// Whether a broken stream is reconnected.
    pub restart: bool,
    /// Reconnections scheduled since the last frame arrived.
    pub attempts: nat,
    /// Why the last session failed.
    pub failure: Option<Seq<char>>,
}

/// The id that follows `id`.
pub open spec fn next_id(id: u64) -> u64 {
    if id == u64::MAX {
        0
    } else {
        (id + 1) as u64
    }
}

/// `s` with every repeated id after its first occurrence removed.
pub open spec fn dedup(s: Seq<u64>) -> Seq<u64>
    decreases s.len(),
{
    if s.len() == 0 {
        seq![]
    } else {
        let rest = dedup(s.drop_last());
        if rest.contains(s.last()) {
            rest
        } else {
            rest.push(s.last())
        }
    }
}

/// The wait before reconnection number `n + 1`: doubling from the base, up
/// to the cap.
pub open spec fn backoff_ms(n: nat) -> nat
    decreases n,
{
    if n == 0 {
        BACKOFF_BASE_MS as nat
    } else {
        let d = 2 * backoff_ms((n - 1) as nat);
        if d > BACKOFF_CAP_MS {
            BACKOFF_CAP_MS as nat
        } else {
            d
        }
    }
}

/// Starting: refused on an empty follow list, and while a session is active
/// (a second start never replaces the first); else a new session with the
/// next id, on the follow list without repeats.
pub open spec fn start_step(s: ControllerView, follows: Seq<u64>) -> (ControllerView, Result<
    u64,
    StartError,
>) {
    if follows.len() == 0 {
        (s, Err(StartError::EmptyFollowList))
    } else if is_active(s.phase) {
        (s, Err(StartError::AlreadyRunning))
    } else {
        let id = next_id(s.session);
        (
            ControllerView {
                phase: Phase::Pending,
                session: id,
                follows: dedup(follows),
                attempts: 0,
                failure: None,
                ..s
            },
            Ok(id),
        )
    }
}

/// Stopping: an active session is cancelled and its id returned, so that its
/// cancellation fires once; with none active, an error and no change.
pub open spec fn stop_step(s: ControllerView) -> (ControllerView, Result<u64, NotRunningError>) {
    if is_active(s.phase) {
        (ControllerView { phase: Phase::Cancelled, ..s }, Ok(s.session))
    } else {
        (s, Err(NotRunningError))
    }
}

/// Whether `session` is the current one and may deliver frames.
pub open spec fn receives(s: ControllerView, session: u64) -> bool {
    s.session == session && (s.phase is Pending || s.phase is Running)
}

/// A frame of the current session shows it running and clears the count of
/// reconnections; any other frame changes nothing.
pub open spec fn frame_step(s: ControllerView, session: u64) -> ControllerView {
    if receives(s, session) {
        ControllerView { phase: Phase::Running, attempts: 0, ..s }
    } else {
        s
    }
}

/// Whether a failure of the current session is followed by a reconnection.
pub open spec fn retries(s: ControllerView, kind: FailureKind) -> bool {
    kind is Stream && s.restart && s.attempts < MAX_RETRIES
}

/// A failure of the current session records its reason, and either
/// schedules a reconnection after the backoff wait or leaves the session
/// failed. A failure of any other session changes nothing.
pub open spec fn failure_step(
    s: ControllerView,
    session: u64,
    kind: FailureKind,
    reason: Seq<char>,
) -> (ControllerView, Option<nat>) {
    if !receives(s, session) {
        (s, None)
    } else if retries(s, kind) {
        (
            ControllerView {
                phase: Phase::Waiting,
                attempts: s.attempts + 1,
                failure: Some(reason),
                ..s
            },
            Some(backoff_ms(s.attempts)),
        )
    } else {
        (ControllerView { phase: Phase::Failed, failure: Some(reason), ..s }, None)
    }
}

/// At the end of a wait for `session`, a new session with the next id on the
/// same follow list; nothing where the wait was stopped or superseded.
pub open spec fn retry_step(s: ControllerView, session: u64) -> (ControllerView, Option<u64>) {
    if s.phase is Waiting && s.session == session {
        let id = next_id(s.session);
        (ControllerView { phase: Phase::Pending, session: id, ..s }, Some(id))
    } else {
        (s, None)
    }
}

/// Owner of the one session that may be active.
pub struct Streamer {
    phase: Phase,
    session: u64,
    follows: Vec<u64>,
    restart: bool,
    attempts: u32,
    failure: Option<String>,
}

impl View for Streamer {
    type V = ControllerView;

    closed spec fn view(&self) -> ControllerView {
        ControllerView {
            phase: self.phase,
            session: self.session,
            follows: self.follows@,
            restart: self.restart,
            attempts: self.attempts as nat,
            failure: match self.failure {
                Some(f) => Some(f@),
                None => None,
            },
        }
    }
}

fn contains_id(v: &Vec<u64>, x: u64) -> (r: bool)
    ensures
        r == v@.contains(x),
{
    let mut i: usize = 0;
    while i < v.len()
        invariant
            i <= v.len(),
            forall|j: int| 0 <= j < i ==> v@[j] != x,
        decreases v.len() - i,
    {
        if v[i] == x {
            return true;
        }
        i = i + 1;
    }
    false
}

/// `ids` without repeats, first occurrences kept in order.
pub fn dedup_ids(ids: &Vec<u64>) -> (r: Vec<u64>)
    ensures
        r@ == dedup(ids@),
{
    let mut r: Vec<u64> = Vec::new();
    let mut i: usize = 0;
    while i < ids.len()
        invariant
            i <= ids.len(),
            r@ == dedup(ids@.take(i as int)),
        decreases ids.len() - i,
    {
        assert(ids@.take(i + 1).drop_last() =~= ids@.take(i as int));
        if !contains_id(&r, ids[i]) {
            r.push(ids[i]);
        }
        i = i + 1;
    }
    assert(ids@.take(i as int) =~= ids@);
    r
}

/// The wait before reconnection number `n + 1`, in milliseconds.
pub fn backoff_delay_ms(n: u32) -> (r: u64)
    ensures
        r as nat == backoff_ms(n as nat),
{
    let mut d: u64 = BACKOFF_BASE_MS;
    let mut i: u32 = 0;
    while i < n
        invariant
            i <= n,
            d as nat == backoff_ms(i as nat),
            d <= BACKOFF_CAP_MS,
        decreases n - i,
    {
        d = if 2 * d > BACKOFF_CAP_MS {
            BACKOFF_CAP_MS
        } else {
            2 * d
        };
        i = i + 1;
    }
    d
}

impl Streamer {
    /// A controller with no session yet; `restart` says whether a broken
    /// stream is reconnected.
    pub fn new(restart: bool) -> (r: Streamer)
        ensures
            r@ == (ControllerView {
                phase: Phase::Idle,
                session: 0,
                follows: seq![],
                restart,
                attempts: 0,
                failure: None,
            }),
    {
        let r = Streamer {
            phase: Phase::Idle,
            session: 0,
            follows: Vec::new(),
            restart,
            attempts: 0,
            failure: None,
        };
        assert(r@.follows =~= seq![]);
        r
    }

    fn next_session(&self) -> (r: u64)
        ensures
            r == next_id(self.session),
    {
        if self.session == u64::MAX {
            0
        } else {
            self.session + 1
        }
    }

    /// Starts a session on `follows`; see [`start_step`].
    pub fn start_stream(&mut self, follows: &Vec<u64>) -> (r: Result<StreamInstance, StartError>)
        ensures
            final(self)@ == start_step(old(self)@, follows@).0,
            match r {
                Ok(c) => start_step(old(self)@, follows@).1 == Ok::<u64, StartError>(c.session)
                    && c.follows@ == final(self)@.follows,
                Err(e) => start_step(old(self)@, follows@).1 == Err::<u64, StartError>(e),
            },
    {
        if follows.len() == 0 {
            return Err(StartError::EmptyFollowList);
        }
        if matches!(self.phase, Phase::Pending | Phase::Running | Phase::Waiting) {
            return Err(StartError::AlreadyRunning);
        }
        let id = self.next_session();
        self.phase = Phase::Pending;
        self.session = id;
        self.follows = dedup_ids(follows);
        self.attempts = 0;
        self.failure = None;
        Ok(StreamInstance { session: id, follows: self.follows.clone() })
    }

    /// Stops the active session; see [`stop_step`].
    pub fn stop_stream(&mut self) -> (r: Result<u64, NotRunningError>)
        ensures
            (final(self)@, r) == stop_step(old(self)@),
    {
        if matches!(self.phase, Phase::Pending | Phase::Running | Phase::Waiting) {
            self.phase = Phase::Cancelled;
            Ok(self.session)
        } else {
            Err(NotRunningError)
        }
    }

    /// Where the current (or last) session stands.
    pub fn status(&self) -> (r: Phase)
        ensures
            r == self@.phase,
    {
        self.phase
    }

    /// Why the last session failed, if one did.
    pub fn failure_reason(&self) -> (r: Option<String>)
        ensures
            match r {
                Some(f) => self@.failure == Some(f@),
                None => self@.failure is None,
            },
    {
        match &self.failure {
            Some(f) => Some(f.clone()),
            None => None,
        }
    }

    /// Id of the current (or last) session.
    pub fn session(&self) -> (r: u64)
        ensures
            r == self@.session,
    {
        self.session
    }

    /// Follow list of the current (or last) session.
    pub fn follows(&self) -> (r: Vec<u64>)
        ensures
            r@ == self@.follows,
    {
        self.follows.clone()
    }

    /// Decides what becomes of a frame that session `session` decoded: an
    /// event of the current session is rendered, another payload is logged,
    /// and a frame of any other session is dropped. See [`frame_step`].
    pub fn on_message(&mut self, renderer: &Renderer, session: u64, msg: &StreamMessage) -> (r:
        FrameAction)
        ensures
            final(self)@ == frame_step(old(self)@, session),
            !receives(old(self)@, session) ==> r is Ignore,
            receives(old(self)@, session) ==> match msg {
                StreamMessage::Tweet(t) => r matches FrameAction::Emit(lines) && str_lines(lines@)
                    == rendered(*t, 0, renderer.max_depth(), renderer.offset()),
                StreamMessage::Other(d) => r matches FrameAction::Log(x) && x@ == d@,
            },
    {
        if self.session != session || !matches!(self.phase, Phase::Pending | Phase::Running) {
            return FrameAction::Ignore;
        }
        self.phase = Phase::Running;
        self.attempts = 0;
        match msg {
            StreamMessage::Tweet(t) => FrameAction::Emit(renderer.render(t)),
            StreamMessage::Other(d) => FrameAction::Log(d.clone()),
        }
    }

    /// Records a failure of session `session`, returning the wait in
    /// milliseconds where a reconnection is scheduled; see [`failure_step`].
    pub fn on_failure(&mut self, session: u64, kind: FailureKind, reason: String) -> (r: Option<
        u64,
    >)
        ensures
            final(self)@ == failure_step(old(self)@, session, kind, reason@).0,
            match r {
                Some(d) => failure_step(old(self)@, session, kind, reason@).1 == Some(d as nat),
                None => failure_step(old(self)@, session, kind, reason@).1 is None,
            },
    {
        if self.session != session || !matches!(self.phase, Phase::Pending | Phase::Running) {
            return None;
        }
        self.failure = Some(reason);
        if matches!(kind, FailureKind::Stream) && self.restart && self.attempts < MAX_RETRIES {
            let d = backoff_delay_ms(self.attempts);
            self.attempts = self.attempts + 1;
            self.phase = Phase::Waiting;
            Some(d)
        } else {
            self.phase = Phase::Failed;
            None
        }
    }

    /// At the end of the wait that a failure of `session` scheduled, the
    /// reconnection to spawn, if it still stands; see [`retry_step`].
    pub fn retry(&mut self, session: u64) -> (r: Option<StreamInstance>)
        ensures
            final(self)@ == retry_step(old(self)@, session).0,
            match r {
                Some(c) => retry_step(old(self)@, session).1 == Some(c.session) && c.follows@
                    == final(self)@.follows,
                None => retry_step(old(self)@, session).1 is None,
            },
    {
        if !matches!(self.phase, Phase::Waiting) || self.session != session {
            return None;
        }
        let id = self.next_session();
        self.phase = Phase::Pending;
        self.session = id;
        Some(StreamInstance { session: id, follows: self.follows.clone() })
    }
}

/// For any non-empty follow list, a start followed at once by a stop leaves
/// the controller cancelled, whatever state it was in; the stop succeeds and
/// names the session to cancel.
pub proof fn lemma_start_then_stop_cancels(s: ControllerView, follows: Seq<u64>)
    requires
        follows.len() > 0,
    ensures
        ({
            let (started, _) = start_step(s, follows);
            let (stopped, r) = stop_step(started);
            &&& stopped.phase == Phase::Cancelled
            &&& r == Ok::<u64, NotRunningError>(started.session)
        }),
{
}

/// Stopping with no active session reports that nothing runs and changes
/// nothing; so a second stop never fires a cancellation twice.
pub proof fn lemma_stop_when_idle(s: ControllerView)
    requires
        !is_active(s.phase),
    ensures
        stop_step(s) == (s, Err::<u64, NotRunningError>(NotRunningError)),
        stop_step(stop_step(s).0) == stop_step(s),
{
}

/// Two starts with no stop between: the second is refused (or fails on its
/// own empty list) and the first session stays as it was.
pub proof fn lemma_second_start_rejected(s: ControllerView, first: Seq<u64>, second: Seq<u64>)
    requires
        start_step(s, first).1 is Ok,
    ensures
        ({
            let (one, _) = start_step(s, first);
            let (two, r) = start_step(one, second);
            &&& two == one
            &&& r == if second.len() == 0 {
                Err::<u64, StartError>(StartError::EmptyFollowList)
            } else {
                Err::<u64, StartError>(StartError::AlreadyRunning)
            }
        }),
{
}

/// A follow list without repeats holds exactly the ids that were given.
pub proof fn lemma_dedup(s: Seq<u64>)
    ensures
        dedup(s).no_duplicates(),
        forall|x: u64| dedup(s).contains(x) <==> s.contains(x),
    decreases s.len(),
{
    if s.len() > 0 {
        let rest = s.drop_last();
        lemma_dedup(rest);
        let d = dedup(s);
        let dr = dedup(rest);
        assert forall|x: u64| d.contains(x) <==> s.contains(x) by {
            assert(s.contains(x) <==> (rest.contains(x) || x == s.last())) by {
                if s.contains(x) && x != s.last() {
                    let i = choose|i: int| 0 <= i < s.len() && s[i] == x;
                    assert(rest[i] == x);
                }
                if rest.contains(x) {
                    let i = choose|i: int| 0 <= i < rest.len() && rest[i] == x;
                    assert(s[i] == x);
                }
                if x == s.last() {
                    assert(s[s.len() - 1] == x);
                }
            }
            if !dr.contains(s.last()) {
                assert(d == dr.push(s.last()));
                assert(d.contains(x) <==> (dr.contains(x) || x == s.last())) by {
                    if d.contains(x) && x != s.last() {
                        let i = choose|i: int| 0 <= i < d.len() && d[i] == x;
                        assert(dr[i] == x);
                    }
                    if dr.contains(x) {
                        let i = choose|i: int| 0 <= i < dr.len() && dr[i] == x;
                        assert(d[i] == x);
                    }
                    if x == s.last() {
                        assert(d[d.len() - 1] == x);
                    }
                }
            }
        }
    }
}

/// Waits never shrink from one reconnection to the next, and never pass the
/// cap.
pub proof fn lemma_backoff_bounded(n: nat)
    ensures
        BACKOFF_BASE_MS <= backoff_ms(n) <= BACKOFF_CAP_MS,
        backoff_ms(n) <= backoff_ms(n + 1),
    decreases n,
{
    if n > 0 {
        lemma_backoff_bounded((n - 1) as nat);
    }
}

/// Once a session is stopped or has failed for good, frames and failures
/// reported for it change nothing, and no reconnection follows.
pub proof fn lemma_ended_session_inert(
    s: ControllerView,
    session: u64,
    kind: FailureKind,
    reason: Seq<char>,
)
    requires
        s.phase is Cancelled || s.phase is Failed,
    ensures
        frame_step(s, session) == s,
        failure_step(s, session, kind, reason) == (s, None::<nat>),
        retry_step(s, session) == (s, None::<u64>),
{
}

/// Reconnections stop after a bounded run: a failure with the count of
/// reconnections at its limit leaves the session failed.
pub proof fn lemma_retries_bounded(s: ControllerView, session: u64, reason: Seq<char>)
    requires
        receives(s, session),
        s.attempts >= MAX_RETRIES,
    ensures
        failure_step(s, session, FailureKind::Stream, reason).0.phase == Phase::Failed,
        failure_step(s, session, FailureKind::Stream, reason).1 is None,
{
}

} // verus!
