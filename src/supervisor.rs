//! The per-session retry loop, as a state machine. The caller performs the
//! actions that a step returns (spawn the SSH child, publish an event,
//! sleep, kill the child) and feeds back what happened as the next input.

use vstd::prelude::*;

use crate::backoff::{delay_at, Backoff};
use crate::events::Event;
use crate::monitor::{has_marker, is_connection_established};
use crate::profile::Profile;
use crate::session::{Session, SessionStatus};
use crate::text::owned;

verus! {

/// Where the retry loop stands.
#[derive(Debug, Clone, Copy, PartialEq, Eq, Structural)]
pub enum Phase {
    /// A child process is to be spawned.
    Spawning,
    /// A child process runs and is watched.
    Running,
    /// Waiting before the next attempt.
    Sleeping,
    /// The loop has ended.
    Done,
}

/// What happened since the last step.
#[derive(Debug, Clone)]
pub enum SupervisorInput {
    /// The child could not be spawned, for the given reason.
    SpawnFailed(String),
    /// The child was spawned with the given process id.
    Spawned(u32),
    /// The child wrote a line; the flag tells whether on its error stream.
    Line(String, bool),
    /// The child ended with an exit code, or without one when a signal
    /// ended it.
    Exited(Option<i32>),
    /// The child's state could not be read.
    StatusCheckFailed,
    /// A stop was requested.
    StopRequested,
    /// The backoff sleep ended.
    SleepElapsed,
}

/// What the caller is to do, in order.
#[derive(Debug, Clone)]
pub enum Action {
    /// Spawn the SSH child for the profile.
    Spawn,
    /// Publish the event.
    Emit(Event),
    /// Sleep for the given milliseconds, unless a stop comes first.
    Sleep(u64),
    /// Kill the running child.
    Kill,
    /// The loop has ended; remove the session.
    Finish,
}

/// An input, as far as the state machine's decisions depend on it.
pub enum InputKind {
    SpawnFailed,
    Spawned,
    Line(bool),
    Exited(Option<i32>),
    Stop,
    SleepElapsed,
}

/// An action, as far as the retry discipline is concerned.
pub enum Out {
    Spawn,
    Sleep(nat),
    Kill,
    Finish,
    StatusChanged(SessionStatus, SessionStatus),
    Connected,
    Disconnected,
    Reconnecting(nat, nat),
    Failed,
    Output,
    Other,
}

/// The state of the retry loop, as far as its decisions depend on it.
pub struct SupView {
    pub status: SessionStatus,
    pub phase: Phase,
    pub count: nat,
    pub attempts: nat,
    pub limit: nat,
    pub auto: bool,
    pub initial: nat,
    pub factor: nat,
    pub cap: nat,
}

/// The message recorded when the child's state cannot be read.
pub open spec fn check_failed_text() -> Seq<char> {
    "Failed to check process status"@
}

/// How an input counts.
pub open spec fn input_kind(i: SupervisorInput) -> InputKind {
    match i {
        SupervisorInput::SpawnFailed(_) => InputKind::SpawnFailed,
        SupervisorInput::Spawned(_) => InputKind::Spawned,
        SupervisorInput::Line(l, _) => InputKind::Line(has_marker(l@)),
        SupervisorInput::Exited(c) => InputKind::Exited(c),
        SupervisorInput::StatusCheckFailed => InputKind::Exited(Some(-1i32)),
        SupervisorInput::StopRequested => InputKind::Stop,
        SupervisorInput::SleepElapsed => InputKind::SleepElapsed,
    }
}

/// How an action counts.
pub open spec fn out_of(a: Action) -> Out {
    match a {
        Action::Spawn => Out::Spawn,
        Action::Sleep(d) => Out::Sleep(d as nat),
        Action::Kill => Out::Kill,
        Action::Finish => Out::Finish,
        Action::Emit(e) => match e {
            Event::SessionStatusChanged { old_status, new_status, .. } => Out::StatusChanged(
                old_status,
                new_status,
            ),
            Event::SessionConnected { .. } => Out::Connected,
            Event::SessionDisconnected { .. } => Out::Disconnected,
            Event::SessionReconnecting { attempt, max_attempts, .. } => Out::Reconnecting(
                attempt as nat,
                max_attempts as nat,
            ),
            Event::SessionFailed { .. } => Out::Failed,
            Event::SessionOutput { .. } => Out::Output,
            _ => Out::Other,
        },
    }
}

/// How a sequence of actions counts.
pub open spec fn outs(v: Seq<Action>) -> Seq<Out> {
    v.map_values(|a: Action| out_of(a))
}

/// One more, saturating at the largest `u32`.
pub open spec fn bump(n: nat) -> nat {
    if n < u32::MAX { n + 1 } else { n }
}

/// The retry budget is spent.
pub open spec fn spent(v: SupView) -> bool {
    v.limit > 0 && v.attempts >= v.limit
}

/// Wait before the next attempt.
pub open spec fn retry(v: SupView) -> (SupView, Seq<Out>) {
    let w = SupView {
        status: SessionStatus::Reconnecting,
        phase: Phase::Sleeping,
        count: bump(v.count),
        attempts: bump(v.attempts),
        ..v
    };
    (
        w,
        seq![
            Out::StatusChanged(v.status, SessionStatus::Reconnecting),
            Out::Reconnecting(w.count, v.limit),
            Out::Sleep(delay_at(v.initial, v.factor, v.cap, v.attempts)),
        ],
    )
}

/// Give up.
pub open spec fn fail(v: SupView) -> (SupView, Seq<Out>) {
    (
        SupView { status: SessionStatus::Failed, phase: Phase::Done, ..v },
        seq![Out::StatusChanged(v.status, SessionStatus::Failed), Out::Failed, Out::Finish],
    )
}

/// The notices of a change of status, with the disconnection notice placed
/// right after the status change when `noted`.
pub open spec fn with_disconnect(o: Seq<Out>, noted: bool) -> Seq<Out> {
    if noted {
        seq![o[0], Out::Disconnected] + o.drop_first()
    } else {
        o
    }
}

/// After a failure: retry while reconnection is on and the budget lasts.
pub open spec fn retry_or_fail(v: SupView) -> (SupView, Seq<Out>) {
    if !v.auto || spent(v) {
        fail(v)
    } else {
        retry(v)
    }
}

/// One step of the retry loop.
pub open spec fn next(v: SupView, i: InputKind) -> (SupView, Seq<Out>) {
    if v.phase == Phase::Done {
        (v, seq![])
    } else {
        match i {
            InputKind::Stop => (
                SupView { status: SessionStatus::Stopped, phase: Phase::Done, ..v },
                seq![Out::StatusChanged(v.status, SessionStatus::Stopped)] + (if v.phase
                    == Phase::Running {
                    seq![Out::Kill]
                } else {
                    seq![]
                }) + seq![Out::Finish],
            ),
            InputKind::SpawnFailed => if v.phase == Phase::Spawning {
                retry_or_fail(v)
            } else {
                (v, seq![])
            },
            InputKind::Spawned => if v.phase == Phase::Spawning {
                (
                    SupView { status: SessionStatus::Starting, phase: Phase::Running, ..v },
                    if v.status == SessionStatus::Starting {
                        seq![]
                    } else {
                        seq![Out::StatusChanged(v.status, SessionStatus::Starting)]
                    },
                )
            } else {
                (v, seq![])
            },
            InputKind::Line(m) => if v.phase == Phase::Running {
                if m && v.status == SessionStatus::Starting {
                    (
                        SupView { status: SessionStatus::Connected, ..v },
                        seq![
                            Out::Output,
                            Out::StatusChanged(SessionStatus::Starting, SessionStatus::Connected),
                            Out::Connected,
                        ],
                    )
                } else {
                    (v, seq![Out::Output])
                }
            } else {
                (v, seq![])
            },
            InputKind::Exited(code) => if v.phase == Phase::Running {
                match code {
                    Some(c) => if c == 0 {
                        let w = SupView { attempts: 0, ..v };
                        if !v.auto {
                            (
                                SupView { status: SessionStatus::Stopped, phase: Phase::Done, ..w },
                                seq![
                                    Out::StatusChanged(v.status, SessionStatus::Stopped),
                                    Out::Finish,
                                ],
                            )
                        } else {
                            retry(w)
                        }
                    } else {
                        (retry_or_fail(v).0, with_disconnect(retry_or_fail(v).1, true))
                    },
                    None => (SupView { phase: Phase::Done, ..v }, seq![Out::Finish]),
                }
            } else {
                (v, seq![])
            },
            InputKind::SleepElapsed => if v.phase == Phase::Sleeping {
                (SupView { phase: Phase::Spawning, ..v }, seq![Out::Spawn])
            } else {
                (v, seq![])
            },
        }
    }
}

/// `b` starts with `a`.
pub open spec fn extends(a: Seq<Action>, b: Seq<Action>) -> bool {
    a.len() <= b.len() && forall|i: int| 0 <= i < a.len() ==> #[trigger] b[i] == a[i]
}

/// The action publishes a failure with error text `m`.
pub open spec fn is_failed_event(a: Action, m: Seq<char>) -> bool {
    a matches Action::Emit(Event::SessionFailed { error, .. }) && error@ == m
}

/// The action publishes a disconnection with reason `m`.
pub open spec fn is_disconnected_event(a: Action, m: Seq<char>) -> bool {
    a matches Action::Emit(Event::SessionDisconnected { reason: Some(x), .. }) && x@ == m
}

/// The action publishes the output line `l`, from the error stream when `e`.
pub open spec fn is_output_event(a: Action, l: Seq<char>, e: bool) -> bool {
    a matches Action::Emit(Event::SessionOutput { output, is_stderr, .. }) && output@ == l
        && is_stderr == e
}

/// The fields of a record that only one kind of input changes stay put.
pub open spec fn same_identity(before: Session, after: Session) -> bool {
    &&& after.id == before.id
    &&& after.profile_id == before.profile_id
    &&& after.profile_name == before.profile_name
    &&& after.started_at == before.started_at
}

/// How one step changes the session record: status and count follow the
/// decision state; the pid is set by a spawn, the connection time by the
/// first marker line, the last error by a failed spawn or a failing exit.
pub open spec fn stepped(
    before: Session,
    v: SupView,
    last: Seq<char>,
    input: SupervisorInput,
    now: i64,
    after: Session,
) -> bool {
    &&& same_identity(before, after)
    &&& after.status == next(v, input_kind(input)).0.status
    &&& after.reconnect_count == next(v, input_kind(input)).0.count
    &&& after.pid == if v.phase == Phase::Spawning && input is Spawned {
        Some(input->Spawned_0)
    } else {
        before.pid
    }
    &&& after.connected_at == if v.phase == Phase::Running && v.status == SessionStatus::Starting
        && input is Line && has_marker(input->Line_0@) {
        Some(now)
    } else {
        before.connected_at
    }
    &&& if v.phase == Phase::Spawning && input is SpawnFailed {
        after.last_error == Some(input->SpawnFailed_0)
    } else if v.phase == Phase::Running && input is Exited && input->Exited_0 is Some
        && input->Exited_0->0 != 0 {
        after.last_error matches Some(x) && x@ == last
    } else if v.phase == Phase::Running && input is StatusCheckFailed {
        after.last_error matches Some(x) && x@ == check_failed_text()
    } else {
        after.last_error == before.last_error
    }
}

/// A loop that goes on after a step had a running status and still has one.
pub proof fn lemma_live_running(v: SupView, i: InputKind)
    requires
        v.phase != Phase::Done,
        v.status.running(),
    ensures
        next(v, i).0.phase != Phase::Done ==> next(v, i).0.status.running(),
{
}

/// How a concatenation of actions counts.
pub proof fn lemma_outs_concat(a: Seq<Action>, b: Seq<Action>)
    ensures
        outs(a + b) == outs(a) + outs(b),
{
    assert(outs(a + b) =~= outs(a) + outs(b));
}

proof fn lemma_outs_push(v: Seq<Action>, a: Action)
    ensures
        outs(v.push(a)) == outs(v).push(out_of(a)),
{
    assert(outs(v.push(a)) =~= outs(v).push(out_of(a)));
}

/// The retry loop of one session.
pub struct Supervisor {
    session: Session,
    auto_reconnect: bool,
    max_attempts: u32,
    backoff: Backoff,
    phase: Phase,
    last_line: String,
}

/// One second, doubling, capped at five minutes, with the profile's budget.
pub fn default_backoff(profile: &Profile) -> (r: Backoff)
    ensures
        r.wf(),
        r.initial() == 1000,
        r.cap() == 300_000,
        r.factor() == 2,
        r.attempts() == 0,
        r.limit() == profile.max_reconnect_attempts,
{
    Backoff::new().with_initial_delay(1000).with_max_delay(300_000).with_max_attempts(
        profile.max_reconnect_attempts,
    )
}

impl Supervisor {
    /// The state as the decisions see it.
    pub closed spec fn model(&self) -> SupView {
        SupView {
            status: self.session.status,
            phase: self.phase,
            count: self.session.reconnect_count as nat,
            attempts: self.backoff.attempts(),
            limit: self.backoff.limit(),
            auto: self.auto_reconnect,
            initial: self.backoff.initial(),
            factor: self.backoff.factor(),
            cap: self.backoff.cap(),
        }
    }

    /// The session record.
    pub closed spec fn record(&self) -> Session {
        self.session
    }

    /// The last line the current process wrote.
    pub closed spec fn last_output(&self) -> Seq<char> {
        self.last_line@
    }

    /// Internal consistency.
    pub closed spec fn wf(&self) -> bool {
        &&& self.backoff.wf()
        &&& self.backoff.limit() == self.max_attempts
        &&& self.backoff.attempts() <= u32::MAX
    }

    /// A loop about to spawn the first process for `session`, with the
    /// profile's reconnection settings and the given backoff.
    pub fn new(session: Session, profile: &Profile, backoff: Backoff) -> (r: Supervisor)
        requires
            backoff.wf(),
            backoff.attempts() == 0,
            backoff.limit() == profile.max_reconnect_attempts,
        ensures
            r.wf(),
            r.record() == session,
            r.model() == (SupView {
                status: session.status,
                phase: Phase::Spawning,
                count: session.reconnect_count as nat,
                attempts: 0,
                limit: profile.max_reconnect_attempts as nat,
                auto: profile.auto_reconnect,
                initial: backoff.initial(),
                factor: backoff.factor(),
                cap: backoff.cap(),
            }),
    {
        Supervisor {
            session,
            auto_reconnect: profile.auto_reconnect,
            max_attempts: profile.max_reconnect_attempts,
            backoff,
            phase: Phase::Spawning,
            last_line: String::new(),
        }
    }

    /// The record and the decision state agree on status and count.
    pub proof fn lemma_record_agrees(&self)
        ensures
            self.record().status == self.model().status,
            self.record().reconnect_count == self.model().count,
    {
    }

    /// The session record.
    pub fn session(&self) -> (r: &Session)
        ensures
            *r == self.record(),
            r.status == self.model().status,
            r.reconnect_count == self.model().count,
    {
        &self.session
    }

    /// Where the loop stands.
    pub fn phase(&self) -> (r: Phase)
        ensures
            r == self.model().phase,
    {
        self.phase
    }

    fn set_status(&mut self, new_status: SessionStatus, now: i64, actions: &mut Vec<Action>)
        requires
            old(self).wf(),
        ensures
            final(self).wf(),
            final(self).model() == (SupView { status: new_status, ..old(self).model() }),
            final(self).session.last_error == old(self).session.last_error,
            final(self).session.id == old(self).session.id,
            final(self).session.profile_id == old(self).session.profile_id,
            final(self).session.profile_name == old(self).session.profile_name,
            final(self).session.started_at == old(self).session.started_at,
            final(self).session.pid == old(self).session.pid,
            final(self).session.connected_at == old(self).session.connected_at,
            extends(old(actions)@, final(actions)@),
            final(actions)@.len() == old(actions)@.len() + 1,
            final(self).last_line == old(self).last_line,
            outs(final(actions)@) == outs(old(actions)@).push(
                Out::StatusChanged(old(self).model().status, new_status),
            ),
    {
        let old_status = self.session.status;
        self.session.status = new_status;
        let e = Event::session_status_changed(
            self.session.id,
            self.session.profile_name.as_str(),
            old_status,
            new_status,
            now,
        );
        proof {
            lemma_outs_push(actions@, Action::Emit(e));
        }
        actions.push(Action::Emit(e));
    }

    fn push_action(actions: &mut Vec<Action>, a: Action)
        ensures
            final(actions)@ == old(actions)@.push(a),
            outs(final(actions)@) == outs(old(actions)@).push(out_of(a)),
    {
        proof {
            lemma_outs_push(actions@, a);
        }
        actions.push(a);
    }

    /// Waits before the next attempt; `note` is the reason of a
    /// disconnection to report right after the status change.
    fn retry(&mut self, note: Option<&str>, now: i64, actions: &mut Vec<Action>)
        requires
            old(self).wf(),
            !spent(old(self).model()),
        ensures
            final(self).wf(),
            final(self).model() == retry(old(self).model()).0,
            final(self).session.last_error == old(self).session.last_error,
            final(self).session.id == old(self).session.id,
            final(self).session.profile_id == old(self).session.profile_id,
            final(self).session.profile_name == old(self).session.profile_name,
            final(self).session.started_at == old(self).session.started_at,
            final(self).session.pid == old(self).session.pid,
            final(self).session.connected_at == old(self).session.connected_at,
            extends(old(actions)@, final(actions)@),
            final(self).last_line == old(self).last_line,
            outs(final(actions)@) == outs(old(actions)@) + with_disconnect(
                retry(old(self).model()).1,
                note is Some,
            ),
            note matches Some(m) ==> is_disconnected_event(
                final(actions)@[old(actions)@.len() as int + 1],
                m@,
            ),
    {
        let ghost v = self.model();
        let ghost start = outs(actions@);
        let ghost base = actions@.len();
        let d = self.backoff.next_delay();
        let delay = match d {
            Some(x) => x,
            None => 0,
        };
        self.set_status(SessionStatus::Reconnecting, now, actions);
        self.note_disconnect(note, now, actions);
        if self.session.reconnect_count < u32::MAX {
            self.session.reconnect_count = self.session.reconnect_count + 1;
        }
        let e = Event::session_reconnecting(
            self.session.id,
            self.session.profile_name.as_str(),
            self.session.reconnect_count,
            self.max_attempts,
            now,
        );
        Self::push_action(actions, Action::Emit(e));
        Self::push_action(actions, Action::Sleep(delay));
        self.phase = Phase::Sleeping;
        assert(outs(actions@) =~= start + with_disconnect(retry(v).1, note is Some));
        assert(self.model() == retry(v).0);
    }

    /// Gives up, reporting `error`; `note` is the reason of a disconnection
    /// to report right after the status change.
    fn fail(&mut self, note: Option<&str>, error: &str, now: i64, actions: &mut Vec<Action>)
        requires
            old(self).wf(),
        ensures
            final(self).wf(),
            final(self).model() == fail(old(self).model()).0,
            final(self).session.last_error == old(self).session.last_error,
            final(self).last_line == old(self).last_line,
            final(self).session.id == old(self).session.id,
            final(self).session.profile_id == old(self).session.profile_id,
            final(self).session.profile_name == old(self).session.profile_name,
            final(self).session.started_at == old(self).session.started_at,
            final(self).session.pid == old(self).session.pid,
            final(self).session.connected_at == old(self).session.connected_at,
            extends(old(actions)@, final(actions)@),
            is_failed_event(
                final(actions)@[old(actions)@.len() as int + if note is Some { 2int } else { 1int }],
                error@,
            ),
            note matches Some(m) ==> is_disconnected_event(
                final(actions)@[old(actions)@.len() as int + 1],
                m@,
            ),
            outs(final(actions)@) == outs(old(actions)@) + with_disconnect(
                fail(old(self).model()).1,
                note is Some,
            ),
    {
        let ghost v = self.model();
        let ghost start = outs(actions@);
        self.set_status(SessionStatus::Failed, now, actions);
        self.note_disconnect(note, now, actions);
        let e = Event::session_failed(self.session.id, self.session.profile_name.as_str(), error, now);
        Self::push_action(actions, Action::Emit(e));
        Self::push_action(actions, Action::Finish);
        self.phase = Phase::Done;
        assert(outs(actions@) =~= start + with_disconnect(fail(v).1, note is Some));
    }

    /// After a failure: retries while reconnection is on and the budget
    /// lasts, else gives up reporting `error`.
    fn retry_or_fail(&mut self, note: Option<&str>, error: &str, now: i64, actions: &mut Vec<Action>)
        requires
            old(self).wf(),
        ensures
            final(self).wf(),
            final(self).model() == retry_or_fail(old(self).model()).0,
            final(self).session.last_error == old(self).session.last_error,
            final(self).last_line == old(self).last_line,
            final(self).session.id == old(self).session.id,
            final(self).session.profile_id == old(self).session.profile_id,
            final(self).session.profile_name == old(self).session.profile_name,
            final(self).session.started_at == old(self).session.started_at,
            final(self).session.pid == old(self).session.pid,
            final(self).session.connected_at == old(self).session.connected_at,
            extends(old(actions)@, final(actions)@),
            !old(self).model().auto || spent(old(self).model()) ==> is_failed_event(
                final(actions)@[old(actions)@.len() as int + if note is Some { 2int } else { 1int }],
                error@,
            ),
            note matches Some(m) ==> is_disconnected_event(
                final(actions)@[old(actions)@.len() as int + 1],
                m@,
            ),
            outs(final(actions)@) == outs(old(actions)@) + with_disconnect(
                retry_or_fail(old(self).model()).1,
                note is Some,
            ),
    {
        if !self.auto_reconnect || self.backoff.is_exhausted() {
            self.fail(note, error, now, actions);
        } else {
            self.retry(note, now, actions);
        }
    }

    /// A process ended with a non-zero code or could not be checked: record
    /// `message`, report the disconnection, then retry or give up.
    fn exited_with_error(&mut self, message: String, now: i64, actions: &mut Vec<Action>)
        requires
            old(self).wf(),
        ensures
            final(self).wf(),
            final(self).model() == retry_or_fail(old(self).model()).0,
            final(self).session.last_error == Some(message),
            final(self).last_line == old(self).last_line,
            final(self).session.id == old(self).session.id,
            final(self).session.profile_id == old(self).session.profile_id,
            final(self).session.profile_name == old(self).session.profile_name,
            final(self).session.started_at == old(self).session.started_at,
            final(self).session.pid == old(self).session.pid,
            final(self).session.connected_at == old(self).session.connected_at,
            extends(old(actions)@, final(actions)@),
            is_disconnected_event(final(actions)@[old(actions)@.len() as int + 1], message@),
            !old(self).model().auto || spent(old(self).model()) ==> is_failed_event(
                final(actions)@[old(actions)@.len() as int + 2],
                message@,
            ),
            outs(final(actions)@) == outs(old(actions)@) + with_disconnect(
                retry_or_fail(old(self).model()).1,
                true,
            ),
    {
        self.retry_or_fail(Some(message.as_str()), message.as_str(), now, actions);
        self.session.last_error = Some(message);
    }

    /// Reports a disconnection for `note`, if any.
    fn note_disconnect(&self, note: Option<&str>, now: i64, actions: &mut Vec<Action>)
        ensures
            note is None ==> final(actions)@ == old(actions)@,
            note matches Some(m) ==> final(actions)@.len() == old(actions)@.len() + 1
                && is_disconnected_event(final(actions)@[old(actions)@.len() as int], m@),
            note is Some ==> outs(final(actions)@) == outs(old(actions)@).push(Out::Disconnected),
            extends(old(actions)@, final(actions)@),
    {
        match note {
            Some(m) => {
                let e = Event::session_disconnected(
                    self.session.id,
                    self.session.profile_name.as_str(),
                    Some(owned(m)),
                    now,
                );
                Self::push_action(actions, Action::Emit(e));
            },
            None => {},
        }
    }

    /// Advances the loop by one input observed at time `now`, and returns
    /// what the caller is to do, in order.
    pub fn step(&mut self, input: SupervisorInput, now: i64) -> (r: Vec<Action>)
        requires
            old(self).wf(),
        ensures
            final(self).wf(),
            final(self).model() == next(old(self).model(), input_kind(input)).0,
            outs(r@) == next(old(self).model(), input_kind(input)).1,
            stepped(
                old(self).record(),
                old(self).model(),
                old(self).last_output(),
                input,
                now,
                final(self).record(),
            ),
            final(self).last_output() == if old(self).model().phase == Phase::Running && input is Line {
                input->Line_0@
            } else {
                old(self).last_output()
            },
            old(self).model().phase == Phase::Running ==> (input matches SupervisorInput::Line(l, e)
                ==> is_output_event(r@[0], l@, e)),
            old(self).model().phase == Phase::Running ==> (input matches SupervisorInput::Exited(Some(c))
                ==> c != 0 ==> is_disconnected_event(r@[1], old(self).last_output())),
            old(self).model().phase == Phase::Running && (!old(self).model().auto || spent(
                old(self).model(),
            )) ==> (input matches SupervisorInput::Exited(Some(c)) ==> c != 0 ==> is_failed_event(
                r@[2],
                old(self).last_output(),
            )),
            old(self).model().phase == Phase::Spawning && (!old(self).model().auto || spent(
                old(self).model(),
            )) ==> (input matches SupervisorInput::SpawnFailed(e) ==> is_failed_event(r@[1], e@)),
    {
        let mut actions: Vec<Action> = Vec::new();
        let ghost v = self.model();
        assert(outs(actions@) =~= Seq::<Out>::empty());
        if self.phase == Phase::Done {
            return actions;
        }
        match input {
            SupervisorInput::StopRequested => {
                let was_running = self.phase == Phase::Running;
                self.set_status(SessionStatus::Stopped, now, &mut actions);
                if was_running {
                    Self::push_action(&mut actions, Action::Kill);
                }
                Self::push_action(&mut actions, Action::Finish);
                self.phase = Phase::Done;
                assert(outs(actions@) =~= next(v, input_kind(input)).1);
            },
            SupervisorInput::SpawnFailed(e) => {
                if self.phase == Phase::Spawning {
                    self.retry_or_fail(None, e.as_str(), now, &mut actions);
                    self.session.last_error = Some(e);
                    assert(outs(actions@) =~= next(v, input_kind(input)).1);
                }
            },
            SupervisorInput::Spawned(pid) => {
                if self.phase == Phase::Spawning {
                    self.session.pid = Some(pid);
                    if self.session.status != SessionStatus::Starting {
                        self.set_status(SessionStatus::Starting, now, &mut actions);
                    }
                    self.phase = Phase::Running;
                    assert(outs(actions@) =~= next(v, input_kind(input)).1);
                }
            },
            SupervisorInput::Line(line, is_stderr) => {
                if self.phase == Phase::Running {
                    let e = Event::session_output(
                        self.session.id,
                        self.session.profile_name.as_str(),
                        line.as_str(),
                        is_stderr,
                        now,
                    );
                    Self::push_action(&mut actions, Action::Emit(e));
                    if is_connection_established(line.as_str()) && self.session.status
                        == SessionStatus::Starting {
                        self.set_status(SessionStatus::Connected, now, &mut actions);
                        self.session.connected_at = Some(now);
                        let c = Event::session_connected(
                            self.session.id,
                            self.session.profile_name.as_str(),
                            now,
                        );
                        Self::push_action(&mut actions, Action::Emit(c));
                    }
                    self.last_line = line;
                    assert(outs(actions@) =~= next(v, input_kind(input)).1);
                }
            },
            SupervisorInput::Exited(code) => {
                if self.phase == Phase::Running {
                    match code {
                        Some(c) => {
                            if c == 0 {
                                self.backoff.reset();
                                if !self.auto_reconnect {
                                    self.set_status(SessionStatus::Stopped, now, &mut actions);
                                    Self::push_action(&mut actions, Action::Finish);
                                    self.phase = Phase::Done;
                                } else {
                                    self.retry(None, now, &mut actions);
                                }
                            } else {
                                let msg = self.last_line.clone();
                                self.exited_with_error(msg, now, &mut actions);
                            }
                        },
                        None => {
                            Self::push_action(&mut actions, Action::Finish);
                            self.phase = Phase::Done;
                        },
                    }
                    assert(outs(actions@) =~= next(v, input_kind(input)).1);
                }
            },
            SupervisorInput::StatusCheckFailed => {
                if self.phase == Phase::Running {
                    self.exited_with_error(owned("Failed to check process status"), now, &mut actions);
                    assert(outs(actions@) =~= next(v, input_kind(input)).1);
                }
            },
            SupervisorInput::SleepElapsed => {
                if self.phase == Phase::Sleeping {
                    Self::push_action(&mut actions, Action::Spawn);
                    self.phase = Phase::Spawning;
                    assert(outs(actions@) =~= next(v, input_kind(input)).1);
                }
            },
        }
        actions
    }
}

/// The loop fed a sequence of inputs: the final state and everything done.
pub open spec fn run(v: SupView, inputs: Seq<InputKind>) -> (SupView, Seq<Out>)
    decreases inputs.len(),
{
    if inputs.len() == 0 {
        (v, seq![])
    } else {
        let (w, o) = next(v, inputs[0]);
        let (z, rest) = run(w, inputs.drop_first());
        (z, o + rest)
    }
}

/// The number of reconnection notices among `o`.
pub open spec fn reconnect_notices(o: Seq<Out>) -> nat
    decreases o.len(),
{
    if o.len() == 0 {
        0
    } else {
        (if o[0] is Reconnecting { 1nat } else { 0nat }) + reconnect_notices(o.drop_first())
    }
}

/// `k` failed spawns with a sleep between each two, then one more failed spawn.
pub open spec fn failing_spawns(k: nat) -> Seq<InputKind>
    decreases k,
{
    if k == 0 {
        seq![InputKind::SpawnFailed]
    } else {
        seq![InputKind::SpawnFailed, InputKind::SleepElapsed] + failing_spawns((k - 1) as nat)
    }
}

proof fn lemma_notices_concat(a: Seq<Out>, b: Seq<Out>)
    ensures
        reconnect_notices(a + b) == reconnect_notices(a) + reconnect_notices(b),
    decreases a.len(),
{
    if a.len() > 0 {
        assert((a + b).drop_first() =~= a.drop_first() + b);
        lemma_notices_concat(a.drop_first(), b);
    } else {
        assert(a + b =~= b);
    }
}

proof fn lemma_run_done(v: SupView, inputs: Seq<InputKind>)
    requires
        v.phase == Phase::Done,
    ensures
        run(v, inputs) == (v, Seq::<Out>::empty()),
    decreases inputs.len(),
{
    if inputs.len() > 0 {
        lemma_run_done(v, inputs.drop_first());
        assert(Seq::<Out>::empty() + Seq::<Out>::empty() =~= Seq::<Out>::empty());
    }
}

proof fn lemma_failing_spawns_from(v: SupView, k: nat)
    requires
        v.phase == Phase::Spawning,
        v.auto,
        v.limit > 0,
        v.limit < u32::MAX,
        v.count < u32::MAX - k,
        v.attempts + k == v.limit,
    ensures
        run(v, failing_spawns(k)).0.status == SessionStatus::Failed,
        run(v, failing_spawns(k)).0.phase == Phase::Done,
        reconnect_notices(run(v, failing_spawns(k)).1) == k,
    decreases k,
{
    reveal_with_fuel(reconnect_notices, 6);
    reveal_with_fuel(run, 3);
    let ins = failing_spawns(k);
    if k == 0 {
        let (w, o) = next(v, InputKind::SpawnFailed);
        assert(ins.drop_first() =~= Seq::<InputKind>::empty());
        assert(o + Seq::<Out>::empty() =~= o);
        assert(o.drop_first().drop_first().drop_first() =~= Seq::<Out>::empty());
    } else {
        let (w, o) = next(v, InputKind::SpawnFailed);
        assert(ins[0] == InputKind::SpawnFailed);
        let ins1 = ins.drop_first();
        assert(ins1 =~= seq![InputKind::SleepElapsed] + failing_spawns((k - 1) as nat));
        let (w2, o2) = next(w, InputKind::SleepElapsed);
        let ins2 = ins1.drop_first();
        assert(ins2 =~= failing_spawns((k - 1) as nat));
        lemma_failing_spawns_from(w2, (k - 1) as nat);
        let (z, o3) = run(w2, ins2);
        assert(run(w, ins1) == (z, o2 + o3));
        lemma_notices_concat(o, o2 + o3);
        lemma_notices_concat(o2, o3);
        assert(o.drop_first().drop_first().drop_first() =~= Seq::<Out>::empty());
        assert(o2.drop_first() =~= Seq::<Out>::empty());
    }
}

/// With reconnection on and a budget of `m` attempts, a profile whose
/// every spawn fails gets exactly `m` reconnection notices and ends failed.
pub proof fn lemma_retry_budget(v: SupView, m: nat)
    requires
        v.phase == Phase::Spawning,
        v.auto,
        v.attempts == 0,
        v.count == 0,
        v.limit == m,
        0 < m < u32::MAX,
    ensures
        run(v, failing_spawns(m)).0.status == SessionStatus::Failed,
        run(v, failing_spawns(m)).0.phase == Phase::Done,
        reconnect_notices(run(v, failing_spawns(m)).1) == m,
{
    lemma_failing_spawns_from(v, m);
}

/// With reconnection off, one exit with a non-zero code ends the session
/// failed at once.
pub proof fn lemma_no_reconnect_fails_at_once(v: SupView, code: i32)
    requires
        v.phase == Phase::Running,
        !v.auto,
        code != 0,
    ensures
        next(v, InputKind::Exited(Some(code))).0.status == SessionStatus::Failed,
        next(v, InputKind::Exited(Some(code))).0.phase == Phase::Done,
        reconnect_notices(next(v, InputKind::Exited(Some(code))).1) == 0,
{
    reveal_with_fuel(reconnect_notices, 6);
    reveal_with_fuel(run, 3);
    let o = next(v, InputKind::Exited(Some(code))).1;
    assert(o.drop_first().drop_first().drop_first().drop_first() =~= Seq::<Out>::empty());
}

/// A stop during the backoff sleep ends the session stopped, and nothing
/// that comes after it brings another reconnection notice.
pub proof fn lemma_stop_during_backoff(v: SupView, later: Seq<InputKind>)
    requires
        v.phase == Phase::Sleeping,
    ensures
        run(v, seq![InputKind::Stop] + later).0.status == SessionStatus::Stopped,
        run(v, seq![InputKind::Stop] + later).0.phase == Phase::Done,
        reconnect_notices(run(v, seq![InputKind::Stop] + later).1) == 0,
{
    reveal_with_fuel(reconnect_notices, 6);
    reveal_with_fuel(run, 3);
    let ins = seq![InputKind::Stop] + later;
    let (w, o) = next(v, InputKind::Stop);
    assert(ins[0] == InputKind::Stop);
    assert(ins.drop_first() =~= later);
    lemma_run_done(w, later);
    assert(o + Seq::<Out>::empty() =~= o);
    assert(o.drop_first().drop_first() =~= Seq::<Out>::empty());
}

/// For a session that connects and then fails, the change from starting to
/// connected comes before the connection notice, and the disconnection
/// comes after the change to reconnecting or failed that follows the
/// failure.
pub proof fn lemma_connect_then_fail_order(v: SupView, code: i32)
    requires
        v.phase == Phase::Running,
        v.status == SessionStatus::Starting,
        code != 0,
    ensures
        ({
            let o = run(v, seq![InputKind::Line(true), InputKind::Exited(Some(code))]).1;
            &&& o[1] == Out::StatusChanged(SessionStatus::Starting, SessionStatus::Connected)
            &&& o[2] == Out::Connected
            &&& (o[3] == Out::StatusChanged(SessionStatus::Connected, SessionStatus::Reconnecting)
                || o[3] == Out::StatusChanged(SessionStatus::Connected, SessionStatus::Failed))
            &&& o[4] == Out::Disconnected
        }),
{
    reveal_with_fuel(reconnect_notices, 6);
    reveal_with_fuel(run, 3);
    let ins = seq![InputKind::Line(true), InputKind::Exited(Some(code))];
    let (w, o1) = next(v, InputKind::Line(true));
    assert(ins[0] == InputKind::Line(true));
    let ins1 = ins.drop_first();
    assert(ins1 =~= seq![InputKind::Exited(Some(code))]);
    let (z, o2) = next(w, InputKind::Exited(Some(code)));
    assert(ins1[0] == InputKind::Exited(Some(code)));
    assert(ins1.drop_first() =~= Seq::<InputKind>::empty());
    assert(run(w, ins1) == (z, o2 + Seq::<Out>::empty()));
    assert(o2 + Seq::<Out>::empty() =~= o2);
}

} // verus!
