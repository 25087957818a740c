//! The table of live sessions and the commands that change it. One lock
//! around the table serialises the commands and the supervisors' steps.

use vstd::prelude::*;

use crate::backoff::Backoff;
use crate::error::CoreError;
use crate::ids::{uuid_text, uuid_text_of};
use crate::launch::{
    all_safe, first_problem_is, lemma_local_command_option, screen_profile, tunnel_mode_args,
};
use crate::text::ascii_text;
use crate::profile::Profile;
use crate::session::{Session, SessionStatus};
use crate::supervisor::{
    input_kind, lemma_live_running, lemma_outs_concat, next, outs, stepped, Action, InputKind, Out, Phase,
    SupView, Supervisor, SupervisorInput,
};
use crate::text::owned;

verus! {

/// Inputs of a start that belong to one session and are never stored in a
/// profile.
#[derive(Debug, Clone)]
pub struct StartSessionOptions {
    /// The password for password authentication, held in memory only.
    pub password: Option<String>,
}

impl StartSessionOptions {
    /// No password.
    pub fn none() -> (r: StartSessionOptions)
        ensures
            r.password is None,
    {
        StartSessionOptions { password: None }
    }
}

impl Default for StartSessionOptions {
    fn default() -> (r: StartSessionOptions)
        ensures
            r.password is None,
    {
        StartSessionOptions::none()
    }
}

/// A running session for the profile is among `rs`.
pub open spec fn running_for(rs: Seq<Session>, profile_id: u128) -> bool {
    exists|i: int| 0 <= i < rs.len() && rs[i].profile_id == profile_id && rs[i].status.running()
}

/// `i` is the first row of `rs` with session identifier `id`.
pub open spec fn first_with_id(rs: Seq<Session>, id: u128, i: int) -> bool {
    0 <= i < rs.len() && rs[i].id == id && forall|j: int| 0 <= j < i ==> rs[j].id != id
}

/// The text of the error for commands sent after shutdown.
pub open spec fn closed_text() -> Seq<char> {
    "Manager channel closed"@
}

/// The text of the error for a start before the SSH client was found.
pub open spec fn no_ssh_text() -> Seq<char> {
    "SSH not detected"@
}

/// A row of the table: a consistent loop that has not ended, with a
/// running status.
pub open spec fn row_live(s: Supervisor) -> bool {
    &&& s.wf()
    &&& s.model().phase != Phase::Done
    &&& s.model().status.running()
}

/// The rows are live, and no two share a session identifier or a profile.
pub open spec fn rows_ok(ss: Seq<Supervisor>) -> bool {
    &&& forall|i: int| 0 <= i < ss.len() ==> row_live(#[trigger] ss[i])
    &&& forall|i: int, j: int|
        #![trigger ss[i], ss[j]]
        0 <= i < j < ss.len() ==> ss[i].record().id != ss[j].record().id && ss[i].record().profile_id
            != ss[j].record().profile_id
}

proof fn lemma_rows_remove(ss: Seq<Supervisor>, k: int)
    requires
        rows_ok(ss),
        0 <= k < ss.len(),
    ensures
        rows_ok(ss.remove(k)),
{
    let t = ss.remove(k);
    assert forall|i: int| 0 <= i < t.len() implies row_live(#[trigger] t[i]) by {
        if i < k {
            assert(t[i] == ss[i]);
        } else {
            assert(t[i] == ss[i + 1]);
        }
    }
    assert forall|i: int, j: int| #![trigger t[i], t[j]] 0 <= i < j < t.len() implies t[i].record().id
        != t[j].record().id && t[i].record().profile_id != t[j].record().profile_id by {
        let a = if i < k { i } else { i + 1 };
        let b = if j < k { j } else { j + 1 };
        assert(t[i] == ss[a]);
        assert(t[j] == ss[b]);
        assert(ss[a] == ss[a] && ss[b] == ss[b]);
    }
}

proof fn lemma_rows_push(ss: Seq<Supervisor>, s: Supervisor)
    requires
        rows_ok(ss),
        row_live(s),
        forall|k: int|
            0 <= k < ss.len() ==> (#[trigger] ss[k]).record().id != s.record().id && ss[k].record().profile_id
                != s.record().profile_id,
    ensures
        rows_ok(ss.push(s)),
{
    let t = ss.push(s);
    assert forall|i: int| 0 <= i < t.len() implies row_live(#[trigger] t[i]) by {
        if i < ss.len() {
            assert(t[i] == ss[i]);
        }
    }
    assert forall|i: int, j: int| #![trigger t[i], t[j]] 0 <= i < j < t.len() implies t[i].record().id
        != t[j].record().id && t[i].record().profile_id != t[j].record().profile_id by {
        assert(t[i] == ss[i]);
        if j < ss.len() {
            assert(t[j] == ss[j]);
        } else {
            assert(t[j] == s);
        }
    }
}

proof fn lemma_rows_update(ss: Seq<Supervisor>, k: int, s: Supervisor)
    requires
        rows_ok(ss),
        0 <= k < ss.len(),
        row_live(s),
        s.record().id == ss[k].record().id,
        s.record().profile_id == ss[k].record().profile_id,
    ensures
        rows_ok(ss.update(k, s)),
{
    let t = ss.update(k, s);
    assert forall|i: int| 0 <= i < t.len() implies row_live(#[trigger] t[i]) by {
        if i != k {
            assert(t[i] == ss[i]);
        }
    }
    assert forall|i: int, j: int| #![trigger t[i], t[j]] 0 <= i < j < t.len() implies t[i].record().id
        != t[j].record().id && t[i].record().profile_id != t[j].record().profile_id by {
        assert(ss[i] == ss[i] && ss[j] == ss[j]);
    }
}

/// The notices of stopping each row in turn, in table order.
pub open spec fn stop_outs(ms: Seq<SupView>) -> Seq<Out>
    decreases ms.len(),
{
    if ms.len() == 0 {
        seq![]
    } else {
        next(ms[0], InputKind::Stop).1 + stop_outs(ms.drop_first())
    }
}

/// The text of the error for a start whose session identifier is taken.
pub open spec fn id_taken_text() -> Seq<char> {
    "Session id already in use"@
}

/// The live sessions.
pub struct SessionTable {
    sessions: Vec<Supervisor>,
    ssh_path: Option<String>,
    closed: bool,
}

impl SessionTable {
    /// The session records, in the order the sessions started.
    pub closed spec fn records(&self) -> Seq<Session> {
        self.sessions@.map_values(|s: Supervisor| s.record())
    }

    /// The decision state of each session, in the same order.
    pub closed spec fn models(&self) -> Seq<SupView> {
        self.sessions@.map_values(|s: Supervisor| s.model())
    }

    /// The last output line of each session's process, in the same order.
    pub closed spec fn last_lines(&self) -> Seq<Seq<char>> {
        self.sessions@.map_values(|s: Supervisor| s.last_output())
    }

    /// The table no longer takes commands.
    pub closed spec fn is_shut(&self) -> bool {
        self.closed
    }

    /// The SSH client's path, once found.
    pub closed spec fn ssh(&self) -> Option<String> {
        self.ssh_path
    }

    /// Every row is a live, consistent loop; no two rows share a session
    /// identifier or a profile.
    pub closed spec fn wf(&self) -> bool {
        rows_ok(self.sessions@)
    }

    /// In a consistent table every session is running and no two sessions
    /// belong to one profile: a start for a profile that has a session is
    /// refused, so concurrent starts for one profile leave exactly one.
    pub proof fn lemma_one_session_per_profile(&self)
        requires
            self.wf(),
        ensures
            forall|i: int| 0 <= i < self.records().len() ==> (#[trigger] self.records()[i]).status.running(),
            forall|i: int, j: int|
                0 <= i < self.records().len() && 0 <= j < self.records().len() && (
                #[trigger] self.records()[i]).profile_id == (#[trigger] self.records()[j]).profile_id
                    ==> i == j,
            forall|i: int, j: int|
                0 <= i < self.records().len() && 0 <= j < self.records().len() && (
                #[trigger] self.records()[i]).id == (#[trigger] self.records()[j]).id ==> i == j,
    {
        let ss = self.sessions@;
        assert forall|i: int| 0 <= i < self.records().len() implies (
        #[trigger] self.records()[i]).status.running() by {
            assert(row_live(ss[i]));
            ss[i].lemma_record_agrees();
        }
        assert forall|i: int, j: int|
            0 <= i < self.records().len() && 0 <= j < self.records().len() && (
            #[trigger] self.records()[i]).profile_id == (#[trigger] self.records()[j]).profile_id implies i
            == j by {
            if i < j {
                assert(ss[i] == ss[i] && ss[j] == ss[j]);
            } else if j < i {
                assert(ss[j] == ss[j] && ss[i] == ss[i]);
            }
        }
        assert forall|i: int, j: int|
            0 <= i < self.records().len() && 0 <= j < self.records().len() && (
            #[trigger] self.records()[i]).id == (#[trigger] self.records()[j]).id implies i == j by {
            if i < j {
                assert(ss[i] == ss[i] && ss[j] == ss[j]);
            } else if j < i {
                assert(ss[j] == ss[j] && ss[i] == ss[i]);
            }
        }
    }

    /// An empty table that does not know the SSH client yet.
    pub fn new() -> (r: SessionTable)
        ensures
            r.wf(),
            r.records().len() == 0,
            !r.is_shut(),
            r.ssh() is None,
    {
        let r = SessionTable { sessions: Vec::new(), ssh_path: None, closed: false };
        assert(r.records() =~= Seq::<Session>::empty());
        r
    }

    /// Records where the SSH client is.
    pub fn set_ssh_path(&mut self, path: String)
        requires
            old(self).wf(),
        ensures
            final(self).wf(),
            final(self).records() == old(self).records(),
            final(self).models() == old(self).models(),
            final(self).is_shut() == old(self).is_shut(),
            final(self).ssh() == Some(path),
    {
        self.ssh_path = Some(path);
    }

    /// The SSH client's path, once found.
    pub fn ssh_path(&self) -> (r: Option<String>)
        ensures
            r == self.ssh(),
    {
        match &self.ssh_path {
            Some(p) => Some(p.clone()),
            None => None,
        }
    }

    /// Whether the table no longer takes commands.
    pub fn is_closed(&self) -> (r: bool)
        ensures
            r == self.is_shut(),
    {
        self.closed
    }

    fn find(&self, id: u128) -> (r: Option<usize>)
        ensures
            match r {
                Some(i) => first_with_id(self.records(), id, i as int),
                None => forall|j: int| 0 <= j < self.records().len() ==> self.records()[j].id != id,
            },
    {
        let mut i: usize = 0;
        while i < self.sessions.len()
            invariant
                i <= self.sessions@.len(),
                forall|j: int| 0 <= j < i ==> self.records()[j].id != id,
            decreases self.sessions@.len() - i,
        {
            if self.sessions[i].session().id == id {
                return Some(i);
            }
            i = i + 1;
        }
        None
    }

    fn has_running(&self, profile_id: u128) -> (r: bool)
        ensures
            r == running_for(self.records(), profile_id),
    {
        let mut i: usize = 0;
        while i < self.sessions.len()
            invariant
                i <= self.sessions@.len(),
                forall|j: int|
                    0 <= j < i ==> !(self.records()[j].profile_id == profile_id
                        && self.records()[j].status.running()),
            decreases self.sessions@.len() - i,
        {
            let s = self.sessions[i].session();
            assert(self.records()[i as int] == *s);
            if s.profile_id == profile_id && s.is_running() {
                return true;
            }
            i = i + 1;
        }
        false
    }

    /// Starts a session with identifier `session_id` for `profile`, created
    /// at `now`, unless the table is shut, the SSH client is unknown, a
    /// session for the same profile is running, the profile's arguments fail
    /// the screen (no record is made and nothing is spawned), or the
    /// identifier is taken.
    /// The caller then spawns the first process.
    pub fn start(&mut self, profile: &Profile, session_id: u128, backoff: Backoff, now: i64) -> (r:
        Result<u128, CoreError>)
        requires
            old(self).wf(),
            backoff.wf(),
            backoff.attempts() == 0,
            backoff.limit() == profile.max_reconnect_attempts,
        ensures
            final(self).wf(),
            final(self).is_shut() == old(self).is_shut(),
            final(self).ssh() == old(self).ssh(),
            old(self).is_shut() ==> (r matches Err(CoreError::Other(m)) && m@ == closed_text()),
            !old(self).is_shut() && old(self).ssh() is None ==> (r matches Err(CoreError::Other(m))
                && m@ == no_ssh_text()),
            !old(self).is_shut() && old(self).ssh() is Some && running_for(old(self).records(), profile.id)
                ==> (r matches Err(CoreError::SessionAlreadyRunning(n)) && n@ == profile.name@),
            !old(self).is_shut() && old(self).ssh() is Some && !running_for(old(self).records(), profile.id)
                && !all_safe(tunnel_mode_args(*profile)) ==> (r matches Err(CoreError::SshSpawnFailed(m))
                && first_problem_is(tunnel_mode_args(*profile), m@)),
            !old(self).is_shut() && old(self).ssh() is Some && !running_for(old(self).records(), profile.id)
                && (exists|i: int|
                0 <= i < profile.extra_options@.len() && (#[trigger] profile.extra_options@[i]).0@
                    == "LocalCommand"@ && ascii_text(profile.extra_options@[i].1@)) ==> r matches Err(
                CoreError::SshSpawnFailed(_),
            ),
            !old(self).is_shut() && old(self).ssh() is Some && !running_for(old(self).records(), profile.id)
                && all_safe(tunnel_mode_args(*profile)) && (exists|j: int| 0 <= j < old(self).records().len() && #[trigger] old(self).records()[j].id
                == session_id) ==> (r matches Err(CoreError::Other(m)) && m@ == id_taken_text()),
            r is Err ==> final(self).records() == old(self).records() && final(self).models()
                == old(self).models(),
            !old(self).is_shut() && old(self).ssh() is Some && !running_for(old(self).records(), profile.id)
                && all_safe(tunnel_mode_args(*profile)) && (forall|j: int| 0 <= j < old(self).records().len() ==> #[trigger] old(self).records()[j].id
                != session_id) ==> r == Ok::<u128, CoreError>(session_id) && final(self).records().len()
                == old(self).records().len() + 1 && final(self).records().drop_last()
                == old(self).records() && final(self).models().drop_last() == old(self).models() && {
                let s = final(self).records().last();
                &&& s.id == session_id
                &&& s.profile_id == profile.id
                &&& s.profile_name@ == profile.name@
                &&& s.status == SessionStatus::Starting
                &&& s.started_at == now
                &&& s.reconnect_count == 0
                &&& s.pid is None
            } && final(self).models().last().phase == Phase::Spawning,
    {
        if self.closed {
            return Err(CoreError::Other(owned("Manager channel closed")));
        }
        if self.ssh_path.is_none() {
            return Err(CoreError::Other(owned("SSH not detected")));
        }
        if self.has_running(profile.id) {
            return Err(CoreError::SessionAlreadyRunning(profile.name.clone()));
        }
        proof {
            if exists|i: int|
                0 <= i < profile.extra_options@.len() && (#[trigger] profile.extra_options@[i]).0@
                    == "LocalCommand"@ && ascii_text(profile.extra_options@[i].1@) {
                let i = choose|i: int|
                    0 <= i < profile.extra_options@.len() && (#[trigger] profile.extra_options@[i]).0@
                        == "LocalCommand"@ && ascii_text(profile.extra_options@[i].1@);
                lemma_local_command_option(*profile, i);
            }
        }
        match screen_profile(profile) {
            Err(e) => {
                return Err(e);
            },
            Ok(_) => {},
        }
        if self.find(session_id).is_some() {
            return Err(CoreError::Other(owned("Session id already in use")));
        }
        let session = Session::create(session_id, profile, now);
        let sup = Supervisor::new(session, profile, backoff);
        let ghost old_sessions = self.sessions@;
        proof {
            sup.lemma_record_agrees();
            assert forall|k: int| 0 <= k < old_sessions.len() implies (
            #[trigger] old_sessions[k]).record().id != sup.record().id
                && old_sessions[k].record().profile_id != sup.record().profile_id by {
                assert(old(self).records()[k] == old_sessions[k].record());
                assert(row_live(old_sessions[k]));
                old_sessions[k].lemma_record_agrees();
            }
            lemma_rows_push(old_sessions, sup);
        }
        self.sessions.push(sup);
        assert(self.records().drop_last() =~= old(self).records());
        assert(self.models().drop_last() =~= old(self).models());
        assert(self.sessions@[self.sessions@.len() - 1] == sup);
        Ok(session_id)
    }

    /// Stops the session `session_id` at `now`: its status becomes stopped,
    /// its row goes, and the returned actions kill its process and end its
    /// loop.
    pub fn stop(&mut self, session_id: u128, now: i64) -> (r: Result<Vec<Action>, CoreError>)
        requires
            old(self).wf(),
        ensures
            final(self).wf(),
            final(self).is_shut() == old(self).is_shut(),
            final(self).ssh() == old(self).ssh(),
            old(self).is_shut() ==> (r matches Err(CoreError::Other(m)) && m@ == closed_text()),
            !old(self).is_shut() && (forall|j: int|
                0 <= j < old(self).records().len() ==> old(self).records()[j].id != session_id)
                ==> (r matches Err(CoreError::SessionNotFound(m)) && m@ == uuid_text_of(session_id)),
            r is Err ==> final(self).records() == old(self).records(),
            forall|i: int|
                !old(self).is_shut() && first_with_id(old(self).records(), session_id, i) ==> (r matches Ok(a)
                    && outs(a@) == next(old(self).models()[i], InputKind::Stop).1
                    && final(self).records() == old(self).records().remove(i)
                    && final(self).models() == old(self).models().remove(i)),
    {
        if self.closed {
            return Err(CoreError::Other(owned("Manager channel closed")));
        }
        match self.find(session_id) {
            None => Err(CoreError::SessionNotFound(uuid_text(session_id))),
            Some(i) => {
                let ghost old_sessions = self.sessions@;
                let mut sup = self.sessions.remove(i);
                assert(sup == old_sessions[i as int]);
                assert(row_live(sup));
                let actions = sup.step(SupervisorInput::StopRequested, now);
                assert(self.records() =~= old(self).records().remove(i as int));
                assert(self.models() =~= old(self).models().remove(i as int));
                proof {
                    lemma_rows_remove(old_sessions, i as int);
                    assert(self.sessions@ =~= old_sessions.remove(i as int));
                    assert forall|j: int| first_with_id(old(self).records(), session_id, j) implies j
                        == i by {
                        if j < i {
                        } else if j > i {
                        }
                    }
                }
                Ok(actions)
            },
        }
    }

    /// Stops every session at `now`; returns the actions of stopping each
    /// row, in table order.
    pub fn stop_all(&mut self, now: i64) -> (r: Vec<Action>)
        requires
            old(self).wf(),
        ensures
            final(self).wf(),
            final(self).is_shut() == old(self).is_shut(),
            final(self).ssh() == old(self).ssh(),
            final(self).records().len() == 0,
            outs(r@) == stop_outs(old(self).models()),
    {
        let mut all: Vec<Action> = Vec::new();
        assert(outs(all@) + stop_outs(self.models()) =~= stop_outs(old(self).models()));
        while self.sessions.len() > 0
            invariant
                self.wf(),
                self.closed == old(self).closed,
                self.ssh_path == old(self).ssh_path,
                outs(all@) + stop_outs(self.models()) == stop_outs(old(self).models()),
            decreases self.sessions@.len(),
        {
            let ghost old_sessions = self.sessions@;
            let ghost before = self.models();
            let ghost done = all@;
            let mut sup = self.sessions.remove(0);
            assert(sup == old_sessions[0]);
            assert(row_live(sup));
            let ghost first = sup.model();
            let mut actions = sup.step(SupervisorInput::StopRequested, now);
            let ghost mine = actions@;
            all.append(&mut actions);
            proof {
                lemma_rows_remove(old_sessions, 0);
                assert(self.sessions@ =~= old_sessions.remove(0));
                assert(self.models() =~= before.drop_first());
                assert(before[0] == first);
                lemma_outs_concat(done, mine);
                assert(stop_outs(before) == next(before[0], InputKind::Stop).1 + stop_outs(
                    before.drop_first(),
                ));
                assert(outs(all@) + stop_outs(self.models()) =~= outs(done) + stop_outs(before));
            }
        }
        assert(self.records() =~= Seq::<Session>::empty());
        assert(self.models() =~= Seq::<SupView>::empty());
        assert(outs(all@) + stop_outs(self.models()) =~= outs(all@));
        all
    }

    /// A copy of every session record.
    pub fn status(&self) -> (r: Vec<Session>)
        ensures
            r@ == self.records(),
    {
        let mut out: Vec<Session> = Vec::new();
        let mut i: usize = 0;
        while i < self.sessions.len()
            invariant
                i <= self.sessions@.len(),
                out@ == self.records().subrange(0, i as int),
            decreases self.sessions@.len() - i,
        {
            out.push(self.sessions[i].session().snapshot());
            i = i + 1;
            assert(out@ =~= self.records().subrange(0, i as int));
        }
        assert(self.records().subrange(0, i as int) =~= self.records());
        out
    }

    /// Stops every session and stops taking commands.
    pub fn shutdown(&mut self, now: i64) -> (r: Vec<Action>)
        requires
            old(self).wf(),
        ensures
            final(self).wf(),
            final(self).is_shut(),
            final(self).ssh() == old(self).ssh(),
            final(self).records().len() == 0,
            outs(r@) == stop_outs(old(self).models()),
    {
        let r = self.stop_all(now);
        self.closed = true;
        r
    }

    /// Hands `input`, observed at `now`, to the loop of session `session_id`
    /// and returns what to do. A loop that ends leaves the table. Input for
    /// a session that is gone is ignored.
    pub fn deliver(&mut self, session_id: u128, input: SupervisorInput, now: i64) -> (r: Vec<Action>)
        requires
            old(self).wf(),
        ensures
            final(self).wf(),
            final(self).is_shut() == old(self).is_shut(),
            final(self).ssh() == old(self).ssh(),
            (forall|j: int|
                0 <= j < old(self).records().len() ==> old(self).records()[j].id != session_id) ==> r@.len()
                == 0 && final(self).records() == old(self).records() && final(self).models()
                == old(self).models(),
            forall|i: int|
                first_with_id(old(self).records(), session_id, i) ==> outs(r@) == next(
                    old(self).models()[i],
                    input_kind(input),
                ).1 && if next(old(self).models()[i], input_kind(input)).0.phase == Phase::Done {
                    final(self).records() == old(self).records().remove(i)
                        && final(self).models() == old(self).models().remove(i)
                } else {
                    &&& final(self).records().len() == old(self).records().len()
                    &&& final(self).models() == old(self).models().update(
                        i,
                        next(old(self).models()[i], input_kind(input)).0,
                    )
                    &&& forall|k: int|
                        0 <= k < old(self).records().len() && k != i ==> #[trigger] final(self).records()[k]
                            == old(self).records()[k]
                    &&& stepped(
                        old(self).records()[i],
                        old(self).models()[i],
                        old(self).last_lines()[i],
                        input,
                        now,
                        final(self).records()[i],
                    )
                },
    {
        match self.find(session_id) {
            None => Vec::new(),
            Some(i) => {
                let ghost old_sessions = self.sessions@;
                let mut sup = self.sessions.remove(i);
                assert(sup == old_sessions[i as int]);
                assert(row_live(sup));
                let ghost before = sup;
                let actions = sup.step(input, now);
                proof {
                    lemma_live_running(before.model(), input_kind(input));
                    sup.lemma_record_agrees();
                }
                if sup.phase() != Phase::Done {
                    self.sessions.insert(i, sup);
                    proof {
                        assert(self.sessions@ =~= old_sessions.update(i as int, sup));
                        lemma_rows_update(old_sessions, i as int, sup);
                    }
                    assert(self.models() =~= old(self).models().update(i as int, sup.model()));
                    assert(self.records() =~= old(self).records().update(i as int, sup.record()));
                } else {
                    proof {
                        assert(self.sessions@ =~= old_sessions.remove(i as int));
                        lemma_rows_remove(old_sessions, i as int);
                    }
                    assert(self.models() =~= old(self).models().remove(i as int));
                    assert(self.records() =~= old(self).records().remove(i as int));
                }
                proof {
                    assert forall|j: int| first_with_id(old(self).records(), session_id, j) implies j
                        == i by {
                        if j < i {
                        } else if j > i {
                        }
                    }
                }
                actions
            },
        }
    }
}

/// Once a start for a profile is accepted, the table holds a running
/// session for it, so a second start for the same profile is refused as
/// already running until that session ends.
pub proof fn lemma_second_start_refused(rs: Seq<Session>, s: Session)
    requires
        s.status == SessionStatus::Starting,
    ensures
        running_for(rs.push(s), s.profile_id),
{
    assert(rs.push(s)[rs.len() as int] == s);
}

} // verus!
