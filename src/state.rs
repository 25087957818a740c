//! The snapshot of which sessions were up, kept between launches.

use vstd::prelude::*;

use crate::paths::state_file;
use crate::session::{Session, SessionStatus};
use crate::text::owned;

verus! {

/// What is remembered of a session.
#[derive(Debug, Clone)]
pub struct PersistedSession {
    pub profile_id: u128,
    pub profile_name: String,
    pub was_connected: bool,
}

impl PersistedSession {
    /// What is remembered of `session`.
    pub fn from_session(session: &Session) -> (r: PersistedSession)
        ensures
            r.profile_id == session.profile_id,
            r.profile_name@ == session.profile_name@,
            r.was_connected == (session.status == SessionStatus::Connected),
    {
        PersistedSession {
            profile_id: session.profile_id,
            profile_name: session.profile_name.clone(),
            was_connected: session.status == SessionStatus::Connected,
        }
    }
}

/// The remembered state.
#[derive(Debug, Clone)]
pub struct AppState {
    /// Sessions that were live at the last shutdown.
    pub sessions: Vec<PersistedSession>,
    /// The profile used last.
    pub last_active_profile: Option<u128>,
}

impl Default for AppState {
    fn default() -> (r: AppState)
        ensures
            r.sessions@.len() == 0,
            r.last_active_profile is None,
    {
        AppState { sessions: Vec::new(), last_active_profile: None }
    }
}

/// The profiles of the sessions that were connected, in order.
pub open spec fn connected_profiles(ss: Seq<PersistedSession>) -> Seq<u128>
    decreases ss.len(),
{
    if ss.len() == 0 {
        seq![]
    } else if ss.last().was_connected {
        connected_profiles(ss.drop_last()).push(ss.last().profile_id)
    } else {
        connected_profiles(ss.drop_last())
    }
}

/// The remembered state and the file it lives in.
pub struct StateManager {
    path: String,
    state: AppState,
}

impl StateManager {
    /// The state file's path.
    pub closed spec fn file(&self) -> Seq<char> {
        self.path@
    }

    /// The remembered state.
    pub closed spec fn current(&self) -> AppState {
        self.state
    }

    /// Empty state, kept in the default state file.
    pub fn new() -> (r: StateManager)
        ensures
            r.current().sessions@.len() == 0,
            r.current().last_active_profile is None,
    {
        StateManager { path: state_file(), state: AppState::default() }
    }

    /// Empty state, kept in the file at `path`.
    pub fn with_path(path: &str) -> (r: StateManager)
        ensures
            r.file() == path@,
            r.current().sessions@.len() == 0,
            r.current().last_active_profile is None,
    {
        StateManager { path: owned(path), state: AppState::default() }
    }

    /// The state file's path.
    pub fn path(&self) -> (r: &str)
        ensures
            r@ == self.file(),
    {
        self.path.as_str()
    }

    /// The remembered state.
    pub fn state(&self) -> (r: &AppState)
        ensures
            *r == self.current(),
    {
        &self.state
    }

    /// Replaces the remembered state, as loaded from the file.
    pub fn replace_state(&mut self, state: AppState)
        ensures
            final(self).file() == old(self).file(),
            final(self).current() == state,
    {
        self.state = state;
    }

    /// Remembers the given sessions, in order.
    pub fn update_sessions(&mut self, sessions: &[Session])
        ensures
            final(self).file() == old(self).file(),
            final(self).current().last_active_profile == old(self).current().last_active_profile,
            final(self).current().sessions@.len() == sessions@.len(),
            forall|i: int|
                0 <= i < sessions@.len() ==> {
                    let p = #[trigger] final(self).current().sessions@[i];
                    &&& p.profile_id == sessions@[i].profile_id
                    &&& p.profile_name@ == sessions@[i].profile_name@
                    &&& p.was_connected == (sessions@[i].status == SessionStatus::Connected)
                },
    {
        let mut out: Vec<PersistedSession> = Vec::new();
        let mut i: usize = 0;
        while i < sessions.len()
            invariant
                i <= sessions@.len(),
                out@.len() == i,
                forall|k: int|
                    0 <= k < i ==> {
                        let p = #[trigger] out@[k];
                        &&& p.profile_id == sessions@[k].profile_id
                        &&& p.profile_name@ == sessions@[k].profile_name@
                        &&& p.was_connected == (sessions@[k].status == SessionStatus::Connected)
                    },
            decreases sessions@.len() - i,
        {
            out.push(PersistedSession::from_session(&sessions[i]));
            i = i + 1;
        }
        self.state.sessions = out;
    }

    /// Remembers the profile used last.
    pub fn set_last_active_profile(&mut self, profile_id: Option<u128>)
        ensures
            final(self).file() == old(self).file(),
            final(self).current().sessions == old(self).current().sessions,
            final(self).current().last_active_profile == profile_id,
    {
        self.state.last_active_profile = profile_id;
    }

    /// The profiles whose sessions were connected, to start again.
    pub fn get_auto_start_profiles(&self) -> (r: Vec<u128>)
        ensures
            r@ == connected_profiles(self.current().sessions@),
    {
        let ss = &self.state.sessions;
        let mut out: Vec<u128> = Vec::new();
        let mut i: usize = 0;
        assert(ss@.subrange(0, 0) =~= Seq::<PersistedSession>::empty());
        while i < ss.len()
            invariant
                i <= ss@.len(),
                out@ == connected_profiles(ss@.subrange(0, i as int)),
            decreases ss@.len() - i,
        {
            assert(ss@.subrange(0, i + 1).drop_last() =~= ss@.subrange(0, i as int));
            if ss[i].was_connected {
                out.push(ss[i].profile_id);
            }
            i = i + 1;
        }
        assert(ss@.subrange(0, i as int) =~= ss@);
        out
    }

    /// Forgets everything.
    pub fn clear(&mut self)
        ensures
            final(self).file() == old(self).file(),
            final(self).current().sessions@.len() == 0,
            final(self).current().last_active_profile is None,
    {
        self.state = AppState::default();
    }
}

} // verus!
