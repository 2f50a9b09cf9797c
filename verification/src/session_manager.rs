//! Session lifecycle: classifying process exits, tracking one session per
//! authenticated user, allocating free virtual terminals, and deciding what a
//! teardown must do. The callers spawn the processes, open the terminal
//! devices and switch the seat; every decision they act on is made here.

use vstd::prelude::*;

pub use crate::desktop::DesktopEnvironmentFile;

verus! {

/// Virtual-terminal numbers are scanned in `0 .. TTY_SCAN_LIMIT`.
pub const TTY_SCAN_LIMIT: u16 = 63;

/// The observable lifecycle state of a session's process.
#[derive(Clone, Copy, PartialEq, Eq, Structural, Debug)]
pub enum SessionStatus {
    Running,
    ShutdownGracefully,
    Crashed,
}

/// What one non-blocking liveness poll of a session's process reported.
#[derive(Clone, Copy, PartialEq, Eq, Structural, Debug)]
pub enum PollOutcome {
    /// The process is still executing.
    StillExecuting,
    /// The process exited; `success` tells whether its status was a success.
    Exited { success: bool },
    /// The poll itself failed; an unreadable process state must not be
    /// mistaken for continued execution.
    PollFailed,
}

/// How a poll outcome is classified: a successful exit is a graceful
/// shutdown; a failed exit, or a failed poll, is a crash.
pub open spec fn spec_classify(p: PollOutcome) -> SessionStatus {
    match p {
        PollOutcome::StillExecuting => SessionStatus::Running,
        PollOutcome::Exited { success } => if success {
            SessionStatus::ShutdownGracefully
        } else {
            SessionStatus::Crashed
        },
        PollOutcome::PollFailed => SessionStatus::Crashed,
    }
}

/// Classify one poll outcome.
pub fn classify_poll(p: PollOutcome) -> (r: SessionStatus)
    ensures
        r == spec_classify(p),
{
    match p {
        PollOutcome::StillExecuting => SessionStatus::Running,
        PollOutcome::Exited { success } => if success {
            SessionStatus::ShutdownGracefully
        } else {
            SessionStatus::Crashed
        },
        PollOutcome::PollFailed => SessionStatus::Crashed,
    }
}

/// One tracked session: the user it runs as, the virtual terminal it owns,
/// and the last observed status of its process.
#[derive(Clone, Copy, PartialEq, Eq, Structural, Debug)]
pub struct Session {
    pub user_id: u32,
    pub tty_number: u16,
    pub status: SessionStatus,
}

/// Folding one poll into a session: only a `Running` session changes; a
/// session that has shut down or crashed keeps that state forever.
pub open spec fn spec_record_poll(s: Session, p: PollOutcome) -> Session {
    if s.status == SessionStatus::Running {
        Session { user_id: s.user_id, tty_number: s.tty_number, status: spec_classify(p) }
    } else {
        s
    }
}

/// Folding a whole sequence of polls into a session, oldest first.
pub open spec fn spec_record_polls(s: Session, ps: Seq<PollOutcome>) -> Session
    decreases ps.len(),
{
    if ps.len() == 0 {
        s
    } else {
        spec_record_polls(spec_record_poll(s, ps[0]), ps.drop_first())
    }
}

impl Session {
    /// The last observed status.
    pub fn status(&self) -> (r: SessionStatus)
        ensures
            r == self.status,
    {
        self.status
    }

    /// Fold one poll outcome into the session. Transitions are one-directional
    /// and terminal: once the session has been observed as shut down or
    /// crashed, no poll changes it, and it never again reports `Running`.
    pub fn record_poll(&mut self, p: PollOutcome)
        ensures
            *final(self) == spec_record_poll(*old(self), p),
            old(self).status != SessionStatus::Running ==> final(self).status == old(self).status,
            final(self).status == SessionStatus::Running ==> old(self).status
                == SessionStatus::Running,
    {
        if self.status == SessionStatus::Running {
            self.status = classify_poll(p);
        }
    }
}

/// Law: status transitions are monotonic. After a poll has moved a session
/// out of `Running`, every later sequence of polls leaves it unchanged; in
/// particular it never again reports `Running`.
pub proof fn lemma_status_monotonic(s: Session, ps: Seq<PollOutcome>)
    requires
        s.status != SessionStatus::Running,
    ensures
        spec_record_polls(s, ps) == s,
    decreases ps.len(),
{
    if ps.len() > 0 {
        lemma_status_monotonic(spec_record_poll(s, ps[0]), ps.drop_first());
    }
}

/// Why a session could not be started.
#[derive(Clone, Copy, PartialEq, Eq, Structural, Debug)]
pub enum SessionError {
    /// The user is not authenticated; session start is never reachable
    /// without prior authentication.
    NotAuthenticated,
    /// Every terminal number in range is reserved or bound to a running
    /// session, or the chosen terminal device could not be opened.
    NoFreeTty,
    /// The session process could not be spawned.
    SpawnFailed,
}

/// What the caller reports back after acting on a session plan: it opens the
/// planned terminal, switches the seat to it, and only then spawns the
/// process, so that the process attaches to the correct terminal.
#[derive(Clone, Copy, PartialEq, Eq, Structural, Debug)]
pub enum SpawnOutcome {
    /// The terminal opened and the process spawned.
    Spawned,
    /// The planned terminal device could not be opened.
    TtyUnavailable,
    /// The process spawn failed.
    SpawnFailed,
}

/// The allocation a session start acts on: the authenticated user and the
/// terminal chosen for it.
#[derive(Clone, Copy, PartialEq, Eq, Structural, Debug)]
pub struct SessionPlan {
    pub user_id: u32,
    pub tty_number: u16,
}

/// What tearing a session down must do, given its last observed status and
/// the terminal currently active on the seat: a still-running process is
/// killed, and a warning is owed when the terminal being torn down is the one
/// presently shown to the user.
#[derive(Clone, Copy, PartialEq, Eq, Structural, Debug)]
pub struct TeardownActions {
    pub kill_process: bool,
    pub warn_active_tty: bool,
}

/// Decide the teardown actions for a session.
pub fn teardown_actions(status: SessionStatus, session_tty: u16, active_tty: u16) -> (r:
    TeardownActions)
    ensures
        r.kill_process == (status == SessionStatus::Running),
        r.warn_active_tty == (status == SessionStatus::Running && session_tty == active_tty),
{
    let running = match status {
        SessionStatus::Running => true,
        _ => false,
    };
    TeardownActions { kill_process: running, warn_active_tty: running && session_tty == active_tty }
}

/// The first session in `s` registered for `uid`, if any.
pub open spec fn spec_find(s: Seq<Session>, uid: u32) -> Option<Session>
    decreases s.len(),
{
    if s.len() == 0 {
        None
    } else if s[0].user_id == uid {
        Some(s[0])
    } else {
        spec_find(s.drop_first(), uid)
    }
}

/// Process-wide session registry: at most one session per authenticated user,
/// at most one running session per virtual terminal, and the greeter's own
/// terminal is never allocated.
pub struct SessionManager {
    sessions: Vec<Session>,
    tibs_tty: u16,
    desktop_environments: Vec<DesktopEnvironmentFile>,
}

impl SessionManager {
    /// The registered sessions, in registration order.
    pub closed spec fn spec_sessions(self) -> Seq<Session> {
        self.sessions@
    }

    /// The greeter's own terminal number, excluded from allocation.
    pub closed spec fn spec_tibs_tty(self) -> u16 {
        self.tibs_tty
    }

    /// The cached desktop-session descriptors.
    pub closed spec fn spec_desktop_environments(self) -> Seq<DesktopEnvironmentFile> {
        self.desktop_environments@
    }

    /// Registry invariant: users are registered at most once, no two running
    /// sessions share a terminal, and every running session's terminal is in
    /// range and distinct from the greeter's.
    pub open spec fn wf(self) -> bool {
        let s = self.spec_sessions();
        &&& forall|i: int, j: int|
            #![trigger s[i], s[j]]
            0 <= i < j < s.len() ==> s[i].user_id != s[j].user_id
        &&& forall|i: int, j: int|
            #![trigger s[i], s[j]]
            0 <= i < j < s.len() && s[i].status == SessionStatus::Running && s[j].status
                == SessionStatus::Running ==> s[i].tty_number != s[j].tty_number
        &&& forall|i: int|
            #![trigger s[i]]
            0 <= i < s.len() && s[i].status == SessionStatus::Running ==> s[i].tty_number
                != self.spec_tibs_tty() && s[i].tty_number < TTY_SCAN_LIMIT
    }

    /// The session registered for `uid`, if any.
    pub open spec fn spec_session_of(self, uid: u32) -> Option<Session> {
        spec_find(self.spec_sessions(), uid)
    }

    /// The status of the session registered for `uid`; absence of an entry is
    /// distinct from any known status.
    pub open spec fn spec_state_of(self, uid: u32) -> Option<SessionStatus> {
        match self.spec_session_of(uid) {
            Some(s) => Some(s.status),
            None => None,
        }
    }

    /// Whether terminal `t` is bound to a session last observed `Running`.
    pub open spec fn spec_tty_busy(self, t: u16) -> bool {
        exists|i: int|
            0 <= i < self.spec_sessions().len() && (#[trigger] self.spec_sessions()[i]).status
                == SessionStatus::Running && self.spec_sessions()[i].tty_number == t
    }

    /// Whether terminal `t` may be allocated: it is not the greeter's own and
    /// no running session holds it.
    pub open spec fn spec_tty_free(self, t: u16) -> bool {
        t != self.spec_tibs_tty() && !self.spec_tty_busy(t)
    }

    /// The first allocatable terminal number at or after `t`, if any.
    pub open spec fn spec_first_free_from(self, t: int) -> Option<u16>
        decreases TTY_SCAN_LIMIT as int - t,
    {
        if t < 0 || t >= TTY_SCAN_LIMIT as int {
            None
        } else if self.spec_tty_free(t as u16) {
            Some(t as u16)
        } else {
            self.spec_first_free_from(t + 1)
        }
    }

    /// The terminal a new session would be allocated: the lowest free number.
    pub open spec fn spec_first_free_tty(self) -> Option<u16> {
        self.spec_first_free_from(0)
    }

    /// A fresh registry: no sessions, the greeter's terminal as given, and
    /// the given descriptor cache.
    pub fn new(tibs_tty: u16, desktop_environments: Vec<DesktopEnvironmentFile>) -> (r:
        SessionManager)
        ensures
            r.wf(),
            r.spec_sessions() =~= Seq::<Session>::empty(),
            r.spec_tibs_tty() == tibs_tty,
            r.spec_desktop_environments() == desktop_environments@,
            forall|u: u32| r.spec_session_of(u) is None,
    {
        let r = SessionManager { sessions: Vec::new(), tibs_tty, desktop_environments };
        proof {
            assert(r.spec_sessions() =~= Seq::<Session>::empty());
        }
        r
    }

    /// Replace the cached desktop-session descriptor list.
    pub fn update_desktop_environments_cache(&mut self, list: Vec<DesktopEnvironmentFile>)
        ensures
            final(self).spec_desktop_environments() == list@,
            final(self).spec_sessions() == old(self).spec_sessions(),
            final(self).spec_tibs_tty() == old(self).spec_tibs_tty(),
    {
        self.desktop_environments = list;
    }

    /// The cached desktop-session descriptor list; refreshed only on explicit
    /// request.
    pub fn get_desktop_environments_list(&self) -> (r: &Vec<DesktopEnvironmentFile>)
        ensures
            r@ == self.spec_desktop_environments(),
    {
        &self.desktop_environments
    }

    /// The index of `uid` in the registry, if registered.
    fn find_index(&self, uid: u32) -> (r: Option<usize>)
        ensures
            match r {
                Some(i) => i < self.spec_sessions().len() && self.spec_sessions()[i as int].user_id
                    == uid && forall|k: int|
                    0 <= k < i ==> (#[trigger] self.spec_sessions()[k]).user_id != uid,
                None => forall|k: int|
                    0 <= k < self.spec_sessions().len() ==> (
                    #[trigger] self.spec_sessions()[k]).user_id != uid,
            },
    {
        let mut i: usize = 0;
        while i < self.sessions.len()
            invariant
                i <= self.sessions.len(),
                forall|k: int| 0 <= k < i ==> (#[trigger] self.spec_sessions()[k]).user_id != uid,
            decreases self.sessions.len() - i,
        {
            if self.sessions[i].user_id == uid {
                return Some(i);
            }
            i += 1;
        }
        None
    }

    /// Whether some running session holds terminal `t`.
    fn is_tty_busy(&self, t: u16) -> (r: bool)
        ensures
            r == self.spec_tty_busy(t),
    {
        let mut i: usize = 0;
        while i < self.sessions.len()
            invariant
                i <= self.sessions.len(),
                forall|k: int|
                    0 <= k < i ==> !((#[trigger] self.spec_sessions()[k]).status
                        == SessionStatus::Running && self.spec_sessions()[k].tty_number == t),
            decreases self.sessions.len() - i,
        {
            let s = self.sessions[i];
            if s.status() == SessionStatus::Running && s.tty_number == t {
                proof {
                    assert(self.spec_sessions()[i as int].status == SessionStatus::Running
                        && self.spec_sessions()[i as int].tty_number == t);
                }
                return true;
            }
            i += 1;
        }
        false
    }

    /// The lowest free terminal number, scanning `0 .. TTY_SCAN_LIMIT` and
    /// skipping the greeter's terminal and every terminal bound to a running
    /// session; `None` when the range is exhausted.
    pub fn next_tty(&self) -> (r: Option<u16>)
        ensures
            r == self.spec_first_free_tty(),
            match r {
                Some(t) => t < TTY_SCAN_LIMIT && self.spec_tty_free(t) && forall|u: u16|
                    u < t ==> !self.spec_tty_free(u),
                None => forall|u: u16| u < TTY_SCAN_LIMIT ==> !self.spec_tty_free(u),
            },
    {
        let mut t: u16 = 0;
        while t < TTY_SCAN_LIMIT
            invariant
                t <= TTY_SCAN_LIMIT,
                forall|u: u16| u < t ==> !self.spec_tty_free(u),
            decreases TTY_SCAN_LIMIT - t,
        {
            let busy = self.is_tty_busy(t);
            if t != self.tibs_tty && !busy {
                proof {
                    lemma_first_free_advance(*self, t as int);
                }
                return Some(t);
            }
            t += 1;
        }
        proof {
            lemma_first_free_advance(*self, TTY_SCAN_LIMIT as int);
        }
        None
    }

    /// Plan a session start for an authentication query result: `None` means
    /// the user is not authenticated, `Some(uid)` carries the resolved user
    /// id. On success the plan names the terminal the caller must open and
    /// switch to before spawning.
    pub fn plan_session(&self, auth: Option<u32>) -> (r: Result<SessionPlan, SessionError>)
        ensures
            match auth {
                None => r == Err::<SessionPlan, SessionError>(SessionError::NotAuthenticated),
                Some(uid) => match self.spec_first_free_tty() {
                    None => r == Err::<SessionPlan, SessionError>(SessionError::NoFreeTty),
                    Some(t) => r == Ok::<SessionPlan, SessionError>(
                        SessionPlan { user_id: uid, tty_number: t },
                    ),
                },
            },
    {
        let uid = match auth {
            Some(u) => u,
            None => {
                return Err(SessionError::NotAuthenticated);
            },
        };
        match self.next_tty() {
            Some(t) => Ok(SessionPlan { user_id: uid, tty_number: t }),
            None => Err(SessionError::NoFreeTty),
        }
    }

    /// Record the result of acting on the plan for `auth`: the caller opened
    /// the planned terminal, switched the seat to it, spawned the descriptor's
    /// command under the planned user id, and reports how that went.
    ///
    /// An unauthenticated request fails before any terminal is chosen and
    /// changes nothing; so does an exhausted terminal range, a terminal that
    /// would not open, and a failed spawn. Only a successful spawn registers
    /// the session, superseding any prior entry for the same user.
    pub fn start_session(&mut self, auth: Option<u32>, outcome: SpawnOutcome) -> (r: Result<
        SessionPlan,
        SessionError,
    >)
        requires
            old(self).wf(),
        ensures
            final(self).wf(),
            final(self).spec_tibs_tty() == old(self).spec_tibs_tty(),
            final(self).spec_desktop_environments() == old(self).spec_desktop_environments(),
            match auth {
                None => r == Err::<SessionPlan, SessionError>(SessionError::NotAuthenticated)
                    && *final(self) == *old(self),
                Some(uid) => match old(self).spec_first_free_tty() {
                    None => r == Err::<SessionPlan, SessionError>(SessionError::NoFreeTty)
                        && *final(self) == *old(self),
                    Some(t) => match outcome {
                        SpawnOutcome::TtyUnavailable => r == Err::<SessionPlan, SessionError>(
                            SessionError::NoFreeTty,
                        ) && *final(self) == *old(self),
                        SpawnOutcome::SpawnFailed => r == Err::<SessionPlan, SessionError>(
                            SessionError::SpawnFailed,
                        ) && *final(self) == *old(self),
                        SpawnOutcome::Spawned => {
                            &&& r == Ok::<SessionPlan, SessionError>(
                                SessionPlan { user_id: uid, tty_number: t },
                            )
                            &&& final(self).spec_session_of(uid) == Some(
                                Session {
                                    user_id: uid,
                                    tty_number: t,
                                    status: SessionStatus::Running,
                                },
                            )
                            &&& forall|u: u32|
                                u != uid ==> final(self).spec_session_of(u) == old(
                                    self,
                                ).spec_session_of(u)
                        },
                    },
                },
            },
    {
        let uid = match auth {
            Some(u) => u,
            None => {
                return Err(SessionError::NotAuthenticated);
            },
        };
        let t = match self.next_tty() {
            Some(t) => t,
            None => {
                return Err(SessionError::NoFreeTty);
            },
        };
        match outcome {
            SpawnOutcome::TtyUnavailable => Err(SessionError::NoFreeTty),
            SpawnOutcome::SpawnFailed => Err(SessionError::SpawnFailed),
            SpawnOutcome::Spawned => {
                let session = Session {
                    user_id: uid,
                    tty_number: t,
                    status: SessionStatus::Running,
                };
                self.insert_session(session);
                Ok(SessionPlan { user_id: uid, tty_number: t })
            },
        }
    }

    /// Register `session`, replacing any prior entry for its user. The
    /// session's terminal must be allocatable.
    fn insert_session(&mut self, session: Session)
        requires
            old(self).wf(),
            session.status == SessionStatus::Running,
            old(self).spec_tty_free(session.tty_number),
            session.tty_number < TTY_SCAN_LIMIT,
        ensures
            final(self).wf(),
            final(self).spec_tibs_tty() == old(self).spec_tibs_tty(),
            final(self).spec_desktop_environments() == old(self).spec_desktop_environments(),
            final(self).spec_session_of(session.user_id) == Some(session),
            forall|u: u32|
                u != session.user_id ==> final(self).spec_session_of(u) == old(
                    self,
                ).spec_session_of(u),
    {
        let ghost old_s: Seq<Session> = self.sessions@;
        match self.find_index(session.user_id) {
            Some(i) => {
                self.sessions.set(i, session);
                proof {
                    assert(self.sessions@ == old_s.update(i as int, session));
                    lemma_find_update(old_s, i as int, session);
                    assert forall|a: int, b: int|
                        #![trigger self.sessions@[a], self.sessions@[b]]
                        0 <= a < b < self.sessions@.len() implies self.sessions@[a].user_id
                        != self.sessions@[b].user_id by {
                        assert(old_s[a].user_id == self.sessions@[a].user_id);
                        assert(old_s[b].user_id == self.sessions@[b].user_id);
                    }
                    assert_sessions_wf_after_running_insert(
                        old_s,
                        self.sessions@,
                        i as int,
                        session,
                        self.tibs_tty,
                    );
                }
            },
            None => {
                self.sessions.push(session);
                proof {
                    assert(self.sessions@ == old_s.push(session));
                    lemma_find_push(old_s, session);
                    assert forall|a: int, b: int|
                        #![trigger self.sessions@[a], self.sessions@[b]]
                        0 <= a < b < self.sessions@.len() implies self.sessions@[a].user_id
                        != self.sessions@[b].user_id by {
                        assert(self.sessions@[a] == old_s[a]);
                        if b < old_s.len() {
                            assert(self.sessions@[b] == old_s[b]);
                        } else {
                            assert(self.sessions@[b] == session);
                            assert(old_s[a].user_id != session.user_id);
                        }
                    }
                    assert_sessions_wf_after_running_insert(
                        old_s,
                        self.sessions@,
                        old_s.len() as int,
                        session,
                        self.tibs_tty,
                    );
                }
            },
        }
    }

    /// Fold a poll outcome for `uid`'s session into the registry. Unknown
    /// users change nothing; a known session changes only as its own
    /// one-directional transitions allow.
    pub fn record_poll(&mut self, uid: u32, p: PollOutcome)
        requires
            old(self).wf(),
        ensures
            final(self).wf(),
            final(self).spec_tibs_tty() == old(self).spec_tibs_tty(),
            final(self).spec_desktop_environments() == old(self).spec_desktop_environments(),
            match old(self).spec_session_of(uid) {
                None => *final(self) == *old(self),
                Some(s) => final(self).spec_session_of(uid) == Some(spec_record_poll(s, p))
                    && forall|u: u32|
                    u != uid ==> final(self).spec_session_of(u) == old(self).spec_session_of(u),
            },
    {
        let ghost old_s: Seq<Session> = self.sessions@;
        match self.find_index(uid) {
            Some(i) => {
                let mut s = self.sessions[i];
                proof {
                    lemma_find_at_index(old_s, i as int);
                }
                s.record_poll(p);
                self.sessions.set(i, s);
                proof {
                    assert(self.sessions@ == old_s.update(i as int, s));
                    lemma_find_update(old_s, i as int, s);
                    assert forall|a: int, b: int|
                        #![trigger self.sessions@[a], self.sessions@[b]]
                        0 <= a < b < self.sessions@.len() implies self.sessions@[a].user_id
                        != self.sessions@[b].user_id by {
                        assert(old_s[a].user_id == self.sessions@[a].user_id);
                        assert(old_s[b].user_id == self.sessions@[b].user_id);
                    }
                    assert forall|a: int, b: int|
                        #![trigger self.sessions@[a], self.sessions@[b]]
                        0 <= a < b < self.sessions@.len() && self.sessions@[a].status
                            == SessionStatus::Running && self.sessions@[b].status
                            == SessionStatus::Running implies self.sessions@[a].tty_number
                        != self.sessions@[b].tty_number by {
                        assert(self.sessions@[a].status == SessionStatus::Running
                            ==> old_s[a].status == SessionStatus::Running && old_s[a].tty_number
                            == self.sessions@[a].tty_number);
                        assert(self.sessions@[b].status == SessionStatus::Running
                            ==> old_s[b].status == SessionStatus::Running && old_s[b].tty_number
                            == self.sessions@[b].tty_number);
                    }
                    assert forall|a: int|
                        #![trigger self.sessions@[a]]
                        0 <= a < self.sessions@.len() && self.sessions@[a].status
                            == SessionStatus::Running implies self.sessions@[a].tty_number
                        != self.tibs_tty && self.sessions@[a].tty_number < TTY_SCAN_LIMIT by {
                        assert(self.sessions@[a].status == SessionStatus::Running
                            ==> old_s[a].status == SessionStatus::Running && old_s[a].tty_number
                            == self.sessions@[a].tty_number);
                    }
                }
            },
            None => {
                proof {
                    lemma_find_none(old_s, uid);
                }
            },
        }
    }

    /// The status of `uid`'s session, or `None` when no session is tracked
    /// for that user.
    pub fn get_session_state_of_user(&self, uid: u32) -> (r: Option<SessionStatus>)
        ensures
            r == self.spec_state_of(uid),
    {
        match self.find_index(uid) {
            Some(i) => {
                proof {
                    lemma_find_at_index(self.spec_sessions(), i as int);
                }
                Some(self.sessions[i].status())
            },
            None => {
                proof {
                    lemma_find_none(self.spec_sessions(), uid);
                }
                None
            },
        }
    }

    /// Whether `uid`'s tracked session was last observed `Running`.
    pub fn is_running(&self, uid: u32) -> (r: bool)
        ensures
            r == (self.spec_state_of(uid) == Some(SessionStatus::Running)),
    {
        match self.get_session_state_of_user(uid) {
            Some(SessionStatus::Running) => true,
            _ => false,
        }
    }

    /// Whether `uid`'s tracked session was last observed `Crashed`.
    pub fn has_crashed(&self, uid: u32) -> (r: bool)
        ensures
            r == (self.spec_state_of(uid) == Some(SessionStatus::Crashed)),
    {
        match self.get_session_state_of_user(uid) {
            Some(SessionStatus::Crashed) => true,
            _ => false,
        }
    }
}

/// The running-terminal clauses of the invariant hold again after placing a
/// running session on a free terminal at position `i` (an overwrite of the
/// user's old entry, or an append when `i` is the old length).
proof fn assert_sessions_wf_after_running_insert(
    old_s: Seq<Session>,
    new_s: Seq<Session>,
    i: int,
    session: Session,
    tibs_tty: u16,
)
    requires
        0 <= i <= old_s.len(),
        i < old_s.len() ==> new_s == old_s.update(i, session),
        i == old_s.len() ==> new_s == old_s.push(session),
        session.status == SessionStatus::Running,
        session.tty_number != tibs_tty,
        session.tty_number < TTY_SCAN_LIMIT,
        !(exists|k: int|
            0 <= k < old_s.len() && (#[trigger] old_s[k]).status == SessionStatus::Running
                && old_s[k].tty_number == session.tty_number),
        forall|a: int, b: int|
            #![trigger old_s[a], old_s[b]]
            0 <= a < b < old_s.len() && old_s[a].status == SessionStatus::Running && old_s[b].status
                == SessionStatus::Running ==> old_s[a].tty_number != old_s[b].tty_number,
        forall|a: int|
            #![trigger old_s[a]]
            0 <= a < old_s.len() && old_s[a].status == SessionStatus::Running ==> old_s[a].tty_number
                != tibs_tty && old_s[a].tty_number < TTY_SCAN_LIMIT,
    ensures
        forall|a: int, b: int|
            #![trigger new_s[a], new_s[b]]
            0 <= a < b < new_s.len() && new_s[a].status == SessionStatus::Running && new_s[b].status
                == SessionStatus::Running ==> new_s[a].tty_number != new_s[b].tty_number,
        forall|a: int|
            #![trigger new_s[a]]
            0 <= a < new_s.len() && new_s[a].status == SessionStatus::Running ==> new_s[a].tty_number
                != tibs_tty && new_s[a].tty_number < TTY_SCAN_LIMIT,
{
    assert forall|a: int|
        #![trigger new_s[a]]
        0 <= a < new_s.len() && new_s[a].status == SessionStatus::Running implies new_s[a].tty_number
        != tibs_tty && new_s[a].tty_number < TTY_SCAN_LIMIT by {
        if a != i {
            assert(new_s[a] == old_s[a]);
        }
    }
    assert forall|a: int, b: int|
        #![trigger new_s[a], new_s[b]]
        0 <= a < b < new_s.len() && new_s[a].status == SessionStatus::Running && new_s[b].status
            == SessionStatus::Running implies new_s[a].tty_number != new_s[b].tty_number by {
        if a != i && b != i {
            assert(new_s[a] == old_s[a]);
            assert(new_s[b] == old_s[b]);
        } else if a == i && b != i {
            assert(new_s[b] == old_s[b]);
            assert(!(old_s[b].status == SessionStatus::Running && old_s[b].tty_number
                == session.tty_number));
        } else if b == i && a != i {
            assert(new_s[a] == old_s[a]);
            assert(!(old_s[a].status == SessionStatus::Running && old_s[a].tty_number
                == session.tty_number));
        }
    }
}

/// `spec_find` at an index whose user id appears nowhere earlier.
proof fn lemma_find_at_index(s: Seq<Session>, i: int)
    requires
        0 <= i < s.len(),
        forall|k: int| 0 <= k < i ==> (#[trigger] s[k]).user_id != s[i].user_id,
    ensures
        spec_find(s, s[i].user_id) == Some(s[i]),
    decreases i,
{
    if i > 0 {
        let tail = s.drop_first();
        assert forall|k: int| 0 <= k < i - 1 implies (#[trigger] tail[k]).user_id
            != tail[i - 1].user_id by {
            assert(tail[k] == s[k + 1]);
        }
        assert(tail[i - 1] == s[i]);
        lemma_find_at_index(tail, i - 1);
    }
}

/// `spec_find` misses a user id that appears nowhere.
proof fn lemma_find_none(s: Seq<Session>, uid: u32)
    requires
        forall|k: int| 0 <= k < s.len() ==> (#[trigger] s[k]).user_id != uid,
    ensures
        spec_find(s, uid) is None,
    decreases s.len(),
{
    if s.len() > 0 {
        let tail = s.drop_first();
        assert forall|k: int| 0 <= k < tail.len() implies (#[trigger] tail[k]).user_id != uid by {
            assert(tail[k] == s[k + 1]);
        }
        lemma_find_none(tail, uid);
    }
}

/// Overwriting the first entry of a user id with a session of the same user
/// id changes that user's `spec_find` and no other's.
proof fn lemma_find_update(s: Seq<Session>, i: int, v: Session)
    requires
        0 <= i < s.len(),
        s[i].user_id == v.user_id,
        forall|k: int| 0 <= k < i ==> (#[trigger] s[k]).user_id != v.user_id,
    ensures
        spec_find(s.update(i, v), v.user_id) == Some(v),
        forall|u: u32| u != v.user_id ==> spec_find(s.update(i, v), u) == spec_find(s, u),
    decreases i,
{
    let s2 = s.update(i, v);
    if i == 0 {
        assert(s2[0] == v);
        assert(s2.drop_first() =~= s.drop_first());
        assert forall|u: u32| u != v.user_id implies spec_find(s2, u) == spec_find(s, u) by {
            assert(spec_find(s2, u) == spec_find(s2.drop_first(), u));
            assert(spec_find(s, u) == spec_find(s.drop_first(), u));
        }
    } else {
        let tail = s.drop_first();
        assert(s2[0] == s[0]);
        assert(s2.drop_first() =~= tail.update(i - 1, v));
        assert forall|k: int| 0 <= k < i - 1 implies (#[trigger] tail[k]).user_id != v.user_id by {
            assert(tail[k] == s[k + 1]);
        }
        assert(tail[i - 1] == s[i]);
        lemma_find_update(tail, i - 1, v);
        assert(spec_find(s2, v.user_id) == spec_find(tail.update(i - 1, v), v.user_id));
        assert forall|u: u32| u != v.user_id implies spec_find(s2, u) == spec_find(s, u) by {
            if s[0].user_id == u {
                assert(spec_find(s2, u) == Some(s2[0]));
                assert(spec_find(s, u) == Some(s[0]));
            } else {
                assert(spec_find(s2, u) == spec_find(tail.update(i - 1, v), u));
                assert(spec_find(s, u) == spec_find(tail, u));
            }
        }
    }
}

/// Appending a session for a user id that appears nowhere registers that
/// user and changes no other's `spec_find`.
proof fn lemma_find_push(s: Seq<Session>, v: Session)
    requires
        forall|k: int| 0 <= k < s.len() ==> (#[trigger] s[k]).user_id != v.user_id,
    ensures
        spec_find(s.push(v), v.user_id) == Some(v),
        forall|u: u32| u != v.user_id ==> spec_find(s.push(v), u) == spec_find(s, u),
    decreases s.len(),
{
    let s2 = s.push(v);
    if s.len() == 0 {
        assert(s2[0] == v);
        assert(s2.drop_first() =~= Seq::<Session>::empty());
        assert forall|u: u32| u != v.user_id implies spec_find(s2, u) == spec_find(s, u) by {
            assert(spec_find(s2, u) == spec_find(s2.drop_first(), u));
        }
    } else {
        let tail = s.drop_first();
        assert(s2[0] == s[0]);
        assert(s2.drop_first() =~= tail.push(v));
        assert forall|k: int| 0 <= k < tail.len() implies (#[trigger] tail[k]).user_id
            != v.user_id by {
            assert(tail[k] == s[k + 1]);
        }
        lemma_find_push(tail, v);
        assert forall|u: u32| u != v.user_id implies spec_find(s2, u) == spec_find(s, u) by {
            if s[0].user_id == u {
                assert(spec_find(s2, u) == Some(s2[0]));
                assert(spec_find(s, u) == Some(s[0]));
            } else {
                assert(spec_find(s2, u) == spec_find(tail.push(v), u));
                assert(spec_find(s, u) == spec_find(tail, u));
            }
        }
    }
}

/// A found session carries its user id and stands somewhere in the registry.
proof fn lemma_find_some_witness(s: Seq<Session>, u: u32)
    requires
        spec_find(s, u) is Some,
    ensures
        spec_find(s, u)->0.user_id == u,
        exists|i: int| 0 <= i < s.len() && #[trigger] s[i] == spec_find(s, u)->0,
    decreases s.len(),
{
    if s.len() > 0 {
        if s[0].user_id == u {
            assert(s[0] == spec_find(s, u)->0);
        } else {
            let tail = s.drop_first();
            lemma_find_some_witness(tail, u);
            let j = choose|j: int| 0 <= j < tail.len() && #[trigger] tail[j] == spec_find(tail, u)->0;
            assert(s[j + 1] == spec_find(s, u)->0);
        }
    }
}

/// All terminal numbers below `t` are unallocatable, so the first free
/// terminal overall is the first free one at or after `t`.
proof fn lemma_first_free_advance(m: SessionManager, t: int)
    requires
        0 <= t <= TTY_SCAN_LIMIT as int,
        forall|u: u16| (u as int) < t ==> !m.spec_tty_free(u),
    ensures
        m.spec_first_free_tty() == m.spec_first_free_from(t),
    decreases t,
{
    if t > 0 {
        lemma_first_free_advance(m, t - 1);
        assert(!m.spec_tty_free((t - 1) as u16));
    }
}

/// Law: two users' concurrently running sessions never share a virtual
/// terminal, and a running session never holds the greeter's own terminal;
/// its terminal is always in scanning range. This holds of every well-formed
/// registry, and every operation preserves well-formedness.
pub proof fn lemma_running_sessions_exclusive(
    m: SessionManager,
    u1: u32,
    u2: u32,
    s1: Session,
    s2: Session,
)
    requires
        m.wf(),
        u1 != u2,
        m.spec_session_of(u1) == Some(s1),
        s1.status == SessionStatus::Running,
        m.spec_session_of(u2) == Some(s2),
        s2.status == SessionStatus::Running,
    ensures
        s1.tty_number != s2.tty_number,
        s1.tty_number != m.spec_tibs_tty(),
        s1.tty_number < TTY_SCAN_LIMIT,
{
    let s = m.spec_sessions();
    lemma_find_some_witness(s, u1);
    lemma_find_some_witness(s, u2);
    let i = choose|i: int| 0 <= i < s.len() && #[trigger] s[i] == spec_find(s, u1)->0;
    let j = choose|j: int| 0 <= j < s.len() && #[trigger] s[j] == spec_find(s, u2)->0;
    assert(s[i] == s1);
    assert(s[j] == s2);
    assert(s1.user_id == u1);
    assert(s2.user_id == u2);
    assert(i != j);
}

} // verus!
