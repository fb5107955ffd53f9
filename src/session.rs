//! The lifecycle of a scoped session, as a state machine.
//!
//! The session does no I/O. Each step hands back the next [`Action`] that the
//! caller performs against the service; the caller reports how it went, and
//! the session decides what comes next. A workspace is acquired by connecting,
//! signing in and selecting its namespace, queried while ready, and released
//! by removing the namespace, after which the session serves no query.

use vstd::prelude::*;
use crate::ident::{hex_of, is_random_v4, lemma_simple_injective, lemma_simple_len, WorkspaceId};
use crate::statements::{remove_namespace_statement, remove_namespace_text};

verus! {

/// What went wrong, by the step that failed.
#[derive(Clone, Copy, Debug, PartialEq, Eq, Structural)]
pub enum ErrorKind {
    /// The service could not be reached.
    Connection,
    /// The service refused the credentials.
    Authentication,
    /// Selecting the namespace and database failed.
    ContextSwitch,
    /// A query failed.
    Query,
    /// Removing the namespace failed; the workspace may be left behind.
    Cleanup,
    /// The session is not ready: not yet open, released, or failed.
    Unavailable,
}

/// Where a session stands.
#[derive(Clone, Copy, Debug, PartialEq, Eq, Structural)]
pub enum Phase {
    Connecting,
    SigningIn,
    SelectingScope,
    Ready,
    Querying,
    Releasing,
    Released,
    Failed(ErrorKind),
}

/// What the caller is to do next.
#[derive(Clone, Copy, Debug, PartialEq, Eq, Structural)]
pub enum Action {
    /// Connect to the service at the fixed endpoint.
    Connect,
    /// Sign in with the root credentials.
    SignIn,
    /// Select the session's namespace and the fixed database.
    UseScope,
    /// Run the caller's query.
    RunQuery,
    /// Run the statement that removes the session's namespace.
    RemoveNamespace,
    /// Nothing is pending.
    Idle,
    /// Surface this error; a cleanup failure is fatal.
    Fail(ErrorKind),
}

/// What happens to a session: the outcome of the pending operation, or a
/// request to query or to release.
#[derive(Clone, Copy, Debug, PartialEq, Eq, Structural)]
pub enum Event {
    Outcome(bool),
    Query,
    Release,
}

/// Whether a session in phase `p` grants a query or a release.
pub open spec fn is_ready(p: Phase) -> bool {
    p == Phase::Ready
}

/// The phase that follows `p` on event `e`.
pub open spec fn next_phase(p: Phase, e: Event) -> Phase {
    match e {
        Event::Outcome(ok) => match p {
            Phase::Connecting => if ok { Phase::SigningIn } else { Phase::Failed(ErrorKind::Connection) },
            Phase::SigningIn => if ok { Phase::SelectingScope } else { Phase::Failed(ErrorKind::Authentication) },
            Phase::SelectingScope => if ok { Phase::Ready } else { Phase::Failed(ErrorKind::ContextSwitch) },
            Phase::Querying => Phase::Ready,
            Phase::Releasing => if ok { Phase::Released } else { Phase::Failed(ErrorKind::Cleanup) },
            _ => p,
        },
        Event::Query => if p == Phase::Ready { Phase::Querying } else { p },
        Event::Release => if p == Phase::Ready { Phase::Releasing } else { p },
    }
}

/// The action that follows the outcome `ok` of the operation pending in `p`.
pub open spec fn outcome_action(p: Phase, ok: bool) -> Action {
    match p {
        Phase::Connecting => if ok { Action::SignIn } else { Action::Fail(ErrorKind::Connection) },
        Phase::SigningIn => if ok { Action::UseScope } else { Action::Fail(ErrorKind::Authentication) },
        Phase::SelectingScope => if ok { Action::Idle } else { Action::Fail(ErrorKind::ContextSwitch) },
        Phase::Querying => if ok { Action::Idle } else { Action::Fail(ErrorKind::Query) },
        Phase::Releasing => if ok { Action::Idle } else { Action::Fail(ErrorKind::Cleanup) },
        _ => Action::Idle,
    }
}

/// The phase reached from `p` through the events `es`, in order.
pub open spec fn run(p: Phase, es: Seq<Event>) -> Phase
    decreases es.len(),
{
    if es.len() == 0 {
        p
    } else {
        run(next_phase(p, es[0]), es.drop_first())
    }
}

/// A session scoped to one workspace.
pub struct ScopedSession {
    id: WorkspaceId,
    phase: Phase,
}

impl ScopedSession {
    pub closed spec fn spec_id(&self) -> WorkspaceId {
        self.id
    }

    pub closed spec fn spec_phase(&self) -> Phase {
        self.phase
    }

    /// Starts acquiring the workspace named by `id`: the first action is to connect.
    pub fn acquire(id: WorkspaceId) -> (r: (ScopedSession, Action))
        ensures
            r.0.spec_id() == id,
            r.0.spec_phase() == Phase::Connecting,
            r.1 == Action::Connect,
    {
        (ScopedSession { id, phase: Phase::Connecting }, Action::Connect)
    }

    /// Starts acquiring a workspace under a freshly generated identifier.
    pub fn acquire_fresh() -> (r: (ScopedSession, Action))
        ensures
            is_random_v4(r.0.spec_id()@),
            r.0.spec_phase() == Phase::Connecting,
            r.1 == Action::Connect,
    {
        ScopedSession::acquire(WorkspaceId::generate())
    }

    /// Takes the outcome of the pending operation and says what comes next.
    pub fn on_outcome(&mut self, ok: bool) -> (r: Action)
        ensures
            final(self).spec_id() == old(self).spec_id(),
            final(self).spec_phase() == next_phase(old(self).spec_phase(), Event::Outcome(ok)),
            r == outcome_action(old(self).spec_phase(), ok),
    {
        let (phase, action) = match self.phase {
            Phase::Connecting => if ok {
                (Phase::SigningIn, Action::SignIn)
            } else {
                (Phase::Failed(ErrorKind::Connection), Action::Fail(ErrorKind::Connection))
            },
            Phase::SigningIn => if ok {
                (Phase::SelectingScope, Action::UseScope)
            } else {
                (Phase::Failed(ErrorKind::Authentication), Action::Fail(ErrorKind::Authentication))
            },
            Phase::SelectingScope => if ok {
                (Phase::Ready, Action::Idle)
            } else {
                (Phase::Failed(ErrorKind::ContextSwitch), Action::Fail(ErrorKind::ContextSwitch))
            },
            Phase::Querying => if ok {
                (Phase::Ready, Action::Idle)
            } else {
                (Phase::Ready, Action::Fail(ErrorKind::Query))
            },
            Phase::Releasing => if ok {
                (Phase::Released, Action::Idle)
            } else {
                (Phase::Failed(ErrorKind::Cleanup), Action::Fail(ErrorKind::Cleanup))
            },
            other => (other, Action::Idle),
        };
        self.phase = phase;
        action
    }

    /// Asks to run a query: granted only while the session is ready.
    pub fn query(&mut self) -> (r: Result<Action, ErrorKind>)
        ensures
            final(self).spec_id() == old(self).spec_id(),
            final(self).spec_phase() == next_phase(old(self).spec_phase(), Event::Query),
            r == (if is_ready(old(self).spec_phase()) {
                Ok::<Action, ErrorKind>(Action::RunQuery)
            } else {
                Err::<Action, ErrorKind>(ErrorKind::Unavailable)
            }),
    {
        if self.phase == Phase::Ready {
            self.phase = Phase::Querying;
            Ok(Action::RunQuery)
        } else {
            Err(ErrorKind::Unavailable)
        }
    }

    /// Asks to release the workspace: granted only while the session is ready.
    pub fn release(&mut self) -> (r: Result<Action, ErrorKind>)
        ensures
            final(self).spec_id() == old(self).spec_id(),
            final(self).spec_phase() == next_phase(old(self).spec_phase(), Event::Release),
            r == (if is_ready(old(self).spec_phase()) {
                Ok::<Action, ErrorKind>(Action::RemoveNamespace)
            } else {
                Err::<Action, ErrorKind>(ErrorKind::Unavailable)
            }),
    {
        if self.phase == Phase::Ready {
            self.phase = Phase::Releasing;
            Ok(Action::RemoveNamespace)
        } else {
            Err(ErrorKind::Unavailable)
        }
    }

    /// The identifier of the session's workspace.
    pub fn id(&self) -> (r: WorkspaceId)
        ensures
            r == self.spec_id(),
    {
        self.id
    }

    /// Where the session stands.
    pub fn phase(&self) -> (r: Phase)
        ensures
            r == self.spec_phase(),
    {
        self.phase
    }

    /// The namespace that the session selects: its identifier in hex.
    pub fn namespace(&self) -> (r: String)
        ensures
            r@ == hex_of(self.spec_id()@),
    {
        self.id.simple()
    }

    /// The statement that removes the session's namespace.
    pub fn removal_statement(&self) -> (r: String)
        ensures
            r@ == remove_namespace_text(hex_of(self.spec_id()@)),
    {
        remove_namespace_statement(&self.id)
    }
}

/// Once a release has gone through, the session stays released whatever
/// happens next, and refuses every query and every further release.
pub proof fn lemma_no_query_after_release(es: Seq<Event>)
    ensures
        run(next_phase(next_phase(Phase::Ready, Event::Release), Event::Outcome(true)), es)
            == Phase::Released,
        !is_ready(
            run(next_phase(next_phase(Phase::Ready, Event::Release), Event::Outcome(true)), es),
        ),
    decreases es.len(),
{
    if es.len() > 0 {
        lemma_no_query_after_release(es.drop_first());
    }
}

/// Acquiring and then releasing at once, with every operation succeeding,
/// ends released and asks for no error to be surfaced on the way.
pub proof fn lemma_acquire_then_release()
    ensures
        run(
            Phase::Connecting,
            seq![Event::Outcome(true), Event::Outcome(true), Event::Outcome(true), Event::Release, Event::Outcome(true)],
        ) == Phase::Released,
        outcome_action(Phase::Connecting, true) == Action::SignIn,
        outcome_action(Phase::SigningIn, true) == Action::UseScope,
        outcome_action(Phase::SelectingScope, true) == Action::Idle,
        outcome_action(Phase::Releasing, true) == Action::Idle,
{
    let es = seq![Event::Outcome(true), Event::Outcome(true), Event::Outcome(true), Event::Release, Event::Outcome(true)];
    assert(es.drop_first().drop_first().drop_first().drop_first().drop_first() =~= Seq::<Event>::empty());
    assert(run(Phase::Released, Seq::<Event>::empty()) == Phase::Released);
    assert(run(Phase::Releasing, es.drop_first().drop_first().drop_first().drop_first()) == Phase::Released);
    assert(run(Phase::Ready, es.drop_first().drop_first().drop_first()) == Phase::Released);
    assert(run(Phase::SelectingScope, es.drop_first().drop_first()) == Phase::Released);
    assert(run(Phase::SigningIn, es.drop_first()) == Phase::Released);
}

/// Sessions over distinct identifiers select distinct namespaces and remove
/// distinct namespaces: neither release touches the other's workspace.
pub proof fn lemma_sessions_disjoint(a: ScopedSession, b: ScopedSession)
    requires
        a.spec_id()@ != b.spec_id()@,
    ensures
        hex_of(a.spec_id()@) != hex_of(b.spec_id()@),
        remove_namespace_text(hex_of(a.spec_id()@)) != remove_namespace_text(hex_of(b.spec_id()@)),
{
    lemma_simple_injective(a.spec_id(), b.spec_id());
    let (x, y) = (hex_of(a.spec_id()@), hex_of(b.spec_id()@));
    if remove_namespace_text(x) == remove_namespace_text(y) {
        let k: int = "REMOVE NAMESPACE "@.len() as int;
        lemma_simple_len(a.spec_id());
        lemma_simple_len(b.spec_id());
        assert(x =~= remove_namespace_text(x).subrange(k, k + x.len()));
        assert(y =~= remove_namespace_text(y).subrange(k, k + y.len()));
    }
}

} // verus!
