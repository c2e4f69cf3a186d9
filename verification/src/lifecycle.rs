use vstd::prelude::*;

use crate::control::lookup;
use crate::error::TerminalError;

verus! {

/// An operation that changes the registry.
pub enum Change<S> {
    /// A session came up and was registered under `id`.
    Created { id: Seq<char>, session: S },
    /// A write found the session `id` and left it as `session`.
    Written { id: Seq<char>, session: S },
    /// The session `id` was killed.
    Killed { id: Seq<char> },
}

impl<S> Change<S> {
    /// The identifier that the change is about.
    pub open spec fn id(self) -> Seq<char> {
        match self {
            Change::Created { id, .. } => id,
            Change::Written { id, .. } => id,
            Change::Killed { id } => id,
        }
    }

    /// The change registers a session under `id`.
    pub open spec fn creates(self, id: Seq<char>) -> bool {
        self is Created && self.id() == id
    }

    /// The change kills the session `id`.
    pub open spec fn kills(self, id: Seq<char>) -> bool {
        self is Killed && self.id() == id
    }
}

/// The registry after one change: what `terminal_create` does to it for a session that
/// came up, what `terminal_write` does to it, and what `terminal_kill` does to it. A resize,
/// a refused write and a failed create leave it as it is.
pub open spec fn apply<S>(sessions: Map<Seq<char>, S>, change: Change<S>) -> Map<Seq<char>, S> {
    match change {
        Change::Created { id, session } => sessions.insert(id, session),
        Change::Written { id, session } => if sessions.contains_key(id) {
            sessions.insert(id, session)
        } else {
            sessions
        },
        Change::Killed { id } => sessions.remove(id),
    }
}

/// The registry after a history of changes, begun empty.
pub open spec fn replay<S>(history: Seq<Change<S>>) -> Map<Seq<char>, S>
    decreases history.len(),
{
    if history.len() == 0 {
        Map::empty()
    } else {
        apply(replay(history.drop_last()), history.last())
    }
}

/// The session `id` was created at some point of `history` and not killed since.
pub open spec fn created_and_not_killed<S>(history: Seq<Change<S>>, id: Seq<char>) -> bool {
    exists|i: int|
        0 <= i < history.len() && #[trigger] history[i].creates(id) && forall|j: int|
            i < j < history.len() ==> !(#[trigger] history[j].kills(id))
}

/// No two changes of `history` are about the same identifier.
pub open spec fn identifiers_never_reused<S>(history: Seq<Change<S>>) -> bool {
    forall|i: int, j: int|
        0 <= i < j < history.len() ==> (#[trigger] history[i]).id() != (#[trigger] history[j]).id()
}

/// A session that has just been registered is found by a write, a resize and a kill under
/// its identifier, and every other identifier names what it named before. Where the
/// identifier was not in use, no live session is displaced: killing the new session gives
/// the registry back as it was.
pub proof fn created_session_is_usable<S>(sessions: Map<Seq<char>, S>, id: Seq<char>, session: S)
    ensures
        lookup(sessions.insert(id, session), id) == Ok::<S, TerminalError>(session),
        sessions.insert(id, session).get(id) == Some(session),
        forall|other: Seq<char>|
            other != id ==> #[trigger] lookup(sessions.insert(id, session), other) == lookup(
                sessions,
                other,
            ),
        !sessions.contains_key(id) ==> sessions.insert(id, session).remove(id) == sessions,
{
    if !sessions.contains_key(id) {
        assert(sessions.insert(id, session).remove(id) =~= sessions);
    }
}

/// A write or a resize is refused as unknown exactly for an identifier that no earlier
/// create registered, or that was killed since it was last created.
pub proof fn unknown_unless_created_and_not_killed<S>(history: Seq<Change<S>>, id: Seq<char>)
    ensures
        replay(history).contains_key(id) <==> created_and_not_killed(history, id),
        !created_and_not_killed(history, id) ==> lookup(replay(history), id) == Err::<
            S,
            TerminalError,
        >(TerminalError::UnknownSession),
        created_and_not_killed(history, id) ==> lookup(replay(history), id) is Ok,
    decreases history.len(),
{
    if history.len() > 0 {
        let earlier = history.drop_last();
        let last = history.last();
        let n = history.len() - 1;
        unknown_unless_created_and_not_killed(earlier, id);
        if last.creates(id) {
            assert(history[n].creates(id));
            assert(created_and_not_killed(history, id));
        } else if last.kills(id) {
            assert(history[n].kills(id));
            if created_and_not_killed(history, id) {
                let i = choose|i: int|
                    0 <= i < history.len() && #[trigger] history[i].creates(id) && forall|j: int|
                        i < j < history.len() ==> !(#[trigger] history[j].kills(id));
                assert(i < n);
                assert(history[n].kills(id));
            }
        } else {
            assert(replay(history).contains_key(id) == replay(earlier).contains_key(id));
            if created_and_not_killed(earlier, id) {
                let i = choose|i: int|
                    0 <= i < earlier.len() && #[trigger] earlier[i].creates(id) && forall|j: int|
                        i < j < earlier.len() ==> !(#[trigger] earlier[j].kills(id));
                assert(history[i].creates(id));
                assert forall|j: int| i < j < history.len() implies !(#[trigger] history[j].kills(
                    id,
                )) by {
                    if j < n {
                        assert(earlier[j] == history[j]);
                    }
                }
                assert(created_and_not_killed(history, id));
            }
            if created_and_not_killed(history, id) {
                let i = choose|i: int|
                    0 <= i < history.len() && #[trigger] history[i].creates(id) && forall|j: int|
                        i < j < history.len() ==> !(#[trigger] history[j].kills(id));
                assert(i < n);
                assert(earlier[i].creates(id));
                assert forall|j: int| i < j < earlier.len() implies !(#[trigger] earlier[j].kills(
                    id,
                )) by {
                    assert(earlier[j] == history[j]);
                }
                assert(created_and_not_killed(earlier, id));
            }
        }
    }
}

/// Killing a session a second time changes nothing and finds no session to terminate, and
/// a write or a resize after the kill is refused as unknown.
pub proof fn kill_is_idempotent<S>(sessions: Map<Seq<char>, S>, id: Seq<char>)
    ensures
        sessions.remove(id).remove(id) == sessions.remove(id),
        sessions.remove(id).get(id) is None,
        lookup(sessions.remove(id), id) == Err::<S, TerminalError>(TerminalError::UnknownSession),
{
    assert(sessions.remove(id).remove(id) =~= sessions.remove(id));
}

/// What happens to one session leaves every other session as it was.
pub proof fn sessions_are_independent<S>(
    sessions: Map<Seq<char>, S>,
    change: Change<S>,
    other: Seq<char>,
)
    requires
        change.id() != other,
    ensures
        lookup(apply(sessions, change), other) == lookup(sessions, other),
{
}

/// Sessions that are created under identifiers of which none is used twice are all live
/// side by side: with nothing but creates, as many sessions are live as were created, and
/// each identifier names the session that was created under it.
pub proof fn creates_yield_distinct_sessions<S>(history: Seq<Change<S>>)
    requires
        identifiers_never_reused(history),
        forall|i: int| 0 <= i < history.len() ==> #[trigger] history[i] is Created,
    ensures
        replay(history).dom().finite(),
        replay(history).dom().len() == history.len(),
        forall|i: int|
            0 <= i < history.len() ==> #[trigger] replay(history).get(history[i].id()) == Some(
                history[i]->Created_session,
            ),
    decreases history.len(),
{
    if history.len() > 0 {
        let earlier = history.drop_last();
        let last = history.last();
        let n = history.len() - 1;
        assert forall|i: int, j: int| 0 <= i < j < earlier.len() implies (#[trigger] earlier[i]).id()
            != (#[trigger] earlier[j]).id() by {
            assert(history[i].id() != history[j].id());
        }
        assert forall|i: int| 0 <= i < earlier.len() implies #[trigger] earlier[i] is Created by {
            assert(history[i] is Created);
        }
        creates_yield_distinct_sessions(earlier);
        let id = last.id();
        assert(history[n] is Created);
        assert(!replay(earlier).contains_key(id)) by {
            unknown_unless_created_and_not_killed(earlier, id);
            if created_and_not_killed(earlier, id) {
                let i = choose|i: int| 0 <= i < earlier.len() && #[trigger] earlier[i].creates(id);
                assert(history[i].id() != history[n].id());
            }
        }
        assert(replay(history).dom() =~= replay(earlier).dom().insert(id));
        assert forall|i: int| 0 <= i < history.len() implies #[trigger] replay(history).get(
            history[i].id(),
        ) == Some(history[i]->Created_session) by {
            if i < n {
                assert(earlier[i] == history[i]);
                assert(history[i].id() != history[n].id());
                assert(replay(earlier).get(earlier[i].id()) == Some(earlier[i]->Created_session));
            }
        }
    }
}

} // verus!
