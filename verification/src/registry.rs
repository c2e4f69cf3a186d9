use vstd::prelude::*;

verus! {

/// The session registry: every live session, found by its identifier.
///
/// Seen from outside it is a finite map from identifiers to session handles. Inside,
/// identifiers and handles are kept side by side: the handle at a position belongs to the
/// identifier at the same position, and no identifier occurs twice.
pub struct TerminalState<S> {
    ids: Vec<String>,
    sessions: Vec<S>,
}

/// No identifier occurs at two positions.
spec fn distinct(ids: Seq<String>) -> bool {
    forall|i: int, j: int| 0 <= i < j < ids.len() ==> ids[i]@ != ids[j]@
}

/// `id` occurs among `ids`.
spec fn holds(ids: Seq<String>, id: Seq<char>) -> bool {
    exists|i: int| 0 <= i < ids.len() && #[trigger] ids[i]@ == id
}

/// A position at which `id` occurs among `ids`, where it does.
spec fn slot(ids: Seq<String>, id: Seq<char>) -> int {
    choose|i: int| 0 <= i < ids.len() && #[trigger] ids[i]@ == id
}

/// The map that two lists of equal length stand for.
spec fn mapping<S>(ids: Seq<String>, sessions: Seq<S>) -> Map<Seq<char>, S> {
    Map::new(|id: Seq<char>| holds(ids, id), |id: Seq<char>| sessions[slot(ids, id)])
}

proof fn lemma_mapping_at<S>(ids: Seq<String>, sessions: Seq<S>, i: int)
    requires
        distinct(ids),
        0 <= i < ids.len(),
    ensures
        mapping(ids, sessions).contains_key(ids[i]@),
        mapping(ids, sessions)[ids[i]@] == sessions[i],
{
    let id = ids[i]@;
    assert(holds(ids, id));
    assert(slot(ids, id) == i);
}

proof fn lemma_mapping_update<S>(ids: Seq<String>, sessions: Seq<S>, i: int, s: S)
    requires
        distinct(ids),
        ids.len() == sessions.len(),
        0 <= i < ids.len(),
    ensures
        mapping(ids, sessions.update(i, s)) == mapping(ids, sessions).insert(ids[i]@, s),
{
    let after = sessions.update(i, s);
    assert forall|id: Seq<char>| holds(ids, id) implies #[trigger] mapping(ids, after)[id]
        == mapping(ids, sessions).insert(ids[i]@, s)[id] by {
        let k = slot(ids, id);
        lemma_mapping_at(ids, after, k);
        lemma_mapping_at(ids, sessions, k);
    }
    assert(holds(ids, ids[i]@));
    assert(mapping(ids, after) =~= mapping(ids, sessions).insert(ids[i]@, s));
}

proof fn lemma_mapping_push<S>(ids: Seq<String>, sessions: Seq<S>, id: String, s: S)
    requires
        distinct(ids),
        ids.len() == sessions.len(),
        !holds(ids, id@),
    ensures
        distinct(ids.push(id)),
        mapping(ids.push(id), sessions.push(s)) == mapping(ids, sessions).insert(id@, s),
{
    let ids2 = ids.push(id);
    let sessions2 = sessions.push(s);
    assert forall|i: int, j: int| 0 <= i < j < ids2.len() implies ids2[i]@ != ids2[j]@ by {
        if j == ids.len() {
            assert(ids[i]@ != id@);
        }
    }
    assert forall|k: Seq<char>| holds(ids2, k) == (holds(ids, k) || k == id@) by {
        if holds(ids, k) {
            assert(ids2[slot(ids, k)]@ == k);
        }
        if k == id@ {
            assert(ids2[ids.len() as int]@ == k);
        }
        if holds(ids2, k) {
            let p = slot(ids2, k);
            if p < ids.len() {
                assert(ids[p]@ == k);
            }
        }
    }
    assert forall|k: Seq<char>| holds(ids2, k) implies #[trigger] mapping(ids2, sessions2)[k]
        == mapping(ids, sessions).insert(id@, s)[k] by {
        let p = slot(ids2, k);
        lemma_mapping_at(ids2, sessions2, p);
        if p < ids.len() {
            assert(ids[p]@ == k);
            lemma_mapping_at(ids, sessions, p);
        }
    }
    assert(mapping(ids2, sessions2) =~= mapping(ids, sessions).insert(id@, s));
}

proof fn lemma_mapping_remove<S>(ids: Seq<String>, sessions: Seq<S>, i: int)
    requires
        distinct(ids),
        ids.len() == sessions.len(),
        0 <= i < ids.len(),
    ensures
        distinct(ids.remove(i)),
        mapping(ids.remove(i), sessions.remove(i)) == mapping(ids, sessions).remove(ids[i]@),
{
    let ids2 = ids.remove(i);
    let sessions2 = sessions.remove(i);
    let gone = ids[i]@;
    assert forall|a: int, b: int| 0 <= a < b < ids2.len() implies ids2[a]@ != ids2[b]@ by {
        let a0 = if a < i { a } else { a + 1 };
        let b0 = if b < i { b } else { b + 1 };
        assert(ids2[a] == ids[a0]);
        assert(ids2[b] == ids[b0]);
    }
    assert forall|k: Seq<char>| holds(ids2, k) == (holds(ids, k) && k != gone) by {
        if holds(ids, k) && k != gone {
            let p = slot(ids, k);
            let q = if p < i { p } else { p - 1 };
            assert(ids2[q] == ids[p]);
            assert(ids2[q]@ == k);
        }
        if holds(ids2, k) {
            let q = slot(ids2, k);
            let p = if q < i { q } else { q + 1 };
            assert(ids2[q] == ids[p]);
            assert(ids[p]@ == k);
            assert(p != i);
            if k == gone {
                if p < i {
                    assert(ids[p]@ != ids[i]@);
                } else {
                    assert(ids[i]@ != ids[p]@);
                }
            }
        }
    }
    assert forall|k: Seq<char>| holds(ids2, k) implies #[trigger] mapping(ids2, sessions2)[k]
        == mapping(ids, sessions).remove(gone)[k] by {
        let q = slot(ids2, k);
        let p = if q < i { q } else { q + 1 };
        assert(ids2[q] == ids[p]);
        assert(sessions2[q] == sessions[p]);
        lemma_mapping_at(ids2, sessions2, q);
        lemma_mapping_at(ids, sessions, p);
    }
    assert(mapping(ids2, sessions2) =~= mapping(ids, sessions).remove(gone));
}

/// The identifiers of `ids`, each as text.
spec fn texts(ids: Seq<String>) -> Seq<Seq<char>> {
    ids.map_values(|id: String| id@)
}

proof fn lemma_mapping_size<S>(ids: Seq<String>, sessions: Seq<S>)
    requires
        distinct(ids),
    ensures
        mapping(ids, sessions).dom().finite(),
        mapping(ids, sessions).dom().len() == ids.len(),
{
    let t = texts(ids);
    assert(t.no_duplicates()) by {
        assert forall|i: int, j: int| 0 <= i < t.len() && 0 <= j < t.len() && i != j implies t[i]
            != t[j] by {
            if i < j {
                assert(ids[i]@ != ids[j]@);
            } else {
                assert(ids[j]@ != ids[i]@);
            }
        }
    }
    t.unique_seq_to_set();
    assert(mapping(ids, sessions).dom() =~= t.to_set()) by {
        assert forall|k: Seq<char>| holds(ids, k) == t.to_set().contains(k) by {
            if holds(ids, k) {
                assert(t[slot(ids, k)] == k);
            }
            if t.to_set().contains(k) {
                let p = choose|p: int| 0 <= p < t.len() && t[p] == k;
                assert(ids[p]@ == k);
            }
        }
    }
}

impl<S> View for TerminalState<S> {
    type V = Map<Seq<char>, S>;

    closed spec fn view(&self) -> Map<Seq<char>, S> {
        mapping(self.ids@, self.sessions@)
    }
}

impl<S> TerminalState<S> {
    #[verifier::type_invariant]
    spec fn well_formed(self) -> bool {
        &&& self.ids@.len() == self.sessions@.len()
        &&& distinct(self.ids@)
    }

    /// A registry without sessions.
    pub fn new() -> (state: Self)
        ensures
            state@ == Map::<Seq<char>, S>::empty(),
    {
        let state = TerminalState { ids: Vec::new(), sessions: Vec::new() };
        assert(state@ =~= Map::<Seq<char>, S>::empty());
        state
    }

    /// The position of `id`, if a session is registered under it.
    fn find(&self, id: &String) -> (r: Option<usize>)
        ensures
            match r {
                Some(i) => i < self.ids@.len() && self.ids@[i as int]@ == id@
                    && self@.contains_key(id@) && self@[id@] == self.sessions@[i as int],
                None => !self@.contains_key(id@) && !holds(self.ids@, id@),
            },
    {
        proof {
            use_type_invariant(self);
        }
        let mut i: usize = 0;
        while i < self.ids.len()
            invariant
                i <= self.ids@.len(),
                distinct(self.ids@),
                forall|j: int| 0 <= j < i ==> self.ids@[j]@ != id@,
            decreases self.ids@.len() - i,
        {
            if self.ids[i] == *id {
                proof {
                    lemma_mapping_at(self.ids@, self.sessions@, i as int);
                }
                return Some(i);
            }
            i += 1;
        }
        assert(!holds(self.ids@, id@));
        None
    }

    /// Registers `session` under `id`. A session that was registered under `id` before
    /// leaves the registry and is handed back.
    pub fn insert(&mut self, id: String, session: S) -> (previous: Option<S>)
        ensures
            final(self)@ == old(self)@.insert(id@, session),
            previous == old(self)@.get(id@),
    {
        proof {
            use_type_invariant(&*self);
        }
        match self.find(&id) {
            Some(i) => {
                proof {
                    lemma_mapping_update(self.ids@, self.sessions@, i as int, session);
                }
                let mut held = session;
                core::mem::swap(&mut self.sessions[i], &mut held);
                Some(held)
            },
            None => {
                proof {
                    lemma_mapping_push(self.ids@, self.sessions@, id, session);
                }
                let mut taken = TerminalState::new();
                core::mem::swap(self, &mut taken);
                let TerminalState { mut ids, mut sessions } = taken;
                ids.push(id);
                sessions.push(session);
                *self = TerminalState { ids, sessions };
                None
            },
        }
    }

    /// The session registered under `id`, for reading.
    pub fn get(&self, id: &String) -> (found: Option<&S>)
        ensures
            match found {
                Some(session) => self@.contains_key(id@) && *session == self@[id@],
                None => !self@.contains_key(id@),
            },
    {
        proof {
            use_type_invariant(self);
        }
        match self.find(id) {
            Some(i) => Some(&self.sessions[i]),
            None => None,
        }
    }

    /// The session registered under `id`, for exclusive use. What the caller leaves in it
    /// is what the registry holds under `id` afterwards; nothing else changes.
    pub fn get_mut(&mut self, id: &String) -> (found: Option<&mut S>)
        ensures
            match found {
                Some(session) => old(self)@.contains_key(id@) && *session == old(self)@[id@]
                    && final(self)@ == old(self)@.insert(id@, *final(session)),
                None => !old(self)@.contains_key(id@) && final(self)@ == old(self)@,
            },
    {
        proof {
            use_type_invariant(&*self);
        }
        match self.find(id) {
            Some(i) => {
                proof {
                    assert forall|s: S| #[trigger]
                        mapping(self.ids@, self.sessions@.update(i as int, s)) == mapping(
                            self.ids@,
                            self.sessions@,
                        ).insert(id@, s) by {
                        lemma_mapping_update(self.ids@, self.sessions@, i as int, s);
                    }
                }
                Some(&mut self.sessions[i])
            },
            None => None,
        }
    }

    /// Takes the session registered under `id` out of the registry, if there is one.
    pub fn remove(&mut self, id: &String) -> (removed: Option<S>)
        ensures
            final(self)@ == old(self)@.remove(id@),
            removed == old(self)@.get(id@),
    {
        proof {
            use_type_invariant(&*self);
        }
        match self.find(id) {
            Some(i) => {
                proof {
                    lemma_mapping_remove(self.ids@, self.sessions@, i as int);
                }
                let mut taken = TerminalState::new();
                core::mem::swap(self, &mut taken);
                let TerminalState { mut ids, mut sessions } = taken;
                ids.remove(i);
                let session = sessions.remove(i);
                *self = TerminalState { ids, sessions };
                Some(session)
            },
            None => {
                assert(self@.remove(id@) =~= self@);
                None
            },
        }
    }

    /// Whether a session is registered under `id`.
    pub fn contains_key(&self, id: &String) -> (found: bool)
        ensures
            found == self@.contains_key(id@),
    {
        self.find(id).is_some()
    }

    /// The number of live sessions.
    pub fn len(&self) -> (n: usize)
        ensures
            self@.dom().finite(),
            n == self@.dom().len(),
    {
        proof {
            use_type_invariant(self);
            lemma_mapping_size(self.ids@, self.sessions@);
        }
        self.ids.len()
    }

    /// Whether no session is live.
    pub fn is_empty(&self) -> (empty: bool)
        ensures
            empty == (self@.dom() == Set::<Seq<char>>::empty()),
    {
        proof {
            use_type_invariant(self);
            lemma_mapping_size(self.ids@, self.sessions@);
            if self.ids@.len() != 0 {
                assert(holds(self.ids@, self.ids@[0]@));
            }
            if self.ids@.len() == 0 {
                assert(self@.dom() =~= Set::<Seq<char>>::empty());
            }
        }
        self.ids.len() == 0
    }
}

impl<S> Default for TerminalState<S> {
    fn default() -> (state: Self)
        ensures
            state@ == Map::<Seq<char>, S>::empty(),
    {
        TerminalState::new()
    }
}

} // verus!
