//! The walk over the server's entity list: which entity to ask the engine for next.
use vstd::prelude::*;

verus! {

/// What the entity iterator asks the engine for next.
#[derive(Debug, Clone, Copy, PartialEq, Eq, Structural)]
pub enum EntityQuery {
    /// The first entity of the list.
    First,
    /// The entity after the one the iterator handed out last.
    Next,
    /// Nothing: the walk is over.
    Finished,
}

/// The state of a walk over all server entities: whether it has started, and
/// whether it stands on an entity that the engine handed out.
#[derive(Debug, Clone, Copy, PartialEq, Eq, Structural)]
pub struct EntityIterState {
    started: bool,
    has_current: bool,
}

impl EntityIterState {
    pub closed spec fn started_spec(&self) -> bool {
        self.started
    }

    pub closed spec fn has_current_spec(&self) -> bool {
        self.has_current
    }

    /// A walk that has not started.
    pub fn new() -> (r: EntityIterState)
        ensures
            !r.started_spec(),
            !r.has_current_spec(),
    {
        EntityIterState { started: false, has_current: false }
    }

    /// A walk that continues after an entity that the caller already holds, as a
    /// search that is given the previous match does: it asks for the next entity first.
    pub fn resume_after() -> (r: EntityIterState)
        ensures
            r.started_spec(),
            r.has_current_spec(),
            r.query_spec() == EntityQuery::Next,
    {
        EntityIterState { started: true, has_current: true }
    }

    /// What the walk asks the engine for in this state.
    pub closed spec fn query_spec(&self) -> EntityQuery {
        if !self.started {
            EntityQuery::First
        } else if self.has_current {
            EntityQuery::Next
        } else {
            EntityQuery::Finished
        }
    }

    /// The state of the walk once it has asked its query.
    pub closed spec fn after_query_spec(&self) -> EntityIterState {
        EntityIterState { started: true, has_current: self.has_current }
    }

    /// The state of the walk once the engine has answered whether it handed out an entity.
    pub closed spec fn after_answer_spec(&self, found: bool) -> EntityIterState {
        EntityIterState { started: self.started, has_current: found }
    }

    /// Decides what to ask the engine for at the next step of the walk: the first
    /// entity when the walk has not started, the next one while it stands on an
    /// entity, and nothing once the engine has run out of entities.
    pub fn next_query(&mut self) -> (q: EntityQuery)
        ensures
            q == old(self).query_spec(),
            *final(self) == old(self).after_query_spec(),
    {
        if !self.started {
            self.started = true;
            EntityQuery::First
        } else if self.has_current {
            EntityQuery::Next
        } else {
            EntityQuery::Finished
        }
    }

    /// Records the engine's answer to the last query: whether it handed out an entity.
    pub fn record(&mut self, found: bool)
        ensures
            *final(self) == old(self).after_answer_spec(found),
    {
        self.has_current = found;
    }
}

/// A walk that has not started asks for the first entity, and one that stands on
/// an entity asks for the next.
pub proof fn lemma_walk_order(state: EntityIterState)
    ensures
        !state.started_spec() ==> state.query_spec() == EntityQuery::First,
        state.after_query_spec().after_answer_spec(true).query_spec() == EntityQuery::Next,
{
}

/// Once the engine has answered a query with no entity, the walk is over for
/// good: it asks for nothing, and asking leaves it as it is.
pub proof fn lemma_walk_stays_finished(state: EntityIterState)
    ensures
        state.after_query_spec().after_answer_spec(false).query_spec() == EntityQuery::Finished,
        state.after_query_spec().after_answer_spec(false).after_query_spec()
            == state.after_query_spec().after_answer_spec(false),
{
}

} // verus!
