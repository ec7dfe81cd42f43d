//! The registry behind game-event listening: which listeners are registered for
//! which event, in which order they are called, and when the engine itself has
//! to be asked to deliver an event.
use vstd::prelude::*;

verus! {

/// A unique ID for a registered listener. Use this to unregister later.
#[derive(Debug, Clone, Copy, PartialEq, Eq, Structural, Hash)]
pub struct ListenerId(usize);

impl View for ListenerId {
    type V = usize;

    closed spec fn view(&self) -> usize {
        self.0
    }
}

/// The listeners of one event without the listener `id`.
pub open spec fn without_listener(listeners: Seq<ListenerId>, id: ListenerId) -> Seq<ListenerId>
    decreases listeners.len(),
{
    if listeners.len() == 0 {
        listeners
    } else {
        let rest = without_listener(listeners.drop_last(), id);
        if listeners.last() != id {
            rest.push(listeners.last())
        } else {
            rest
        }
    }
}

/// The listeners of the event `name` in `map`, in the order in which they are called.
pub open spec fn listeners_in(map: Map<Seq<char>, Seq<ListenerId>>, name: Seq<char>) -> Seq<ListenerId> {
    if map.contains_key(name) {
        map[name]
    } else {
        Seq::empty()
    }
}

/// No listener of any event in `map` has the identifier `id`.
pub open spec fn is_fresh(map: Map<Seq<char>, Seq<ListenerId>>, id: ListenerId) -> bool {
    forall|name: Seq<char>| #[trigger] map.contains_key(name) ==> !map[name].contains(id)
}

/// A copy of `list` without the listener `id`, in the same order.
fn copy_without(list: &Vec<ListenerId>, id: ListenerId) -> (r: Vec<ListenerId>)
    ensures
        r@ == without_listener(list@, id),
{
    let mut r: Vec<ListenerId> = Vec::new();
    let mut j: usize = 0;
    while j < list.len()
        invariant
            j <= list@.len(),
            r@ == without_listener(list@.take(j as int), id),
        decreases list@.len() - j,
    {
        let x = list[j];
        let ghost next = list@.take(j + 1);
        assert(next.drop_last() =~= list@.take(j as int));
        assert(next.last() == x);
        assert(without_listener(next, id) == if x != id {
            without_listener(list@.take(j as int), id).push(x)
        } else {
            without_listener(list@.take(j as int), id)
        });
        if x != id {
            r.push(x);
        }
        j = j + 1;
    }
    assert(list@.take(list@.len() as int) =~= list@);
    r
}

/// A copy of `list`, in the same order.
fn copy_listeners(list: &Vec<ListenerId>) -> (r: Vec<ListenerId>)
    ensures
        r@ == list@,
{
    let mut r: Vec<ListenerId> = Vec::new();
    let mut j: usize = 0;
    while j < list.len()
        invariant
            j <= list@.len(),
            r@ == list@.take(j as int),
        decreases list@.len() - j,
    {
        r.push(list[j]);
        assert(list@.take(j + 1) =~= list@.take(j as int).push(list@[j as int]));
        j = j + 1;
    }
    assert(list@.take(list@.len() as int) =~= list@);
    r
}

/// The listener lists of the known event names, one list per name and no name twice.
struct ListenerTable {
    names: Vec<String>,
    lists: Vec<Vec<ListenerId>>,
}

impl ListenerTable {
    /// For each known event name, its listeners in call order.
    spec fn map(&self) -> Map<Seq<char>, Seq<ListenerId>> {
        Map::new(
            |k: Seq<char>| self.has_name(k),
            |k: Seq<char>| self.lists@[self.index_of(k)]@,
        )
    }

    spec fn has_name(&self, k: Seq<char>) -> bool {
        exists|i: int| 0 <= i < self.names@.len() && #[trigger] self.names@[i]@ == k
    }

    spec fn index_of(&self, k: Seq<char>) -> int {
        choose|i: int| 0 <= i < self.names@.len() && #[trigger] self.names@[i]@ == k
    }

    /// One list per name, and no name twice.
    spec fn wf(&self) -> bool {
        &&& self.names@.len() == self.lists@.len()
        &&& forall|i: int, j: int|
            0 <= i < self.names@.len() && 0 <= j < self.names@.len() && i != j ==> #[trigger] self.names@[i]@
                != #[trigger] self.names@[j]@
    }

    proof fn lemma_view_at(&self, i: int)
        requires
            self.wf(),
            0 <= i < self.names@.len(),
        ensures
            self.map().contains_key(self.names@[i]@),
            self.map()[self.names@[i]@] == self.lists@[i]@,
    {
        let k = self.names@[i]@;
        assert(self.has_name(k));
        let j = self.index_of(k);
        assert(self.names@[j]@ == k);
    }

    /// No event name known.
    fn empty() -> (r: ListenerTable)
        ensures
            r.wf(),
            r.map() == Map::<Seq<char>, Seq<ListenerId>>::empty(),
    {
        let r = ListenerTable { names: Vec::new(), lists: Vec::new() };
        assert(r.map() =~= Map::<Seq<char>, Seq<ListenerId>>::empty());
        r
    }

    fn position(&self, key: &String) -> (r: Option<usize>)
        requires
            self.wf(),
        ensures
            match r {
                Some(i) => i < self.names@.len() && self.names@[i as int]@ == key@,
                None => !self.map().contains_key(key@),
            },
    {
        let mut i: usize = 0;
        while i < self.names.len()
            invariant
                self.wf(),
                i <= self.names@.len(),
                forall|j: int| 0 <= j < i ==> self.names@[j]@ != key@,
            decreases self.names@.len() - i,
        {
            if self.names[i] == *key {
                return Some(i);
            }
            i = i + 1;
        }
        None
    }

    /// Appends the listener `id` to the list of `key`, which becomes known where
    /// it was not; tells whether it was not.
    fn add(&mut self, key: String, id: ListenerId) -> (first: bool)
        requires
            old(self).wf(),
        ensures
            final(self).wf(),
            first == !old(self).map().contains_key(key@),
            final(self).map() == old(self).map().insert(key@, listeners_in(old(self).map(), key@).push(id)),
    {
        let ghost before = *old(self);
        match self.position(&key) {
            Some(i) => {
                proof {
                    before.lemma_view_at(i as int);
                }
                let mut list = self.lists.remove(i);
                list.push(id);
                self.lists.insert(i, list);
                proof {
                    assert forall|k: Seq<char>|
                        #![trigger self.map().contains_key(k)]
                        self.map().contains_key(k) == before.map().insert(
                            key@,
                            listeners_in(before.map(), key@).push(id),
                        ).contains_key(k) by {
                        if self.has_name(k) {
                            let j = self.index_of(k);
                            assert(before.names@[j]@ == k);
                        }
                        if before.has_name(k) {
                            let j = before.index_of(k);
                            assert(self.names@[j]@ == k);
                        }
                    }
                    assert forall|k: Seq<char>| #[trigger] self.map().contains_key(k) implies self.map()[k]
                        == before.map().insert(key@, listeners_in(before.map(), key@).push(id))[k] by {
                        let j = self.index_of(k);
                        self.lemma_view_at(j);
                        if j != i {
                            before.lemma_view_at(j);
                        }
                    }
                    assert(self.map() =~= before.map().insert(
                        key@,
                        listeners_in(before.map(), key@).push(id),
                    ));
                }
                false
            },
            None => {
                self.names.push(key);
                let mut list = Vec::new();
                list.push(id);
                self.lists.push(list);
                proof {
                    assert forall|a: int, b: int|
                        0 <= a < self.names@.len() && 0 <= b < self.names@.len() && a != b implies #[trigger] self.names@[a]@
                        != #[trigger] self.names@[b]@ by {
                        let n = before.names@.len() as int;
                        if a < n && b < n {
                        } else if a < n {
                            before.lemma_view_at(a);
                        } else {
                            before.lemma_view_at(b);
                        }
                    }
                    assert forall|k: Seq<char>|
                        #![trigger self.map().contains_key(k)]
                        self.map().contains_key(k) == before.map().insert(
                            key@,
                            listeners_in(before.map(), key@).push(id),
                        ).contains_key(k) by {
                        if self.has_name(k) {
                            let j = self.index_of(k);
                            if j < before.names@.len() {
                                assert(before.names@[j]@ == k);
                            }
                        }
                        if before.has_name(k) {
                            let j = before.index_of(k);
                            assert(self.names@[j]@ == k);
                        }
                        if k == key@ {
                            assert(self.names@[before.names@.len() as int]@ == k);
                        }
                    }
                    assert forall|k: Seq<char>| #[trigger] self.map().contains_key(k) implies self.map()[k]
                        == before.map().insert(key@, listeners_in(before.map(), key@).push(id))[k] by {
                        let j = self.index_of(k);
                        self.lemma_view_at(j);
                        if j < before.names@.len() {
                            before.lemma_view_at(j);
                        } else {
                            assert(listeners_in(before.map(), key@) =~= Seq::<ListenerId>::empty());
                            assert(self.lists@[j]@ =~= Seq::<ListenerId>::empty().push(id));
                        }
                    }
                    assert(self.map() =~= before.map().insert(
                        key@,
                        listeners_in(before.map(), key@).push(id),
                    ));
                }
                true
            },
        }
    }

    /// Drops the listener `id` from every list; the names stay known.
    fn remove_id(&mut self, id: ListenerId)
        requires
            old(self).wf(),
        ensures
            final(self).wf(),
            final(self).map().dom() == old(self).map().dom(),
            forall|k: Seq<char>| #[trigger]
                final(self).map().contains_key(k) ==> final(self).map()[k] == without_listener(
                    old(self).map()[k],
                    id,
                ),
    {
        let ghost before = *old(self);
        let mut new_lists: Vec<Vec<ListenerId>> = Vec::new();
        let mut i: usize = 0;
        while i < self.lists.len()
            invariant
                *self == before,
                before.wf(),
                i <= self.lists@.len(),
                new_lists@.len() == i,
                forall|j: int| 0 <= j < i ==> #[trigger] new_lists@[j]@ == without_listener(self.lists@[j]@, id),
            decreases self.lists@.len() - i,
        {
            let filtered = copy_without(&self.lists[i], id);
            new_lists.push(filtered);
            i = i + 1;
        }
        self.lists = new_lists;
        proof {
            assert forall|k: Seq<char>| #![trigger self.map().contains_key(k)]
                self.map().contains_key(k) == before.map().contains_key(k) by {
                if self.has_name(k) {
                    let j = self.index_of(k);
                    assert(before.names@[j]@ == k);
                }
                if before.has_name(k) {
                    let j = before.index_of(k);
                    assert(self.names@[j]@ == k);
                }
            }
            assert(self.map().dom() =~= before.map().dom());
            assert forall|k: Seq<char>| #[trigger] self.map().contains_key(k) implies self.map()[k]
                == without_listener(before.map()[k], id) by {
                let j = self.index_of(k);
                self.lemma_view_at(j);
                before.lemma_view_at(j);
            }
        }
    }

    /// Forgets the name `key` and hands back its list (empty where it was not known).
    fn remove_name(&mut self, key: String) -> (r: Vec<ListenerId>)
        requires
            old(self).wf(),
        ensures
            final(self).wf(),
            final(self).map() == old(self).map().remove(key@),
            r@ == listeners_in(old(self).map(), key@),
    {
        let ghost before = *old(self);
        match self.position(&key) {
            Some(i) => {
                proof {
                    before.lemma_view_at(i as int);
                }
                let _name = self.names.remove(i);
                let list = self.lists.remove(i);
                proof {
                    assert forall|a: int, b: int|
                        0 <= a < self.names@.len() && 0 <= b < self.names@.len() && a != b implies #[trigger] self.names@[a]@
                        != #[trigger] self.names@[b]@ by {
                        let a0 = if a < i { a } else { a + 1 };
                        let b0 = if b < i { b } else { b + 1 };
                        assert(self.names@[a] == before.names@[a0]);
                        assert(self.names@[b] == before.names@[b0]);
                    }
                    assert forall|k: Seq<char>| #![trigger self.map().contains_key(k)]
                        self.map().contains_key(k) == before.map().remove(key@).contains_key(k) by {
                        if self.has_name(k) {
                            let j = self.index_of(k);
                            let j0 = if j < i { j } else { j + 1 };
                            assert(self.names@[j] == before.names@[j0]);
                            assert(before.names@[j0]@ == k);
                            assert(j0 != i);
                        }
                        if before.has_name(k) && k != key@ {
                            let j = before.index_of(k);
                            assert(j != i);
                            let j1 = if j < i { j } else { j - 1 };
                            assert(self.names@[j1] == before.names@[j]);
                        }
                    }
                    assert forall|k: Seq<char>| #[trigger] self.map().contains_key(k) implies self.map()[k]
                        == before.map().remove(key@)[k] by {
                        let j = self.index_of(k);
                        self.lemma_view_at(j);
                        let j0 = if j < i { j } else { j + 1 };
                        assert(self.names@[j] == before.names@[j0]);
                        assert(self.lists@[j] == before.lists@[j0]);
                        before.lemma_view_at(j0);
                    }
                    assert(self.map() =~= before.map().remove(key@));
                }
                list
            },
            None => {
                assert(before.map().remove(key@) =~= before.map());
                Vec::new()
            },
        }
    }

    /// The list of `key`, empty where it is not known.
    fn listeners_of(&self, key: &String) -> (r: Vec<ListenerId>)
        requires
            self.wf(),
        ensures
            r@ == listeners_in(self.map(), key@),
    {
        match self.position(key) {
            Some(i) => {
                proof {
                    self.lemma_view_at(i as int);
                }
                copy_listeners(&self.lists[i])
            },
            None => Vec::new(),
        }
    }
}

/// Registers listeners by event name. An event name stays known once a listener
/// was registered for it, until all of its listeners are dropped at once.
/// Identifiers count up from 1; each listener gets one that no registered
/// listener has, until the counter has passed `usize::MAX` and wrapped to 0.
pub struct EventRegistry {
    table: ListenerTable,
    next_id: usize,
    wrapped: Ghost<bool>,
}

impl View for EventRegistry {
    type V = Map<Seq<char>, Seq<ListenerId>>;

    /// The registry's contents: for each known event name, its listeners in call order.
    closed spec fn view(&self) -> Map<Seq<char>, Seq<ListenerId>> {
        self.table.map()
    }
}

impl EventRegistry {
    /// One list per known name, no name twice, and, until the counter has wrapped,
    /// every registered identifier below the next one to be handed out.
    #[verifier::type_invariant]
    spec fn inv(&self) -> bool {
        &&& self.table.wf()
        &&& !self.wrapped@ ==> ids_below(self.table.map(), self.next_id)
    }

    /// The identifier that the next listener will get.
    pub closed spec fn next_id_spec(&self) -> usize {
        self.next_id
    }

    /// Whether the identifier counter has passed `usize::MAX` and started again at 0.
    pub closed spec fn counter_wrapped(&self) -> bool {
        self.wrapped@
    }

    /// An empty registry; the first listener gets the identifier 1.
    pub fn new() -> (r: EventRegistry)
        ensures
            r@ == Map::<Seq<char>, Seq<ListenerId>>::empty(),
            r.next_id_spec() == 1,
            !r.counter_wrapped(),
            ids_below(r@, r.next_id_spec()),
    {
        EventRegistry { table: ListenerTable::empty(), next_id: 1, wrapped: Ghost(false) }
    }

    /// Registers a new listener for the event `event_name` and returns its
    /// identifier, together with whether this is the first time the event is
    /// listened to, in which case the engine has to be asked to deliver it.
    pub fn listen(&mut self, event_name: &str) -> (r: (ListenerId, bool))
        ensures
            r.0@ == old(self).next_id_spec(),
            r.1 == !old(self)@.contains_key(event_name@),
            final(self)@ == old(self)@.insert(
                event_name@,
                listeners_in(old(self)@, event_name@).push(r.0),
            ),
            final(self).next_id_spec() == (if old(self).next_id_spec() == usize::MAX {
                0
            } else {
                old(self).next_id_spec() + 1
            }),
            final(self).counter_wrapped() == (old(self).counter_wrapped() || old(self).next_id_spec()
                == usize::MAX),
            !old(self).counter_wrapped() ==> is_fresh(old(self)@, r.0),
            !final(self).counter_wrapped() ==> ids_below(final(self)@, final(self).next_id_spec()),
    {
        proof {
            use_type_invariant(&*self);
        }
        let key = event_name.to_owned();
        let id = ListenerId(self.next_id);
        let ghost before = self.table.map();
        let ghost was_wrapped = self.wrapped@;
        proof {
            if !was_wrapped {
                if self.next_id < usize::MAX {
                    lemma_listen_gives_fresh_id(before, self.next_id, key@, id);
                } else {
                    lemma_below_is_fresh(before, self.next_id, id);
                }
            }
        }
        let mut table = ListenerTable::empty();
        std::mem::swap(&mut table, &mut self.table);
        let first = table.add(key, id);
        let next = if self.next_id == usize::MAX {
            0
        } else {
            self.next_id + 1
        };
        let ghost now_wrapped = was_wrapped || self.next_id == usize::MAX;
        self.next_id = next;
        self.wrapped = Ghost(now_wrapped);
        self.table = table;
        (id, first)
    }

    /// Drops the listener `id` from every event; the event names stay known.
    pub fn unlisten(&mut self, id: ListenerId)
        ensures
            final(self).next_id_spec() == old(self).next_id_spec(),
            final(self).counter_wrapped() == old(self).counter_wrapped(),
            final(self)@.dom() == old(self)@.dom(),
            forall|k: Seq<char>| #[trigger]
                final(self)@.contains_key(k) ==> final(self)@[k] == without_listener(
                    old(self)@[k],
                    id,
                ),
            !final(self).counter_wrapped() ==> ids_below(final(self)@, final(self).next_id_spec()),
    {
        proof {
            use_type_invariant(&*self);
        }
        let ghost before = self.table.map();
        let mut table = ListenerTable::empty();
        std::mem::swap(&mut table, &mut self.table);
        table.remove_id(id);
        proof {
            if !self.wrapped@ {
                lemma_unlisten_keeps_ids_below(before, table.map(), id, self.next_id);
            }
        }
        self.table = table;
    }

    /// Drops every listener of the event `event_name`, which stops being known,
    /// and returns the listeners that were dropped, in call order.
    pub fn unlisten_all(&mut self, event_name: &str) -> (r: Vec<ListenerId>)
        ensures
            final(self).next_id_spec() == old(self).next_id_spec(),
            final(self).counter_wrapped() == old(self).counter_wrapped(),
            final(self)@ == old(self)@.remove(event_name@),
            r@ == listeners_in(old(self)@, event_name@),
            !final(self).counter_wrapped() ==> ids_below(final(self)@, final(self).next_id_spec()),
    {
        proof {
            use_type_invariant(&*self);
        }
        let key = event_name.to_owned();
        let ghost before = self.table.map();
        let mut table = ListenerTable::empty();
        std::mem::swap(&mut table, &mut self.table);
        let dropped = table.remove_name(key);
        proof {
            if !self.wrapped@ {
                lemma_remove_keeps_ids_below(before, event_name@, self.next_id);
            }
        }
        self.table = table;
        dropped
    }

    /// Drops every listener of every event; identifiers keep counting on.
    pub fn clear(&mut self)
        ensures
            final(self).next_id_spec() == old(self).next_id_spec(),
            final(self).counter_wrapped() == old(self).counter_wrapped(),
            final(self)@ == Map::<Seq<char>, Seq<ListenerId>>::empty(),
            ids_below(final(self)@, final(self).next_id_spec()),
    {
        self.table = ListenerTable::empty();
    }

    /// The listeners of the event `event_name`, in the order in which they are
    /// called when the event fires.
    pub fn listeners(&self, event_name: &str) -> (r: Vec<ListenerId>)
        ensures
            r@ == listeners_in(self@, event_name@),
    {
        proof {
            use_type_invariant(self);
        }
        let key = event_name.to_owned();
        self.table.listeners_of(&key)
    }
}

/// Every listener in `map` has an identifier below `bound`.
pub open spec fn ids_below(map: Map<Seq<char>, Seq<ListenerId>>, bound: usize) -> bool {
    forall|name: Seq<char>, i: int|
        #![trigger map[name][i]]
        map.contains_key(name) && 0 <= i < map[name].len() ==> map[name][i]@ < bound
}

/// An identifier at or above every registered one belongs to no listener.
proof fn lemma_below_is_fresh(map: Map<Seq<char>, Seq<ListenerId>>, bound: usize, id: ListenerId)
    requires
        ids_below(map, bound),
        id@ == bound,
    ensures
        is_fresh(map, id),
{
    assert forall|k: Seq<char>| #[trigger] map.contains_key(k) implies !map[k].contains(id) by {
        if map[k].contains(id) {
            let i = choose|i: int| 0 <= i < map[k].len() && map[k][i] == id;
            assert(map[k][i]@ < bound);
        }
    }
}

/// Dropping a listener from every list keeps every identifier below a bound.
proof fn lemma_unlisten_keeps_ids_below(
    before: Map<Seq<char>, Seq<ListenerId>>,
    after: Map<Seq<char>, Seq<ListenerId>>,
    id: ListenerId,
    bound: usize,
)
    requires
        ids_below(before, bound),
        after.dom() == before.dom(),
        forall|k: Seq<char>| #[trigger] after.contains_key(k) ==> after[k] == without_listener(before[k], id),
    ensures
        ids_below(after, bound),
{
    assert forall|k: Seq<char>, n: int|
        #![trigger after[k][n]]
        after.contains_key(k) && 0 <= n < after[k].len() implies after[k][n]@ < bound by {
        let x = after[k][n];
        assert(before.contains_key(k));
        lemma_without_keeps_others(before[k], id);
        assert(after[k].contains(x));
        let m = choose|m: int| 0 <= m < before[k].len() && before[k][m] == x;
        assert(before[k][m]@ < bound);
    }
}

/// Forgetting an event keeps every identifier below a bound.
proof fn lemma_remove_keeps_ids_below(map: Map<Seq<char>, Seq<ListenerId>>, name: Seq<char>, bound: usize)
    requires
        ids_below(map, bound),
    ensures
        ids_below(map.remove(name), bound),
{
    let after = map.remove(name);
    assert forall|k: Seq<char>, n: int|
        #![trigger after[k][n]]
        after.contains_key(k) && 0 <= n < after[k].len() implies after[k][n]@ < bound by {
        assert(after[k][n] == map[k][n]);
    }
}

/// Dropping the listener `id` from an event's list removes it, adds no listener
/// that was not there, and leaves a list that never held it as it was.
pub proof fn lemma_without_keeps_others(listeners: Seq<ListenerId>, id: ListenerId)
    ensures
        !without_listener(listeners, id).contains(id),
        forall|x: ListenerId| #[trigger]
            without_listener(listeners, id).contains(x) ==> listeners.contains(x),
        !listeners.contains(id) ==> without_listener(listeners, id) == listeners,
    decreases listeners.len(),
{
    if listeners.len() > 0 {
        let rest = listeners.drop_last();
        lemma_without_keeps_others(rest, id);
        assert forall|x: ListenerId| #[trigger] without_listener(listeners, id).contains(x) implies listeners.contains(x) by {
            if rest.contains(x) {
                let k = choose|k: int| 0 <= k < rest.len() && rest[k] == x;
                assert(listeners[k] == x);
            } else {
                let w = without_listener(listeners, id);
                let wr = without_listener(rest, id);
                let m = choose|m: int| 0 <= m < w.len() && w[m] == x;
                if listeners.last() != id {
                    if m < wr.len() {
                        assert(wr[m] == x);
                        assert(wr.contains(x));
                    }
                    assert(listeners[listeners.len() - 1] == x);
                } else {
                    assert(wr[m] == x);
                    assert(wr.contains(x));
                }
            }
        }
        if !listeners.contains(id) {
            assert forall|k: int| 0 <= k < rest.len() implies rest[k] != id by {
                assert(listeners[k] == rest[k]);
            }
            assert(listeners.last() != id);
            assert(rest.push(listeners.last()) =~= listeners);
        }
    }
}

/// A listener that was dropped is no longer called for any event.
pub proof fn lemma_unlisten_removes(map: Map<Seq<char>, Seq<ListenerId>>, id: ListenerId, name: Seq<char>)
    requires
        map.contains_key(name),
    ensures
        !without_listener(map[name], id).contains(id),
{
    lemma_without_keeps_others(map[name], id);
}

/// Dropping a listener leaves every other listener of an event in place, in order:
/// the event's list loses exactly the occurrences of that listener.
pub proof fn lemma_unlisten_keeps_others(listeners: Seq<ListenerId>, id: ListenerId, other: ListenerId)
    requires
        other != id,
    ensures
        without_listener(listeners, id).contains(other) == listeners.contains(other),
    decreases listeners.len(),
{
    lemma_without_keeps_others(listeners, id);
    if listeners.len() > 0 {
        let rest = listeners.drop_last();
        lemma_unlisten_keeps_others(rest, id, other);
        if listeners.contains(other) {
            let k = choose|k: int| 0 <= k < listeners.len() && listeners[k] == other;
            if k < listeners.len() - 1 {
                assert(rest[k] == other);
                let w = without_listener(rest, id);
                let m = choose|m: int| 0 <= m < w.len() && w[m] == other;
                assert(without_listener(listeners, id)[m] == other);
            } else {
                let w = without_listener(listeners, id);
                assert(w[w.len() - 1] == other);
            }
        }
    }
}

/// A registry whose identifiers are all below the next one to be handed out gives
/// every new listener an identifier that no listener has, and stays that way.
pub proof fn lemma_listen_gives_fresh_id(
    map: Map<Seq<char>, Seq<ListenerId>>,
    next: usize,
    name: Seq<char>,
    id: ListenerId,
)
    requires
        ids_below(map, next),
        id@ == next,
        next < usize::MAX,
    ensures
        is_fresh(map, id),
        ids_below(map.insert(name, listeners_in(map, name).push(id)), (next + 1) as usize),
{
    assert forall|k: Seq<char>| #[trigger] map.contains_key(k) implies !map[k].contains(id) by {
        if map[k].contains(id) {
            let i = choose|i: int| 0 <= i < map[k].len() && map[k][i] == id;
            assert(map[k][i]@ < next);
        }
    }
    let after = map.insert(name, listeners_in(map, name).push(id));
    assert forall|k: Seq<char>, i: int|
        #![trigger after[k][i]]
        after.contains_key(k) && 0 <= i < after[k].len() implies after[k][i]@ < next + 1 by {
        if k == name {
            if i < listeners_in(map, name).len() {
                assert(after[k][i] == map[name][i]);
            }
        } else {
            assert(after[k][i] == map[k][i]);
        }
    }
}

/// Registering a listener with a fresh identifier and then dropping it leaves
/// every event with the listeners it had, in the same order.
pub proof fn lemma_unlisten_undoes_listen(map: Map<Seq<char>, Seq<ListenerId>>, name: Seq<char>, id: ListenerId)
    requires
        is_fresh(map, id),
    ensures
        forall|k: Seq<char>|
            #![trigger listeners_in(map, k)]
            without_listener(listeners_in(map.insert(name, listeners_in(map, name).push(id)), k), id)
                == listeners_in(map, k),
{
    let after = map.insert(name, listeners_in(map, name).push(id));
    assert forall|k: Seq<char>| #![trigger listeners_in(map, k)]
        without_listener(listeners_in(after, k), id) == listeners_in(map, k) by {
        if map.contains_key(k) {
            assert(!map[k].contains(id));
        }
        lemma_without_keeps_others(listeners_in(map, k), id);
        if k == name {
            let l = listeners_in(map, name);
            let pushed = l.push(id);
            assert(pushed.drop_last() =~= l);
            assert(pushed.last() == id);
        }
    }
}

/// Once every listener of an event was dropped at once, the next listener for it
/// makes the engine be asked again to deliver the event.
pub proof fn lemma_unlisten_all_forgets_event(map: Map<Seq<char>, Seq<ListenerId>>, name: Seq<char>)
    ensures
        !map.remove(name).contains_key(name),
        listeners_in(map.remove(name), name) == Seq::<ListenerId>::empty(),
{
}

} // verus!
