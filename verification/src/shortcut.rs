//! Key sequences as a state machine: each key of a shortcut leads one state
//! on, the last one accepts and names the callback to run.

use vstd::prelude::*;
use crate::keys::Key;

verus! {

/// A state of the machine.
#[derive(Debug, PartialEq, Eq)]
pub enum State<T> {
    /// Nothing pressed yet.
    Empty,
    /// Part of a shortcut pressed; `T` names the part.
    State(T),
    /// A dead end.
    Error,
    /// A whole shortcut pressed.
    Accept,
}

/// Something that can set off a transition.
pub trait Event: Copy {
    /// Whether `self` and `other` are the same event.
    fn same(&self, other: &Self) -> (r: bool)
        ensures
            r == (*self == *other),
    ;
}

impl Event for Key {
    fn same(&self, other: &Self) -> (r: bool) {
        *self == *other
    }
}

/// Where a transition leads, and the index of the callback that it sets
/// off, if any.
#[derive(Debug)]
pub struct Trans<S> {
    pub state: State<S>,
    pub callback: Option<usize>,
}

/// One transition of the table: in state `from`, `event` leads to
/// `trans.state`.
pub struct Edge<E> {
    pub from: State<String>,
    pub event: E,
    pub trans: Trans<String>,
}

/// One transition, as a mathematical value.
pub struct EdgeView<E> {
    pub from: State<Seq<char>>,
    pub event: E,
    pub to: State<Seq<char>>,
    pub callback: Option<usize>,
}

/// The transitions of a machine, each pair of state and event at most once
/// in effect: of two edges for one pair, the earlier one counts.
pub struct TransTable<E> {
    pub edges: Vec<Edge<E>>,
}

/// A state with its name as a sequence of characters.
pub open spec fn state_view(s: State<String>) -> State<Seq<char>> {
    match s {
        State::Empty => State::Empty,
        State::State(name) => State::State(name@),
        State::Error => State::Error,
        State::Accept => State::Accept,
    }
}

impl<E> View for Edge<E> {
    type V = EdgeView<E>;

    open spec fn view(&self) -> EdgeView<E> {
        EdgeView {
            from: state_view(self.from),
            event: self.event,
            to: state_view(self.trans.state),
            callback: self.trans.callback,
        }
    }
}

impl<E> View for TransTable<E> {
    type V = Seq<EdgeView<E>>;

    open spec fn view(&self) -> Seq<EdgeView<E>> {
        self.edges@.map_values(|e: Edge<E>| e@)
    }
}

/// The index of the first edge that leaves `from` on `event`.
pub open spec fn find<E>(edges: Seq<EdgeView<E>>, from: State<Seq<char>>, event: E) -> Option<int>
    decreases edges.len(),
{
    if edges.len() == 0 {
        None
    } else {
        match find(edges.drop_last(), from, event) {
            Some(i) => Some(i),
            None => if edges.last().from == from && edges.last().event == event {
                Some(edges.len() - 1)
            } else {
                None
            },
        }
    }
}

/// The table with `edge` in effect: in place of the edge for the same state
/// and event, or, where there is none, at the end.
pub open spec fn put<E>(edges: Seq<EdgeView<E>>, edge: EdgeView<E>) -> Seq<EdgeView<E>> {
    match find(edges, edge.from, edge.event) {
        Some(i) => edges.update(i, edge),
        None => edges.push(edge),
    }
}

/// The state that the machine rests in after a transition into `to`: an
/// accepted shortcut starts over.
pub open spec fn settle(to: State<Seq<char>>) -> State<Seq<char>> {
    if to is Accept {
        State::Empty
    } else {
        to
    }
}

/// One step of the machine: the state after `event`, and the callback to
/// run. An event without an edge from the current state changes nothing.
pub open spec fn step<E>(edges: Seq<EdgeView<E>>, current: State<Seq<char>>, event: E) -> (
    State<Seq<char>>,
    Option<usize>,
) {
    match find(edges, current, event) {
        Some(i) => (settle(edges[i].to), edges[i].callback),
        None => (current, None),
    }
}

/// The state that a run of events leaves the machine in, and the callback
/// that each event sets off.
pub open spec fn run<E>(edges: Seq<EdgeView<E>>, current: State<Seq<char>>, events: Seq<E>) -> (
    State<Seq<char>>,
    Seq<Option<usize>>,
)
    decreases events.len(),
{
    if events.len() == 0 {
        (current, Seq::empty())
    } else {
        let before = run(edges, current, events.drop_last());
        let last = step(edges, before.0, events.last());
        (last.0, before.1.push(last.1))
    }
}

/// What `find` returns is the first edge for the pair, where there is one.
pub proof fn lemma_find<E>(edges: Seq<EdgeView<E>>, from: State<Seq<char>>, event: E)
    ensures
        find(edges, from, event) matches Some(i) ==> {
            &&& 0 <= i < edges.len()
            &&& edges[i].from == from
            &&& edges[i].event == event
            &&& forall|j: int| 0 <= j < i ==> !(edges[j].from == from && edges[j].event == event)
        },
        find(edges, from, event) is None ==> forall|j: int|
            0 <= j < edges.len() ==> !(edges[j].from == from && edges[j].event == event),
    decreases edges.len(),
{
    if edges.len() > 0 {
        lemma_find(edges.drop_last(), from, event);
        assert forall|j: int| 0 <= j < edges.len() - 1 implies edges[j] == edges.drop_last()[j] by {}
    }
}

/// The first edge for a pair is the one that `find` returns.
pub proof fn lemma_find_first<E>(edges: Seq<EdgeView<E>>, from: State<Seq<char>>, event: E, i: int)
    requires
        0 <= i < edges.len(),
        edges[i].from == from,
        edges[i].event == event,
        forall|j: int| 0 <= j < i ==> !(edges[j].from == from && edges[j].event == event),
    ensures
        find(edges, from, event) == Some(i),
{
    lemma_find(edges, from, event);
}

/// An edge put in effect is the one that its state and event lead to.
pub proof fn lemma_put_found<E>(edges: Seq<EdgeView<E>>, edge: EdgeView<E>)
    ensures
        find(put(edges, edge), edge.from, edge.event) matches Some(i) && put(edges, edge)[i] == edge,
        step(put(edges, edge), edge.from, edge.event) == (settle(edge.to), edge.callback),
{
    lemma_find(edges, edge.from, edge.event);
    let after = put(edges, edge);
    match find(edges, edge.from, edge.event) {
        Some(i) => {
            lemma_find_first(after, edge.from, edge.event, i);
        },
        None => {
            lemma_find_first(after, edge.from, edge.event, edges.len() as int);
        },
    }
}

/// Putting an edge in effect changes nothing for any other state or event.
pub proof fn lemma_put_keeps_others<E>(
    edges: Seq<EdgeView<E>>,
    edge: EdgeView<E>,
    from: State<Seq<char>>,
    event: E,
)
    requires
        !(from == edge.from && event == edge.event),
    ensures
        step(put(edges, edge), from, event) == step(edges, from, event),
{
    lemma_find(edges, edge.from, edge.event);
    lemma_find(edges, from, event);
    let after = put(edges, edge);
    match find(edges, from, event) {
        Some(i) => {
            lemma_find_first(after, from, event, i);
        },
        None => {
            lemma_find(after, from, event);
            if find(after, from, event) is Some {
                let k = find(after, from, event)->Some_0;
                if k < edges.len() {
                    assert(after[k] == edges[k] || after[k] == edge);
                }
            }
        },
    }
}

/// Whether two states are the same, names compared letter by letter.
pub fn same_state(a: &State<String>, b: &State<String>) -> (r: bool)
    ensures
        r == (state_view(*a) == state_view(*b)),
{
    match (a, b) {
        (State::Empty, State::Empty) => true,
        (State::Error, State::Error) => true,
        (State::Accept, State::Accept) => true,
        (State::State(x), State::State(y)) => *x == *y,
        _ => false,
    }
}

/// A copy of a state, name and all.
pub fn copy_state(s: &State<String>) -> (r: State<String>)
    ensures
        r == *s,
{
    match s {
        State::Empty => State::Empty,
        State::State(name) => State::State(name.clone()),
        State::Error => State::Error,
        State::Accept => State::Accept,
    }
}

impl<E: Event> TransTable<E> {
    /// A table without transitions.
    pub fn new() -> (t: TransTable<E>)
        ensures
            t@ == Seq::<EdgeView<E>>::empty(),
    {
        let t = TransTable { edges: Vec::new() };
        assert(t@ =~= Seq::<EdgeView<E>>::empty());
        t
    }

    /// Looks up the edge that leaves `from` on `event`.
    pub fn position(&self, from: &State<String>, event: E) -> (r: Option<usize>)
        ensures
            r is Some <==> find(self@, state_view(*from), event) is Some,
            r is Some ==> r->Some_0 == find(self@, state_view(*from), event)->Some_0,
            r is Some ==> r->Some_0 < self.edges@.len(),
    {
        let mut i: usize = 0;
        while i < self.edges.len()
            invariant
                i <= self.edges@.len(),
                find(self@.take(i as int), state_view(*from), event) is None,
            decreases self.edges.len() - i,
        {
            assert(self@.take(i + 1).drop_last() =~= self@.take(i as int));
            assert(self@.take(i + 1).last() == self.edges@[i as int]@);
            if same_state(&self.edges[i].from, from) && self.edges[i].event.same(&event) {
                proof {
                    lemma_find_prefix(self@, i + 1, state_view(*from), event);
                }
                return Some(i);
            }
            i = i + 1;
        }
        assert(self@.take(i as int) =~= self@);
        None
    }

    /// Puts a transition in effect: it takes the place of the edge for the
    /// same state and event, or goes to the end where there is none.
    pub fn insert(&mut self, from: State<String>, event: E, trans: Trans<String>)
        ensures
            final(self)@ == put(
                old(self)@,
                (Edge { from, event, trans })@,
            ),
    {
        let edge = Edge { from, event, trans };
        match self.position(&edge.from, event) {
            Some(i) => {
                let ghost before = self@;
                self.edges.set(i, edge);
                assert(self@ =~= before.update(i as int, edge@));
            },
            None => {
                let ghost before = self@;
                self.edges.push(edge);
                assert(self@ =~= before.push(edge@));
            },
        }
    }
}

/// An edge found among the first `n` edges is the edge found in the whole
/// table.
pub proof fn lemma_find_prefix<E>(edges: Seq<EdgeView<E>>, n: int, from: State<Seq<char>>, event: E)
    requires
        0 <= n <= edges.len(),
        find(edges.take(n), from, event) is Some,
    ensures
        find(edges, from, event) == find(edges.take(n), from, event),
    decreases edges.len() - n,
{
    if n < edges.len() {
        assert(edges.take(n + 1).drop_last() =~= edges.take(n));
        lemma_find_prefix(edges, n + 1, from, event);
    } else {
        assert(edges.take(n) =~= edges);
    }
}

/// A machine that follows key sequences through a table.
pub struct ShortcutTrigger<E> {
    pub table: TransTable<E>,
    pub current_state: State<String>,
}

impl<E: Event> ShortcutTrigger<E> {
    /// A machine over `table`, resting in `initial`.
    pub fn new(table: TransTable<E>, initial: State<String>) -> (m: ShortcutTrigger<E>)
        ensures
            m.table == table,
            m.current_state == initial,
    {
        ShortcutTrigger { table, current_state: initial }
    }

    /// Feeds one event to the machine and returns the callback to run.
    /// Where the current state has an edge for the event, the machine
    /// follows it, and starts over if that accepts; otherwise nothing
    /// changes.
    pub fn trigger(&mut self, event: E) -> (callback: Option<usize>)
        ensures
            final(self).table == old(self).table,
            state_view(final(self).current_state) == step(
                old(self).table@,
                state_view(old(self).current_state),
                event,
            ).0,
            callback == step(old(self).table@, state_view(old(self).current_state), event).1,
    {
        match self.table.position(&self.current_state, event) {
            Some(i) => {
                let callback = self.table.edges[i].trans.callback;
                let to = copy_state(&self.table.edges[i].trans.state);
                self.current_state = to;
                match self.current_state {
                    State::Accept => self.reset(),
                    _ => {},
                }
                callback
            },
            None => None,
        }
    }

    /// Starts over: the machine rests in `Empty`.
    pub fn reset(&mut self)
        ensures
            final(self).table == old(self).table,
            final(self).current_state == State::<String>::Empty,
    {
        self.current_state = State::Empty;
    }
}

} // verus!
