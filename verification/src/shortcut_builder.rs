//! Building a shortcut machine from shortcuts written as key names joined
//! by `+`, such as `Ctrl+Alt+Key1`.

use vstd::prelude::*;
use vstd::string::StrSliceExecFns;
use vstd::string::StringExecFns;
use crate::keys::Key;
use crate::shortcut::copy_state;
use crate::shortcut::find;
use crate::shortcut::lemma_find;
use crate::shortcut::lemma_find_first;
use crate::shortcut::run;
use crate::shortcut::put;
use crate::shortcut::state_view;
use crate::shortcut::EdgeView;
use crate::shortcut::Event;
use crate::shortcut::ShortcutTrigger;
use crate::shortcut::State;
use crate::shortcut::Trans;
use crate::shortcut::TransTable;

verus! {

/// The parts of `s` between its `+` signs, in order. There is always at
/// least one part; a part may be empty.
pub open spec fn pieces(s: Seq<char>) -> Seq<Seq<char>>
    decreases s.len(),
{
    if s.len() == 0 {
        seq![Seq::empty()]
    } else {
        let init = pieces(s.drop_last());
        if s.last() == '+' {
            init.push(Seq::empty())
        } else {
            init.update(init.len() - 1, init.last().push(s.last()))
        }
    }
}

/// The names run together, without anything between them.
pub open spec fn joined(names: Seq<Seq<char>>) -> Seq<char>
    decreases names.len(),
{
    if names.len() == 0 {
        Seq::empty()
    } else {
        joined(names.drop_last()) + names.last()
    }
}

/// The event that `name` stands for: of several entries under one name,
/// the last one counts.
pub open spec fn resolve_one<E>(lut: Seq<(Seq<char>, E)>, name: Seq<char>) -> Option<E>
    decreases lut.len(),
{
    if lut.len() == 0 {
        None
    } else if lut.last().0 == name {
        Some(lut.last().1)
    } else {
        resolve_one(lut.drop_last(), name)
    }
}

/// The events that the names stand for, if every one of them is known.
pub open spec fn resolve<E>(lut: Seq<(Seq<char>, E)>, names: Seq<Seq<char>>) -> Option<Seq<E>>
    decreases names.len(),
{
    if names.len() == 0 {
        Some(Seq::empty())
    } else {
        match (resolve(lut, names.drop_last()), resolve_one(lut, names.last())) {
            (Some(events), Some(event)) => Some(events.push(event)),
            _ => None,
        }
    }
}

/// The transitions of one shortcut: key after key from `Empty` through
/// states named by the keys pressed so far; the last key accepts and sets
/// off callback `k`.
pub open spec fn chain<E>(names: Seq<Seq<char>>, events: Seq<E>, k: usize) -> Seq<EdgeView<E>>
    recommends
        names.len() == events.len(),
{
    Seq::new(
        names.len(),
        |i: int|
            EdgeView {
                from: if i == 0 {
                    State::Empty
                } else {
                    State::State(joined(names.take(i)))
                },
                event: events[i],
                to: if i == names.len() - 1 {
                    State::Accept
                } else {
                    State::State(joined(names.take(i + 1)))
                },
                callback: if i == names.len() - 1 {
                    Some(k)
                } else {
                    None
                },
            },
    )
}

/// The table with each of `new` put in effect, in order.
pub open spec fn put_all<E>(edges: Seq<EdgeView<E>>, new: Seq<EdgeView<E>>) -> Seq<EdgeView<E>>
    decreases new.len(),
{
    if new.len() == 0 {
        edges
    } else {
        put(put_all(edges, new.drop_last()), new.last())
    }
}

/// The table of a machine for `shortcuts`, the `k`-th of which sets off
/// callback `k`; none if a shortcut names a key that `lut` does not know.
/// Where two shortcuts disagree on a transition, the later one has it.
pub open spec fn compiled<E>(lut: Seq<(Seq<char>, E)>, shortcuts: Seq<Seq<char>>) -> Option<
    Seq<EdgeView<E>>,
>
    decreases shortcuts.len(),
{
    if shortcuts.len() == 0 {
        Some(Seq::empty())
    } else {
        match (
            compiled(lut, shortcuts.drop_last()),
            resolve(lut, pieces(shortcuts.last())),
        ) {
            (Some(table), Some(events)) => Some(
                put_all(
                    table,
                    chain(pieces(shortcuts.last()), events, (shortcuts.len() - 1) as usize),
                ),
            ),
            _ => None,
        }
    }
}

/// The strings as sequences of characters.
pub open spec fn names_of(v: Seq<String>) -> Seq<Seq<char>> {
    v.map_values(|s: String| s@)
}

/// A name table as a mathematical value.
pub open spec fn lut_view<E>(lut: Seq<(String, E)>) -> Seq<(Seq<char>, E)> {
    lut.map_values(|p: (String, E)| (p.0@, p.1))
}

/// A shortcut has at least one part.
pub proof fn lemma_pieces_nonempty(s: Seq<char>)
    ensures
        pieces(s).len() >= 1,
    decreases s.len(),
{
    if s.len() > 0 {
        lemma_pieces_nonempty(s.drop_last());
    }
}

/// Where the first `n` shortcuts cannot be compiled, neither can all.
pub proof fn lemma_compiled_fails<E>(lut: Seq<(Seq<char>, E)>, shortcuts: Seq<Seq<char>>, n: int)
    requires
        0 <= n <= shortcuts.len(),
        compiled(lut, shortcuts.take(n)) is None,
    ensures
        compiled(lut, shortcuts) is None,
    decreases shortcuts.len() - n,
{
    if n < shortcuts.len() {
        assert(shortcuts.take(n + 1).drop_last() =~= shortcuts.take(n));
        lemma_compiled_fails(lut, shortcuts, n + 1);
    } else {
        assert(shortcuts.take(n) =~= shortcuts);
    }
}

/// Splits a shortcut at its `+` signs.
pub fn split_shortcut(s: &str) -> (parts: Vec<String>)
    ensures
        names_of(parts@) == pieces(s@),
        parts@.len() >= 1,
{
    let n = s.unicode_len();
    let mut parts: Vec<String> = Vec::new();
    let mut start: usize = 0;
    let mut i: usize = 0;
    assert(s@.take(0) =~= Seq::<char>::empty());
    assert(names_of(parts@).push(s@.subrange(0, 0)) =~= pieces(s@.take(0)));
    while i < n
        invariant
            n == s@.len(),
            start <= i <= n,
            pieces(s@.take(i as int)) == names_of(parts@).push(s@.subrange(start as int, i as int)),
        decreases n - i,
    {
        let c = s.get_char(i);
        proof {
            assert(s@.take(i + 1).drop_last() =~= s@.take(i as int));
            assert(s@.take(i + 1).last() == c);
        }
        if c == '+' {
            let ghost before = parts@;
            let part = String::from_str(s.substring_char(start, i));
            parts.push(part);
            start = i + 1;
            proof {
                assert(names_of(parts@) =~= names_of(before).push(part@));
                assert(s@.subrange(start as int, i + 1) =~= Seq::<char>::empty());
            }
        } else {
            proof {
                let init = pieces(s@.take(i as int));
                assert(init.update(init.len() - 1, init.last().push(c)) =~= names_of(parts@).push(
                    s@.subrange(start as int, i + 1),
                )) by {
                    assert(s@.subrange(start as int, i as int).push(c) =~= s@.subrange(
                        start as int,
                        i + 1,
                    ));
                }
            }
        }
        i = i + 1;
    }
    let ghost before = parts@;
    let part = String::from_str(s.substring_char(start, n));
    parts.push(part);
    proof {
        assert(s@.take(n as int) =~= s@);
        assert(names_of(parts@) =~= names_of(before).push(part@));
    }
    parts
}

/// Looks a key name up.
pub fn lookup<E: Event>(lut: &Vec<(String, E)>, name: &String) -> (r: Option<E>)
    ensures
        r == resolve_one(lut_view(lut@), name@),
{
    let mut found: Option<E> = None;
    let mut i: usize = 0;
    assert(lut_view(lut@).take(0) =~= Seq::<(Seq<char>, E)>::empty());
    while i < lut.len()
        invariant
            i <= lut@.len(),
            found == resolve_one(lut_view(lut@).take(i as int), name@),
        decreases lut.len() - i,
    {
        proof {
            assert(lut_view(lut@).take(i + 1).drop_last() =~= lut_view(lut@).take(i as int));
            assert(lut_view(lut@).take(i + 1).last() == (lut@[i as int].0@, lut@[i as int].1));
        }
        if lut[i].0 == *name {
            found = Some(lut[i].1);
        }
        i = i + 1;
    }
    assert(lut_view(lut@).take(i as int) =~= lut_view(lut@));
    found
}

/// Looks up every part of a shortcut; none if one of them is unknown.
pub fn lookup_all<E: Event>(lut: &Vec<(String, E)>, parts: &Vec<String>) -> (r: Option<Vec<E>>)
    ensures
        r is Some <==> resolve(lut_view(lut@), names_of(parts@)) is Some,
        r is Some ==> r->Some_0@ == resolve(lut_view(lut@), names_of(parts@))->Some_0,
        r is Some ==> r->Some_0@.len() == parts@.len(),
{
    let mut events: Vec<E> = Vec::new();
    let mut i: usize = 0;
    assert(names_of(parts@).take(0) =~= Seq::<Seq<char>>::empty());
    while i < parts.len()
        invariant
            i <= parts@.len(),
            events@.len() == i,
            resolve(lut_view(lut@), names_of(parts@).take(i as int)) == Some(events@),
        decreases parts.len() - i,
    {
        proof {
            assert(names_of(parts@).take(i + 1).drop_last() =~= names_of(parts@).take(i as int));
            assert(names_of(parts@).take(i + 1).last() == parts@[i as int]@);
        }
        match lookup(lut, &parts[i]) {
            Some(event) => {
                events.push(event);
            },
            None => {
                proof {
                    lemma_resolve_fails(lut_view(lut@), names_of(parts@), i + 1);
                }
                return None;
            },
        }
        i = i + 1;
    }
    assert(names_of(parts@).take(i as int) =~= names_of(parts@));
    Some(events)
}

/// Where the first `n` names cannot all be resolved, neither can all.
pub proof fn lemma_resolve_fails<E>(lut: Seq<(Seq<char>, E)>, names: Seq<Seq<char>>, n: int)
    requires
        0 <= n <= names.len(),
        resolve(lut, names.take(n)) is None,
    ensures
        resolve(lut, names) is None,
    decreases names.len() - n,
{
    if n < names.len() {
        assert(names.take(n + 1).drop_last() =~= names.take(n));
        lemma_resolve_fails(lut, names, n + 1);
    } else {
        assert(names.take(n) =~= names);
    }
}

/// Every name has at least one character.
pub open spec fn all_named(names: Seq<Seq<char>>) -> bool {
    forall|i: int| 0 <= i < names.len() ==> (#[trigger] names[i]).len() > 0
}

/// What a run through a shortcut of `n` keys sets off: nothing until the
/// last key, then callback `k`.
pub open spec fn fires_last(n: nat, k: usize) -> Seq<Option<usize>> {
    Seq::new(
        n,
        |i: int|
            if i == n - 1 {
                Some(k)
            } else {
                None
            },
    )
}

/// The more names are run together, the longer the result.
pub proof fn lemma_joined_grows(names: Seq<Seq<char>>, i: int, j: int)
    requires
        all_named(names),
        0 <= i < j <= names.len(),
    ensures
        joined(names.take(i)).len() < joined(names.take(j)).len(),
    decreases j - i,
{
    assert(names.take(j).drop_last() =~= names.take(j - 1));
    assert(names.take(j).last() == names[j - 1]);
    if i < j - 1 {
        lemma_joined_grows(names, i, j - 1);
    }
}

/// The states that the keys of one shortcut leave from are all different.
pub proof fn lemma_chain_states_differ<E>(names: Seq<Seq<char>>, events: Seq<E>, k: usize, i: int, j: int)
    requires
        all_named(names),
        names.len() == events.len(),
        0 <= i < j < names.len(),
    ensures
        chain(names, events, k)[i].from != chain(names, events, k)[j].from,
{
    if i > 0 {
        lemma_joined_grows(names, i, j);
    }
}

/// Laid into an empty table, the transitions of one shortcut stand there as
/// they are, one after the other.
pub proof fn lemma_chain_alone<E>(names: Seq<Seq<char>>, events: Seq<E>, k: usize, m: int)
    requires
        all_named(names),
        names.len() == events.len(),
        0 <= m <= names.len(),
    ensures
        put_all(Seq::empty(), chain(names, events, k).take(m)) == chain(names, events, k).take(m),
    decreases m,
{
    let links = chain(names, events, k);
    if m == 0 {
        assert(links.take(0) =~= Seq::<EdgeView<E>>::empty());
    } else {
        lemma_chain_alone(names, events, k, m - 1);
        assert(links.take(m).drop_last() =~= links.take(m - 1));
        assert(links.take(m).last() == links[m - 1]);
        let before = links.take(m - 1);
        lemma_find(before, links[m - 1].from, links[m - 1].event);
        if find(before, links[m - 1].from, links[m - 1].event) is Some {
            let j = find(before, links[m - 1].from, links[m - 1].event)->Some_0;
            assert(before[j] == links[j]);
            lemma_chain_states_differ(names, events, k, j, m - 1);
        }
        assert(before.push(links[m - 1]) =~= links.take(m));
    }
}

/// A machine built from one shortcut whose key names are not empty, fed the
/// shortcut's keys in order from `Empty`, sets its callback off on the last
/// key, not before, and rests in `Empty` again.
pub proof fn lemma_shortcut_fires<E>(names: Seq<Seq<char>>, events: Seq<E>, k: usize)
    requires
        all_named(names),
        names.len() == events.len(),
        names.len() >= 1,
    ensures
        run(
            put_all(Seq::empty(), chain(names, events, k)),
            State::Empty,
            events,
        ) == (State::<Seq<char>>::Empty, fires_last(names.len(), k)),
{
    let links = chain(names, events, k);
    lemma_chain_alone(names, events, k, names.len() as int);
    assert(links.take(names.len() as int) =~= links);
    lemma_run_prefix(names, events, k, names.len() as int);
    assert(events.take(names.len() as int) =~= events);
    assert(Seq::new(
        names.len(),
        |i: int|
            if i == names.len() - 1 {
                Some(k)
            } else {
                None::<usize>
            },
    ) =~= fires_last(names.len(), k));
}

/// After the first `m` keys of a shortcut the machine of that shortcut
/// rests in the state that the next key leaves from, or in `Empty` once
/// all keys are in.
pub proof fn lemma_run_prefix<E>(names: Seq<Seq<char>>, events: Seq<E>, k: usize, m: int)
    requires
        all_named(names),
        names.len() == events.len(),
        names.len() >= 1,
        0 <= m <= names.len(),
    ensures
        run(chain(names, events, k), State::Empty, events.take(m)) == (
            if m == 0 || m == names.len() {
                State::<Seq<char>>::Empty
            } else {
                State::State(joined(names.take(m)))
            },
            Seq::new(
                m as nat,
                |i: int|
                    if i == names.len() - 1 {
                        Some(k)
                    } else {
                        None::<usize>
                    },
            ),
        ),
    decreases m,
{
    let links = chain(names, events, k);
    let fired = |i: int|
        if i == names.len() - 1 {
            Some(k)
        } else {
            None::<usize>
        };
    if m == 0 {
        assert(events.take(0) =~= Seq::<E>::empty());
        assert(run(links, State::Empty, events.take(0)).1 =~= Seq::new(0, fired));
    } else {
        lemma_run_prefix(names, events, k, m - 1);
        assert(events.take(m).drop_last() =~= events.take(m - 1));
        assert(events.take(m).last() == events[m - 1]);
        let before = run(links, State::Empty, events.take(m - 1));
        assert(before.0 == links[m - 1].from);
        assert forall|j: int| 0 <= j < m - 1 implies !(links[j].from == links[m - 1].from && links[j].event
            == events[m - 1]) by {
            lemma_chain_states_differ(names, events, k, j, m - 1);
        }
        lemma_find_first(links, links[m - 1].from, events[m - 1], m - 1);
        assert(Seq::new((m - 1) as nat, fired).push(fired(m - 1)) =~= Seq::new(m as nat, fired));
    }
}

/// Puts the transitions of one shortcut into `table`: its parts, the events
/// they stand for, and the callback `k` that its last key sets off.
pub fn lay_chain<E: Event>(table: &mut TransTable<E>, parts: &Vec<String>, events: &Vec<E>, k: usize)
    requires
        parts@.len() == events@.len(),
        parts@.len() >= 1,
    ensures
        final(table)@ == put_all(old(table)@, chain(names_of(parts@), events@, k)),
{
    let ghost names = names_of(parts@);
    let ghost links = chain(names, events@, k);
    let n = parts.len();
    let mut unique = String::new();
    let mut state: State<String> = State::Empty;
    let mut i: usize = 0;
    assert(names.take(0) =~= Seq::<Seq<char>>::empty());
    assert(links.take(0) =~= Seq::<EdgeView<E>>::empty());
    while i < n
        invariant
            n == parts@.len(),
            n == events@.len(),
            i <= n,
            names == names_of(parts@),
            links == chain(names, events@, k),
            table@ == put_all(old(table)@, links.take(i as int)),
            unique@ == joined(names.take(i as int)),
            i < n ==> state_view(state) == (if i == 0 {
                State::<Seq<char>>::Empty
            } else {
                State::State(joined(names.take(i as int)))
            }),
        decreases n - i,
    {
        proof {
            assert(names.take(i + 1).drop_last() =~= names.take(i as int));
            assert(names.take(i + 1).last() == parts@[i as int]@);
            assert(links.take(i + 1).drop_last() =~= links.take(i as int));
            assert(links.take(i + 1).last() == links[i as int]);
        }
        unique.append(parts[i].as_str());
        let last = i == n - 1;
        let target: State<String> = if last {
            State::Accept
        } else {
            State::State(unique.clone())
        };
        let callback: Option<usize> = if last {
            Some(k)
        } else {
            None
        };
        let next = copy_state(&target);
        let from = state;
        table.insert(from, events[i], Trans { state: target, callback });
        state = next;
        i = i + 1;
    }
    assert(links.take(n as int) =~= links);
}

/// Collects shortcuts and builds the machine that follows them. The
/// shortcut added as the `k`-th sets off callback `k`.
pub struct ShortcutTriggerBuilder<E> {
    pub shortcuts: Vec<String>,
    pub lut: Vec<(String, E)>,
}

impl<E: Event> ShortcutTriggerBuilder<E> {
    /// A builder without shortcuts, over the key names in `dict`.
    pub fn new(dict: Vec<(String, E)>) -> (b: ShortcutTriggerBuilder<E>)
        ensures
            b.lut == dict,
            b.shortcuts@.len() == 0,
    {
        ShortcutTriggerBuilder { shortcuts: Vec::new(), lut: dict }
    }

    /// Adds a shortcut, written as key names joined by `+`.
    pub fn with_shortcut(self, shortcut: String) -> (b: ShortcutTriggerBuilder<E>)
        ensures
            b.lut == self.lut,
            b.shortcuts@ == self.shortcuts@.push(shortcut),
    {
        let mut b = self;
        b.shortcuts.push(shortcut);
        b
    }

    /// Builds the machine, resting in `Empty`. Fails where a shortcut names
    /// a key that the builder does not know.
    pub fn build(self) -> (r: Result<ShortcutTrigger<E>, ()>)
        ensures
            r is Ok <==> compiled(lut_view(self.lut@), names_of(self.shortcuts@)) is Some,
            r is Ok ==> r->Ok_0.table@ == compiled(
                lut_view(self.lut@),
                names_of(self.shortcuts@),
            )->Some_0,
            r is Ok ==> r->Ok_0.current_state == State::<String>::Empty,
    {
        let ghost lv = lut_view(self.lut@);
        let ghost all = names_of(self.shortcuts@);
        let mut table: TransTable<E> = TransTable::new();
        let mut k: usize = 0;
        assert(all.take(0) =~= Seq::<Seq<char>>::empty());
        while k < self.shortcuts.len()
            invariant
                k <= self.shortcuts@.len(),
                lv == lut_view(self.lut@),
                all == names_of(self.shortcuts@),
                compiled(lv, all.take(k as int)) == Some(table@),
            decreases self.shortcuts.len() - k,
        {
            proof {
                assert(all.take(k + 1).drop_last() =~= all.take(k as int));
                assert(all.take(k + 1).last() == self.shortcuts@[k as int]@);
            }
            let parts = split_shortcut(self.shortcuts[k].as_str());
            match lookup_all(&self.lut, &parts) {
                Some(events) => {
                    lay_chain(&mut table, &parts, &events, k);
                },
                None => {
                    proof {
                        lemma_compiled_fails(lv, all, k + 1);
                    }
                    return Err(());
                },
            }
            k = k + 1;
        }
        assert(all.take(k as int) =~= all);
        Ok(ShortcutTrigger::new(table, State::Empty))
    }
}

/// The key names that shortcuts are written in.
pub open spec fn key_names() -> Seq<(Seq<char>, Key)> {
    seq![
        (seq!['C', 't', 'r', 'l'], Key::LControl),
        (seq!['A', 'l', 't'], Key::LAlt),
        (seq!['K', 'e', 'y', '1'], Key::Key1),
        (seq!['K', 'e', 'y', '2'], Key::Key2),
        (seq!['K', 'e', 'y', '3'], Key::Key3),
        (seq!['K', 'e', 'y', '4'], Key::Key4),
        (seq!['K', 'e', 'y', '5'], Key::Key5),
        (seq!['K', 'e', 'y', '6'], Key::Key6),
    ]
}

/// Builds the table of key names.
pub fn get_lut() -> (lut: Vec<(String, Key)>)
    ensures
        lut_view(lut@) == key_names(),
{
    proof {
        reveal_strlit("Ctrl");
        reveal_strlit("Alt");
        reveal_strlit("Key1");
        reveal_strlit("Key2");
        reveal_strlit("Key3");
        reveal_strlit("Key4");
        reveal_strlit("Key5");
        reveal_strlit("Key6");
    }
    let mut lut: Vec<(String, Key)> = Vec::new();
    lut.push((String::from_str("Ctrl"), Key::LControl));
    lut.push((String::from_str("Alt"), Key::LAlt));
    lut.push((String::from_str("Key1"), Key::Key1));
    lut.push((String::from_str("Key2"), Key::Key2));
    lut.push((String::from_str("Key3"), Key::Key3));
    lut.push((String::from_str("Key4"), Key::Key4));
    lut.push((String::from_str("Key5"), Key::Key5));
    lut.push((String::from_str("Key6"), Key::Key6));
    assert(lut_view(lut@) =~= key_names()) by {
        assert(lut_view(lut@).len() == 8);
        assert(lut_view(lut@)[0].0 =~= key_names()[0].0);
        assert(lut_view(lut@)[1].0 =~= key_names()[1].0);
        assert(lut_view(lut@)[2].0 =~= key_names()[2].0);
        assert(lut_view(lut@)[3].0 =~= key_names()[3].0);
        assert(lut_view(lut@)[4].0 =~= key_names()[4].0);
        assert(lut_view(lut@)[5].0 =~= key_names()[5].0);
        assert(lut_view(lut@)[6].0 =~= key_names()[6].0);
        assert(lut_view(lut@)[7].0 =~= key_names()[7].0);
    }
    lut
}

} // verus!
