//! Where a message goes: to one surface, to all of them, to the action
//! subsystem, or nowhere.

use vstd::prelude::*;
use crate::action::Action;
use crate::event::Event;
use crate::event::UserEvent;
use crate::window::AppWindow;
use crate::window::Target;

verus! {

/// The destination of a message.
#[derive(Debug, Clone, Copy)]
pub enum Route {
    /// Every registered surface receives it.
    Broadcast,
    /// This surface receives it, if it is registered.
    Window(AppWindow),
    /// The action subsystem carries this command out.
    Execute(Action),
    /// Nobody receives it.
    Dropped,
}

/// The destination of `e`. A message to a surface goes there whatever it
/// carries; a message to the action subsystem is heeded only if it carries
/// a command to carry out; anything else is dropped.
pub open spec fn route_of(e: UserEvent) -> Route {
    match (e.receiver, e.event) {
        (Target::Window(AppWindow::AllWindow), _) => Route::Broadcast,
        (Target::Window(w), _) => Route::Window(w),
        (Target::Action, Event::DoAction(action)) => Route::Execute(action),
        _ => Route::Dropped,
    }
}

/// Decides where a message goes.
pub fn route(e: &UserEvent) -> (r: Route)
    ensures
        r == route_of(*e),
{
    match e.receiver {
        Target::Window(AppWindow::AllWindow) => Route::Broadcast,
        Target::Window(w) => Route::Window(w),
        Target::Action => match e.event {
            Event::DoAction(action) => Route::Execute(action),
            _ => Route::Dropped,
        },
        Target::Application => Route::Dropped,
    }
}

/// The surfaces that exist, each logical identity with the handle of its
/// instance. No identity is registered twice.
pub struct WindowTable {
    pub entries: Vec<(AppWindow, u64)>,
}

impl WindowTable {
    /// No logical identity occurs twice.
    pub open spec fn wf(&self) -> bool {
        forall|i: int, j: int|
            0 <= i < j < self.entries@.len() ==> (#[trigger] self.entries@[i]).0 != (
            #[trigger] self.entries@[j]).0
    }

    /// Whether `window` is registered.
    pub open spec fn has(&self, window: AppWindow) -> bool {
        exists|i: int| 0 <= i < self.entries@.len() && (#[trigger] self.entries@[i]).0 == window
    }

    /// The handles of all registered surfaces, in order of registration.
    pub open spec fn handles(&self) -> Seq<u64> {
        self.entries@.map_values(|e: (AppWindow, u64)| e.1)
    }

    /// Who receives a message that takes `route`: for a broadcast every
    /// registered surface, for a single surface that one if it is
    /// registered, otherwise nobody.
    pub open spec fn receivers_of(&self, route: Route) -> Seq<u64> {
        match route {
            Route::Broadcast => self.handles(),
            Route::Window(w) => if self.has(w) {
                seq![self.handle_of(w)]
            } else {
                Seq::empty()
            },
            _ => Seq::empty(),
        }
    }

    /// The handle registered for `window`.
    pub open spec fn handle_of(&self, window: AppWindow) -> u64
        recommends
            self.has(window),
    {
        let i = choose|i: int| 0 <= i < self.entries@.len() && (#[trigger] self.entries@[i]).0 == window;
        self.entries@[i].1
    }

    /// A table without surfaces.
    pub fn new() -> (t: WindowTable)
        ensures
            t.wf(),
            t.entries@.len() == 0,
    {
        WindowTable { entries: Vec::new() }
    }

    /// Looks a surface up by its logical identity.
    pub fn find_window(&self, window: AppWindow) -> (r: Option<u64>)
        requires
            self.wf(),
        ensures
            r is Some <==> self.has(window),
            r is Some ==> r == Some(self.handle_of(window)),
    {
        let mut i: usize = 0;
        while i < self.entries.len()
            invariant
                i <= self.entries@.len(),
                self.wf(),
                forall|k: int| 0 <= k < i ==> (#[trigger] self.entries@[k]).0 != window,
            decreases self.entries.len() - i,
        {
            if self.entries[i].0 == window {
                proof {
                    let c = choose|c: int|
                        0 <= c < self.entries@.len() && (#[trigger] self.entries@[c]).0 == window;
                    assert(c == i) by {
                        if c < i {
                        } else if c > i {
                            assert(self.entries@[i as int].0 != self.entries@[c].0);
                        }
                    }
                }
                return Some(self.entries[i].1);
            }
            i = i + 1;
        }
        None
    }

    /// Registers `handle` under `window`, unless that identity is taken:
    /// the first registration stands.
    pub fn register(&mut self, window: AppWindow, handle: u64) -> (added: bool)
        requires
            old(self).wf(),
        ensures
            final(self).wf(),
            added == !old(self).has(window),
            added ==> final(self).entries@ == old(self).entries@.push((window, handle)),
            !added ==> final(self).entries@ == old(self).entries@,
            final(self).has(window),
    {
        match self.find_window(window) {
            Some(_) => false,
            None => {
                self.entries.push((window, handle));
                assert(self.entries@[self.entries@.len() - 1].0 == window);
                true
            },
        }
    }

    /// The handles of the surfaces that receive a message taking `route`.
    pub fn receivers(&self, route: &Route) -> (r: Vec<u64>)
        requires
            self.wf(),
        ensures
            r@ == self.receivers_of(*route),
    {
        let mut out: Vec<u64> = Vec::new();
        match *route {
            Route::Broadcast => {
                let mut i: usize = 0;
                while i < self.entries.len()
                    invariant
                        i <= self.entries@.len(),
                        out@ == self.handles().take(i as int),
                    decreases self.entries.len() - i,
                {
                    out.push(self.entries[i].1);
                    assert(out@ =~= self.handles().take(i + 1));
                    i = i + 1;
                }
                assert(out@ =~= self.handles());
            },
            Route::Window(w) => {
                match self.find_window(w) {
                    Some(h) => {
                        out.push(h);
                        assert(out@ =~= seq![self.handle_of(w)]);
                    },
                    None => {
                        assert(out@ =~= Seq::<u64>::empty());
                    },
                }
            },
            _ => {
                assert(out@ =~= Seq::<u64>::empty());
            },
        }
        out
    }
}

} // verus!
