//! Keys, modifiers and the commands bound to them.

use vstd::prelude::*;
use crate::action::Action;

verus! {

/// The keys that the application knows by name.
#[derive(Debug, Clone, Copy, Hash, PartialEq, Eq, Structural)]
pub enum Key {
    LControl,
    LAlt,
    Key1,
    Key2,
    Key3,
    Key4,
    Key5,
    Key6,
    Escape,
}

/// Which modifier keys are held.
#[derive(Debug, Clone, Copy, Hash, PartialEq, Eq, Structural)]
pub struct Mods {
    pub shift: bool,
    pub ctrl: bool,
    pub alt: bool,
    pub logo: bool,
}

impl Mods {
    /// No modifier held.
    pub fn empty() -> (m: Mods)
        ensures
            m == (Mods { shift: false, ctrl: false, alt: false, logo: false }),
    {
        Mods { shift: false, ctrl: false, alt: false, logo: false }
    }

    /// Control and Alt held, nothing else.
    pub fn ctrl_alt() -> (m: Mods)
        ensures
            m == (Mods { shift: false, ctrl: true, alt: true, logo: false }),
    {
        Mods { shift: false, ctrl: true, alt: true, logo: false }
    }
}

/// A command bound to a key pressed under given modifiers.
#[derive(Debug, Clone, Copy)]
pub struct KeyBinding {
    pub action: Action,
    pub mods: Mods,
    pub key: Key,
}

impl KeyBinding {
    /// The binding answers to exactly its own modifiers and key.
    pub open spec fn matches(&self, mods: Mods, key: Key) -> bool {
        self.mods == mods && self.key == key
    }

    /// Whether a key pressed under `mods` sets this binding off.
    pub fn is_triggered(&self, mods: Mods, key: Key) -> (r: bool)
        ensures
            r == self.matches(mods, key),
    {
        self.mods == mods && self.key == key
    }
}

/// The bindings that the application starts with: Ctrl+Alt+1 selects a still
/// image, Ctrl+Alt+2 selects a recording, Escape leaves capture mode.
pub open spec fn default_bindings() -> Seq<KeyBinding> {
    seq![
        KeyBinding {
            action: Action::ImageCapture,
            mods: Mods { shift: false, ctrl: true, alt: true, logo: false },
            key: Key::Key1,
        },
        KeyBinding {
            action: Action::GifCapture,
            mods: Mods { shift: false, ctrl: true, alt: true, logo: false },
            key: Key::Key2,
        },
        KeyBinding {
            action: Action::Suspend,
            mods: Mods { shift: false, ctrl: false, alt: false, logo: false },
            key: Key::Escape,
        },
    ]
}

/// The commands of the bindings that a key pressed under `mods` sets off, in
/// the order of the bindings.
pub open spec fn fired(bindings: Seq<KeyBinding>, mods: Mods, key: Key) -> Seq<Action>
    decreases bindings.len(),
{
    if bindings.len() == 0 {
        Seq::empty()
    } else {
        let before = fired(bindings.drop_last(), mods, key);
        if bindings.last().matches(mods, key) {
            before.push(bindings.last().action)
        } else {
            before
        }
    }
}

/// Builds the bindings that the application starts with.
pub fn reload_keybinding_actions() -> (bindings: Vec<KeyBinding>)
    ensures
        bindings@ == default_bindings(),
{
    let mut bindings: Vec<KeyBinding> = Vec::new();
    bindings.push(KeyBinding { action: Action::ImageCapture, mods: Mods::ctrl_alt(), key: Key::Key1 });
    bindings.push(KeyBinding { action: Action::GifCapture, mods: Mods::ctrl_alt(), key: Key::Key2 });
    bindings.push(KeyBinding { action: Action::Suspend, mods: Mods::empty(), key: Key::Escape });
    assert(bindings@ =~= default_bindings());
    bindings
}

/// Collects the commands that a key pressed under `mods` sets off.
pub fn triggered_actions(bindings: &Vec<KeyBinding>, mods: Mods, key: Key) -> (actions: Vec<Action>)
    ensures
        actions@ == fired(bindings@, mods, key),
{
    let mut actions: Vec<Action> = Vec::new();
    let mut i: usize = 0;
    while i < bindings.len()
        invariant
            i <= bindings@.len(),
            actions@ == fired(bindings@.take(i as int), mods, key),
        decreases bindings.len() - i,
    {
        assert(bindings@.take(i + 1).drop_last() =~= bindings@.take(i as int));
        if bindings[i].is_triggered(mods, key) {
            actions.push(bindings[i].action);
        }
        i = i + 1;
    }
    assert(bindings@.take(i as int) =~= bindings@);
    actions
}

/// Each binding contributes at most one command, and only if it matches.
pub proof fn lemma_fired_bounded(bindings: Seq<KeyBinding>, mods: Mods, key: Key)
    ensures
        fired(bindings, mods, key).len() <= bindings.len(),
        (forall|i: int| 0 <= i < bindings.len() ==> !(#[trigger] bindings[i]).matches(mods, key))
            ==> fired(bindings, mods, key).len() == 0,
    decreases bindings.len(),
{
    if bindings.len() > 0 {
        lemma_fired_bounded(bindings.drop_last(), mods, key);
        if forall|i: int| 0 <= i < bindings.len() ==> !(#[trigger] bindings[i]).matches(mods, key) {
            assert forall|i: int| 0 <= i < bindings.drop_last().len() implies !(
            #[trigger] bindings.drop_last()[i]).matches(mods, key) by {
                assert(bindings.drop_last()[i] == bindings[i]);
            }
            assert(!bindings[bindings.len() - 1].matches(mods, key));
        }
    }
}

} // verus!
