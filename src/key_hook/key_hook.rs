//! Characters bound to actions, and the trait of widgets that accept such
//! bindings.
use std::collections::HashMap;
use vstd::prelude::*;

verus! {

broadcast use vstd::std_specs::hash::group_hash_axioms;

/// What a bound character does when it is pressed while its widget is in
/// normal mode.
#[derive(Clone, Copy, Debug, PartialEq, Eq, Structural)]
pub enum KeyAction {
    /// Run the widget's command key handler: enter editing mode.
    CommandKey,
    /// Consume the key and leave the widget as it is.
    Consume,
}

/// The KeyDatabase stores the characters that a widget listens for and the
/// action bound to each, at most one per character.
pub struct KeyDatabase {
    /// The bindings, keyed by the character's scalar value.
    pub keys: HashMap<u32, KeyAction>,
}

impl KeyDatabase {
    /// The action bound to `key`, if any.
    pub open spec fn binding(&self, key: char) -> Option<KeyAction> {
        if self.keys@.contains_key(key as u32) {
            Some(self.keys@[key as u32])
        } else {
            None
        }
    }

    /// The action bound to `key`, if any.
    pub fn lookup(&self, key: char) -> (r: Option<KeyAction>)
        ensures
            r == self.binding(key),
    {
        match self.keys.get(&(key as u32)) {
            Some(a) => Some(*a),
            None => None,
        }
    }

    /// Bind `key` to `action`, replacing any earlier binding of `key`.
    pub fn insert(&mut self, key: char, action: KeyAction)
        ensures
            final(self).keys@ == old(self).keys@.insert(key as u32, action),
    {
        self.keys.insert(key as u32, action);
    }

    /// Remove the binding of `key`, if there is one.
    pub fn remove(&mut self, key: char)
        ensures
            final(self).keys@ == old(self).keys@.remove(key as u32),
    {
        self.keys.remove(&(key as u32));
    }
}

impl Default for KeyDatabase {
    fn default() -> (r: KeyDatabase)
        ensures
            r.keys@ == Map::<u32, KeyAction>::empty(),
    {
        KeyDatabase { keys: HashMap::new() }
    }
}

/// Register keys to listen for.
///
/// A widget that is not focused, or not even visible, can still listen for
/// certain key presses in the host's event loop: it binds them here.
pub trait KeyHook {
    /// Listen for `key`: bind it to `action`.
    fn register_key(&mut self, key: char, action: KeyAction);

    /// Stop listening for `key`.
    fn unregister_key(&mut self, key: char);
}

} // verus!
