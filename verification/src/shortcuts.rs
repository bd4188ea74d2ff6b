//! Keyboard shortcuts: which key, pressed with which modifiers held, shows
//! which page.

use crate::navigation::{NavigationError, NavigationStack};
use vstd::prelude::*;

verus! {

/// The bit of the shift key in a modifier state.
pub const SHIFT_MASK: u32 = 1;

/// The bit of the control key in a modifier state.
pub const CONTROL_MASK: u32 = 4;

/// The bit of the alt key in a modifier state.
pub const ALT_MASK: u32 = 8;

/// What becomes of a key press once it has been looked at.
#[derive(Debug, Clone, Copy, PartialEq, Eq, Structural)]
pub enum Propagation {
    /// The press was used up: nothing else gets it.
    Stop,
    /// The press was not used: it goes on to whoever is next.
    Proceed,
}

/// One shortcut: the modifiers to hold, the key to press, and the id of the
/// page that the press shows.
#[derive(Debug, PartialEq, Eq)]
pub struct Shortcut {
    pub modifiers: u32,
    pub key: char,
    pub page: String,
}

/// A shortcut as text.
pub struct ShortcutText {
    pub modifiers: u32,
    pub key: char,
    pub page: Seq<char>,
}

impl View for Shortcut {
    type V = ShortcutText;

    open spec fn view(&self) -> ShortcutText {
        ShortcutText { modifiers: self.modifiers, key: self.key, page: self.page@ }
    }
}

/// The shortcuts of `v` as text.
pub open spec fn shortcuts_text(v: Seq<Shortcut>) -> Seq<ShortcutText> {
    Seq::new(v.len(), |i: int| v[i]@)
}

/// Whether all of `modifiers` are held in `state`; others may be held too.
pub open spec fn holds(state: u32, modifiers: u32) -> bool {
    state & modifiers == modifiers
}

/// Whether a press of `key` (`None` for a key that stands for no character)
/// in `state` is the shortcut `binding`.
pub open spec fn triggers(binding: ShortcutText, state: u32, key: Option<char>) -> bool {
    holds(state, binding.modifiers) && key == Some(binding.key)
}

/// The id of the page that a press of `key` in `state` shows: that of the
/// first shortcut among `bindings` that the press is, if it is any.
pub open spec fn target(bindings: Seq<ShortcutText>, state: u32, key: Option<char>) -> Option<
    Seq<char>,
>
    decreases bindings.len(),
{
    if bindings.len() == 0 {
        None
    } else if triggers(bindings.first(), state, key) {
        Some(bindings.first().page)
    } else {
        target(bindings.drop_first(), state, key)
    }
}

/// The shortcuts of the panel: control with the digits 1 to 6, for the
/// pages in the order of their registration.
pub open spec fn default_bindings() -> Seq<ShortcutText> {
    seq![
        ShortcutText { modifiers: CONTROL_MASK, key: '1', page: "audio"@ },
        ShortcutText { modifiers: CONTROL_MASK, key: '2', page: "bluetooth"@ },
        ShortcutText { modifiers: CONTROL_MASK, key: '3', page: "displays"@ },
        ShortcutText { modifiers: CONTROL_MASK, key: '4', page: "power"@ },
        ShortcutText { modifiers: CONTROL_MASK, key: '5', page: "system_info"@ },
        ShortcutText { modifiers: CONTROL_MASK, key: '6', page: "network"@ },
    ]
}

/// The id of the page that the panel shows for a digit pressed with control.
pub open spec fn page_for_key(key: Option<char>) -> Option<Seq<char>> {
    match key {
        Some('1') => Some("audio"@),
        Some('2') => Some("bluetooth"@),
        Some('3') => Some("displays"@),
        Some('4') => Some("power"@),
        Some('5') => Some("system_info"@),
        Some('6') => Some("network"@),
        _ => None,
    }
}

/// A press that stands for no character is no shortcut.
pub proof fn lemma_no_key_no_target(bindings: Seq<ShortcutText>, state: u32)
    ensures
        target(bindings, state, None) == None::<Seq<char>>,
    decreases bindings.len(),
{
    if bindings.len() > 0 {
        lemma_no_key_no_target(bindings.drop_first(), state);
    }
}

/// With the panel's shortcuts a press shows a page exactly if control is
/// held and the key is one of the digits 1 to 6, whatever else is held.
pub proof fn lemma_default_target(state: u32, key: Option<char>)
    ensures
        target(default_bindings(), state, key) == if holds(state, CONTROL_MASK) {
            page_for_key(key)
        } else {
            None
        },
{
    reveal_with_fuel(target, 7);
}

/// The shortcuts of a window. Built once; read only afterwards.
#[derive(Debug, PartialEq, Eq)]
pub struct ShortcutTable {
    bindings: Vec<Shortcut>,
}

impl View for ShortcutTable {
    type V = Seq<ShortcutText>;

    closed spec fn view(&self) -> Seq<ShortcutText> {
        shortcuts_text(self.bindings@)
    }
}

impl ShortcutTable {
    /// The shortcuts of the panel.
    pub fn new() -> (table: ShortcutTable)
        ensures
            table@ == default_bindings(),
    {
        let mut bindings: Vec<Shortcut> = Vec::new();
        bindings.push(Shortcut { modifiers: CONTROL_MASK, key: '1', page: "audio".to_owned() });
        bindings.push(Shortcut { modifiers: CONTROL_MASK, key: '2', page: "bluetooth".to_owned() });
        bindings.push(Shortcut { modifiers: CONTROL_MASK, key: '3', page: "displays".to_owned() });
        bindings.push(Shortcut { modifiers: CONTROL_MASK, key: '4', page: "power".to_owned() });
        bindings.push(
            Shortcut { modifiers: CONTROL_MASK, key: '5', page: "system_info".to_owned() },
        );
        bindings.push(Shortcut { modifiers: CONTROL_MASK, key: '6', page: "network".to_owned() });
        let table = ShortcutTable { bindings };
        table
    }

    /// A table of the given shortcuts, the earlier ones going first.
    pub fn with_bindings(bindings: Vec<Shortcut>) -> (table: ShortcutTable)
        ensures
            table@ == shortcuts_text(bindings@),
    {
        ShortcutTable { bindings }
    }

    /// The id of the page that a press of `key` in `state` shows, if any.
    pub fn lookup(&self, state: u32, key: Option<char>) -> (page: Option<&str>)
        ensures
            match page {
                Some(id) => Some(id@),
                None => None,
            } == target(self@, state, key),
    {
        let pressed = match key {
            Some(c) => c,
            None => {
                proof {
                    lemma_no_key_no_target(self@, state);
                }
                return None;
            },
        };
        let mut i: usize = 0;
        assert(self@.skip(0) =~= self@);
        while i < self.bindings.len()
            invariant
                i <= self.bindings.len(),
                key == Some(pressed),
                target(self@, state, key) == target(self@.skip(i as int), state, key),
            decreases self.bindings.len() - i,
        {
            let binding = &self.bindings[i];
            proof {
                assert(self@.skip(i as int).drop_first() =~= self@.skip(i + 1));
            }
            if state & binding.modifiers == binding.modifiers && binding.key == pressed {
                return Some(binding.page.as_str());
            }
            i += 1;
        }
        None
    }

    /// Handles a key press: where it is a shortcut, shows the shortcut's
    /// page and uses the press up; where it is none, leaves the stack as it
    /// is and lets the press go on. A shortcut for a page that the stack
    /// does not hold is refused, and the stack stays as it is.
    pub fn dispatch(&self, stack: &mut NavigationStack, state: u32, key: Option<char>) -> (r:
        Result<Propagation, NavigationError>)
        ensures
            r == match target(self@, state, key) {
                None => Ok::<Propagation, NavigationError>(Propagation::Proceed),
                Some(id) => if old(stack)@.registered(id) {
                    Ok::<Propagation, NavigationError>(Propagation::Stop)
                } else {
                    Err::<Propagation, NavigationError>(NavigationError::InvalidPageId)
                },
            },
            final(stack)@ == match target(self@, state, key) {
                None => old(stack)@,
                Some(id) => old(stack)@.selecting(id),
            },
    {
        match self.lookup(state, key) {
            Some(id) => match stack.select(id) {
                Ok(()) => Ok(Propagation::Stop),
                Err(e) => Err(e),
            },
            None => Ok(Propagation::Proceed),
        }
    }
}

} // verus!
