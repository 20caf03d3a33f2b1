use vstd::prelude::*;
use crate::keys::{KeyIdentity, ModifierGroup, modifier_group, modifier_group_of};

verus! {

/// The modifiers reported with an event: Control and Alt include their
/// phantom flags.
#[derive(Clone, Copy, Debug, PartialEq, Eq, Structural, Hash)]
pub struct Modifiers {
    pub ctrl: bool,
    pub alt: bool,
    pub shift: bool,
    pub meta: bool,
}

/// Held state of the four modifier groups, and the phantom flags that mark
/// a Control or Alt release observed while that modifier was not held.
#[derive(Clone, Copy, Debug, PartialEq, Eq, Structural, Hash)]
pub struct ModifierState {
    pub ctrl_held: bool,
    pub alt_held: bool,
    pub shift_held: bool,
    pub meta_held: bool,
    pub ctrl_phantom: bool,
    pub alt_phantom: bool,
}

/// Nothing held, no phantom.
pub open spec fn cleared() -> ModifierState {
    ModifierState {
        ctrl_held: false,
        alt_held: false,
        shift_held: false,
        meta_held: false,
        ctrl_phantom: false,
        alt_phantom: false,
    }
}

/// Phantom correction, which sees the held flags before the event moves them.
/// A Control (Alt) release sets the phantom flag when Control (Alt) is not
/// held, and clears it when it is. A Control or Alt press changes nothing.
/// Any event of another key clears both flags.
pub open spec fn phantom_checked(s: ModifierState, k: KeyIdentity, is_press: bool) -> ModifierState {
    match modifier_group_of(k) {
        Some(ModifierGroup::Control) => if is_press {
            s
        } else {
            ModifierState { ctrl_phantom: !s.ctrl_held, ..s }
        },
        Some(ModifierGroup::Alt) => if is_press {
            s
        } else {
            ModifierState { alt_phantom: !s.alt_held, ..s }
        },
        _ => ModifierState { ctrl_phantom: false, alt_phantom: false, ..s },
    }
}

/// The held flag of the key's group becomes `down`; other keys change nothing.
pub open spec fn held_updated(s: ModifierState, k: KeyIdentity, down: bool) -> ModifierState {
    match modifier_group_of(k) {
        Some(ModifierGroup::Control) => ModifierState { ctrl_held: down, ..s },
        Some(ModifierGroup::Alt) => ModifierState { alt_held: down, ..s },
        Some(ModifierGroup::Shift) => ModifierState { shift_held: down, ..s },
        Some(ModifierGroup::Meta) => ModifierState { meta_held: down, ..s },
        None => s,
    }
}

/// The state after one key transition.
pub open spec fn step(s: ModifierState, k: KeyIdentity, is_press: bool) -> ModifierState {
    held_updated(phantom_checked(s, k, is_press), k, is_press)
}

/// The state after a sequence of (key, is_press) transitions, in order.
pub open spec fn run(s: ModifierState, events: Seq<(KeyIdentity, bool)>) -> ModifierState
    decreases events.len(),
{
    if events.len() == 0 {
        s
    } else {
        let last = events.last();
        step(run(s, events.drop_last()), last.0, last.1)
    }
}

pub open spec fn effective(s: ModifierState) -> Modifiers {
    Modifiers {
        ctrl: s.ctrl_held || s.ctrl_phantom,
        alt: s.alt_held || s.alt_phantom,
        shift: s.shift_held,
        meta: s.meta_held,
    }
}

pub open spec fn held_flag(s: ModifierState, g: ModifierGroup) -> bool {
    match g {
        ModifierGroup::Control => s.ctrl_held,
        ModifierGroup::Alt => s.alt_held,
        ModifierGroup::Shift => s.shift_held,
        ModifierGroup::Meta => s.meta_held,
    }
}

/// The direction of the most recent transition of a key of group `g`, or
/// `initial` when the sequence has none.
pub open spec fn last_set(initial: bool, events: Seq<(KeyIdentity, bool)>, g: ModifierGroup) -> bool
    decreases events.len(),
{
    if events.len() == 0 {
        initial
    } else if modifier_group_of(events.last().0) == Some(g) {
        events.last().1
    } else {
        last_set(initial, events.drop_last(), g)
    }
}

impl ModifierState {
    pub fn new() -> (r: ModifierState)
        ensures
            r == cleared(),
    {
        ModifierState {
            ctrl_held: false,
            alt_held: false,
            shift_held: false,
            meta_held: false,
            ctrl_phantom: false,
            alt_phantom: false,
        }
    }

    /// Clears every held and phantom flag.
    pub fn reset_modifiers(&mut self)
        ensures
            *final(self) == cleared(),
    {
        self.ctrl_held = false;
        self.alt_held = false;
        self.shift_held = false;
        self.meta_held = false;
        self.ctrl_phantom = false;
        self.alt_phantom = false;
    }

    pub fn update_modifiers(&mut self, key: &KeyIdentity, is_down: bool)
        ensures
            *final(self) == held_updated(*old(self), *key, is_down),
    {
        match modifier_group(key) {
            Some(ModifierGroup::Control) => self.ctrl_held = is_down,
            Some(ModifierGroup::Alt) => self.alt_held = is_down,
            Some(ModifierGroup::Shift) => self.shift_held = is_down,
            Some(ModifierGroup::Meta) => self.meta_held = is_down,
            None => {},
        }
    }

    pub fn check_phantom(&mut self, key: &KeyIdentity, is_press: bool)
        ensures
            *final(self) == phantom_checked(*old(self), *key, is_press),
    {
        match modifier_group(key) {
            Some(ModifierGroup::Control) => {
                if !is_press {
                    if !self.ctrl_held {
                        self.ctrl_phantom = true;
                    } else if self.ctrl_phantom {
                        self.ctrl_phantom = false;
                    }
                }
            },
            Some(ModifierGroup::Alt) => {
                if !is_press {
                    if !self.alt_held {
                        self.alt_phantom = true;
                    } else if self.alt_phantom {
                        self.alt_phantom = false;
                    }
                }
            },
            _ => {
                self.ctrl_phantom = false;
                self.alt_phantom = false;
            },
        }
    }

    pub fn current_modifiers(&self) -> (r: Modifiers)
        ensures
            r == effective(*self),
    {
        Modifiers {
            ctrl: self.ctrl_held || self.ctrl_phantom,
            alt: self.alt_held || self.alt_phantom,
            shift: self.shift_held,
            meta: self.meta_held,
        }
    }

    /// Applies one key transition and returns the modifiers in effect after it.
    pub fn observe(&mut self, key: &KeyIdentity, is_press: bool) -> (r: Modifiers)
        ensures
            *final(self) == step(*old(self), *key, is_press),
            r == effective(*final(self)),
    {
        self.check_phantom(key, is_press);
        self.update_modifiers(key, is_press);
        self.current_modifiers()
    }
}

/// Whatever the sequence, each held flag is the direction of the most recent
/// transition of a key of its group, or its initial value if there was none.
pub proof fn lemma_held_follows_last_transition(s: ModifierState, events: Seq<(KeyIdentity, bool)>)
    ensures
        run(s, events).ctrl_held == last_set(s.ctrl_held, events, ModifierGroup::Control),
        run(s, events).alt_held == last_set(s.alt_held, events, ModifierGroup::Alt),
        effective(run(s, events)).shift == last_set(s.shift_held, events, ModifierGroup::Shift),
        effective(run(s, events)).meta == last_set(s.meta_held, events, ModifierGroup::Meta),
    decreases events.len(),
{
    if events.len() > 0 {
        lemma_held_follows_last_transition(s, events.drop_last());
    }
}

/// Over transitions of keys outside the modifier groups, no held flag moves,
/// so effective Shift and Meta stay what they were, and once any such
/// transition has been seen both phantom flags are clear.
pub proof fn lemma_plain_keys(s: ModifierState, events: Seq<(KeyIdentity, bool)>)
    requires
        forall|i: int| 0 <= i < events.len() ==> modifier_group_of(#[trigger] events[i].0) is None,
    ensures
        run(s, events).ctrl_held == s.ctrl_held,
        run(s, events).alt_held == s.alt_held,
        effective(run(s, events)).shift == s.shift_held,
        effective(run(s, events)).meta == s.meta_held,
        events.len() > 0 ==> !run(s, events).ctrl_phantom && !run(s, events).alt_phantom,
    decreases events.len(),
{
    if events.len() > 0 {
        let prefix = events.drop_last();
        assert forall|i: int| 0 <= i < prefix.len() implies modifier_group_of(#[trigger] prefix[i].0) is None by {
            assert(prefix[i] == events[i]);
        }
        assert(modifier_group_of(events[events.len() - 1].0) is None);
        lemma_plain_keys(s, prefix);
    }
}

/// A transition of a key outside the modifier groups clears both phantom
/// flags and leaves every held flag alone.
pub proof fn lemma_plain_key_clears_phantoms(s: ModifierState, k: KeyIdentity, is_press: bool)
    requires
        modifier_group_of(k) is None,
    ensures
        !step(s, k, is_press).ctrl_phantom,
        !step(s, k, is_press).alt_phantom,
        step(s, k, is_press) == (ModifierState { ctrl_phantom: false, alt_phantom: false, ..s }),
{
}

/// A Control release while Control is neither held nor phantom sets the
/// phantom flag, leaves Control not held, and reports Control as held.
pub proof fn lemma_unmatched_control_release(s: ModifierState, k: KeyIdentity)
    requires
        modifier_group_of(k) == Some(ModifierGroup::Control),
        !s.ctrl_held,
        !s.ctrl_phantom,
    ensures
        step(s, k, false).ctrl_phantom,
        !step(s, k, false).ctrl_held,
        effective(step(s, k, false)).ctrl,
{
}

/// A Control release while Control is held and phantom clears the phantom
/// flag and leaves Control not held: Control is no longer reported.
pub proof fn lemma_control_release_ends_phantom(s: ModifierState, k: KeyIdentity)
    requires
        modifier_group_of(k) == Some(ModifierGroup::Control),
        s.ctrl_held,
        s.ctrl_phantom,
    ensures
        !step(s, k, false).ctrl_phantom,
        !step(s, k, false).ctrl_held,
        !effective(step(s, k, false)).ctrl,
{
}

/// After a Control release Control is never held, and the first transition
/// of a key outside the modifier groups that follows ends any phantom: Control
/// cannot stay reported.
pub proof fn lemma_control_not_stuck(s: ModifierState, k: KeyIdentity, other: KeyIdentity, is_press: bool)
    requires
        modifier_group_of(k) == Some(ModifierGroup::Control),
        modifier_group_of(other) is None,
    ensures
        !step(s, k, false).ctrl_held,
        !effective(step(step(s, k, false), other, is_press)).ctrl,
{
}

/// An Alt or AltGr release while Alt is neither held nor phantom sets the
/// phantom flag, leaves Alt not held, and reports Alt as held.
pub proof fn lemma_unmatched_alt_release(s: ModifierState, k: KeyIdentity)
    requires
        modifier_group_of(k) == Some(ModifierGroup::Alt),
        !s.alt_held,
        !s.alt_phantom,
    ensures
        step(s, k, false).alt_phantom,
        !step(s, k, false).alt_held,
        effective(step(s, k, false)).alt,
{
}

} // verus!
