use vstd::prelude::*;
use crate::event::{KeyEvent, describes, normalize};
use crate::keys::{KeyIdentity, hid_usage_of, is_lock, is_lock_key};
use crate::modifiers::{ModifierState, cleared, effective, step};

verus! {

/// What the capture hook observed.
#[derive(Clone, Copy, Debug, PartialEq, Eq, Structural, Hash)]
pub enum RawEventKind {
    KeyPress(KeyIdentity),
    KeyRelease(KeyIdentity),
    /// Anything that is not a key transition (pointer movement, buttons, wheel).
    Other,
}

/// The state of the single capture session: whether a hook is installed or
/// being installed, whether it suppresses key events from the host, and the
/// modifier tracking of the events seen so far.
#[derive(Clone, Copy, Debug, PartialEq, Eq, Structural, Hash)]
pub struct GrabSession {
    pub running: bool,
    pub keyboard_hooked: bool,
    pub modifiers: ModifierState,
}

/// What the hook does with one observed event.
#[derive(Clone, Debug, PartialEq, Eq)]
pub struct HookDecision {
    /// The record to hand to the consumer, if any.
    pub report: Option<KeyEvent>,
    /// Whether the event goes on to the host; otherwise it is dropped.
    pub pass_through: bool,
    /// A modifier whose state the capture layer's own tracking should be set
    /// to, from the event's scan code, on platforms that track it that way.
    pub resync: Option<KeyIdentity>,
}

/// No hook, nothing suppressed, nothing held.
pub open spec fn idle() -> GrabSession {
    GrabSession { running: false, keyboard_hooked: false, modifiers: cleared() }
}

impl GrabSession {
    /// Outside a session nothing is suppressed and no modifier state is left.
    pub open spec fn wf(&self) -> bool {
        !self.running ==> *self == idle()
    }
}

/// Whether `start_grab` installs a hook: only from Idle.
pub open spec fn start_installs(s: GrabSession) -> bool {
    !s.running
}

pub open spec fn after_start(s: GrabSession) -> GrabSession {
    if s.running {
        s
    } else {
        GrabSession { running: true, keyboard_hooked: false, modifiers: cleared() }
    }
}

/// Whether `stop_grab` tears the hook down: only while running.
pub open spec fn stop_tears_down(s: GrabSession) -> bool {
    s.running
}

pub open spec fn after_stop(s: GrabSession) -> GrabSession {
    if s.running {
        idle()
    } else {
        s
    }
}

/// The modifier state of the session after it observed `kind`.
pub open spec fn after_event(s: GrabSession, kind: RawEventKind) -> GrabSession {
    if !s.running {
        s
    } else {
        match kind {
            RawEventKind::KeyPress(k) => GrabSession { modifiers: step(s.modifiers, k, true), ..s },
            RawEventKind::KeyRelease(k) => GrabSession {
                modifiers: step(s.modifiers, k, false),
                ..s
            },
            RawEventKind::Other => s,
        }
    }
}

/// The modifier whose state a scan code stands for on the platform that
/// reports set-1 scan codes (0x021D is the Control that AltGr sends with it).
pub open spec fn modifier_of_scan_code(scan: u32) -> Option<KeyIdentity> {
    if scan == 0x1D || scan == 0x021D {
        Some(KeyIdentity::ControlLeft)
    } else if scan == 0xE01D {
        Some(KeyIdentity::ControlRight)
    } else if scan == 0x2A {
        Some(KeyIdentity::ShiftLeft)
    } else if scan == 0x36 {
        Some(KeyIdentity::ShiftRight)
    } else if scan == 0x38 {
        Some(KeyIdentity::Alt)
    } else if scan == 0xE038 {
        Some(KeyIdentity::AltGr)
    } else if scan == 0xE05B {
        Some(KeyIdentity::MetaLeft)
    } else if scan == 0xE05C {
        Some(KeyIdentity::MetaRight)
    } else {
        None
    }
}

pub fn modifier_for_scan_code(scan: u32) -> (r: Option<KeyIdentity>)
    ensures
        r == modifier_of_scan_code(scan),
{
    match scan {
        0x1D | 0x021D => Some(KeyIdentity::ControlLeft),
        0xE01D => Some(KeyIdentity::ControlRight),
        0x2A => Some(KeyIdentity::ShiftLeft),
        0x36 => Some(KeyIdentity::ShiftRight),
        0x38 => Some(KeyIdentity::Alt),
        0xE038 => Some(KeyIdentity::AltGr),
        0xE05B => Some(KeyIdentity::MetaLeft),
        0xE05C => Some(KeyIdentity::MetaRight),
        _ => None,
    }
}

/// What `handle_event` returns for `kind` in state `s`.
pub open spec fn decided(
    s: GrabSession,
    kind: RawEventKind,
    platform_code: u32,
    scan_code: u32,
    r: HookDecision,
) -> bool {
    match kind {
        RawEventKind::KeyPress(k) | RawEventKind::KeyRelease(k) => if s.running {
            &&& r.report is Some
            &&& describes(
                r.report->Some_0,
                k,
                kind is KeyPress,
                effective(after_event(s, kind).modifiers),
                platform_code,
                scan_code,
                hid_usage_of(k) as u32,
            )
            &&& r.pass_through == (is_lock_key(k) || !s.keyboard_hooked)
            &&& r.resync == (if is_lock_key(k) {
                None
            } else {
                modifier_of_scan_code(scan_code)
            })
        } else {
            r == HookDecision { report: None, pass_through: true, resync: None }
        },
        RawEventKind::Other => r == HookDecision {
            report: None,
            pass_through: true,
            resync: None,
        },
    }
}

impl GrabSession {
    pub fn new() -> (r: GrabSession)
        ensures
            r == idle(),
            r.wf(),
    {
        GrabSession { running: false, keyboard_hooked: false, modifiers: ModifierState::new() }
    }

    pub fn is_running(&self) -> (r: bool)
        ensures
            r == self.running,
    {
        self.running
    }

    pub fn is_keyboard_hooked(&self) -> (r: bool)
        ensures
            r == self.keyboard_hooked,
    {
        self.keyboard_hooked
    }

    /// The hook is in place: from now on key events are suppressed from the
    /// host. Changes nothing when the session was stopped meanwhile.
    pub fn hook_started(&mut self)
        requires
            old(self).wf(),
        ensures
            *final(self) == (if old(self).running {
                GrabSession { keyboard_hooked: true, ..*old(self) }
            } else {
                *old(self)
            }),
            final(self).wf(),
    {
        if self.running {
            self.keyboard_hooked = true;
        }
    }

    /// The hook has exited, whether stopped or failed: the session is Idle.
    pub fn hook_exited(&mut self)
        ensures
            *final(self) == idle(),
            final(self).wf(),
    {
        self.keyboard_hooked = false;
        self.running = false;
        self.modifiers.reset_modifiers();
    }

    /// Decides what becomes of one event seen by the hook. While running, a
    /// key transition updates the modifier state and is reported; it reaches
    /// the host unless the keyboard is hooked, and CapsLock and NumLock always
    /// reach it. Anything else, and every event outside a session, passes
    /// through unreported.
    pub fn handle_event(&mut self, kind: RawEventKind, platform_code: u32, scan_code: u32) -> (r:
        HookDecision)
        requires
            old(self).wf(),
        ensures
            *final(self) == after_event(*old(self), kind),
            final(self).wf(),
            decided(*old(self), kind, platform_code, scan_code, r),
    {
        let (key, is_press) = match kind {
            RawEventKind::KeyPress(k) => (k, true),
            RawEventKind::KeyRelease(k) => (k, false),
            RawEventKind::Other => {
                return HookDecision { report: None, pass_through: true, resync: None };
            },
        };
        if !self.running {
            return HookDecision { report: None, pass_through: true, resync: None };
        }
        let event = normalize(&mut self.modifiers, &key, is_press, platform_code, scan_code);
        if is_lock(&key) {
            return HookDecision { report: Some(event), pass_through: true, resync: None };
        }
        let resync = modifier_for_scan_code(scan_code);
        HookDecision { report: Some(event), pass_through: !self.keyboard_hooked, resync }
    }
}

/// Claims the session. Returns true when the caller is to install the
/// hook; false, changing nothing, when a session is already running.
pub fn start_grab(session: &mut GrabSession) -> (install: bool)
    requires
        old(session).wf(),
    ensures
        install == start_installs(*old(session)),
        *final(session) == after_start(*old(session)),
        final(session).wf(),
{
    if session.running {
        return false;
    }
    session.running = true;
    session.keyboard_hooked = false;
    session.modifiers.reset_modifiers();
    true
}

/// Ends the session. Returns true when the caller is to tear the hook
/// down; false, changing nothing, when no session is running.
pub fn stop_grab(session: &mut GrabSession) -> (teardown: bool)
    requires
        old(session).wf(),
    ensures
        teardown == stop_tears_down(*old(session)),
        *final(session) == after_stop(*old(session)),
        final(session).wf(),
{
    if !session.running {
        return false;
    }
    session.running = false;
    session.keyboard_hooked = false;
    session.modifiers.reset_modifiers();
    true
}

/// Starting twice in a row installs exactly one hook when the session was
/// Idle, and none when it was already running; the second start changes
/// nothing.
pub proof fn lemma_start_twice(s: GrabSession)
    requires
        s.wf(),
    ensures
        !s.running ==> start_installs(s) && !start_installs(after_start(s)),
        s.running ==> !start_installs(s) && !start_installs(after_start(s)),
        after_start(after_start(s)) == after_start(s),
{
}

/// Stopping twice in a row tears down exactly one hook when a session was
/// running, and none when it was Idle; either way the session ends Idle and
/// the second stop changes nothing.
pub proof fn lemma_stop_twice(s: GrabSession)
    requires
        s.wf(),
    ensures
        s.running ==> stop_tears_down(s) && !stop_tears_down(after_stop(s)),
        !s.running ==> !stop_tears_down(s) && after_stop(s) == s,
        after_stop(s) == idle(),
        after_stop(after_stop(s)) == after_stop(s),
{
}

/// CapsLock and NumLock transitions seen while running are reported and
/// reach the host, whether or not the keyboard is hooked.
pub proof fn lemma_lock_keys_pass_through(
    s: GrabSession,
    kind: RawEventKind,
    platform_code: u32,
    scan_code: u32,
    r: HookDecision,
)
    requires
        s.wf(),
        s.running,
        match kind {
            RawEventKind::KeyPress(k) | RawEventKind::KeyRelease(k) => is_lock_key(k),
            RawEventKind::Other => false,
        },
        decided(s, kind, platform_code, scan_code, r),
    ensures
        r.report is Some,
        r.pass_through,
{
}

} // verus!
