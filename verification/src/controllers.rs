use vstd::prelude::*;
use crate::keys::{
    KeyInput, apply_locks, charcode, matches_shortcut, note_lock_key, noted, shortcut_matches,
    valid_modifiers, is_char_code, with_locks, names_key, lemma_with_locks, ascii_key_matches,
    lowercase, uppercase,
    ascii_lower_code,
};
use crate::state::AppState;
use crate::timer::Timer;

verus! {

/// What a grabbing window does when one of its timers fires.
#[derive(Clone, Copy, PartialEq, Eq, Structural, Debug)]
pub enum CaptureStep {
    /// The countdown is over: wait one short pause more, under a new token.
    FollowUp,
    /// The short pause is over: take the screenshot and close the window.
    Capture,
    /// The timer belongs to neither stage.
    Unrelated,
}

/// The step for the timer `fired`, where `first` is the countdown's token
/// and `second` the short pause's.
pub open spec fn capture_step(first: u64, second: u64, fired: u64) -> CaptureStep {
    if fired == first {
        CaptureStep::FollowUp
    } else if fired == second {
        CaptureStep::Capture
    } else {
        CaptureStep::Unrelated
    }
}

fn step_for(first: u64, second: u64, fired: u64) -> (step: CaptureStep)
    ensures
        step == capture_step(first, second, fired),
{
    if fired == first {
        CaptureStep::FollowUp
    } else if fired == second {
        CaptureStep::Capture
    } else {
        CaptureStep::Unrelated
    }
}

/// The countdown's own timer always asks for the short pause first, and a
/// capture is taken only when the pause's timer, a different one, fires.
pub proof fn lemma_capture_only_after_pause(first: u64, second: u64, fired: u64)
    ensures
        capture_step(first, second, first) == CaptureStep::FollowUp,
        capture_step(first, second, fired) == CaptureStep::Capture ==> fired == second && fired != first,
        fired != first && fired != second ==> capture_step(first, second, fired) == CaptureStep::Unrelated,
{
}

/// Records a new shortcut from the keys pressed in the shortcut window.
pub struct ShortcutController {
    pub locks: [bool; 5],
}

impl ShortcutController {
    /// A key press: a lock key sets its lock, and the shortcut becomes the
    /// press's modifiers, with the locks applied, and the key's character code.
    pub fn key_down(&mut self, data: &mut AppState, key: &KeyInput, mods: u32)
        ensures
            final(self).locks@ == noted(old(self).locks@, *key),
            *final(data) == (AppState {
                mods: with_locks(mods, final(self).locks@),
                key: charcode(*key),
                ..*old(data)
            }),
    {
        note_lock_key(&mut self.locks, key);
        data.mods = apply_locks(mods, &self.locks);
        data.key = key.legacy_charcode();
    }
}

/// The token of no timer: no timer ever fires with it.
pub const NO_TIMER: u64 = 0;

/// What has happened so far in a capture window: whether a key press matched
/// the shortcut, and whether the countdown it started has fired since.
#[derive(Clone, Copy, PartialEq, Eq, Structural, Debug)]
pub struct CaptureProgress {
    pub matched: bool,
    pub counted_down: bool,
}

/// The state of a capture window as its contracts speak of it: the
/// countdown's token, the pause's token, the lock slots, and the progress.
pub struct EnterView {
    pub countdown: u64,
    pub pause: u64,
    pub locks: Seq<bool>,
    pub progress: CaptureProgress,
}

/// Takes a full-screen capture when the saved shortcut is pressed: the
/// matching press starts a countdown, the countdown starts a short pause,
/// and the pause's end takes the screenshot. A token is held only once what
/// sets it has happened: the countdown's after a matching press, the pause's
/// after the countdown fired.
pub struct Enter {
    id_t: u64,
    id_t2: u64,
    locks: [bool; 5],
    progress: Ghost<CaptureProgress>,
}

impl View for Enter {
    type V = EnterView;

    closed spec fn view(&self) -> EnterView {
        EnterView { countdown: self.id_t, pause: self.id_t2, locks: self.locks@, progress: self.progress@ }
    }
}

impl Enter {
    #[verifier::type_invariant]
    spec fn tokens_follow_progress(self) -> bool {
        &&& self.id_t != NO_TIMER ==> self.progress@.matched
        &&& self.id_t2 != NO_TIMER ==> self.progress@.counted_down
        &&& self.progress@.counted_down ==> self.progress@.matched
    }

    /// A window with no timer running and no lock key pressed.
    pub fn new() -> (e: Enter)
        ensures
            e@.countdown == NO_TIMER,
            e@.pause == NO_TIMER,
            e@.locks == seq![false, false, false, false, false],
            e@.progress == (CaptureProgress { matched: false, counted_down: false }),
    {
        let e = Enter {
            id_t: NO_TIMER,
            id_t2: NO_TIMER,
            locks: [false; 5],
            progress: Ghost(CaptureProgress { matched: false, counted_down: false }),
        };
        assert(e.locks@ =~= seq![false, false, false, false, false]);
        e
    }

    /// The token of the countdown.
    pub fn countdown_token(&self) -> (t: u64)
        ensures
            t == self@.countdown,
    {
        self.id_t
    }

    /// The token of the short pause.
    pub fn pause_token(&self) -> (t: u64)
        ensures
            t == self@.pause,
    {
        self.id_t2
    }

    /// The lock slots.
    pub fn locks(&self) -> (l: [bool; 5])
        ensures
            l@ == self@.locks,
    {
        self.locks
    }

    /// A key press: a lock key sets its lock; when the press, locks applied,
    /// is the saved shortcut, the capture goes full screen, the locks are
    /// cleared and the answer is `true`: the countdown is to be started.
    /// For a saved ASCII character the press matches when its modifiers are
    /// the saved ones and its text is that character in either case.
    pub fn key_down(&mut self, data: &mut AppState, key: &KeyInput, mods: u32) -> (fire: bool)
        requires
            valid_modifiers(old(data).mods),
            is_char_code(old(data).key),
        ensures
            fire == shortcut_matches(
                with_locks(mods, noted(old(self)@.locks, *key)),
                *key,
                old(data).mods,
                old(data).key,
            ),
            old(data).key < 128 ==> fire == (with_locks(mods, noted(old(self)@.locks, *key))
                == old(data).mods && ascii_key_matches(*key, old(data).key)),
            final(self)@.countdown == old(self)@.countdown,
            final(self)@.pause == old(self)@.pause,
            fire ==> final(self)@.locks == seq![false, false, false, false, false],
            !fire ==> final(self)@.locks == noted(old(self)@.locks, *key),
            final(self)@.progress == if fire {
                CaptureProgress { matched: true, ..old(self)@.progress }
            } else {
                old(self)@.progress
            },
            *final(data) == if fire {
                AppState { is_full_screen: true, ..*old(data) }
            } else {
                *old(data)
            },
    {
        proof {
            use_type_invariant(&*self);
        }
        let mut locks = self.locks;
        note_lock_key(&mut locks, key);
        let event_mods = apply_locks(mods, &locks);
        let fire = matches_shortcut(event_mods, key, data.mods, data.key);
        if fire {
            data.is_full_screen = true;
            self.progress = Ghost(CaptureProgress { matched: true, ..self.progress@ });
            self.locks = [false; 5];
            assert(self.locks@ =~= seq![false, false, false, false, false]);
        } else {
            self.locks = locks;
        }
        fire
    }

    /// The countdown started by a matching press runs under `countdown`.
    pub fn arm(&mut self, countdown: u64)
        requires
            old(self)@.progress.matched,
        ensures
            final(self)@ == (EnterView { countdown, ..old(self)@ }),
    {
        proof {
            use_type_invariant(&*self);
        }
        self.id_t = countdown;
    }

    /// What to do when the timer with token `fired` goes off. A capture is
    /// only ever asked for after a matching press and a countdown that fired.
    pub fn on_timer(&self, fired: u64) -> (step: CaptureStep)
        ensures
            step == capture_step(self@.countdown, self@.pause, fired),
            fired != NO_TIMER && step == CaptureStep::FollowUp ==> self@.progress.matched,
            fired != NO_TIMER && step == CaptureStep::Capture ==> self@.progress.matched
                && self@.progress.counted_down,
    {
        proof {
            use_type_invariant(self);
        }
        step_for(self.id_t, self.id_t2, fired)
    }

    /// The countdown `fired` went off: the short pause runs under `pause`,
    /// and the countdown's token is replaced by `retired`, a fresh one that is
    /// not the pause's; the pause's timer then takes the capture.
    pub fn start_pause(&mut self, fired: u64, pause: u64, retired: u64)
        requires
            fired != NO_TIMER,
            retired != pause,
            capture_step(old(self)@.countdown, old(self)@.pause, fired) == CaptureStep::FollowUp,
        ensures
            final(self)@ == (EnterView {
                countdown: retired,
                pause,
                progress: CaptureProgress { counted_down: true, ..old(self)@.progress },
                ..old(self)@
            }),
            capture_step(final(self)@.countdown, final(self)@.pause, pause) == CaptureStep::Capture,
    {
        proof {
            use_type_invariant(&*self);
        }
        self.progress = Ghost(CaptureProgress { counted_down: true, ..self.progress@ });
        self.id_t2 = pause;
        self.id_t = retired;
    }
}

/// An input event of the selection window.
#[derive(Clone, Copy, PartialEq, Eq, Structural, Debug)]
pub enum AreaEvent {
    MouseDown,
    MouseUp,
    MouseMove,
    Timer(u64),
    Other,
}

/// What the selection window does with an event.
#[derive(Clone, Copy, PartialEq, Eq, Structural, Debug)]
pub enum AreaAction {
    /// Start a selection at the pointer.
    BeginSelection,
    /// Stretch the selection to the pointer.
    ExtendSelection,
    /// Fix the selection, hide the window, and count down this many milliseconds.
    EndSelection(u64),
    /// Hide the window and count down this many milliseconds.
    StartCountdown(u64),
    /// Show the window and wait one short pause more, under a new token.
    FollowUp,
    /// Take the screenshot and close the window.
    Capture,
    /// A timer of neither stage: nothing to do.
    Unrelated,
    /// Hand the event to the inner widget.
    Forward,
}

/// The action for `event`, for a window that selects an area (`full` false)
/// or grabs the whole screen (`full` true), with the given capture delay.
pub open spec fn area_action(full: bool, delay: Timer, first: u64, second: u64, event: AreaEvent) -> AreaAction {
    match event {
        AreaEvent::Timer(id) => match capture_step(first, second, id) {
            CaptureStep::FollowUp => AreaAction::FollowUp,
            CaptureStep::Capture => AreaAction::Capture,
            CaptureStep::Unrelated => AreaAction::Unrelated,
        },
        _ => if full {
            AreaAction::StartCountdown(delay.countdown())
        } else {
            match event {
                AreaEvent::MouseDown => AreaAction::BeginSelection,
                AreaEvent::MouseUp => AreaAction::EndSelection(delay.countdown()),
                AreaEvent::MouseMove => AreaAction::ExtendSelection,
                _ => AreaAction::Forward,
            }
        },
    }
}

/// The full-screen mark after `event`: an area window clears it on every
/// event, a full-screen window sets it on every event but its timers.
pub open spec fn full_screen_after(full: bool, before: bool, event: AreaEvent) -> bool {
    if !full {
        false
    } else if event is Timer {
        before
    } else {
        true
    }
}

/// Drives the selection window: a click and drag selects the area, and any
/// event starts the capture when the window grabs the whole screen.
pub struct AreaController {
    pub id_t: u64,
    pub id_t2: u64,
    pub flag: bool,
}

impl AreaController {
    /// The countdown before the capture runs under `countdown`.
    pub fn arm(&mut self, countdown: u64)
        ensures
            *final(self) == (AreaController { id_t: countdown, ..*old(self) }),
    {
        self.id_t = countdown;
    }

    /// The countdown `fired` went off: the short pause runs under `pause`,
    /// and the countdown's token is replaced by `retired`, a fresh one that is
    /// not the pause's; the pause's timer then takes the capture.
    pub fn start_pause(&mut self, fired: u64, pause: u64, retired: u64)
        requires
            retired != pause,
            capture_step(old(self).id_t, old(self).id_t2, fired) == CaptureStep::FollowUp,
        ensures
            *final(self) == (AreaController { id_t: retired, id_t2: pause, ..*old(self) }),
            capture_step(final(self).id_t, final(self).id_t2, pause) == CaptureStep::Capture,
    {
        self.id_t2 = pause;
        self.id_t = retired;
    }

    /// Handles `event` and says what the window is to do.
    pub fn on_event(&self, data: &mut AppState, event: AreaEvent) -> (action: AreaAction)
        ensures
            action == area_action(self.flag, old(data).delay, self.id_t, self.id_t2, event),
            *final(data) == (AppState {
                is_full_screen: full_screen_after(self.flag, old(data).is_full_screen, event),
                ..*old(data)
            }),
    {
        if !self.flag {
            data.is_full_screen = false;
            match event {
                AreaEvent::MouseDown => AreaAction::BeginSelection,
                AreaEvent::MouseUp => AreaAction::EndSelection(data.delay.countdown_millis()),
                AreaEvent::MouseMove => AreaAction::ExtendSelection,
                AreaEvent::Timer(id) => match step_for(self.id_t, self.id_t2, id) {
                    CaptureStep::FollowUp => AreaAction::FollowUp,
                    CaptureStep::Capture => AreaAction::Capture,
                    CaptureStep::Unrelated => AreaAction::Unrelated,
                },
                AreaEvent::Other => AreaAction::Forward,
            }
        } else {
            match event {
                AreaEvent::Timer(id) => match step_for(self.id_t, self.id_t2, id) {
                    CaptureStep::FollowUp => AreaAction::FollowUp,
                    CaptureStep::Capture => AreaAction::Capture,
                    CaptureStep::Unrelated => AreaAction::Unrelated,
                },
                _ => {
                    data.is_full_screen = true;
                    AreaAction::StartCountdown(data.delay.countdown_millis())
                },
            }
        }
    }
}

/// The shortcut window and the capture window agree: a key press recorded by
/// the shortcut window is a shortcut the capture window accepts, and that
/// same press, with the same locks in force, fires the capture exactly when
/// the key's text is its first character in lower or upper case (as for a
/// letter key); a key that is no character never fires it.
pub proof fn lemma_recorded_shortcut_fires(locks: Seq<bool>, key: KeyInput, mods: u32)
    requires
        locks.len() == 5,
        valid_modifiers(mods),
    ensures
        valid_modifiers(with_locks(mods, noted(locks, key))),
        is_char_code(charcode(key)),
        shortcut_matches(
            with_locks(mods, noted(locks, key)),
            key,
            with_locks(mods, noted(locks, key)),
            charcode(key),
        ) == names_key(key, charcode(key) as char),
        key matches KeyInput::Character(s) ==> (s@.len() > 0 ==> charcode(key) as char == s@[0]),
        !(key is Character) ==> !shortcut_matches(
            with_locks(mods, noted(locks, key)),
            key,
            with_locks(mods, noted(locks, key)),
            charcode(key),
        ),
        key matches KeyInput::Character(s) ==> (s@.len() > 0 && (s@ == lowercase(s@[0]) || s@
            == uppercase(s@[0])) ==> shortcut_matches(
            with_locks(mods, noted(locks, key)),
            key,
            with_locks(mods, noted(locks, key)),
            charcode(key),
        )),
{
    lemma_with_locks(mods, noted(locks, key));
    if let KeyInput::Character(s) = key {
        if s@.len() > 0 {
            vstd::utf8::char_is_scalar(s@[0]);
            vstd::utf8::char_u32_cast(s@[0], s@[0] as u32);
        }
    }
}

/// An ASCII shortcut recorded by the shortcut window fires the capture when
/// the same key is pressed again with the same modifiers and the same locks
/// in force: the recorded modifiers and code are ones the capture window
/// accepts, and the press matches them.
pub proof fn lemma_recorded_ascii_shortcut_fires(locks: Seq<bool>, key: KeyInput, mods: u32)
    requires
        locks.len() == 5,
        valid_modifiers(mods),
        key matches KeyInput::Character(s) && s@.len() == 1 && (s@[0] as u32) < 128,
    ensures
        valid_modifiers(with_locks(mods, noted(locks, key))),
        is_char_code(charcode(key)),
        charcode(key) < 128,
        ascii_key_matches(key, charcode(key)),
{
    lemma_with_locks(mods, noted(locks, key));
    if let KeyInput::Character(s) = key {
        vstd::utf8::char_is_scalar(s@[0]);
    }
}

/// The shortcut ignores letter case: for a saved ASCII character, a key
/// whose text is a character and a key whose text is that character in
/// upper case either both match or both do not.
pub proof fn lemma_shortcut_ignores_letter_case(lower: KeyInput, upper: KeyInput, saved_key: u32)
    requires
        saved_key < 128,
        lower matches KeyInput::Character(a) && a@.len() == 1,
        upper matches KeyInput::Character(b) && b@.len() == 1,
        match (lower, upper) {
            (KeyInput::Character(a), KeyInput::Character(b)) => b@[0] as u32 == crate::keys::ascii_upper_code(a@[0] as u32),
            _ => false,
        },
    ensures
        ascii_key_matches(lower, saved_key) == ascii_key_matches(upper, saved_key),
{
}

/// What each event does to a window, in terms of the event alone: a
/// full-screen window starts the countdown of its delay on every event but
/// a timer; an area window begins a selection on a press, stretches it on a
/// move, ends it with the countdown of its delay on a release, and hands
/// every other event on; in both, the countdown's timer asks for the pause,
/// the pause's timer for the capture, and any other timer for nothing.
pub proof fn lemma_area_actions(delay: Timer, first: u64, second: u64, event: AreaEvent)
    ensures
        !(event is Timer) ==> area_action(true, delay, first, second, event)
            == AreaAction::StartCountdown(delay.countdown()),
        event == AreaEvent::MouseDown ==> area_action(false, delay, first, second, event)
            == AreaAction::BeginSelection,
        event == AreaEvent::MouseMove ==> area_action(false, delay, first, second, event)
            == AreaAction::ExtendSelection,
        event == AreaEvent::MouseUp ==> area_action(false, delay, first, second, event)
            == AreaAction::EndSelection(delay.countdown()),
        event == AreaEvent::Other ==> area_action(false, delay, first, second, event)
            == AreaAction::Forward,
        forall|full: bool| area_action(full, delay, first, second, AreaEvent::Timer(first))
            == AreaAction::FollowUp,
        forall|full: bool| second != first ==> area_action(full, delay, first, second, AreaEvent::Timer(second))
            == AreaAction::Capture,
        forall|full: bool, t: u64| t != first && t != second ==> area_action(full, delay, first, second, AreaEvent::Timer(t))
            == AreaAction::Unrelated,
        forall|full: bool| !full_screen_after(false, full, event),
        !(event is Timer) ==> full_screen_after(true, false, event),
        forall|before: bool| event is Timer ==> full_screen_after(true, before, event) == before,
{
}

} // verus!
