//! The blinking of the text cursor.
//!
//! The blinker holds no timer of its own. Each operation says what the host
//! must do with the one pending timer, and the host reports a timer that ran
//! out by calling [`CursorBlinker::start_blinking`] or
//! [`CursorBlinker::resume_cursor_blinking`] with the epoch the timer was
//! given. Every change of the blinking moves on to a new epoch, so a timer
//! that was armed before the change has no effect when it runs out.

use vstd::prelude::*;

verus! {

/// What the host must do with the pending blink timer.
#[derive(Debug, Clone, Copy, PartialEq, Eq, Structural)]
pub enum TimerRequest {
    /// Leave it as it is.
    Keep,
    /// Let go of it: it may still run out, and then reports its epoch.
    Release,
    /// Replace it by one that, after the blink interval, reports `epoch` to
    /// [`CursorBlinker::resume_cursor_blinking`].
    ResumeAfter { epoch: usize },
    /// Replace it by one that, after the blink interval, reports `epoch` to
    /// [`CursorBlinker::start_blinking`].
    ToggleAfter { epoch: usize },
}

/// What an operation on the blinker asks of the host.
#[derive(Debug, Clone, Copy, PartialEq, Eq, Structural)]
pub struct BlinkEffect {
    /// Whether the cursor has to be drawn again.
    pub notify: bool,
    pub timer: TimerRequest,
}

impl BlinkEffect {
    /// Nothing to do.
    pub open spec fn nothing() -> BlinkEffect {
        BlinkEffect { notify: false, timer: TimerRequest::Keep }
    }

    /// The effect of `self` followed by `next`: a redraw if either asks for
    /// one, and the later of the two timer requests.
    pub open spec fn followed_by(self, next: BlinkEffect) -> BlinkEffect {
        BlinkEffect {
            notify: self.notify || next.notify,
            timer: if next.timer == TimerRequest::Keep {
                self.timer
            } else {
                next.timer
            },
        }
    }

    /// Nothing to do.
    pub fn none() -> (r: BlinkEffect)
        ensures
            r == BlinkEffect::nothing(),
    {
        BlinkEffect { notify: false, timer: TimerRequest::Keep }
    }

    /// The effect of `self` followed by `next`.
    pub fn and_then(self, next: BlinkEffect) -> (r: BlinkEffect)
        ensures
            r == self.followed_by(next),
    {
        BlinkEffect {
            notify: self.notify || next.notify,
            timer: match next.timer {
                TimerRequest::Keep => self.timer,
                _ => next.timer,
            },
        }
    }
}

/// The state of the blinking cursor.
#[derive(Debug, Clone, Copy)]
pub struct CursorBlinker {
    blink_interval_ms: u64,
    blink_epoch: usize,
    visible: bool,
    enabled: bool,
}

/// The blinker as the contracts see it.
pub ghost struct BlinkerState {
    /// Milliseconds between two changes of the cursor.
    pub interval_ms: int,
    /// The number of the current blinking period.
    pub epoch: int,
    pub visible: bool,
    pub enabled: bool,
}

impl BlinkerState {
    /// Whether a timer that reports `epoch` is the current one and blinking is on.
    pub open spec fn accepts(self, epoch: int) -> bool {
        epoch == self.epoch && self.enabled
    }

    /// Whether the epoch can still advance `times` times, if blinking is on.
    pub open spec fn can_advance(self, times: int) -> bool {
        self.enabled ==> self.epoch + times <= usize::MAX
    }

    /// After the cursor changed between shown and hidden for the period `epoch`.
    pub open spec fn toggled(self, epoch: int) -> BlinkerState {
        if self.accepts(epoch) {
            BlinkerState { visible: !self.visible, epoch: self.epoch + 1, ..self }
        } else {
            self
        }
    }

    pub open spec fn toggle_effect(self, epoch: int) -> BlinkEffect {
        if self.accepts(epoch) {
            BlinkEffect {
                notify: true,
                timer: TimerRequest::ToggleAfter { epoch: (self.epoch + 1) as usize },
            }
        } else {
            BlinkEffect::nothing()
        }
    }

    /// After the cursor was shown steadily because the user did something.
    pub open spec fn paused(self) -> BlinkerState {
        BlinkerState {
            visible: true,
            epoch: if self.enabled {
                self.epoch + 1
            } else {
                self.epoch
            },
            ..self
        }
    }

    pub open spec fn pause_effect(self) -> BlinkEffect {
        BlinkEffect {
            notify: !self.visible,
            timer: if self.enabled {
                TimerRequest::ResumeAfter { epoch: (self.epoch + 1) as usize }
            } else {
                TimerRequest::Keep
            },
        }
    }

    /// After blinking was switched on.
    pub open spec fn switched_on(self) -> BlinkerState {
        if self.enabled {
            self
        } else {
            BlinkerState { enabled: true, visible: false, epoch: self.epoch + 1, ..self }
        }
    }

    pub open spec fn switch_on_effect(self) -> BlinkEffect {
        if self.enabled {
            BlinkEffect::nothing()
        } else {
            BlinkEffect {
                notify: true,
                timer: TimerRequest::ToggleAfter { epoch: (self.epoch + 1) as usize },
            }
        }
    }

    /// After blinking was switched off.
    pub open spec fn switched_off(self) -> BlinkerState {
        BlinkerState { enabled: false, visible: false, ..self }
    }
}

impl View for CursorBlinker {
    type V = BlinkerState;

    closed spec fn view(&self) -> BlinkerState {
        BlinkerState {
            interval_ms: self.blink_interval_ms as int,
            epoch: self.blink_epoch as int,
            visible: self.visible,
            enabled: self.enabled,
        }
    }
}

impl CursorBlinker {
    /// A blinker at rest: the cursor shown, blinking off, 530 milliseconds
    /// between changes.
    pub fn new() -> (r: Self)
        ensures
            r@ == (BlinkerState { interval_ms: 530, epoch: 0, visible: true, enabled: false }),
    {
        CursorBlinker { blink_interval_ms: 530, blink_epoch: 0, visible: true, enabled: false }
    }

    /// Moves on to the next epoch and returns it.
    pub fn next_blink_epoch(&mut self) -> (r: usize)
        requires
            old(self)@.epoch < usize::MAX,
        ensures
            r == old(self)@.epoch + 1,
            final(self)@ == (BlinkerState { epoch: old(self)@.epoch + 1, ..old(self)@ }),
    {
        self.blink_epoch = self.blink_epoch + 1;
        self.blink_epoch
    }

    /// Switches blinking on. The cursor goes dark at once and comes back when
    /// the first timer runs out. Nothing happens if blinking is on already.
    pub fn enable(&mut self) -> (effect: BlinkEffect)
        requires
            !old(self)@.enabled ==> old(self)@.epoch < usize::MAX,
        ensures
            final(self)@ == old(self)@.switched_on(),
            effect == old(self)@.switch_on_effect(),
    {
        if self.enabled {
            return BlinkEffect::none();
        }
        self.enabled = true;
        self.visible = true;
        let epoch = self.blink_epoch;
        self.start_blinking(epoch)
    }

    /// Switches blinking off and hides the cursor.
    pub fn disable(&mut self) -> (effect: BlinkEffect)
        ensures
            final(self)@ == old(self)@.switched_off(),
            effect == (BlinkEffect { notify: true, timer: TimerRequest::Release }),
    {
        self.visible = false;
        self.enabled = false;
        BlinkEffect { notify: true, timer: TimerRequest::Release }
    }

    /// Shows the cursor, and asks for a redraw if it was hidden.
    pub fn show_cursor(&mut self) -> (effect: BlinkEffect)
        ensures
            final(self)@ == (BlinkerState { visible: true, ..old(self)@ }),
            effect == (BlinkEffect { notify: !old(self)@.visible, timer: TimerRequest::Keep }),
    {
        if !self.visible {
            self.visible = true;
            BlinkEffect { notify: true, timer: TimerRequest::Keep }
        } else {
            BlinkEffect::none()
        }
    }

    /// Shows the cursor steadily for one blink interval, after which blinking
    /// resumes if it is on.
    pub fn pause_blinking(&mut self) -> (effect: BlinkEffect)
        requires
            old(self)@.can_advance(1),
        ensures
            final(self)@ == old(self)@.paused(),
            effect == old(self)@.pause_effect(),
    {
        let shown = self.show_cursor();
        if self.enabled {
            let epoch = self.next_blink_epoch();
            BlinkEffect { notify: shown.notify, timer: TimerRequest::ResumeAfter { epoch } }
        } else {
            shown
        }
    }

    /// A timer armed by [`Self::pause_blinking`] ran out: blinking goes on,
    /// unless the timer is out of date.
    pub fn resume_cursor_blinking(&mut self, epoch: usize) -> (effect: BlinkEffect)
        requires
            old(self)@.accepts(epoch as int) ==> old(self)@.epoch < usize::MAX,
        ensures
            final(self)@ == old(self)@.toggled(epoch as int),
            effect == old(self)@.toggle_effect(epoch as int),
    {
        if epoch == self.blink_epoch && self.enabled {
            self.start_blinking(epoch)
        } else {
            BlinkEffect::none()
        }
    }

    /// The cursor changes between shown and hidden, and the next change is
    /// scheduled; nothing happens if `epoch` is out of date or blinking is off.
    pub fn start_blinking(&mut self, epoch: usize) -> (effect: BlinkEffect)
        requires
            old(self)@.accepts(epoch as int) ==> old(self)@.epoch < usize::MAX,
        ensures
            final(self)@ == old(self)@.toggled(epoch as int),
            effect == old(self)@.toggle_effect(epoch as int),
    {
        if epoch == self.blink_epoch && self.enabled {
            self.visible = !self.visible;
            let next = self.next_blink_epoch();
            BlinkEffect { notify: true, timer: TimerRequest::ToggleAfter { epoch: next } }
        } else {
            BlinkEffect::none()
        }
    }

    pub fn is_visible(&self) -> (r: bool)
        ensures
            r == self@.visible,
    {
        self.visible
    }

    pub fn is_enabled(&self) -> (r: bool)
        ensures
            r == self@.enabled,
    {
        self.enabled
    }

    /// The number of the current blinking period.
    pub fn epoch(&self) -> (r: usize)
        ensures
            r == self@.epoch,
    {
        self.blink_epoch
    }

    /// Milliseconds between two changes of the cursor.
    pub fn interval_millis(&self) -> (r: u64)
        ensures
            r == self@.interval_ms,
    {
        self.blink_interval_ms
    }

    /// Whether the epoch can still advance `times` times, if blinking is on.
    pub fn can_advance(&self, times: usize) -> (r: bool)
        ensures
            r == self@.can_advance(times as int),
    {
        !self.enabled || times <= usize::MAX - self.blink_epoch
    }
}

/// A timer that is out of date changes nothing when it runs out.
pub proof fn stale_timer_is_ignored(state: BlinkerState, epoch: int)
    requires
        epoch != state.epoch,
    ensures
        state.toggled(epoch) == state,
        state.toggle_effect(epoch) == BlinkEffect::nothing(),
{
}

/// While blinking is on, every change of the blinking puts the timers armed
/// before it out of date.
pub proof fn changes_outdate_timers(state: BlinkerState, epoch: int)
    requires
        state.enabled,
        epoch <= state.epoch,
    ensures
        !state.paused().accepts(epoch),
        !state.toggled(state.epoch).accepts(epoch),
        !state.switched_off().accepts(epoch),
{
}

/// While blinking is off, no timer has any effect.
pub proof fn disabled_ignores_timers(state: BlinkerState, epoch: int)
    requires
        !state.enabled,
    ensures
        state.toggled(epoch) == state,
        state.toggle_effect(epoch) == BlinkEffect::nothing(),
{
}

/// The timer that a pause arms is accepted when it runs out, if nothing
/// happened in between, and the cursor then goes dark.
pub proof fn pause_then_resume_hides(state: BlinkerState)
    requires
        state.enabled,
    ensures
        state.paused().accepts(state.epoch + 1),
        !state.paused().toggled(state.epoch + 1).visible,
{
}

/// The epoch never goes back, whatever happens to the blinker.
pub proof fn epochs_only_advance(state: BlinkerState, epoch: int)
    ensures
        state.paused().epoch >= state.epoch,
        state.toggled(epoch).epoch >= state.epoch,
        state.switched_on().epoch >= state.epoch,
        state.switched_off().epoch == state.epoch,
{
}

} // verus!
