//! Blink scheduling for the status LEDs.
//!
//! A timer state machine holds the LED's current, next and target
//! states together with an expiry time on a wrapping 16-bit clock; a
//! request while a phase is running only retargets, and the timer
//! interrupt advances phase by phase.  A pulse is exactly a request
//! followed by the opposite request.

use vstd::prelude::*;

verus! {

/// Subtraction on the wrapping 16-bit clock.
pub open spec fn wsub_spec(a: i16, b: i16) -> i16 {
    if a - b > 32767 {
        (a - b - 65536) as i16
    } else if a - b < -32768 {
        (a - b + 65536) as i16
    } else {
        (a - b) as i16
    }
}

/// Addition on the wrapping 16-bit clock.
pub open spec fn wadd_spec(a: i16, b: i16) -> i16 {
    if a + b > 32767 {
        (a + b - 65536) as i16
    } else if a + b < -32768 {
        (a + b + 65536) as i16
    } else {
        (a + b) as i16
    }
}

/// Subtraction on the wrapping clock.
pub fn wsub(a: i16, b: i16) -> (r: i16)
    ensures
        r == wsub_spec(a, b),
{
    let d: i32 = a as i32 - b as i32;
    if d > 32767 {
        (d - 65536) as i16
    } else if d < -32768 {
        (d + 65536) as i16
    } else {
        d as i16
    }
}

/// Addition on the wrapping clock.
pub fn wadd(a: i16, b: i16) -> (r: i16)
    ensures
        r == wadd_spec(a, b),
{
    let d: i32 = a as i32 + b as i32;
    if d > 32767 {
        (d - 65536) as i16
    } else if d < -32768 {
        (d + 65536) as i16
    } else {
        d as i16
    }
}

/// The blink timer for one LED.
#[derive(Clone, Copy, Debug, PartialEq, Eq, Structural)]
pub struct LedTimer {
    /// Duration of an on phase, in timer ticks; zero means instant.
    pub on: i16,
    /// Duration of an off phase.
    pub off: i16,
    /// Current desired state of the LED.
    pub led: bool,
    /// State to move to when the phase expires.
    pub next: bool,
    /// State to end up on.
    pub target: bool,
    /// Tick at which the current phase expires, if one is running.
    pub expiry: Option<i16>,
}

impl LedTimer {
    /// A timer with the given phase durations, idle and off.
    pub fn new(on: i16, off: i16) -> (r: LedTimer)
        ensures
            r == (LedTimer {
                on,
                off,
                led: false,
                next: false,
                target: false,
                expiry: Option::None,
            }),
    {
        LedTimer { on, off, led: false, next: false, target: false, expiry: None }
    }

    /// How long the LED stays in `state`.
    pub open spec fn duration_spec(self, state: bool) -> i16 {
        if state {
            self.on
        } else {
            self.off
        }
    }

    /// How long the LED stays in `state`.
    pub fn duration(&self, state: bool) -> (r: i16)
        ensures
            r == self.duration_spec(state),
    {
        if state {
            self.on
        } else {
            self.off
        }
    }

    /// Entering `state` now, headed for `next`: the timer after, and
    /// the deadline to schedule.
    pub open spec fn update_spec(self, state: bool, next: bool, now: i16) -> (LedTimer, Option<
        i16,
    >) {
        let d = self.duration_spec(state);
        let e = if d != 0 {
            Option::Some(wadd_spec(now, d))
        } else {
            Option::None
        };
        ((LedTimer { led: state, next, expiry: e, ..self }), e)
    }

    /// Set the LED state and return the timer expiry to schedule.
    fn update(&mut self, state: bool, next: bool, now: i16) -> (r: Option<i16>)
        ensures
            (*final(self), r) == old(self).update_spec(state, next, now),
    {
        self.led = state;
        self.next = next;
        let d = self.duration(state);
        if d != 0 {
            self.expiry = Some(wadd(now, d));
        } else {
            self.expiry = None;
        }
        self.expiry
    }

    /// A request to move the LED to `state`.
    pub open spec fn set_spec(self, state: bool, now: i16) -> (LedTimer, Option<i16>) {
        if self.expiry is Some {
            if self.led == self.next || self.duration_spec(self.next) == 0 {
                ((LedTimer { next: state, target: state, ..self }), Option::None)
            } else {
                ((LedTimer { target: state, ..self }), Option::None)
            }
        } else if self.led == state {
            ((LedTimer { target: state, ..self }), Option::None)
        } else {
            self.with_target(state).update_spec(state, state, now)
        }
    }

    pub open spec fn with_target(self, t: bool) -> LedTimer {
        LedTimer { target: t, ..self }
    }

    /// Request the LED to move to `state`; returns a deadline to
    /// schedule when a new phase starts.  While a phase runs, only the
    /// follow-up states change.
    pub fn set(&mut self, state: bool, now: i16) -> (r: Option<i16>)
        ensures
            (*final(self), r) == old(self).set_spec(state, now),
    {
        self.target = state;
        if !matches!(self.expiry, Option::None) {
            if self.led == self.next || self.duration(self.next) == 0 {
                self.next = state;
            }
            return None;
        }
        if self.led == state {
            return None;
        }
        self.update(state, state, now)
    }

    /// A pulse request: equivalent to requesting `state` and then the
    /// opposite.
    pub open spec fn pulse_spec(self, state: bool, now: i16) -> (LedTimer, Option<i16>) {
        let nv = state != (self.duration_spec(state) == 0 || self.led == state);
        if self.expiry is Some {
            ((LedTimer { next: nv, target: !state, ..self }), Option::None)
        } else {
            (LedTimer { target: !state, ..self }).update_spec(nv, !state, now)
        }
    }

    /// Pulse the LED through `state` and back.
    pub fn pulse(&mut self, state: bool, now: i16) -> (r: Option<i16>)
        ensures
            (*final(self), r) == old(self).pulse_spec(state, now),
    {
        self.target = !state;
        let nv = state != (self.duration(state) == 0 || self.led == state);
        if !matches!(self.expiry, Option::None) {
            self.next = nv;
            return None;
        }
        self.update(nv, !state, now)
    }

    /// The timer interrupt at tick `now`.
    pub open spec fn isr_spec(self, now: i16) -> LedTimer {
        match self.expiry {
            Option::None => self,
            Option::Some(e) => {
                if wsub_spec(now, e) < 0 {
                    self
                } else if self.next != self.led {
                    self.update_spec(self.next, self.target, now).0
                } else {
                    LedTimer {
                        led: self.target,
                        next: self.target,
                        expiry: Option::None,
                        ..self
                    }
                }
            },
        }
    }

    /// Advance the timer on its interrupt: an expired phase moves the
    /// LED to its next state, or winds the machine down.
    pub fn isr(&mut self, now: i16)
        ensures
            *final(self) == old(self).isr_spec(now),
    {
        let e = match self.expiry {
            Some(e) => e,
            None => {
                return ;
            },
        };
        if wsub(now, e) < 0 {
            return ;
        }
        if self.next != self.led {
            self.update(self.next, self.target, now);
        } else {
            // Defensively settle on the target even if the states
            // disagree in an unexpected way.
            self.led = self.target;
            self.next = self.target;
            self.expiry = None;
        }
    }
}

/// A pulse is exactly a request for `state` followed by a request for
/// the opposite: both leave the very same timer.  (The deadline
/// returned may differ only in that the two-step form schedules the
/// first step's phase.)
pub proof fn lemma_pulse_is_double_set(t: LedTimer, state: bool, now: i16)
    requires
        !(t.expiry is Some && t.on == 0 && t.off == 0),
    ensures
        t.set_spec(state, now).0.set_spec(!state, now).0 == t.pulse_spec(state, now).0,
{
}

/// What a driven LED does: the hardware side, implemented per board.
pub trait LedTrait {
    /// Drive the LED to `state`.
    fn set(&mut self, state: bool);
}

/// The blue activity LED.
pub struct Blue {
    /// The state last driven.
    pub lit: bool,
}

impl LedTrait for Blue {
    fn set(&mut self, state: bool) {
        self.lit = state;
    }
}

/// The red/green status pair: one line for each colour, true showing
/// green.
pub struct RedGreen {
    /// The state last driven: true is green, false red.
    pub good: bool,
}

impl LedTrait for RedGreen {
    fn set(&mut self, state: bool) {
        self.good = state;
    }
}

/// A timer bound to the LED it drives.
pub struct Led<T> {
    /// The blink timer.
    pub timer: LedTimer,
    /// The driven LED.
    pub led: T,
}

impl<T: LedTrait> Led<T> {
    /// The timer interrupt: advance and drive the LED to match.
    pub fn isr(&mut self, now: i16)
        ensures
            final(self).timer == old(self).timer.isr_spec(now),
    {
        self.timer.isr(now);
        self.led.set(self.timer.led);
    }

    /// Request a state; returns the deadline to schedule, if any.
    pub fn set(&mut self, state: bool, now: i16) -> (r: Option<i16>)
        ensures
            (final(self).timer, r) == old(self).timer.set_spec(state, now),
    {
        let r = self.timer.set(state, now);
        self.led.set(self.timer.led);
        r
    }

    /// Request a pulse; returns the deadline to schedule, if any.
    pub fn pulse(&mut self, state: bool, now: i16) -> (r: Option<i16>)
        ensures
            (final(self).timer, r) == old(self).timer.pulse_spec(state, now),
    {
        let r = self.timer.pulse(state, now);
        self.led.set(self.timer.led);
        r
    }
}

} // verus!
