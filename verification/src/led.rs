use vstd::prelude::*;
use crate::press::PressType;

verus! {

/// Interval between phase flips of a blinking LED, in milliseconds.
pub const BLINK_INTERVAL_MS: u64 = 1000;

/// Interval between brightness steps of a fading LED, in milliseconds.
pub const FADE_INTERVAL_MS: u64 = 50;

/// Brightness change applied by one fading step.
pub const FADE_STEP: u8 = 10;

/// Direction of a fading ramp.
#[derive(Clone, Copy, Debug, PartialEq, Eq, Structural)]
pub enum Direction {
    Up,
    Down,
}

/// The behavior state of the LED.
///
/// Exactly one value exists per LED channel, owned by the renderer loop.
/// `Off` and `On` change only on a press; `Blinking` flips its phase every
/// `BLINK_INTERVAL_MS`; `Fading` ramps its level by `FADE_STEP` every
/// `FADE_INTERVAL_MS`, reversing direction at the 0 and 100 boundaries.
#[derive(Clone, Copy, Debug, PartialEq, Eq, Structural)]
pub enum LedState {
    Off,
    On,
    Blinking(bool),
    Fading { level: u8, direction: Direction },
}

impl LedState {
    /// Well-formedness: a fading level stays on the 10-step grid inside
    /// [0, 100], and the direction always has room for one more step.
    pub open spec fn wf(self) -> bool {
        self matches LedState::Fading { level, direction } ==> {
            &&& level <= 100
            &&& level % 10 == 0
            &&& (direction is Up ==> level != 100)
            &&& (direction is Down ==> level != 0)
        }
    }
}

/// Brightness derived from a state: `Off` is dark, `On` is full, `Blinking`
/// follows its phase, `Fading` shows its level. Any raw level is clamped
/// into [0, 100] rather than wrapping.
pub open spec fn spec_brightness(s: LedState) -> u8 {
    match s {
        LedState::Off => 0,
        LedState::On => 100,
        LedState::Blinking(phase) => if phase { 100 } else { 0 },
        LedState::Fading { level, .. } => if level > 100 { 100 } else { level },
    }
}

/// The successor state when a press event arrives.
///
/// Off goes to On on any press. On goes Off on a short press, starts
/// blinking on a long one and starts a fade on a double press. From
/// Blinking or Fading a long press returns to steady On; any other press
/// turns the LED off.
pub open spec fn spec_press_transition(s: LedState, p: PressType) -> LedState {
    match s {
        LedState::Off => LedState::On,
        LedState::On => match p {
            PressType::Short => LedState::Off,
            PressType::Long => LedState::Blinking(true),
            PressType::Double => LedState::Fading { level: 0, direction: Direction::Up },
        },
        LedState::Blinking(_) => match p {
            PressType::Long => LedState::On,
            _ => LedState::Off,
        },
        LedState::Fading { .. } => match p {
            PressType::Long => LedState::On,
            _ => LedState::Off,
        },
    }
}

/// The successor state when the state's own timer elapses.
///
/// Off and On have no timer, so time alone leaves them unchanged. Blinking
/// flips its phase. Fading moves one step and reverses at the boundaries;
/// a level off the grid is pulled onto the nearest boundary.
pub open spec fn spec_time_transition(s: LedState) -> LedState {
    match s {
        LedState::Off => LedState::Off,
        LedState::On => LedState::On,
        LedState::Blinking(phase) => LedState::Blinking(!phase),
        LedState::Fading { level, direction } => match direction {
            Direction::Up => if level >= 90 {
                LedState::Fading { level: 100, direction: Direction::Down }
            } else {
                LedState::Fading { level: (level + 10) as u8, direction: Direction::Up }
            },
            Direction::Down => if level <= 10 {
                LedState::Fading { level: 0, direction: Direction::Up }
            } else {
                LedState::Fading { level: (level - 10) as u8, direction: Direction::Down }
            },
        },
    }
}

/// The period of the timer a state races against the event queue, if the
/// state has one.
pub open spec fn spec_timer_interval(s: LedState) -> Option<u64> {
    match s {
        LedState::Off => None,
        LedState::On => None,
        LedState::Blinking(_) => Some(BLINK_INTERVAL_MS),
        LedState::Fading { .. } => Some(FADE_INTERVAL_MS),
    }
}

/// What ended the renderer's wait in one cycle: the state's own timer, or a
/// press event taken from the queue — whichever became ready first.
#[derive(Clone, Copy, Debug, PartialEq, Eq, Structural)]
pub enum TickEvent {
    TimerElapsed,
    Press(PressType),
}

/// The successor state for one renderer cycle, whichever branch of the race
/// was taken.
pub open spec fn spec_tick(s: LedState, e: TickEvent) -> LedState {
    match e {
        TickEvent::TimerElapsed => spec_time_transition(s),
        TickEvent::Press(p) => spec_press_transition(s, p),
    }
}

/// Owner of the behavior state. Mutated only by the renderer loop, one
/// completed transition at a time; brightness is read only between
/// transitions.
pub struct LedController {
    state: LedState,
}

impl LedController {
    /// The behavior state the controller currently owns.
    pub closed spec fn state(self) -> LedState {
        self.state
    }

    pub open spec fn wf(self) -> bool {
        self.state().wf()
    }

    /// A fresh controller starts with the LED off.
    pub fn new() -> (r: LedController)
        ensures
            r.state() == LedState::Off,
            r.wf(),
    {
        LedController { state: LedState::Off }
    }

    /// The brightness to render for the current state, a pure read.
    pub fn current_brightness(&self) -> (r: u8)
        ensures
            r == spec_brightness(self.state()),
            r <= 100,
    {
        match self.state {
            LedState::Off => 0,
            LedState::On => 100,
            LedState::Blinking(phase) => if phase { 100 } else { 0 },
            LedState::Fading { level, .. } => if level > 100 { 100 } else { level },
        }
    }

    /// The timer period the renderer should race against the queue, if the
    /// current state has a timer at all.
    pub fn timer_interval(&self) -> (r: Option<u64>)
        ensures
            r == spec_timer_interval(self.state()),
    {
        match self.state {
            LedState::Off => None,
            LedState::On => None,
            LedState::Blinking(_) => Some(BLINK_INTERVAL_MS),
            LedState::Fading { .. } => Some(FADE_INTERVAL_MS),
        }
    }

    /// Apply the press transition for one event taken from the queue.
    pub fn button_pressed(&mut self, press: PressType)
        ensures
            final(self).state() == spec_press_transition(old(self).state(), press),
            final(self).wf(),
    {
        self.state = press_transition(self.state, press);
    }

    /// Apply the time transition after the state's own timer elapsed.
    pub fn timer_elapsed(&mut self)
        ensures
            final(self).state() == spec_time_transition(old(self).state()),
            old(self).wf() ==> final(self).wf(),
    {
        self.state = time_transition(self.state);
    }

    /// One renderer cycle: apply whichever of the two race branches won.
    pub fn tick(&mut self, event: TickEvent)
        ensures
            final(self).state() == spec_tick(old(self).state(), event),
            old(self).wf() ==> final(self).wf(),
    {
        match event {
            TickEvent::TimerElapsed => self.timer_elapsed(),
            TickEvent::Press(p) => self.button_pressed(p),
        }
    }
}

/// Executable press transition; total over every (state, press) pair.
pub fn press_transition(s: LedState, p: PressType) -> (r: LedState)
    ensures
        r == spec_press_transition(s, p),
        r.wf(),
{
    match s {
        LedState::Off => LedState::On,
        LedState::On => match p {
            PressType::Short => LedState::Off,
            PressType::Long => LedState::Blinking(true),
            PressType::Double => LedState::Fading { level: 0, direction: Direction::Up },
        },
        LedState::Blinking(_) => match p {
            PressType::Long => LedState::On,
            _ => LedState::Off,
        },
        LedState::Fading { .. } => match p {
            PressType::Long => LedState::On,
            _ => LedState::Off,
        },
    }
}

/// Executable time transition; total over every state.
pub fn time_transition(s: LedState) -> (r: LedState)
    ensures
        r == spec_time_transition(s),
        s.wf() ==> r.wf(),
{
    match s {
        LedState::Off => LedState::Off,
        LedState::On => LedState::On,
        LedState::Blinking(phase) => LedState::Blinking(!phase),
        LedState::Fading { level, direction } => match direction {
            Direction::Up => if level >= 90 {
                LedState::Fading { level: 100, direction: Direction::Down }
            } else {
                LedState::Fading { level: level + 10, direction: Direction::Up }
            },
            Direction::Down => if level <= 10 {
                LedState::Fading { level: 0, direction: Direction::Up }
            } else {
                LedState::Fading { level: level - 10, direction: Direction::Down }
            },
        },
    }
}

/// The state after `n` elapses of the state's timer in a row, with no press
/// in between.
pub open spec fn spec_time_iter(s: LedState, n: nat) -> LedState
    decreases n,
{
    if n == 0 {
        s
    } else {
        spec_time_transition(spec_time_iter(s, (n - 1) as nat))
    }
}

/// The triangle wave a fade walks: 0, 10, ..., 100, 90, ..., 10, repeating
/// with period 20.
pub open spec fn fade_level(n: nat) -> u8 {
    let m = n % 20;
    if m <= 10 {
        (10 * m) as u8
    } else {
        (10 * (20 - m)) as u8
    }
}

/// The fade direction after `n` steps from level 0 going up.
pub open spec fn fade_direction(n: nat) -> Direction {
    if n % 20 < 10 {
        Direction::Up
    } else {
        Direction::Down
    }
}

/// Law: starting a fade at level 0 going up, repeated time steps produce the
/// levels 0, 10, ..., 100, then reverse to 90, ..., 0, and never leave
/// [0, 100].
pub proof fn lemma_fade_wave(n: nat)
    ensures
        spec_time_iter(LedState::Fading { level: 0, direction: Direction::Up }, n)
            == (LedState::Fading { level: fade_level(n), direction: fade_direction(n) }),
        fade_level(n) <= 100,
    decreases n,
{
    if n > 0 {
        lemma_fade_wave((n - 1) as nat);
        assert(n % 20 == ((n - 1) % 20 + 1) % 20) by (nonlinear_arith);
    }
}

/// Law: a blinking LED alternates: after `n` elapsed intervals the phase is
/// the starting phase for even `n` and its opposite for odd `n`, so the
/// brightness alternates between 100 and 0.
pub proof fn lemma_blink_alternates(phase: bool, n: nat)
    ensures
        spec_time_iter(LedState::Blinking(phase), n) == LedState::Blinking(
            if n % 2 == 0 { phase } else { !phase },
        ),
    decreases n,
{
    if n > 0 {
        lemma_blink_alternates(phase, (n - 1) as nat);
    }
}

/// Law: the state machine is total and closed. Every (state, press) pair has
/// a defined successor as the transition table gives it; only Blinking and
/// Fading carry a timer, so Off and On never move on time alone; and both
/// transitions preserve well-formedness.
pub proof fn lemma_transitions_total(s: LedState, p: PressType)
    ensures
        spec_press_transition(s, p).wf(),
        s.wf() ==> spec_time_transition(s).wf(),
        spec_timer_interval(s) is Some <==> (s is Blinking || s is Fading),
        s is Off ==> spec_press_transition(s, p) == LedState::On,
        s is On && p is Short ==> spec_press_transition(s, p) == LedState::Off,
        s is On && p is Long ==> spec_press_transition(s, p) == LedState::Blinking(true),
        s is On && p is Double ==> spec_press_transition(s, p)
            == (LedState::Fading { level: 0, direction: Direction::Up }),
        (s is Blinking || s is Fading) && p is Long ==> spec_press_transition(s, p) == LedState::On,
        (s is Blinking || s is Fading) && !(p is Long) ==> spec_press_transition(s, p)
            == LedState::Off,
        s is Off || s is On ==> spec_time_transition(s) == s,
{
}

/// Law: brightness is a pure function of the state. Equal states read equal
/// brightness, so reading it twice with no transition in between gives the
/// same value.
pub proof fn lemma_brightness_stable(s1: LedState, s2: LedState)
    requires
        s1 == s2,
    ensures
        spec_brightness(s1) == spec_brightness(s2),
{
}

} // verus!
