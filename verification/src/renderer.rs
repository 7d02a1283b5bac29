use vstd::prelude::*;
use crate::led::LedController;
use crate::led::LedState;
use crate::led::TickEvent;
use crate::led::spec_press_transition;
use crate::led::spec_time_transition;
use crate::led::spec_timer_interval;
use crate::press::PressType;
use crate::queue::EventQueue;
use crate::queue::queue_view;

verus! {

/// The state after consuming a sequence of press events, oldest first.
pub open spec fn apply_presses(s: LedState, ps: Seq<PressType>) -> LedState
    decreases ps.len(),
{
    if ps.len() == 0 {
        s
    } else {
        apply_presses(spec_press_transition(s, ps[0]), ps.drop_first())
    }
}

/// One renderer cycle, resolved by polling: an event already waiting on the
/// queue wins the race and is consumed; with the queue empty, the timer of
/// a timed state is the only branch that can complete; Off and On just keep
/// waiting. Returns whether a transition was applied.
pub fn poll_cycle(led: &mut LedController, queue: &mut EventQueue) -> (applied: bool)
    ensures
        queue_view(*old(queue)).len() > 0 ==> applied
            && queue_view(*final(queue)) == queue_view(*old(queue)).drop_first()
            && final(led).state()
                == spec_press_transition(old(led).state(), queue_view(*old(queue))[0]),
        queue_view(*old(queue)).len() == 0 && spec_timer_interval(old(led).state()) is Some
            ==> applied && queue_view(*final(queue)) == queue_view(*old(queue))
            && final(led).state() == spec_time_transition(old(led).state()),
        queue_view(*old(queue)).len() == 0 && spec_timer_interval(old(led).state()) is None
            ==> !applied && queue_view(*final(queue)) == queue_view(*old(queue))
            && final(led).state() == old(led).state(),
        old(led).wf() ==> final(led).wf(),
{
    match queue.try_pop() {
        Some(press) => {
            led.tick(TickEvent::Press(press));
            true
        },
        None => {
            match led.timer_interval() {
                Some(_interval_ms) => {
                    led.tick(TickEvent::TimerElapsed);
                    true
                },
                None => false,
            }
        },
    }
}

/// Drain every queued event, applying each press transition in arrival
/// order, and leave the queue empty.
pub fn drain_pending(led: &mut LedController, queue: &mut EventQueue)
    ensures
        queue_view(*final(queue)).len() == 0,
        final(led).state() == apply_presses(old(led).state(), queue_view(*old(queue))),
        old(led).wf() ==> final(led).wf(),
{
    loop
        invariant
            apply_presses(old(led).state(), queue_view(*old(queue))) == apply_presses(
                led.state(),
                queue_view(*queue),
            ),
            old(led).wf() ==> led.wf(),
        ensures
            queue_view(*queue).len() == 0,
        decreases queue_view(*queue).len(),
    {
        match queue.try_pop() {
            Some(press) => {
                led.button_pressed(press);
            },
            None => {
                break;
            },
        }
    }
}

} // verus!
