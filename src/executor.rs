use vstd::prelude::*;

use crate::button::{ButtonTask, Direction};
use crate::channel::Channel;
use crate::led::{shifted, LedState, LedTask, PinAction};
use crate::time::{TickInstant, TICKS_LIMIT};

verus! {

/// Identity of the LED task, polled first in each cycle.
pub const LED_TASK_ID: usize = 0;

/// Identity of the left button's task, polled second.
pub const LEFT_TASK_ID: usize = 1;

/// Identity of the right button's task, polled last.
pub const RIGHT_TASK_ID: usize = 2;

/// The fixed task set and the mailbox between the buttons and the LEDs.
#[derive(Debug)]
pub struct Executor {
    pub led: LedTask,
    pub left: ButtonTask,
    pub right: ButtonTask,
    pub mailbox: Channel<Direction>,
}

/// One scheduling cycle of the round robin: the LED task, then the left
/// button, then the right button, each polled exactly once and each seeing
/// the mailbox as the previous one left it.
pub open spec fn cycle(
    ex: Executor,
    now: TickInstant,
    left_pressed: bool,
    right_pressed: bool,
) -> (Executor, Seq<PinAction>) {
    let (led, acts) = ex.led.after_poll(now, ex.mailbox.slot);
    let (left, sent_left) = ex.left.step(now, left_pressed);
    let (right, sent_right) = ex.right.step(now, right_pressed);
    let slot = if sent_right is Some { sent_right } else { sent_left };
    (Executor { led, left, right, mailbox: Channel { slot } }, acts)
}

/// No task starves another: whatever the buttons do in a cycle, an LED
/// deadline that has elapsed makes the active column flip in that cycle, and
/// a direction waiting in the mailbox moves the column in that cycle.
pub proof fn lemma_led_never_starved(
    ex: Executor,
    now: TickInstant,
    left_pressed: bool,
    right_pressed: bool,
)
    requires
        ex.wf(),
    ensures
        (ex.led.state matches LedState::Wait(t) && t.ready_at(now) && ex.mailbox.slot is None)
            ==> cycle(ex, now, left_pressed, right_pressed).1 == seq![PinAction::Toggle(ex.led.active_col)],
        ex.mailbox.slot matches Some(d) ==> cycle(ex, now, left_pressed, right_pressed).0.led.active_col
            == shifted(ex.led.active_col as int, d),
{
}

impl Executor {
    pub open spec fn wf(self) -> bool {
        self.led.wf()
    }

    /// The task set at start-up: LEDs due to blink, both buttons released,
    /// the mailbox empty.
    pub fn new() -> (r: Executor)
        ensures
            r.wf(),
            r.led.active_col == 0,
            r.led.state is Toggle,
            r.left.direction == Direction::Left,
            r.left.state is Idle,
            r.right.direction == Direction::Right,
            r.right.state is Idle,
            r.mailbox.slot is None,
    {
        Executor {
            led: LedTask::new(),
            left: ButtonTask::new(Direction::Left),
            right: ButtonTask::new(Direction::Right),
            mailbox: Channel::new(),
        }
    }

    /// Polls every task once, in the fixed order, at instant `now` with the
    /// given button levels, appending the LED pin changes to `actions`. No
    /// task can hold up the others: each poll returns after bounded work.
    pub fn run_cycle(
        &mut self,
        now: TickInstant,
        left_pressed: bool,
        right_pressed: bool,
        actions: &mut Vec<PinAction>,
    )
        requires
            old(self).wf(),
            now <= TICKS_LIMIT,
        ensures
            final(self).wf(),
            *final(self) == cycle(*old(self), now, left_pressed, right_pressed).0,
            final(actions)@ == old(actions)@ + cycle(*old(self), now, left_pressed, right_pressed).1,
    {
        let _ = self.led.poll(LED_TASK_ID, now, &mut self.mailbox, actions);
        let _ = self.left.poll(LEFT_TASK_ID, now, left_pressed, &mut self.mailbox);
        let _ = self.right.poll(RIGHT_TASK_ID, now, right_pressed, &mut self.mailbox);
    }
}

} // verus!
