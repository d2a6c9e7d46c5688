use vstd::prelude::*;

use crate::channel::Channel;
use crate::poll::Poll;
use crate::time::{millis_to_ticks, ticks_in_millis, TickInstant, Timer, TICKS_LIMIT};

verus! {

/// Which way a button press moves the active column.
#[derive(Clone, Copy, Debug, PartialEq, Eq, Structural)]
pub enum Direction {
    Left,
    Right,
}

/// How long a press must hold steady before it counts, in milliseconds.
pub const DEBOUNCE_MS: u64 = 100;

/// The debounce window in ticks.
pub open spec fn debounce_ticks() -> nat {
    ticks_in_millis(DEBOUNCE_MS as nat)
}

/// Where a button task stands in recognising a press.
#[derive(Clone, Copy, Debug, PartialEq, Eq, Structural)]
pub enum ButtonState {
    /// The button is released.
    Idle,
    /// The button went down; it counts as pressed once it stays down until
    /// the deadline.
    Debouncing(Timer),
    /// The press was reported; nothing more is sent until release.
    Pressed,
}

/// A task that watches one button and sends its direction once per press.
#[derive(Clone, Copy, Debug, PartialEq, Eq, Structural)]
pub struct ButtonTask {
    pub direction: Direction,
    pub state: ButtonState,
}

impl ButtonTask {
    /// The task after one poll at instant `now` with the button down
    /// (`pressed`) or up, and the direction sent by that poll, if any.
    pub open spec fn step(self, now: TickInstant, pressed: bool) -> (ButtonTask, Option<Direction>) {
        let with = |s: ButtonState| ButtonTask { direction: self.direction, state: s };
        match self.state {
            ButtonState::Idle => if pressed {
                (with(ButtonState::Debouncing(Timer { end_time: (now + debounce_ticks()) as u64 })), None)
            } else {
                (self, None)
            },
            ButtonState::Debouncing(t) => if !pressed {
                (with(ButtonState::Idle), None)
            } else if t.ready_at(now) {
                (with(ButtonState::Pressed), Some(self.direction))
            } else {
                (self, None)
            },
            ButtonState::Pressed => if pressed {
                (self, None)
            } else {
                (with(ButtonState::Idle), None)
            },
        }
    }

    /// The task after polls at each `(instant, pressed)` sample in order, and
    /// how many directions those polls sent.
    pub open spec fn run(self, samples: Seq<(TickInstant, bool)>) -> (ButtonTask, nat)
        decreases samples.len(),
    {
        if samples.len() == 0 {
            (self, 0)
        } else {
            let (t, n) = self.run(samples.drop_last());
            let (t2, sent) = t.step(samples.last().0, samples.last().1);
            (t2, if sent is Some { n + 1 } else { n })
        }
    }

    /// A task for a released button that reports presses as `direction`.
    pub fn new(direction: Direction) -> (r: ButtonTask)
        ensures
            r.direction == direction,
            r.state is Idle,
    {
        ButtonTask { direction, state: ButtonState::Idle }
    }

    /// Advances the task by one step given the button level at `now`, sending
    /// the direction into `sender` when a press has held through the debounce
    /// window. The task never completes, so the result is always `Pending`.
    pub fn poll(
        &mut self,
        task_id: usize,
        now: TickInstant,
        pressed: bool,
        sender: &mut Channel<Direction>,
    ) -> (r: Poll<()>)
        requires
            now <= TICKS_LIMIT,
        ensures
            r is Pending,
            *final(self) == old(self).step(now, pressed).0,
            old(self).step(now, pressed).1 matches Some(d) ==> *final(sender) == old(sender).sent(d),
            old(self).step(now, pressed).1 is None ==> *final(sender) == *old(sender),
    {
        match self.state {
            ButtonState::Idle => {
                if pressed {
                    let window = millis_to_ticks(DEBOUNCE_MS);
                    self.state = ButtonState::Debouncing(Timer::new(window, now));
                }
            },
            ButtonState::Debouncing(t) => {
                if !pressed {
                    self.state = ButtonState::Idle;
                } else if t.is_ready(now) {
                    sender.send(self.direction);
                    self.state = ButtonState::Pressed;
                }
            },
            ButtonState::Pressed => {
                if !pressed {
                    self.state = ButtonState::Idle;
                }
            },
        }
        Poll::Pending
    }
}

/// Bounces are not presses: starting from a released button, polls at
/// instants that all lie within one debounce window `[lo, lo + window)` send
/// nothing, however the level flips between them.
pub proof fn lemma_no_send_within_window(task: ButtonTask, samples: Seq<(TickInstant, bool)>, lo: nat)
    requires
        task.state is Idle,
        forall|i: int|
            0 <= i < samples.len() ==> lo <= samples[i].0 && samples[i].0 < lo + debounce_ticks()
                && samples[i].0 <= TICKS_LIMIT,
    ensures
        task.run(samples).1 == 0,
        task.run(samples).0.state is Idle || (task.run(samples).0.state matches ButtonState::Debouncing(t)
            && t.end_time >= lo + debounce_ticks()),
    decreases samples.len(),
{
    if samples.len() > 0 {
        let init = samples.drop_last();
        assert forall|i: int| 0 <= i < init.len() implies lo <= init[i].0 && init[i].0 < lo + debounce_ticks()
            && init[i].0 <= TICKS_LIMIT by {
            assert(init[i] == samples[i]);
        }
        lemma_no_send_within_window(task, init, lo);
        assert(samples.last() == samples[samples.len() - 1]);
    }
}

/// One press, one send: while the button is held down, however long and
/// from whatever state, at most one direction is sent.
pub proof fn lemma_one_send_while_held(task: ButtonTask, samples: Seq<(TickInstant, bool)>)
    requires
        forall|i: int| 0 <= i < samples.len() ==> samples[i].1,
    ensures
        task.run(samples).1 <= 1,
        task.run(samples).1 == 1 ==> task.run(samples).0.state is Pressed,
    decreases samples.len(),
{
    if samples.len() > 0 {
        let init = samples.drop_last();
        assert forall|i: int| 0 <= i < init.len() implies init[i].1 by {
            assert(init[i] == samples[i]);
        }
        lemma_one_send_while_held(task, init);
        assert(samples.last() == samples[samples.len() - 1]);
    }
}

/// A press that holds is reported: once the button went down and armed the
/// debounce deadline `t`, polls with the button held that reach the deadline
/// send the direction exactly once.
pub proof fn lemma_held_press_sent_once(task: ButtonTask, t: Timer, samples: Seq<(TickInstant, bool)>)
    requires
        task.state == ButtonState::Debouncing(t),
        forall|i: int| 0 <= i < samples.len() ==> samples[i].1,
        exists|i: int| 0 <= i < samples.len() && t.ready_at(samples[i].0),
    ensures
        task.run(samples).1 == 1,
        task.run(samples).0.state is Pressed,
        task.run(samples).0.direction == task.direction,
    decreases samples.len(),
{
    let init = samples.drop_last();
    let last = samples.last();
    assert(last == samples[samples.len() - 1]);
    assert forall|i: int| 0 <= i < init.len() implies init[i].1 by {
        assert(init[i] == samples[i]);
    }
    if exists|i: int| 0 <= i < init.len() && t.ready_at(init[i].0) {
        let i = choose|i: int| 0 <= i < init.len() && t.ready_at(init[i].0);
        assert(init[i] == samples[i]);
        lemma_held_press_sent_once(task, t, init);
    } else {
        lemma_debouncing_until_ready(task, t, init);
        let i = choose|i: int| 0 <= i < samples.len() && t.ready_at(samples[i].0);
        if i < init.len() {
            assert(init[i] == samples[i]);
        }
    }
}

/// While the button is held and the deadline has not been reached, the task
/// keeps debouncing and sends nothing.
proof fn lemma_debouncing_until_ready(task: ButtonTask, t: Timer, samples: Seq<(TickInstant, bool)>)
    requires
        task.state == ButtonState::Debouncing(t),
        forall|i: int| 0 <= i < samples.len() ==> samples[i].1 && !t.ready_at(samples[i].0),
    ensures
        task.run(samples) == (task, 0nat),
    decreases samples.len(),
{
    if samples.len() > 0 {
        let init = samples.drop_last();
        assert forall|i: int| 0 <= i < init.len() implies init[i].1 && !t.ready_at(init[i].0) by {
            assert(init[i] == samples[i]);
        }
        lemma_debouncing_until_ready(task, t, init);
        assert(samples.last() == samples[samples.len() - 1]);
    }
}

/// Polls over `a` then `b` are the polls over `a` followed by those over `b`.
pub proof fn lemma_run_append(task: ButtonTask, a: Seq<(TickInstant, bool)>, b: Seq<(TickInstant, bool)>)
    ensures
        task.run(a + b) == (task.run(a).0.run(b).0, task.run(a).1 + task.run(a).0.run(b).1),
    decreases b.len(),
{
    if b.len() == 0 {
        assert(a + b =~= a);
    } else {
        lemma_run_append(task, a, b.drop_last());
        assert((a + b).drop_last() =~= a + b.drop_last());
        assert((a + b).last() == b.last());
    }
}

/// From a released button, polls at instants up to `hi` leave any debounce
/// deadline at most one window after `hi`.
proof fn lemma_deadline_bounded(task: ButtonTask, samples: Seq<(TickInstant, bool)>, hi: nat)
    requires
        task.state is Idle,
        forall|i: int| 0 <= i < samples.len() ==> samples[i].0 <= hi && samples[i].0 <= TICKS_LIMIT,
    ensures
        task.run(samples).0.state matches ButtonState::Debouncing(t) ==> t.end_time <= hi + debounce_ticks(),
    decreases samples.len(),
{
    if samples.len() > 0 {
        let init = samples.drop_last();
        assert forall|i: int| 0 <= i < init.len() implies init[i].0 <= hi && init[i].0 <= TICKS_LIMIT by {
            assert(init[i] == samples[i]);
        }
        lemma_deadline_bounded(task, init, hi);
        assert(samples.last() == samples[samples.len() - 1]);
    }
}

/// One physical press, one send: starting from a released button, a bounce
/// whose level flips all fall within one debounce window, followed by the
/// button held down from some instant at or after the bounce until at least
/// one window later, sends the direction exactly once.
pub proof fn lemma_bouncing_press_sent_once(
    task: ButtonTask,
    bounce: Seq<(TickInstant, bool)>,
    held: Seq<(TickInstant, bool)>,
    lo: nat,
)
    requires
        task.state is Idle,
        held.len() > 0,
        forall|i: int|
            0 <= i < bounce.len() ==> lo <= bounce[i].0 && bounce[i].0 < lo + debounce_ticks()
                && bounce[i].0 <= held[0].0,
        forall|i: int| 0 <= i < held.len() ==> held[i].1 && held[i].0 <= TICKS_LIMIT,
        held.last().0 >= held[0].0 + debounce_ticks(),
    ensures
        task.run(bounce + held).1 == 1,
        task.run(bounce + held).0.state is Pressed,
{
    assert(held.last() == held[held.len() - 1]);
    assert(held[0].0 <= TICKS_LIMIT);
    lemma_no_send_within_window(task, bounce, lo);
    lemma_deadline_bounded(task, bounce, held[0].0 as nat);
    lemma_run_append(task, bounce, held);
    let mid = task.run(bounce).0;
    assert(mid.direction == task.direction) by {
        lemma_run_keeps_direction(task, bounce);
    }
    if let ButtonState::Debouncing(t) = mid.state {
        assert(t.ready_at(held[held.len() - 1].0));
        lemma_held_press_sent_once(mid, t, held);
    } else {
        let first = held.subrange(0, 1);
        let rest = held.subrange(1, held.len() as int);
        assert(held =~= first + rest);
        assert(first.drop_last() =~= Seq::<(TickInstant, bool)>::empty());
        assert(first.last() == held[0]);
        assert(mid.state is Idle);
        assert(mid.run(first.drop_last()) == (mid, 0nat));
        lemma_run_append(mid, first, rest);
        assert(mid.run(held) == mid.run(first + rest));
        let armed = mid.run(first).0;
        let t = Timer { end_time: (held[0].0 + debounce_ticks()) as u64 };
        assert(armed.state == ButtonState::Debouncing(t));
        assert(rest.len() > 0);
        assert(rest.last() == held.last());
        assert(t.ready_at(rest[rest.len() - 1].0));
        assert forall|i: int| 0 <= i < rest.len() implies rest[i].1 by {
            assert(rest[i] == held[i + 1]);
        }
        lemma_held_press_sent_once(armed, t, rest);
    }
}

/// Polling never changes which direction a button reports.
proof fn lemma_run_keeps_direction(task: ButtonTask, samples: Seq<(TickInstant, bool)>)
    ensures
        task.run(samples).0.direction == task.direction,
    decreases samples.len(),
{
    if samples.len() > 0 {
        lemma_run_keeps_direction(task, samples.drop_last());
    }
}

} // verus!
