use vstd::prelude::*;
use vstd::arithmetic::div_mod::{
    lemma_add_mod_noop, lemma_mod_add_multiples_vanish, lemma_mod_sub_multiples_vanish,
};

use crate::button::Direction;
use crate::channel::Channel;
use crate::poll::Poll;
use crate::time::{millis_to_ticks, ticks_in_millis, TickInstant, Timer, TICKS_LIMIT};

verus! {

/// Number of LED columns driven by the task.
pub const NUM_COLS: usize = 5;

/// Time between two toggles of the active column, in milliseconds.
pub const BLINK_PERIOD_MS: u64 = 500;

/// The blink period in ticks.
pub open spec fn blink_ticks() -> nat {
    ticks_in_millis(BLINK_PERIOD_MS as nat)
}

/// A change to one column's output line. Columns are active low: a high
/// level switches the column's LED off.
#[derive(Clone, Copy, Debug, PartialEq, Eq, Structural)]
pub enum PinAction {
    /// Drive the column's line high.
    SetHigh(usize),
    /// Flip the column's line.
    Toggle(usize),
}

/// The column reached from `col` by one step in `direction`, wrapping at
/// both ends.
pub open spec fn shifted(col: int, direction: Direction) -> int {
    match direction {
        Direction::Left => (col + NUM_COLS - 1) % (NUM_COLS as int),
        Direction::Right => (col + 1) % (NUM_COLS as int),
    }
}

/// The column reached from `col` by the steps in `directions`, in order.
pub open spec fn shifted_all(col: int, directions: Seq<Direction>) -> int
    decreases directions.len(),
{
    if directions.len() == 0 {
        col
    } else {
        shifted(shifted_all(col, directions.drop_last()), directions.last())
    }
}

/// How many of `directions` equal `d`.
pub open spec fn count_of(directions: Seq<Direction>, d: Direction) -> int
    decreases directions.len(),
{
    if directions.len() == 0 {
        0
    } else {
        count_of(directions.drop_last(), d) + if directions.last() == d { 1int } else { 0 }
    }
}

/// Where the LED task stands in its blink cycle.
#[derive(Clone, Copy, Debug, PartialEq, Eq, Structural)]
pub enum LedState {
    /// The active column is due to flip.
    Toggle,
    /// Waiting for the deadline of the next flip, or for a direction.
    Wait(Timer),
}

/// A task that blinks one active column and moves it left or right when a
/// direction arrives in its mailbox.
#[derive(Clone, Copy, Debug, PartialEq, Eq, Structural)]
pub struct LedTask {
    pub active_col: usize,
    pub state: LedState,
}

impl LedTask {
    pub open spec fn wf(self) -> bool {
        self.active_col < NUM_COLS
    }

    /// The task at column `col`, just flipped at `now` and waiting one period.
    pub open spec fn armed(col: int, now: TickInstant) -> LedTask {
        LedTask {
            active_col: col as usize,
            state: LedState::Wait(Timer { end_time: (now + blink_ticks()) as u64 }),
        }
    }

    /// The task after one poll at `now` while the mailbox holds `slot`, and
    /// the pin changes made by that poll, in order. A direction in the mailbox
    /// takes precedence over an elapsed deadline and restarts the cadence.
    pub open spec fn after_poll(self, now: TickInstant, slot: Option<Direction>) -> (LedTask, Seq<PinAction>) {
        let col = self.active_col;
        match self.state {
            LedState::Wait(t) => match slot {
                Some(d) => {
                    let c = shifted(col as int, d);
                    (
                        LedTask::armed(c, now),
                        seq![PinAction::SetHigh(col), PinAction::SetHigh(c as usize), PinAction::Toggle(c as usize)],
                    )
                },
                None => if t.ready_at(now) {
                    (LedTask::armed(col as int, now), seq![PinAction::Toggle(col)])
                } else {
                    (self, seq![])
                },
            },
            LedState::Toggle => match slot {
                Some(d) => {
                    let c = shifted(col as int, d);
                    (
                        LedTask::armed(c, now),
                        seq![
                            PinAction::Toggle(col),
                            PinAction::SetHigh(col),
                            PinAction::SetHigh(c as usize),
                            PinAction::Toggle(c as usize),
                        ],
                    )
                },
                None => (LedTask::armed(col as int, now), seq![PinAction::Toggle(col)]),
            },
        }
    }

    /// A task at column 0, due to flip on its first poll.
    pub fn new() -> (r: LedTask)
        ensures
            r.wf(),
            r.active_col == 0,
            r.state is Toggle,
    {
        LedTask { active_col: 0, state: LedState::Toggle }
    }

    /// Switches the old column off, moves one column in `direction` with
    /// wrap-around, and switches the new column off so that the next flip
    /// lights it.
    fn shift(&mut self, direction: Direction, actions: &mut Vec<PinAction>)
        requires
            old(self).wf(),
        ensures
            final(self).wf(),
            final(self).state == old(self).state,
            final(self).active_col as int == shifted(old(self).active_col as int, direction),
            final(actions)@ == old(actions)@ + seq![
                PinAction::SetHigh(old(self).active_col),
                PinAction::SetHigh(final(self).active_col),
            ],
    {
        actions.push(PinAction::SetHigh(self.active_col));
        self.active_col = match direction {
            Direction::Left => if self.active_col == 0 {
                NUM_COLS - 1
            } else {
                self.active_col - 1
            },
            Direction::Right => (self.active_col + 1) % NUM_COLS,
        };
        actions.push(PinAction::SetHigh(self.active_col));
        proof {
            assert(final(actions)@ =~= old(actions)@ + seq![
                PinAction::SetHigh(old(self).active_col),
                PinAction::SetHigh(self.active_col),
            ]);
        }
    }

    /// Flips the active column's output line.
    fn toggle(&self, actions: &mut Vec<PinAction>)
        ensures
            final(actions)@ == old(actions)@.push(PinAction::Toggle(self.active_col)),
    {
        actions.push(PinAction::Toggle(self.active_col));
    }

    /// Starts waiting one blink period from `now` for the next flip.
    fn arm(&mut self, now: TickInstant)
        requires
            old(self).wf(),
            now <= TICKS_LIMIT,
        ensures
            *final(self) == LedTask::armed(old(self).active_col as int, now),
    {
        let period = millis_to_ticks(BLINK_PERIOD_MS);
        self.state = LedState::Wait(Timer::new(period, now));
    }

    /// Runs the task until it has to wait: flips the active column when it is
    /// due, and moves it when a direction has arrived, appending each pin
    /// change to `actions`. The task never completes, so the result is always
    /// `Pending`; the mailbox is always left empty.
    pub fn poll(
        &mut self,
        task_id: usize,
        now: TickInstant,
        receiver: &mut Channel<Direction>,
        actions: &mut Vec<PinAction>,
    ) -> (r: Poll<()>)
        requires
            old(self).wf(),
            now <= TICKS_LIMIT,
        ensures
            r is Pending,
            final(self).wf(),
            *final(self) == old(self).after_poll(now, old(receiver).slot).0,
            final(actions)@ == old(actions)@ + old(self).after_poll(now, old(receiver).slot).1,
            final(receiver).slot is None,
    {
        match self.state {
            LedState::Wait(timer) => {
                match receiver.poll(task_id) {
                    Poll::Ready(direction) => {
                        self.shift(direction, actions);
                    },
                    Poll::Pending => {
                        if !timer.is_ready(now) {
                            proof {
                                assert(actions@ =~= old(actions)@ + seq![]);
                            }
                            return Poll::Pending;
                        }
                    },
                }
                self.toggle(actions);
                self.arm(now);
            },
            LedState::Toggle => {
                self.toggle(actions);
                self.arm(now);
                if let Poll::Ready(direction) = receiver.poll(task_id) {
                    self.shift(direction, actions);
                    self.toggle(actions);
                    self.arm(now);
                }
            },
        }
        proof {
            assert(actions@ =~= old(actions)@ + old(self).after_poll(now, old(receiver).slot).1);
        }
        Poll::Pending
    }
}

/// Any run of shifts from a valid column ends at
/// `(col + rights - lefts) mod NUM_COLS`, which is always a valid column.
pub proof fn lemma_shifts_stay_in_range(col: int, directions: Seq<Direction>)
    requires
        0 <= col < NUM_COLS,
    ensures
        shifted_all(col, directions) == (col + count_of(directions, Direction::Right) - count_of(
            directions,
            Direction::Left,
        )) % (NUM_COLS as int),
        0 <= shifted_all(col, directions) < NUM_COLS,
    decreases directions.len(),
{
    let n = NUM_COLS as int;
    if directions.len() == 0 {
        assert(col % n == col) by (nonlinear_arith)
            requires
                0 <= col < n,
                n == 5,
        ;
    } else {
        let init = directions.drop_last();
        lemma_shifts_stay_in_range(col, init);
        let a = col + count_of(init, Direction::Right) - count_of(init, Direction::Left);
        lemma_add_mod_noop(a, 1, n);
        lemma_add_mod_noop(a, n - 1, n);
        lemma_mod_add_multiples_vanish(a - 1, n);
        assert(1int % n == 1);
        assert((n - 1) % n == n - 1);
        assert(n + (a - 1) == a + (n - 1));
    }
}

/// A step right undoes a step left, across the wrap as well.
pub proof fn lemma_right_undoes_left(col: int)
    requires
        0 <= col < NUM_COLS,
    ensures
        shifted(shifted(col, Direction::Left), Direction::Right) == col,
{
}

/// `NUM_COLS` steps in one direction bring the active column back to where
/// it started.
pub proof fn lemma_full_turn_returns(col: int, d: Direction, directions: Seq<Direction>)
    requires
        0 <= col < NUM_COLS,
        directions.len() == NUM_COLS,
        forall|i: int| 0 <= i < directions.len() ==> directions[i] == d,
    ensures
        shifted_all(col, directions) == col,
{
    lemma_shifts_stay_in_range(col, directions);
    lemma_count_all_same(directions, d);
    let n = NUM_COLS as int;
    if d == Direction::Right {
        lemma_count_all_same_other(directions, d, Direction::Left);
        assert(count_of(directions, Direction::Right) == n);
        assert(count_of(directions, Direction::Left) == 0);
        lemma_mod_add_multiples_vanish(col, n);
    } else {
        lemma_count_all_same_other(directions, d, Direction::Right);
        assert(count_of(directions, Direction::Left) == n);
        assert(count_of(directions, Direction::Right) == 0);
        lemma_mod_sub_multiples_vanish(col, n);
    }
    assert(col % n == col) by (nonlinear_arith)
        requires
            0 <= col < n,
            n == 5,
    ;
}

proof fn lemma_count_all_same(directions: Seq<Direction>, d: Direction)
    requires
        forall|i: int| 0 <= i < directions.len() ==> directions[i] == d,
    ensures
        count_of(directions, d) == directions.len(),
    decreases directions.len(),
{
    if directions.len() > 0 {
        let init = directions.drop_last();
        assert forall|i: int| 0 <= i < init.len() implies init[i] == d by {
            assert(init[i] == directions[i]);
        }
        lemma_count_all_same(init, d);
    }
}

proof fn lemma_count_all_same_other(directions: Seq<Direction>, d: Direction, e: Direction)
    requires
        d != e,
        forall|i: int| 0 <= i < directions.len() ==> directions[i] == d,
    ensures
        count_of(directions, e) == 0,
    decreases directions.len(),
{
    if directions.len() > 0 {
        let init = directions.drop_last();
        assert forall|i: int| 0 <= i < init.len() implies init[i] == d by {
            assert(init[i] == directions[i]);
        }
        lemma_count_all_same_other(init, d, e);
    }
}

} // verus!
