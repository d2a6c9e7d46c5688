use tick_tasks::button::{ButtonState, ButtonTask, Direction};
use tick_tasks::channel::Channel;
use tick_tasks::executor::Executor;
use tick_tasks::led::{LedState, LedTask, PinAction, NUM_COLS};
use tick_tasks::poll::Poll;
use tick_tasks::time::{compose_ticks, now_from_reads, Ticker, Timer, COUNTER_MODULUS, TICKS_LIMIT};

const BLINK: u64 = 16384;
const DEBOUNCE: u64 = 3276;

#[test]
fn compose_places_overflows_above_counter() {
    assert_eq!(compose_ticks(0, 0), 0);
    assert_eq!(compose_ticks(0, 0x12_3456), 0x12_3456);
    assert_eq!(compose_ticks(3, 5), 3 * 0x100_0000 + 5);
    assert_eq!(compose_ticks(u32::MAX, 0xFF_FFFF), TICKS_LIMIT);
}

#[test]
fn now_strictly_increases_across_register_wrap() {
    let mut ticker = Ticker::new();
    let mut last = ticker.now(0);
    for _ in 0..3 {
        let before = ticker.now((COUNTER_MODULUS - 1) as u32);
        assert!(before > last);
        ticker.record_overflow();
        let after = ticker.now(0);
        assert!(after > before);
        assert_eq!(after, before + 1);
        last = after;
    }
    assert_eq!(ticker.overflows, 3);
}

#[test]
fn read_with_overflow_in_between_is_retried() {
    assert_eq!(now_from_reads(2, 7, false, 2), Some(2 * 0x100_0000 + 7));
    assert_eq!(now_from_reads(2, 7, false, 3), None);
    // The register wrapped but the interrupt has not counted it yet.
    assert_eq!(now_from_reads(2, 7, true, 2), None);
}

#[test]
fn deadline_pending_before_and_ready_from_target() {
    for d in [0u64, 1, 10, BLINK] {
        let start = 1000u64;
        let t = Timer::new(d, start);
        assert_eq!(t.end_time, start + d);
        for now in start..start + d {
            assert!(!t.is_ready(now));
            assert_eq!(t.poll(0, now), Poll::Pending);
        }
        for now in start + d..start + d + 5 {
            assert!(t.is_ready(now));
            assert_eq!(t.poll(0, now), Poll::Ready(()));
        }
        assert!(t.is_ready(u64::MAX));
    }
}

#[test]
fn newest_sent_value_wins() {
    let mut c: Channel<u32> = Channel::new();
    assert_eq!(c.poll(0), Poll::Pending);
    c.send(1);
    c.send(2);
    c.send(3);
    assert_eq!(c.poll(0), Poll::Ready(3));
    assert_eq!(c.poll(0), Poll::Pending);
    c.send(9);
    assert_eq!(c.receive(), Some(9));
    assert_eq!(c.receive(), None);
}

#[test]
fn shifts_wrap_at_both_ends() {
    let mut mailbox = Channel::new();
    let mut actions = Vec::new();
    let mut led = LedTask::new();
    let mut now = 0u64;
    led.poll(0, now, &mut mailbox, &mut actions);
    let dirs = [
        Direction::Left,
        Direction::Left,
        Direction::Right,
        Direction::Left,
        Direction::Left,
        Direction::Left,
        Direction::Left,
        Direction::Right,
    ];
    let mut expected: i64 = 0;
    for d in dirs {
        mailbox.send(d);
        now += 1;
        led.poll(0, now, &mut mailbox, &mut actions);
        expected += if d == Direction::Right { 1 } else { -1 };
        assert_eq!(led.active_col as i64, expected.rem_euclid(NUM_COLS as i64));
        assert!(led.active_col < NUM_COLS);
    }
    assert_eq!(led.active_col, 1);
}

#[test]
fn right_shift_from_last_column_wraps_to_first() {
    let mut mailbox = Channel::new();
    let mut actions = Vec::new();
    let mut led = LedTask { active_col: 4, state: LedState::Wait(Timer::new(BLINK, 0)) };
    mailbox.send(Direction::Right);
    led.poll(0, 5, &mut mailbox, &mut actions);
    assert_eq!(led.active_col, 0);
    assert_eq!(actions, vec![PinAction::SetHigh(4), PinAction::SetHigh(0), PinAction::Toggle(0)]);
}

#[test]
fn first_poll_toggles_then_shifts_pending_direction() {
    let mut mailbox = Channel::new();
    let mut actions = Vec::new();
    let mut led = LedTask::new();
    mailbox.send(Direction::Right);
    assert_eq!(led.poll(0, 100, &mut mailbox, &mut actions), Poll::Pending);
    assert_eq!(
        actions,
        vec![PinAction::Toggle(0), PinAction::SetHigh(0), PinAction::SetHigh(1), PinAction::Toggle(1)]
    );
    assert_eq!(led.active_col, 1);
    assert_eq!(led.state, LedState::Wait(Timer { end_time: 100 + BLINK }));
    assert_eq!(mailbox.receive(), None);
}

#[test]
fn direction_takes_precedence_over_elapsed_deadline() {
    let mut mailbox = Channel::new();
    let mut actions = Vec::new();
    let mut led = LedTask { active_col: 2, state: LedState::Wait(Timer::new(BLINK, 0)) };
    mailbox.send(Direction::Left);
    led.poll(0, 2 * BLINK, &mut mailbox, &mut actions);
    assert_eq!(actions, vec![PinAction::SetHigh(2), PinAction::SetHigh(1), PinAction::Toggle(1)]);
    assert_eq!(led.state, LedState::Wait(Timer { end_time: 3 * BLINK }));
}

#[test]
fn executor_polls_each_task_once_in_order() {
    let mut ex = Executor::new();
    let mut actions = Vec::new();
    ex.run_cycle(0, true, false, &mut actions);
    assert_eq!(actions, vec![PinAction::Toggle(0)]);
    assert_eq!(ex.left.state, ButtonState::Debouncing(Timer { end_time: DEBOUNCE }));
    assert_eq!(ex.right.state, ButtonState::Idle);
    // The left press matures in this cycle: the LED task ran before the
    // button, so the direction waits in the mailbox for the next cycle.
    ex.run_cycle(DEBOUNCE, true, false, &mut actions);
    assert_eq!(actions, vec![PinAction::Toggle(0)]);
    assert_eq!(ex.mailbox.slot, Some(Direction::Left));
    ex.run_cycle(DEBOUNCE + 1, true, false, &mut actions);
    assert_eq!(ex.led.active_col, 4);
    assert_eq!(ex.mailbox.slot, None);
    // A button held down forever does not keep the LEDs from blinking.
    let mut now = DEBOUNCE + 1;
    for _ in 0..3 {
        actions.clear();
        now += BLINK;
        ex.run_cycle(now, true, false, &mut actions);
        assert_eq!(actions, vec![PinAction::Toggle(4)]);
    }
}

#[test]
fn right_button_sent_last_wins_in_one_cycle() {
    let mut ex = Executor::new();
    let mut actions = Vec::new();
    ex.run_cycle(0, true, true, &mut actions);
    ex.run_cycle(DEBOUNCE, true, true, &mut actions);
    assert_eq!(ex.mailbox.slot, Some(Direction::Right));
}

#[test]
fn bouncing_press_sends_exactly_once() {
    let mut task = ButtonTask::new(Direction::Right);
    let mut mailbox = Channel::new();
    let mut sends = 0;
    // Contact bounce: rapid flips well inside one debounce window.
    let bounce = [true, false, true, true, false, true, false, true];
    let mut now = 0u64;
    for level in bounce {
        task.poll(1, now, level, &mut mailbox);
        if mailbox.receive().is_some() {
            sends += 1;
        }
        now += 100;
    }
    assert_eq!(sends, 0);
    // The level then settles down and is held.
    for _ in 0..200 {
        task.poll(1, now, true, &mut mailbox);
        if let Some(d) = mailbox.receive() {
            assert_eq!(d, Direction::Right);
            sends += 1;
        }
        now += 100;
    }
    assert_eq!(sends, 1);
    assert_eq!(task.state, ButtonState::Pressed);
    // Release, with bounce, then a second held press: one more send.
    for level in [false, true, false, false] {
        task.poll(1, now, level, &mut mailbox);
        now += 100;
    }
    for _ in 0..100 {
        task.poll(1, now, true, &mut mailbox);
        if mailbox.receive().is_some() {
            sends += 1;
        }
        now += 100;
    }
    assert_eq!(sends, 2);
}

#[test]
fn debounce_window_is_one_hundred_millis() {
    let mut task = ButtonTask::new(Direction::Left);
    let mut mailbox = Channel::new();
    task.poll(1, 10, true, &mut mailbox);
    assert_eq!(task.state, ButtonState::Debouncing(Timer { end_time: 10 + DEBOUNCE }));
    task.poll(1, 10 + DEBOUNCE - 1, true, &mut mailbox);
    assert_eq!(mailbox.slot, None);
    task.poll(1, 10 + DEBOUNCE, true, &mut mailbox);
    assert_eq!(mailbox.slot, Some(Direction::Left));
}

#[test]
fn blink_then_left_moves_to_last_column_and_restarts_cadence() {
    let mut ex = Executor::new();
    let mut actions = Vec::new();
    ex.run_cycle(0, false, false, &mut actions);
    assert_eq!(actions, vec![PinAction::Toggle(0)]);
    assert_eq!(ex.led.state, LedState::Wait(Timer { end_time: BLINK }));
    actions.clear();
    // Just before one blink period nothing happens.
    ex.run_cycle(BLINK - 1, false, false, &mut actions);
    assert!(actions.is_empty());
    // Past one blink period with no input: one toggle of column 0.
    ex.run_cycle(BLINK + 10, false, false, &mut actions);
    assert_eq!(actions, vec![PinAction::Toggle(0)]);
    assert_eq!(ex.led.active_col, 0);
    actions.clear();
    // A left press arrives.
    let t = BLINK + 20;
    ex.mailbox.send(Direction::Left);
    ex.run_cycle(t, false, false, &mut actions);
    assert_eq!(ex.led.active_col, 4);
    assert_eq!(actions, vec![PinAction::SetHigh(0), PinAction::SetHigh(4), PinAction::Toggle(4)]);
    assert_eq!(ex.led.state, LedState::Wait(Timer { end_time: t + BLINK }));
}
