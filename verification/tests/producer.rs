use termdash::event::{Event, Input, Key};
use termdash::producer::{Outgoing, Producer};

/// Runs an idle producer over `span` clock units; every poll times out and
/// comes back `slack` late.  Returns the readings at which a tick was sent
/// and the number of inputs sent.
fn idle_run(interval: u64, span: u64, slack: u64) -> (Vec<u64>, usize) {
    let mut producer = Producer::new(interval, 0);
    let mut now: u64 = 0;
    let mut ticks: Vec<u64> = Vec::new();
    let mut inputs: usize = 0;
    loop {
        let back = now + producer.poll_timeout(now) + slack;
        if back > span {
            break;
        }
        now = back;
        for item in producer.after_poll(None, now) {
            match item {
                Outgoing::Send(Event::Tick) => ticks.push(now),
                Outgoing::Send(Event::Input(_)) => inputs += 1,
                Outgoing::Log(line) => panic!("nothing was pasted: {}", line),
            }
        }
    }
    (ticks, inputs)
}

#[test]
fn new_producer_starts_the_clock() {
    let producer = Producer::new(2000, 70);
    assert_eq!(producer.interval, 2000);
    assert_eq!(producer.last_tick, 70);
}

#[test]
fn poll_timeout_is_the_time_left() {
    let producer = Producer::new(2000, 100);
    assert_eq!(producer.poll_timeout(100), 2000);
    assert_eq!(producer.poll_timeout(600), 1500);
    assert_eq!(producer.poll_timeout(2099), 1);
    assert_eq!(producer.poll_timeout(2100), 0);
}

#[test]
fn poll_timeout_is_zero_past_the_deadline() {
    let producer = Producer::new(2000, 100);
    assert_eq!(producer.poll_timeout(2101), 0);
    assert_eq!(producer.poll_timeout(u64::MAX), 0);
}

#[test]
fn reading_before_last_tick_counts_as_nothing_elapsed() {
    let producer = Producer::new(2000, 100);
    assert_eq!(producer.poll_timeout(40), 2000);
    assert!(!producer.is_tick_due(40));
}

#[test]
fn tick_is_due_only_after_more_than_the_interval() {
    let producer = Producer::new(2000, 100);
    assert!(!producer.is_tick_due(100));
    assert!(!producer.is_tick_due(2099));
    assert!(!producer.is_tick_due(2100));
    assert!(producer.is_tick_due(2101));
}

#[test]
fn large_readings_do_not_overflow() {
    let producer = Producer::new(u64::MAX, u64::MAX - 1);
    assert_eq!(producer.poll_timeout(u64::MAX), u64::MAX - 1);
    assert!(!producer.is_tick_due(u64::MAX));
    let late = Producer::new(10, 0);
    assert!(late.is_tick_due(u64::MAX));
}

#[test]
fn key_press_is_sent_on() {
    let mut producer = Producer::new(2000, 0);
    let out = producer.after_poll(Some(Input::Key(Key::Char('a'))), 10);
    assert_eq!(out, vec![Outgoing::Send(Event::Input(Input::Key(Key::Char('a'))))]);
    assert_eq!(producer, Producer::new(2000, 0));
}

#[test]
fn pasted_text_is_logged_and_not_sent() {
    let mut producer = Producer::new(2000, 0);
    let out = producer.after_poll(Some(Input::Paste("hello".to_string())), 10);
    assert_eq!(out, vec![Outgoing::Log("Pasted: hello".to_string())]);
}

#[test]
fn other_input_is_dropped() {
    let mut producer = Producer::new(2000, 0);
    assert_eq!(producer.after_poll(Some(Input::Other), 10), vec![]);
    assert_eq!(producer.after_poll(None, 20), vec![]);
}

#[test]
fn due_tick_follows_the_input_of_the_same_poll() {
    let mut producer = Producer::new(2000, 0);
    let out = producer.after_poll(Some(Input::Key(Key::Right)), 2001);
    assert_eq!(
        out,
        vec![Outgoing::Send(Event::Input(Input::Key(Key::Right))), Outgoing::Send(Event::Tick)]
    );
    assert_eq!(producer.last_tick, 2001);
}

#[test]
fn tick_restarts_the_clock() {
    let mut producer = Producer::new(2000, 0);
    assert_eq!(producer.after_poll(None, 2500), vec![Outgoing::Send(Event::Tick)]);
    assert_eq!(producer.last_tick, 2500);
    assert_eq!(producer.poll_timeout(2500), 2000);
    assert_eq!(producer.after_poll(None, 4500), vec![]);
    assert_eq!(producer.after_poll(None, 4501), vec![Outgoing::Send(Event::Tick)]);
}

#[test]
fn no_input_for_five_seconds_gives_two_or_three_ticks() {
    let (ticks, inputs) = idle_run(2000, 5000, 1);
    assert_eq!(ticks, vec![2001, 4002]);
    assert_eq!(inputs, 0);
    for slack in 1..=500 {
        let (ticks, inputs) = idle_run(2000, 5000, slack);
        assert!(ticks.len() == 2 || ticks.len() == 3, "slack {}: {:?}", slack, ticks);
        assert_eq!(inputs, 0);
    }
}

#[test]
fn idle_ticks_come_within_interval_plus_slack() {
    for slack in [1u64, 7, 250] {
        let (ticks, _) = idle_run(2000, 100_000, slack);
        let mut last: u64 = 0;
        for tick in ticks {
            assert!(tick - last > 2000);
            assert!(tick - last <= 2000 + slack);
            last = tick;
        }
        assert!(last > 0);
    }
}

#[test]
fn burst_of_keys_delays_but_never_skips_the_tick() {
    let mut producer = Producer::new(2000, 0);
    let mut sent_ticks: Vec<u64> = Vec::new();
    let mut keys: usize = 0;
    let mut now: u64 = 0;
    while now < 10_000 {
        let timeout = producer.poll_timeout(now);
        // a key arrives every 300 units, before the timeout runs out
        let back = now + timeout.min(300);
        let polled = if timeout > 300 { Some(Input::Key(Key::Char('x'))) } else { None };
        now = back + 1;
        for item in producer.after_poll(polled, now) {
            match item {
                Outgoing::Send(Event::Tick) => sent_ticks.push(now),
                Outgoing::Send(Event::Input(_)) => keys += 1,
                Outgoing::Log(line) => panic!("nothing was pasted: {}", line),
            }
        }
    }
    assert!(keys > 0);
    assert!(sent_ticks.len() >= 4);
    let mut last: u64 = 0;
    for tick in sent_ticks {
        assert!(tick - last > 2000);
        assert!(tick - last <= 2000 + 301);
        last = tick;
    }
}

#[test]
fn ticks_in_a_window_are_counted_by_interval_and_slack() {
    for (interval, window, slack) in
        [(2000u64, 5000u64, 1u64), (2000, 5000, 500), (2000, 5000, 2000), (10, 1000, 3), (7, 50, 1)]
    {
        let (ticks, inputs) = idle_run(interval, window, slack);
        let n = ticks.len() as u64;
        assert_eq!(inputs, 0);
        assert!(n * (interval + 1) <= window);
        assert!(window < (n + 1) * (interval + slack));
    }
    assert_eq!(idle_run(2000, 5000, 500).0, vec![2500, 5000]);
    assert_eq!(idle_run(2000, 5000, 2000).0, vec![4000]);
}
