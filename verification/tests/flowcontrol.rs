use flowcontrol::state::FlowControl;

#[test]
fn fc_new() {
    let flow_control = FlowControl::new(100, 200);

    assert_eq!(flow_control.max_data(), 100);
    assert_eq!(flow_control.window(), 100);
    assert_eq!(flow_control.max_window, 200);
    assert_eq!(flow_control.read_off, 0);
    assert_eq!(flow_control.recv_off, 0);
    assert_eq!(flow_control.last_updated, None);
}

#[test]
fn fc_increase_recv_off() {
    let mut fc = FlowControl::new(100, 200);

    let cases: [(u64, u64); 3] = [(10, 10), (20, 30), (30, 60)];
    for (delta, total) in cases {
        fc.increase_recv_off(delta);
        assert_eq!(fc.recv_off, total);
    }
}

#[test]
fn fc_update_logic() {
    let mut fc = FlowControl::new(100, 200);

    let cases: [(u64, u64, bool, u64); 3] = [
        // 1. Initial state
        (0, 0, false, 100),
        // 2. Read 50 bytes
        // available window is 50 == window / 2, no need to send max_data,
        // max_data_next is 150 = read_off(50) + window(100)
        (50, 50, false, 150),
        // 3. Read 1 byte
        // available window is 49 < window / 2, need to send max_data
        // max_data_next is 151 = read_off(51) + window(100)
        (1, 51, true, 151),
    ];
    for (read_delta, read_off, should_send, max_data_next) in cases {
        fc.increase_read_off(read_delta);
        assert_eq!(fc.read_off, read_off);
        assert_eq!(fc.should_send_max_data(), should_send);
        assert_eq!(fc.max_data_next(), max_data_next);
    }

    let now: u64 = 1;
    fc.update_max_data(now);
    assert_eq!(fc.max_data(), 151);
}

#[test]
fn fc_autotune_window() {
    let window: u64 = 10;
    let max_window: u64 = 30;
    let now: u64 = 1_000;
    let srtt: u64 = 100;
    let mut fc = FlowControl::new(window, max_window);

    // 1. Read 6 bytes, available window is 4 < window / 2, need to send max_data.
    let read_off: u64 = 6;
    fc.increase_read_off(read_off);
    assert_eq!(fc.should_send_max_data(), true);

    // max_data_next = read_off(6) + window(10) = 16
    let max_data_next: u64 = fc.max_data_next();
    assert_eq!(max_data_next, read_off + fc.window);

    // 2. Apply the new max_data limit(16), last_updated is set to now.
    fc.update_max_data(now);
    assert_eq!(fc.max_data(), max_data_next);

    // 3. Last update is within 2 * srtt, window size should be doubled.
    fc.autotune_window(now + srtt / 2, srtt);
    // Window auto-tuned to 20
    assert_eq!(fc.window, window * 2);

    // 4. Read 5 bytes, available window is 9 < window / 2, need to send max_data.
    let read_off_delta: u64 = 5;
    fc.increase_read_off(read_off_delta);
    assert_eq!(fc.should_send_max_data(), true);

    // max_data_next = read_off(11) + window(20) = 31
    let max_data_next: u64 = fc.max_data_next();
    assert_eq!(max_data_next, read_off + read_off_delta + fc.window);

    // 5. Apply the new max_data limit(31), last_updated is set to now.
    fc.update_max_data(now);
    assert_eq!(fc.max_data(), max_data_next);

    // 6. Last update is within 2 * srtt, window size should be doubled, but
    // max_window is 30, so window size should be 30.
    fc.autotune_window(now + srtt / 2, srtt);
    // Window auto-tuned to max_window(30)
    assert_eq!(fc.window, max_window);
}

#[test]
fn fc_ensure_window_lower_bound() {
    let mut fc = FlowControl::new(10, 200);

    let cases: [(u64, u64); 3] = [
        // min_window < window, unchanged
        (9, 10),
        // min_window == window, unchanged
        (10, 10),
        // min_window > window, updated
        (11, 11),
    ];
    for (min_window, window) in cases {
        fc.ensure_window_lower_bound(min_window);
        assert_eq!(fc.window(), window);
    }
}

#[test]
fn fc_counters_sum_interleaved_deltas() {
    let mut fc = FlowControl::new(100, 200);

    fc.increase_recv_off(3);
    fc.increase_read_off(1);
    fc.increase_recv_off(4);
    fc.increase_read_off(2);
    fc.increase_read_off(5);

    assert_eq!(fc.recv_off(), 3 + 4);
    assert_eq!(fc.read_off, 1 + 2 + 5);
    // The other fields are untouched by the two counter increments.
    assert_eq!(fc.window(), 100);
    assert_eq!(fc.max_data(), 100);
    assert_eq!(fc.last_updated, None);
}

#[test]
fn fc_counters_saturate_at_max() {
    let mut fc = FlowControl::new(100, 200);

    fc.increase_recv_off(u64::MAX);
    fc.increase_recv_off(1);
    assert_eq!(fc.recv_off(), u64::MAX);

    fc.increase_read_off(u64::MAX - 10);
    fc.increase_read_off(20);
    assert_eq!(fc.read_off, u64::MAX);
}

#[test]
fn fc_window_and_limit_never_decrease() {
    let mut fc = FlowControl::new(10, 30);
    let srtt: u64 = 100;
    let mut prev_window: u64 = fc.window();
    let mut prev_max_data: u64 = fc.max_data();

    let mut now: u64 = 1_000;
    for step in 0..6u64 {
        fc.increase_read_off(7);
        if fc.should_send_max_data() {
            fc.update_max_data(now);
        }
        fc.autotune_window(now + 1, srtt);
        if step == 3 {
            fc.ensure_window_lower_bound(25);
        }
        now += 10;

        assert!(fc.window() >= prev_window);
        assert!(fc.max_data() >= prev_max_data);
        assert!(fc.window() <= 30);
        prev_window = fc.window();
        prev_max_data = fc.max_data();
    }
}

#[test]
fn fc_should_send_threshold_boundaries() {
    // Even window: remaining allowance of exactly half the window does not
    // trigger an update; one byte past it does.
    let mut fc = FlowControl::new(100, 200);
    fc.increase_read_off(50);
    // (100 - 50) * 2 == 100, not < 100
    assert!(!fc.should_send_max_data());
    fc.increase_read_off(1);
    // (100 - 51) * 2 == 98 < 100
    assert!(fc.should_send_max_data());

    // Odd window: the comparison is exact, not rounded through division.
    let mut fc_odd = FlowControl::new(101, 200);
    fc_odd.increase_read_off(50);
    // (101 - 50) * 2 == 102, not < 101
    assert!(!fc_odd.should_send_max_data());
    fc_odd.increase_read_off(1);
    // (101 - 51) * 2 == 100 < 101
    assert!(fc_odd.should_send_max_data());
}

#[test]
fn fc_max_data_next_is_pure() {
    let mut fc = FlowControl::new(100, 200);
    fc.increase_read_off(42);

    // Repeated calls return the same value and change nothing.
    assert_eq!(fc.max_data_next(), 142);
    assert_eq!(fc.max_data_next(), 142);
    assert_eq!(fc.read_off, 42);
    assert_eq!(fc.window(), 100);
    assert_eq!(fc.max_data(), 100);
}

#[test]
fn fc_update_twice_same_limit_new_time() {
    let mut fc = FlowControl::new(100, 200);
    fc.increase_read_off(51);

    fc.update_max_data(5);
    assert_eq!(fc.max_data(), 151);
    assert_eq!(fc.last_updated, Some(5));

    // No intervening consumption: the limit is recomputed identically, only
    // the recorded time moves.
    fc.update_max_data(9);
    assert_eq!(fc.max_data(), 151);
    assert_eq!(fc.last_updated, Some(9));
}

#[test]
fn fc_autotune_without_prior_update_is_noop() {
    let mut fc = FlowControl::new(10, 30);
    fc.increase_read_off(6);

    // No update was ever committed, so auto-tuning leaves the window alone.
    fc.autotune_window(1_000, 100);
    assert_eq!(fc.window(), 10);
}

#[test]
fn fc_autotune_after_two_rtts_is_noop() {
    let mut fc = FlowControl::new(10, 30);
    let now: u64 = 1_000;
    let srtt: u64 = 100;

    fc.increase_read_off(6);
    fc.update_max_data(now);

    // Elapsed time of exactly 2 * srtt does not double the window.
    fc.autotune_window(now + 2 * srtt, srtt);
    assert_eq!(fc.window(), 10);

    // One tick less than 2 * srtt does.
    fc.autotune_window(now + 2 * srtt - 1, srtt);
    assert_eq!(fc.window(), 20);
}
