use frameloop::GameLoop;

#[test]
fn fresh_loop_starts_at_zero() {
    let mut gl = GameLoop::new(16_000_000, 100_000_000);
    let r = gl.update(0);
    assert_eq!(r.num_updates, 0);
    assert_eq!(r.total_num_updates, 0);
    assert_eq!(r.accumulated_time, 0);
    assert_eq!(r.total_time_passed, 0);
    assert_eq!(r.frame_time, 16_000_000);
    assert!(!r.exit);
}

#[test]
fn exact_target_boundary_tick_is_lazy() {
    // Repeated ticks of exactly one target step: the strict greater-than
    // drain condition means the first tick yields no step (16 ms accumulated
    // is not > 16 ms), and every later tick drains exactly one step while
    // the accumulator sits at one full target step.
    let mut gl = GameLoop::new(16_000_000, 100_000_000);

    let r1 = gl.update(16_000_000);
    assert_eq!(r1.num_updates, 0);
    assert_eq!(r1.accumulated_time, 16_000_000);

    let r2 = gl.update(16_000_000);
    assert_eq!(r2.num_updates, 1);
    assert_eq!(r2.accumulated_time, 16_000_000);

    let r3 = gl.update(16_000_000);
    assert_eq!(r3.num_updates, 1);
    assert_eq!(r3.accumulated_time, 16_000_000);

    let r4 = gl.update(16_000_000);
    assert_eq!(r4.num_updates, 1);
    assert_eq!(r4.total_num_updates, 3);
    assert_eq!(r4.total_time_passed, 64_000_000);
}

#[test]
fn clamp_bounds_catch_up_work() {
    // A 500 ms stall with a 100 ms ceiling only accumulates 100 ms toward
    // stepping (6 steps of 16 ms, remainder 4 ms), while the raw elapsed
    // time still counts in full.
    let mut gl = GameLoop::new(16_000_000, 100_000_000);
    let r = gl.update(500_000_000);
    assert_eq!(r.num_updates, 6);
    assert_eq!(r.accumulated_time, 4_000_000);
    assert_eq!(r.total_time_passed, 500_000_000);
}

#[test]
fn steps_track_total_elapsed() {
    // While no measurement exceeds the ceiling, the running step count stays
    // within one of floor(total elapsed / target), and the accumulator never
    // exceeds one target step.
    let mut gl = GameLoop::new(16, 100);
    let mut total: u64 = 0;
    let mut steps: u64 = 0;
    for e in [0u64, 5, 16, 17, 33, 100, 7, 16, 99, 1, 16, 16, 48] {
        let r = gl.update(e);
        total += e;
        steps += r.num_updates;
        assert!(r.accumulated_time <= 16);
        let q = total / 16;
        assert!(steps <= q && q <= steps + 1);
        assert_eq!(r.total_num_updates, steps);
        assert_eq!(r.total_time_passed, total);
    }
}

#[test]
fn setters_change_configuration() {
    let mut gl = GameLoop::new(10, 20);
    gl.set_target_frame_time(5);
    gl.set_max_frame_time(50);
    let r = gl.update(23);
    assert_eq!(r.num_updates, 4);
    assert_eq!(r.accumulated_time, 3);
    assert_eq!(r.frame_time, 5);
    assert_eq!(r.total_time_passed, 23);
}

#[test]
fn remainder_carries_across_ticks() {
    let mut gl = GameLoop::new(10, 100);
    let r1 = gl.update(25);
    assert_eq!(r1.num_updates, 2);
    assert_eq!(r1.accumulated_time, 5);
    let r2 = gl.update(6);
    assert_eq!(r2.num_updates, 1);
    assert_eq!(r2.accumulated_time, 1);
    assert_eq!(r2.total_num_updates, 3);
}
