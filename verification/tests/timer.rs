use chip8emu::emu::timer::{Clock, ClockRequest, Timer, TICK_DELAY_NANOS, TICK_SPEED};

#[test]
fn new_timer_is_stopped() {
    assert_eq!(Timer::new(), Timer { dtime: 0, stime: 0, beep: false });
}

#[test]
fn tick_counts_both_registers_down() {
    let mut timer = Timer { dtime: 3, stime: 2, beep: false };
    timer.tick();
    assert_eq!(timer, Timer { dtime: 2, stime: 1, beep: true });
    timer.tick();
    assert_eq!(timer, Timer { dtime: 1, stime: 0, beep: true });
    timer.tick();
    assert_eq!(timer, Timer { dtime: 0, stime: 0, beep: false });
}

#[test]
fn tick_on_stopped_counters_changes_nothing_but_the_tone() {
    let mut timer = Timer { dtime: 0, stime: 0, beep: true };
    timer.tick();
    assert_eq!(timer, Timer { dtime: 0, stime: 0, beep: false });
    timer.tick();
    assert_eq!(timer, Timer { dtime: 0, stime: 0, beep: false });
}

#[test]
fn timer_monotonic_floor() {
    for start in 0..=255u8 {
        for extra in [0u32, 1, 7] {
            let mut timer = Timer::new();
            timer.dtime = start;
            let mut last = start;
            for _ in 0..(start as u32 + extra) {
                timer.tick();
                assert!(timer.dtime <= last);
                last = timer.dtime;
            }
            assert_eq!(timer.dtime, 0);
        }
    }
}

#[test]
fn delay_after_fewer_ticks_is_the_difference() {
    let mut timer = Timer { dtime: 200, stime: 0, beep: false };
    for _ in 0..150 {
        timer.tick();
    }
    assert_eq!(timer.dtime, 50);
}

#[test]
fn tone_sounds_while_the_sound_counter_runs() {
    let mut timer = Timer { dtime: 0, stime: 2, beep: false };
    timer.tick();
    assert!(timer.beep);
    timer.tick();
    assert!(timer.beep);
    timer.tick();
    assert!(!timer.beep);
}

#[test]
fn clock_starts_stopped() {
    let clock = Clock::new();
    assert_eq!(clock.read(), Ok(Timer { dtime: 0, stime: 0, beep: false }));
}

#[test]
fn clock_handles_share_the_counters() {
    let clock = Clock::new();
    let other = clock.handle();
    assert_eq!(clock.set_delay(9), Ok(()));
    assert_eq!(other.set_sound(1), Ok(()));
    assert_eq!(other.read(), Ok(Timer { dtime: 9, stime: 1, beep: false }));
    assert_eq!(other.tick(), Ok(()));
    assert_eq!(clock.read(), Ok(Timer { dtime: 8, stime: 0, beep: true }));
    assert_eq!(clock.tick(), Ok(()));
    assert_eq!(other.read(), Ok(Timer { dtime: 7, stime: 0, beep: false }));
}

#[test]
fn clock_set_replaces_only_its_counter() {
    let clock = Clock::new();
    clock.set_delay(5).unwrap();
    clock.set_sound(6).unwrap();
    clock.set_delay(7).unwrap();
    assert_eq!(clock.read(), Ok(Timer { dtime: 7, stime: 6, beep: false }));
}

#[test]
fn tick_period_is_a_sixtieth_of_a_second() {
    assert_eq!(TICK_SPEED, 60);
    assert_eq!(TICK_DELAY_NANOS, 16_666_666);
}

#[test]
fn beep_follows_the_sound_counter() {
    let clock = Clock::new();
    let beep = clock.beep();
    assert_eq!(beep.get(), Ok(false));
    clock.set_sound(1).unwrap();
    assert_eq!(beep.get(), Ok(false));
    clock.tick().unwrap();
    assert_eq!(beep.get(), Ok(true));
    clock.tick().unwrap();
    assert_eq!(beep.get(), Ok(false));
}

#[test]
fn setting_a_counter_leaves_the_rest() {
    let mut timer = Timer { dtime: 1, stime: 2, beep: true };
    timer.set_delay(9);
    assert_eq!(timer, Timer { dtime: 9, stime: 2, beep: true });
    timer.set_sound(0);
    assert_eq!(timer, Timer { dtime: 9, stime: 0, beep: true });
}

#[test]
fn a_timer_serves_each_request() {
    let mut timer = Timer { dtime: 7, stime: 8, beep: true };
    assert_eq!(timer.serve(ClockRequest::Nothing), 0);
    assert_eq!(timer, Timer { dtime: 7, stime: 8, beep: true });
    assert_eq!(timer.serve(ClockRequest::ReadDelay), 7);
    assert_eq!(timer, Timer { dtime: 7, stime: 8, beep: true });
    assert_eq!(timer.serve(ClockRequest::SetDelay(70)), 0);
    assert_eq!(timer, Timer { dtime: 70, stime: 8, beep: true });
    assert_eq!(timer.serve(ClockRequest::SetSound(80)), 0);
    assert_eq!(timer, Timer { dtime: 70, stime: 80, beep: true });
    assert_eq!(timer.serve(ClockRequest::ReadDelay), 70);
}

#[test]
fn a_clock_serves_requests_on_the_shared_counters() {
    let clock = Clock::new();
    let other = clock.handle();
    assert_eq!(clock.serve(ClockRequest::SetDelay(5)), Ok(0));
    assert_eq!(other.serve(ClockRequest::SetSound(6)), Ok(0));
    assert_eq!(other.serve(ClockRequest::ReadDelay), Ok(5));
    assert_eq!(clock.serve(ClockRequest::Nothing), Ok(0));
    assert_eq!(clock.read(), Ok(Timer { dtime: 5, stime: 6, beep: false }));
    clock.tick().unwrap();
    assert_eq!(other.serve(ClockRequest::ReadDelay), Ok(4));
}
