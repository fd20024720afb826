use mydsp_jack::delay::Delay;
use mydsp_jack::echo::Echo;
use mydsp_jack::error::ConfigError;
use mydsp_jack::AudioComponent;

#[test]
fn echo_feeds_back_the_frame_held_and_mixes_the_delayed_one() {
    let feedback = 0.5f32;
    let dry = 0.5f32;
    let wet = 0.5f32;
    let mut echo = Echo::new(
        3,
        move |x: f32, held: f32| x + feedback * held,
        move |x: f32, delayed: f32| dry * x + wet * delayed,
    )
    .unwrap();
    // over three frames both functions get the frame written three ticks before
    assert_eq!(echo.tick(1.0), 0.5);
    assert_eq!(echo.tick(2.0), 1.0);
    assert_eq!(echo.tick(3.0), 1.5);
    assert_eq!(echo.tick(4.0), 2.5);
    assert_eq!(echo.tick(0.0), 1.0);
    assert_eq!(echo.tick(0.0), 1.5);
}

#[test]
fn echo_mixes_in_the_sum_that_was_fed_back() {
    let feedback = 0.5f32;
    let dry = 0.5f32;
    let wet = 0.5f32;
    let mut echo = Echo::new(
        3,
        move |x: f32, held: f32| x + feedback * held,
        move |x: f32, delayed: f32| dry * x + wet * delayed,
    )
    .unwrap();
    for x in 1..7 {
        echo.tick(x as f32);
    }
    // the delayed frame is 4.0 + 0.5 * 1.0, written three ticks before
    assert_eq!(echo.tick(7.0), 5.75);
}

#[test]
fn echo_all_wet_over_one_frame_is_the_fixed_line_of_one_frame() {
    let mut echo = Echo::new(1, |x: f32, _held: f32| x, |_x: f32, delayed: f32| delayed).unwrap();
    let mut line = Delay::<f32>::new(1).unwrap();
    assert_eq!(echo.tick(5.0), 0.0);
    assert_eq!(echo.tick(6.0), 5.0);
    assert_eq!(line.tick(5.0), 0.0);
    assert_eq!(line.tick(6.0), 5.0);
}

#[test]
fn echo_all_wet_is_the_fixed_line_of_as_many_frames() {
    for capacity in 1..7usize {
        let mut echo =
            Echo::new(capacity, |x: i32, _held: i32| x, |_x: i32, delayed: i32| delayed).unwrap();
        let mut line = Delay::<i32>::new(capacity).unwrap();
        for x in 1..30 {
            assert_eq!(echo.tick(x), line.tick(x));
        }
    }
}

#[test]
fn echo_delays_both_paths_by_the_length_of_its_line() {
    // f is what was written into the line: f[k] = x[k] + f[k - n] / 2
    for n in 1..6usize {
        let mut echo = Echo::new(
            n,
            |x: i64, held: i64| x + held / 2,
            |x: i64, delayed: i64| 3 * x + 5 * delayed,
        )
        .unwrap();
        let mut f: Vec<i64> = Vec::new();
        for k in 0..40usize {
            let x = (k as i64 + 1) * 64;
            let delayed = if k >= n { f[k - n] } else { 0 };
            assert_eq!(echo.tick(x), 3 * x + 5 * delayed);
            f.push(x + delayed / 2);
        }
    }
}

#[test]
fn echo_without_feedback_and_all_dry_gives_the_input() {
    let feedback = 0.0f32;
    let dry = 1.0f32;
    let wet = 0.0f32;
    let mut echo = Echo::new(
        4,
        move |x: f32, held: f32| x + feedback * held,
        move |x: f32, delayed: f32| dry * x + wet * delayed,
    )
    .unwrap();
    let inputs = [0.25f32, -1.0, 0.5, 3.75, -0.125, 0.0, 1.0, 100.0, -7.5];
    for x in inputs {
        assert_eq!(echo.tick(x), x);
    }
    // and so at every other delay
    assert_eq!(echo.set_delay(0), Ok(()));
    for x in inputs {
        assert_eq!(echo.tick(x), x);
    }
}

#[test]
fn echo_hands_the_same_delayed_frame_to_feed_and_mix() {
    // feed writes the delayed frame plus one, mix gives the delayed frame out
    let mut echo =
        Echo::new(2, |_x: i32, held: i32| held + 1, |_x: i32, delayed: i32| delayed).unwrap();
    assert_eq!(echo.tick(9), 0);
    assert_eq!(echo.tick(9), 0);
    assert_eq!(echo.tick(9), 1);
    assert_eq!(echo.tick(9), 1);
    assert_eq!(echo.tick(9), 2);
    assert_eq!(echo.tick(9), 2);
    assert_eq!(echo.tick(9), 3);
}

#[test]
fn echo_set_delay_is_heard_from_the_tick_after_the_next() {
    let mut echo = Echo::new(4, |x: i32, _held: i32| x, |_x: i32, delayed: i32| delayed).unwrap();
    assert_eq!(echo.tick(1), 0);
    assert_eq!(echo.tick(2), 0);
    assert_eq!(echo.set_delay(1), Ok(()));
    // still the frame that the last tick read; the line now reads one frame back
    assert_eq!(echo.tick(3), 0);
    assert_eq!(echo.set_delay(0), Ok(()));
    // the frame read at the delay of one: two ticks old by now
    assert_eq!(echo.tick(4), 2);
    assert_eq!(echo.set_delay(3), Ok(()));
    // the frame read at the delay of zero: one tick old by now
    assert_eq!(echo.tick(5), 4);
    // the frame read at the delay of three: four ticks old by now
    assert_eq!(echo.tick(6), 2);
    assert_eq!(echo.tick(7), 3);
}

#[test]
fn echo_refuses_a_delay_as_long_as_its_line() {
    let mut echo = Echo::new(4, |x: i32, _held: i32| x, |_x: i32, delayed: i32| delayed).unwrap();
    assert_eq!(echo.capacity(), 4);
    assert_eq!(echo.set_delay(4), Err(ConfigError::OffsetOutOfRange));
    assert_eq!(echo.set_delay(3), Ok(()));
    echo.tick(1);
    echo.tick(2);
    echo.tick(3);
    assert_eq!(echo.set_delay(9), Err(ConfigError::OffsetOutOfRange));
    // still four ticks of delay
    assert_eq!(echo.tick(4), 0);
    assert_eq!(echo.tick(5), 1);
    assert_eq!(echo.tick(6), 2);
}

#[test]
fn echo_over_no_frames_is_refused() {
    let made = Echo::new(0, |x: i32, _held: i32| x, |_x: i32, delayed: i32| delayed);
    assert!(matches!(made, Err(ConfigError::ZeroCapacity)));
}

#[test]
fn echo_over_one_frame_delays_by_one_tick() {
    let mut echo = Echo::new(1, |x: i32, held: i32| x + held, |_x: i32, delayed: i32| delayed).unwrap();
    assert_eq!(echo.tick(1), 0);
    assert_eq!(echo.tick(1), 1);
    assert_eq!(echo.tick(1), 2);
    assert_eq!(echo.tick(1), 3);
}
