use mydsp_jack::dummy::Dummy;
use mydsp_jack::error::ConfigError;
use mydsp_jack::gain::Gain;
use mydsp_jack::one_zero::OneZero;
use mydsp_jack::pwm::Pwm;
use mydsp_jack::smooth::Smooth;
use mydsp_jack::AudioComponent;

#[test]
fn dummy_gives_each_frame_back() {
    let mut dummy = Dummy::new();
    assert_eq!(dummy.tick(0.25f32), 0.25);
    assert_eq!(dummy.tick(-3.5f32), -3.5);
    assert_eq!(dummy.tick(17u8), 17);
}

#[test]
fn gain_gives_its_level_whatever_comes_in() {
    let mut gain = Gain::new(0.5f32);
    assert_eq!(gain.tick(0.0), 0.5);
    assert_eq!(gain.tick(9.0), 0.5);
    gain.set_gain(2.0);
    assert_eq!(gain.tick(0.0), 2.0);
    assert_eq!(gain.tick(-1.0), 2.0);
}

#[test]
fn pulse_is_high_for_the_first_frames_of_each_cycle() {
    let mut pulse = Pwm::new(2, 4, 1.0f32, 0.0f32).unwrap();
    let expected = [1.0f32, 1.0, 0.0, 0.0, 1.0, 1.0, 0.0, 0.0, 1.0];
    for high_or_low in expected {
        assert_eq!(pulse.tick(0.5), high_or_low);
    }
}

#[test]
fn pulse_with_no_high_frame_stays_low() {
    let mut pulse = Pwm::new(0, 3, 1i8, -1i8).unwrap();
    for _ in 0..7 {
        assert_eq!(pulse.tick(0), -1);
    }
}

#[test]
fn pulse_with_only_high_frames_stays_high() {
    let mut pulse = Pwm::new(3, 3, 1i8, -1i8).unwrap();
    for _ in 0..7 {
        assert_eq!(pulse.tick(0), 1);
    }
    let mut pulse = Pwm::new(usize::MAX, 3, 1i8, -1i8).unwrap();
    for _ in 0..7 {
        assert_eq!(pulse.tick(0), 1);
    }
}

#[test]
fn pulse_of_one_frame_cycles() {
    let mut pulse = Pwm::new(1, 1, 1i8, 0i8).unwrap();
    assert_eq!(pulse.tick(0), 1);
    assert_eq!(pulse.tick(0), 1);
}

#[test]
fn pulse_over_no_frames_is_refused() {
    assert!(matches!(Pwm::new(0, 0, 1.0f32, 0.0f32), Err(ConfigError::ZeroPeriod)));
    assert!(matches!(Pwm::new(5, 0, 1.0f32, 0.0f32), Err(ConfigError::ZeroPeriod)));
}

#[test]
fn pulse_is_high_where_the_count_round_the_cycle_says() {
    for period in 1..7usize {
        for on_frame in 0..9usize {
            let mut pulse = Pwm::new(on_frame, period, true, false).unwrap();
            for count in 0..40usize {
                assert_eq!(pulse.tick(false), count % period < on_frame);
            }
        }
    }
}

#[test]
fn one_zero_blends_each_frame_with_the_one_before() {
    let b1 = 0.5f32;
    let mut filter =
        OneZero::new(move |in_frame: f32, previous: f32| (in_frame + previous * b1) * 0.5);
    assert_eq!(filter.tick(1.0), 0.5);
    assert_eq!(filter.tick(2.0), 1.25);
    assert_eq!(filter.tick(0.0), 0.5);
    assert_eq!(filter.tick(0.0), 0.0);
}

#[test]
fn smooth_blends_each_frame_with_the_output_before() {
    let smoothing_factor = 0.5f32;
    let mut filter = Smooth::new(move |in_frame: f32, previous: f32| {
        (1.0 - smoothing_factor) * in_frame + smoothing_factor * previous
    });
    assert_eq!(filter.tick(1.0), 0.5);
    assert_eq!(filter.tick(1.0), 0.75);
    assert_eq!(filter.tick(1.0), 0.875);
    assert_eq!(filter.tick(0.0), 0.4375);
}

#[test]
fn one_zero_and_smooth_differ_in_what_they_remember() {
    // both give out the frame remembered; one remembers inputs, the other outputs
    let mut inputs = OneZero::new(|_in_frame: i32, previous: i32| previous);
    let mut outputs = Smooth::new(|_in_frame: i32, previous: i32| previous);
    assert_eq!(inputs.tick(4), 0);
    assert_eq!(inputs.tick(5), 4);
    assert_eq!(inputs.tick(6), 5);
    assert_eq!(outputs.tick(4), 0);
    assert_eq!(outputs.tick(5), 0);
    assert_eq!(outputs.tick(6), 0);
}
