use mydsp_jack::delay::Delay;
use mydsp_jack::error::ConfigError;
use mydsp_jack::AudioComponent;

#[test]
fn fixed_line_of_three_gives_back_the_first_frame_at_the_fourth_tick() {
    let mut line = Delay::<f32>::new(3).unwrap();
    assert_eq!(line.tick(1.0), 0.0);
    assert_eq!(line.tick(2.0), 0.0);
    assert_eq!(line.tick(3.0), 0.0);
    assert_eq!(line.tick(4.0), 1.0);
}

#[test]
fn fixed_line_read_peeks_the_oldest_frame() {
    let mut line = Delay::<f32>::new(3).unwrap();
    line.tick(1.0);
    line.tick(2.0);
    line.tick(3.0);
    assert_eq!(line.read(), 1.0);
    assert_eq!(line.tick(4.0), 1.0);
    assert_eq!(line.read(), 2.0);
}

#[test]
fn fixed_line_read_changes_nothing() {
    let mut line = Delay::<i32>::new(2).unwrap();
    line.tick(7);
    assert_eq!(line.read(), 0);
    assert_eq!(line.read(), 0);
    assert_eq!(line.tick(8), 0);
    assert_eq!(line.read(), 7);
    assert_eq!(line.read(), 7);
}

#[test]
fn fixed_line_of_no_frames_is_refused() {
    assert!(matches!(Delay::<f32>::new(0), Err(ConfigError::ZeroCapacity)));
}

#[test]
fn fixed_line_of_one_frame_delays_by_one_tick() {
    let mut line = Delay::<i64>::new(1).unwrap();
    assert_eq!(line.read(), 0);
    assert_eq!(line.tick(10), 0);
    assert_eq!(line.tick(20), 10);
    assert_eq!(line.tick(30), 20);
}

#[test]
fn fixed_line_starts_with_the_default_frame() {
    let mut line = Delay::<u8>::new(4).unwrap();
    for x in 1..5u8 {
        assert_eq!(line.tick(x), 0);
    }
    assert_eq!(line.tick(100), 1);
    let mut flags = Delay::<bool>::new(2).unwrap();
    assert_eq!(flags.tick(true), false);
    assert_eq!(flags.tick(true), false);
    assert_eq!(flags.tick(false), true);
}

#[test]
fn fixed_line_delays_every_frame_by_its_length() {
    for len in 1..9usize {
        let mut line = Delay::<u32>::new(len).unwrap();
        for k in 0..40u32 {
            let out = line.tick(k + 1);
            if (k as usize) < len {
                assert_eq!(out, 0);
            } else {
                assert_eq!(out, k + 1 - len as u32);
            }
        }
    }
}
