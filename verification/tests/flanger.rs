use mydsp_jack::dummy::Dummy;
use mydsp_jack::error::ConfigError;
use mydsp_jack::flanger::{clamp_delay, Flanger};
use mydsp_jack::AudioComponent;

/// An oscillator that gives the frames of a list, round and round.
struct Cycle {
    frames: Vec<f32>,
    next: usize,
}

impl AudioComponent<f32> for Cycle {
    fn tick(&mut self, _in_frame: f32) -> f32 {
        let frame = self.frames[self.next];
        self.next = (self.next + 1) % self.frames.len();
        frame
    }
}

/// An oscillator that gives the number of ticks it has made.
struct Count {
    ticks: usize,
}

impl AudioComponent<f32> for Count {
    fn tick(&mut self, _in_frame: f32) -> f32 {
        self.ticks += 1;
        self.ticks as f32
    }
}

fn modulated_length(lfo_index: f32) -> impl Fn(f32, usize) -> usize + Send + Sync {
    move |osc: f32, base: usize| {
        let lfo = osc * 0.5 + 0.5;
        (base as f32 * (1.0 - lfo * lfo_index)) as usize
    }
}

#[test]
fn flanger_sets_the_delay_from_the_oscillator() {
    let depth = 0.5f32;
    let mut effect = Flanger::new(
        Cycle { frames: vec![0.0], next: 0 },
        4,
        modulated_length(1.0),
        move |echoed: f32| echoed * depth,
        |x: f32, _held: f32| x,
        |_x: f32, delayed: f32| delayed,
    )
    .unwrap();
    // the oscillator rests at its middle: the line reads two frames back,
    // and what it read is heard one tick later
    assert_eq!(effect.tick(1.0), 0.0);
    assert_eq!(effect.tick(2.0), 0.0);
    assert_eq!(effect.tick(3.0), 0.0);
    assert_eq!(effect.tick(4.0), 0.5);
    assert_eq!(effect.tick(5.0), 1.0);
}

#[test]
fn flanger_follows_the_oscillator_tick_by_tick() {
    let mut effect = Flanger::new(
        Cycle { frames: vec![-1.0, 1.0, 0.0, 1.0, -1.0], next: 0 },
        4,
        modulated_length(1.0),
        |echoed: f32| echoed,
        |x: f32, _held: f32| x,
        |_x: f32, delayed: f32| delayed,
    )
    .unwrap();
    // asked for 4, 0, 2, 0, 4; the line of four frames reads 3, 0, 2, 0, 3
    // frames back, and what it read is heard one tick later
    assert_eq!(effect.tick(1.0), 0.0);
    assert_eq!(effect.tick(2.0), 0.0);
    assert_eq!(effect.tick(3.0), 2.0);
    assert_eq!(effect.tick(4.0), 1.0);
    assert_eq!(effect.tick(5.0), 4.0);
    assert_eq!(effect.tick(6.0), 2.0);
}

#[test]
fn flanger_without_modulation_is_an_echo_at_the_base_delay() {
    let mut effect = Flanger::new(
        Cycle { frames: vec![-1.0, -0.5, 0.0, 0.25, 1.0, 0.75], next: 0 },
        3,
        modulated_length(0.0),
        |echoed: f32| echoed,
        |x: f32, _held: f32| x,
        |_x: f32, delayed: f32| delayed,
    )
    .unwrap();
    for k in 0..20usize {
        let out = effect.tick(k as f32 + 1.0);
        if k >= 3 {
            assert_eq!(out, (k - 3) as f32 + 1.0);
        } else {
            assert_eq!(out, 0.0);
        }
    }
}

#[test]
fn flanger_brings_the_delay_within_the_line() {
    let mut effect = Flanger::new(
        Dummy::new(),
        2,
        |_lfo: i32, base: usize| base * 50 + 1,
        |echoed: i32| echoed,
        |x: i32, _held: i32| x,
        |_x: i32, delayed: i32| delayed,
    )
    .unwrap();
    assert_eq!(effect.retarget(0), 1);
    assert_eq!(effect.tick(1), 0);
    assert_eq!(effect.tick(2), 0);
    assert_eq!(effect.tick(3), 1);
    assert_eq!(effect.tick(4), 2);
}

#[test]
fn flanger_retarget_says_the_delay_it_set() {
    let mut effect = Flanger::new(
        Dummy::new(),
        5,
        |lfo: i32, _base: usize| lfo as usize,
        |echoed: i32| echoed,
        |x: i32, _held: i32| x,
        |_x: i32, delayed: i32| delayed,
    )
    .unwrap();
    assert_eq!(effect.retarget(0), 0);
    assert_eq!(effect.retarget(3), 3);
    assert_eq!(effect.retarget(4), 4);
    assert_eq!(effect.retarget(5), 4);
    assert_eq!(effect.retarget(6), 4);
    assert_eq!(effect.retarget(1000), 4);
}

#[test]
fn flanger_hands_the_incoming_frame_to_the_oscillator() {
    // the dummy oscillator gives the incoming frame back, whose remainder
    // by three is the delay asked for: 1, 0, 2, 1, 0, 2
    let mut effect = Flanger::new(
        Dummy::new(),
        3,
        |lfo: i32, _base: usize| lfo as usize % 3,
        |echoed: i32| echoed * 10,
        |x: i32, _held: i32| x,
        |_x: i32, delayed: i32| delayed,
    )
    .unwrap();
    assert_eq!(effect.tick(10), 0);
    assert_eq!(effect.tick(21), 0);
    assert_eq!(effect.tick(32), 210);
    assert_eq!(effect.tick(40), 100);
    assert_eq!(effect.tick(51), 320);
    assert_eq!(effect.tick(62), 510);
}

#[test]
fn flanger_ticks_its_oscillator_once_a_tick() {
    // the oscillator gives the number of its ticks so far, whose remainder
    // by two is the delay asked for: 1, 0, 1, 0, 1, 0
    let mut effect = Flanger::new(
        Count { ticks: 0 },
        4,
        |lfo: f32, _base: usize| lfo as usize % 2,
        |echoed: f32| echoed,
        |x: f32, _held: f32| x,
        |_x: f32, delayed: f32| delayed,
    )
    .unwrap();
    assert_eq!(effect.tick(100.0), 0.0);
    assert_eq!(effect.tick(200.0), 0.0);
    assert_eq!(effect.tick(300.0), 200.0);
    assert_eq!(effect.tick(400.0), 200.0);
    assert_eq!(effect.tick(500.0), 400.0);
    assert_eq!(effect.tick(600.0), 400.0);
}

#[test]
fn flanger_refuses_a_base_delay_of_no_frames() {
    let made = Flanger::new(
        Dummy::new(),
        0,
        |_lfo: i32, base: usize| base,
        |echoed: i32| echoed,
        |x: i32, _held: i32| x,
        |_x: i32, delayed: i32| delayed,
    );
    assert!(matches!(made, Err(ConfigError::ZeroCapacity)));
}

#[test]
fn clamp_delay_keeps_what_fits_and_cuts_what_does_not() {
    assert_eq!(clamp_delay(0, 5), 0);
    assert_eq!(clamp_delay(4, 5), 4);
    assert_eq!(clamp_delay(5, 5), 4);
    assert_eq!(clamp_delay(usize::MAX, 5), 4);
    assert_eq!(clamp_delay(0, 1), 0);
    assert_eq!(clamp_delay(3, 1), 0);
    assert_eq!(clamp_delay(3, 0), 0);
}
