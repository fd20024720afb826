//! A pulse of fixed period: high for the first frames of each cycle, low
//! for the rest.
use vstd::prelude::*;
use crate::AudioComponent;
use crate::error::ConfigError;
use crate::ring::lemma_step_forward;
use vstd::arithmetic::div_mod::{lemma_add_mod_noop, lemma_small_mod};

verus! {

/// What a pulse is, seen from outside.
pub struct PwmView<T> {
    /// The place of the next frame in its cycle, counted from zero.
    pub current_frame: nat,
    /// The number of frames at the start of each cycle that are high.
    pub on_frame: nat,
    /// The number of frames in a cycle.
    pub period: nat,
    /// The frame given while the pulse is high.
    pub high: T,
    /// The frame given while the pulse is low.
    pub low: T,
}

impl<T> PwmView<T> {
    /// The cycle is not empty and the next frame lies in it.
    pub open spec fn valid(self) -> bool {
        self.current_frame < self.period
    }

    /// The frame that the next tick gives.
    pub open spec fn output(self) -> T {
        if self.current_frame < self.on_frame {
            self.high
        } else {
            self.low
        }
    }

    /// The pulse one frame later.
    pub open spec fn tick(self) -> Self {
        PwmView {
            current_frame: if self.current_frame + 1 == self.period {
                0
            } else {
                self.current_frame + 1
            },
            on_frame: self.on_frame,
            period: self.period,
            high: self.high,
            low: self.low,
        }
    }

    /// The pulse `count` frames later.
    pub open spec fn after(self, count: nat) -> Self
        decreases count,
    {
        if count == 0 {
            self
        } else {
            self.tick().after((count - 1) as nat)
        }
    }
}

/// A pulse is where counting its frames round the cycle puts it: `count`
/// ticks after the start of a cycle it gives the high frame if and only if
/// the remainder of `count` by the period is below the number of high
/// frames.
pub proof fn lemma_pwm_output_after<T>(pulse: PwmView<T>, count: nat)
    requires
        pulse.valid(),
        pulse.current_frame == 0,
    ensures
        pulse.after(count).valid(),
        pulse.after(count).current_frame == count % pulse.period,
        pulse.after(count).output() == if count % pulse.period < pulse.on_frame {
            pulse.high
        } else {
            pulse.low
        },
{
    lemma_pwm_after(pulse, count);
}

/// `count` ticks move a pulse `count` places round its cycle and change
/// nothing else.
pub proof fn lemma_pwm_after<T>(pulse: PwmView<T>, count: nat)
    requires
        pulse.valid(),
    ensures
        pulse.after(count) == (PwmView {
            current_frame: (pulse.current_frame + count) % pulse.period,
            on_frame: pulse.on_frame,
            period: pulse.period,
            high: pulse.high,
            low: pulse.low,
        }),
    decreases count,
{
    let period = pulse.period as int;
    let at = pulse.current_frame as int;
    if count == 0 {
        lemma_small_mod(pulse.current_frame, pulse.period);
    } else {
        let next = pulse.tick();
        let rest = count - 1;
        lemma_step_forward(at, period);
        lemma_pwm_after(next, rest as nat);
        lemma_small_mod(next.current_frame, pulse.period);
        lemma_add_mod_noop(at + 1, rest, period);
        lemma_add_mod_noop(next.current_frame as int, rest, period);
        assert(at + 1 + rest == at + count);
    }
}

/// A counter that goes round a cycle of `period` frames.
#[derive(Debug)]
pub struct Pwm<T> {
    current_frame: usize,
    on_frame: usize,
    period: usize,
    high: T,
    low: T,
}

impl<T> Pwm<T> {
    /// The counter lies in the cycle, which is not empty.
    #[verifier::type_invariant]
    spec fn well_formed(self) -> bool {
        self.current_frame < self.period
    }
}

impl<T> View for Pwm<T> {
    type V = PwmView<T>;

    closed spec fn view(&self) -> PwmView<T> {
        PwmView {
            current_frame: self.current_frame as nat,
            on_frame: self.on_frame as nat,
            period: self.period as nat,
            high: self.high,
            low: self.low,
        }
    }
}

impl<T: Copy> Pwm<T> {
    /// A pulse at the start of a cycle of `period` frames, of which the
    /// first `on_frame` give `high` and the others `low`. A cycle of no
    /// frames is refused.
    pub fn new(on_frame: usize, period: usize, high: T, low: T) -> (made: Result<Self, ConfigError>)
        ensures
            match made {
                Ok(pulse) => {
                    &&& period > 0
                    &&& pulse@ == (PwmView {
                        current_frame: 0,
                        on_frame: on_frame as nat,
                        period: period as nat,
                        high: high,
                        low: low,
                    })
                },
                Err(e) => period == 0 && e == ConfigError::ZeroPeriod,
            },
    {
        if period == 0 {
            return Err(ConfigError::ZeroPeriod);
        }
        Ok(Pwm { current_frame: 0, on_frame, period, high, low })
    }
}

impl<T> Pwm<T> {
    /// The high frame goes out during the first `on_frame` frames of each
    /// cycle and the low frame after them, whatever comes in, and the
    /// pulse moves on by one frame.
    pub open spec fn stepped(self, in_frame: T, after: Self, out_frame: T) -> bool {
        &&& self@.valid()
        &&& out_frame == self@.output()
        &&& after@ == self@.tick()
    }
}

impl<T: Copy + Send + Sync> AudioComponent<T> for Pwm<T> {
    /// What `stepped` says.
    open spec fn ticked(&self, in_frame: T, after: &Self, out_frame: T) -> bool {
        self.stepped(in_frame, *after, out_frame)
    }

    /// Gives the high frame during the first `on_frame` frames of each
    /// cycle and the low frame after them, whatever comes in.
    fn tick(&mut self, _in_frame: T) -> (out_frame: T)
        ensures
            old(self).stepped(_in_frame, *final(self), out_frame),
    {
        proof {
            use_type_invariant(&*self);
            lemma_step_forward(self.current_frame as int, self.period as int);
        }
        let out_frame = if self.current_frame < self.on_frame {
            self.high
        } else {
            self.low
        };
        self.current_frame = (self.current_frame + 1) % self.period;
        out_frame
    }
}

} // verus!
