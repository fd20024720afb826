//! A source that gives the same frame at every tick: a level to multiply
//! other signals by.
use vstd::prelude::*;
use crate::AudioComponent;

verus! {

/// A level that can be set while the component runs.
#[derive(Debug)]
pub struct Gain<T> {
    gain: T,
}

impl<T> View for Gain<T> {
    type V = T;

    /// The level in force.
    closed spec fn view(&self) -> T {
        self.gain
    }
}

impl<T: Copy> Gain<T> {
    /// A source at the level `gain`.
    pub fn new(gain: T) -> (made: Self)
        ensures
            made@ == gain,
    {
        Gain { gain }
    }

    /// Puts `gain` in the place of the level in force.
    pub fn set_gain(&mut self, gain: T)
        ensures
            final(self)@ == gain,
    {
        self.gain = gain;
    }
}

impl<T> Gain<T> {
    /// The level in force goes out, whatever comes in, and stays in force.
    pub open spec fn stepped(self, in_frame: T, after: Self, out_frame: T) -> bool {
        out_frame == self@ && after@ == self@
    }
}

impl<T: Copy + Send + Sync> AudioComponent<T> for Gain<T> {
    /// What `stepped` says.
    open spec fn ticked(&self, in_frame: T, after: &Self, out_frame: T) -> bool {
        self.stepped(in_frame, *after, out_frame)
    }

    /// Gives the level in force, whatever comes in.
    fn tick(&mut self, _in_frame: T) -> (out_frame: T)
        ensures
            old(self).stepped(_in_frame, *final(self), out_frame),
    {
        self.gain
    }
}

} // verus!
