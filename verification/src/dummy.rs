//! A component that hands each frame on as it came.
use vstd::prelude::*;
use crate::AudioComponent;

verus! {

/// The component that changes nothing.
#[derive(Debug)]
pub struct Dummy {}

impl Dummy {
    pub fn new() -> (made: Self)
        ensures
            made == (Dummy {  }),
    {
        Dummy {  }
    }
}

impl Dummy {
    /// The frame goes out as it came in, and the component stays as it is.
    pub open spec fn stepped<T>(self, in_frame: T, after: Self, out_frame: T) -> bool {
        out_frame == in_frame && after == self
    }
}

impl<T> AudioComponent<T> for Dummy {
    /// What `stepped` says.
    open spec fn ticked(&self, in_frame: T, after: &Self, out_frame: T) -> bool {
        self.stepped(in_frame, *after, out_frame)
    }

    /// Gives back `in_frame`.
    fn tick(&mut self, in_frame: T) -> (out_frame: T)
        ensures
            old(self).stepped(in_frame, *final(self), out_frame),
    {
        in_frame
    }
}

} // verus!
