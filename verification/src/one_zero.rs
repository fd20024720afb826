//! A filter with a memory of one frame: each output is made of the frame
//! that comes in and the frame that came in before it.
//!
//! The filter does no arithmetic on frames itself. It is made with the
//! function `blend` that combines the two frames.
use vstd::prelude::*;
use crate::{is_default, AudioComponent};

verus! {

/// The frame that came in last, and the function that combines it with the
/// next one.
#[verifier::reject_recursive_types(T)]
pub struct OneZero<T, B: Fn(T, T) -> T> {
    previous_input: T,
    blend: B,
}

impl<T, B: Fn(T, T) -> T> OneZero<T, B> {
    /// `blend` takes every pair of frames.
    #[verifier::type_invariant]
    spec fn total(self) -> bool {
        forall|in_frame: T, previous: T| call_requires(self.blend, (in_frame, previous))
    }

    /// The function that makes the output, of the incoming frame and the
    /// one that came in before it.
    pub closed spec fn blend_fn(self) -> B {
        self.blend
    }
}

impl<T, B: Fn(T, T) -> T> View for OneZero<T, B> {
    type V = T;

    /// The frame that came in last, or, before the first tick, the default
    /// frame.
    closed spec fn view(&self) -> T {
        self.previous_input
    }
}

impl<T: Copy + Default, B: Fn(T, T) -> T> OneZero<T, B> {
    /// A filter that remembers the default frame. `blend` must take every
    /// pair of frames.
    pub fn new(blend: B) -> (made: Self)
        requires
            forall|in_frame: T, previous: T| call_requires(blend, (in_frame, previous)),
        ensures
            exists|silence: T| #[trigger] is_default(silence) && made@ == silence,
            made.blend_fn() == blend,
    {
        let silence = T::default();
        assert(is_default(silence));
        OneZero { previous_input: silence, blend }
    }
}

impl<T, B: Fn(T, T) -> T> OneZero<T, B> {
    /// The outgoing frame is what `blend` made of the incoming frame and
    /// the frame that came in before it, and the incoming frame is the one
    /// remembered.
    pub open spec fn stepped(self, in_frame: T, after: Self, out_frame: T) -> bool {
        &&& call_ensures(self.blend_fn(), (in_frame, self@), out_frame)
        &&& after@ == in_frame
        &&& after.blend_fn() == self.blend_fn()
    }
}

impl<T: Copy + Send + Sync, B: Fn(T, T) -> T + Send + Sync> AudioComponent<T> for OneZero<T, B> {
    /// What `stepped` says.
    open spec fn ticked(&self, in_frame: T, after: &Self, out_frame: T) -> bool {
        self.stepped(in_frame, *after, out_frame)
    }

    /// Gives out what `blend` makes of `in_frame` and the frame that came
    /// in before it, and remembers `in_frame`.
    fn tick(&mut self, in_frame: T) -> (out_frame: T)
        ensures
            old(self).stepped(in_frame, *final(self), out_frame),
    {
        proof {
            use_type_invariant(&*self);
        }
        let out_frame = (self.blend)(in_frame, self.previous_input);
        self.previous_input = in_frame;
        out_frame
    }
}

} // verus!
