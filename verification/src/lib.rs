//! Per-sample audio building blocks, generic in the type of a frame: a
//! fixed and a variable delay line, a feedback echo, a modulated delay, a
//! plucked string, two filters with a memory of one frame, a pulse and a
//! constant source.
//!
//! Every component takes one frame and gives one frame per call of `tick`.
//! The arithmetic on frames belongs to the caller, who hands it in as
//! functions; the components own the buffers, the cursors and the order in
//! which frames are read, written and combined. A component made by its
//! constructor is ready for `tick` at any time: no call has a precondition
//! on the component's state.
use vstd::prelude::*;

pub mod delay;
pub mod delay_var;
pub mod dummy;
pub mod echo;
pub mod error;
pub mod flanger;
pub mod gain;
pub mod ks;
pub mod one_zero;
pub mod pwm;
pub mod ring;
pub mod smooth;

verus! {

/// `frame` is a frame that the frame type gives as its default: for a
/// number, zero.
pub open spec fn is_default<T: Default>(frame: T) -> bool {
    call_ensures(T::default, (), frame)
}

/// A unit that consumes one frame and produces one frame per call.
pub trait AudioComponent<T>: Send + Sync {
    /// What one tick does: whether a component that is `self` before a
    /// tick with `in_frame` can be `after` once the tick has given
    /// `out_frame`. Each component of this library says here what its tick
    /// does. A component that does not say allows every outcome, and
    /// nothing is known of its ticks.
    open spec fn ticked(&self, in_frame: T, after: &Self, out_frame: T) -> bool {
        true
    }

    /// Takes `in_frame`, moves the component on by one frame, and gives the
    /// frame that goes out.
    fn tick(&mut self, in_frame: T) -> (out_frame: T)
        ensures
            old(self).ticked(in_frame, final(self), out_frame),
    ;
}

} // verus!
