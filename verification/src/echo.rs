//! A feedback echo: a variable delay line whose input is the incoming
//! frame combined with a delayed frame, and whose output is the incoming
//! frame combined with the same delayed frame.
//!
//! The delayed frame of a tick is the frame that the line gave back at the
//! tick before. A line of n frames at its longest delay, n - 1, gives back
//! the frame written n - 1 ticks before, so that the echo delays by n
//! ticks: as many as the line has frames. In general the frame that a tick
//! made at the delay o gives back is, at the tick after it, o + 1 ticks
//! old.
//!
//! The echo does no arithmetic on frames itself. It is made with two
//! functions, `feed` and `mix`, and fixes which frames they are applied to
//! and in which order the line is read and written.
use vstd::prelude::*;
use core::marker::PhantomData;
use crate::{is_default, AudioComponent};
use crate::delay_var::{DelayVar, DelayVarView};
use crate::error::ConfigError;

verus! {

/// The two functions of an echo, each of which takes every pair of frames.
/// That they do is part of the type, so that `tick` asks nothing of its
/// caller.
#[verifier::reject_recursive_types(T)]
struct Mixer<T, F: Fn(T, T) -> T, M: Fn(T, T) -> T> {
    feed: F,
    mix: M,
    frame: PhantomData<T>,
}

impl<T, F: Fn(T, T) -> T, M: Fn(T, T) -> T> Mixer<T, F, M> {
    #[verifier::type_invariant]
    spec fn total(self) -> bool {
        &&& forall|in_frame: T, held: T| call_requires(self.feed, (in_frame, held))
        &&& forall|in_frame: T, delayed: T| call_requires(self.mix, (in_frame, delayed))
    }

    /// The frame to write into the line.
    fn feed(&self, in_frame: T, held: T) -> (fed: T)
        ensures
            call_ensures(self.feed, (in_frame, held), fed),
    {
        proof {
            use_type_invariant(self);
        }
        (self.feed)(in_frame, held)
    }

    /// The frame to give out.
    fn mix(&self, in_frame: T, delayed: T) -> (out_frame: T)
        ensures
            call_ensures(self.mix, (in_frame, delayed), out_frame),
    {
        proof {
            use_type_invariant(self);
        }
        (self.mix)(in_frame, delayed)
    }
}

/// What one tick does to the line of an echo. The delayed frame is the
/// frame held from the tick before. The frame written into the line,
/// `fed`, is what `feed` made of the incoming frame and the delayed frame;
/// the line moves on by `fed`; the outgoing frame is what `mix` made of the
/// incoming frame and the same delayed frame.
pub open spec fn echo_ticked<T, F: Fn(T, T) -> T, M: Fn(T, T) -> T>(
    line: DelayVarView<T>,
    feed: F,
    mix: M,
    in_frame: T,
    after: DelayVarView<T>,
    out_frame: T,
) -> bool {
    &&& line.valid()
    &&& exists|fed: T| #[trigger]
        call_ensures(feed, (in_frame, line.held), fed) && after == line.tick(fed)
    &&& call_ensures(mix, (in_frame, line.held), out_frame)
}

/// A run of an echo that starts with the line `line`: tick k takes
/// `inputs[k]`, writes `fed[k]` into the line and gives `outputs[k]`, each
/// tick as `echo_ticked` says, the delay staying as it is.
pub open spec fn echo_run<T, F: Fn(T, T) -> T, M: Fn(T, T) -> T>(
    line: DelayVarView<T>,
    feed: F,
    mix: M,
    inputs: Seq<T>,
    fed: Seq<T>,
    outputs: Seq<T>,
) -> bool
    decreases inputs.len(),
{
    &&& fed.len() == inputs.len()
    &&& outputs.len() == inputs.len()
    &&& inputs.len() > 0 ==> {
        &&& line.valid()
        &&& call_ensures(feed, (inputs[0], line.held), fed[0])
        &&& call_ensures(mix, (inputs[0], line.held), outputs[0])
        &&& echo_run(
            line.tick(fed[0]),
            feed,
            mix,
            inputs.drop_first(),
            fed.drop_first(),
            outputs.drop_first(),
        )
    }
}

/// The delayed frame of tick k of a run that starts with the line `line`
/// and writes `fed`: at the first tick the frame that the line held, then
/// the frame written `offset + 1` ticks before, and where the run is not
/// that long yet, the frame that the line had at that distance at the
/// start.
pub open spec fn echo_delayed<T>(line: DelayVarView<T>, fed: Seq<T>, k: int) -> T {
    if k == 0 {
        line.held
    } else if line.offset < k {
        fed[k - 1 - line.offset]
    } else {
        line.history[line.capacity() + k - 1 - line.offset]
    }
}

/// In a run of an echo, both functions get the same delayed frame at each
/// tick, which is `echo_delayed`: the frame written into the line
/// `offset + 1` ticks before.
pub proof fn lemma_echo_run<T, F: Fn(T, T) -> T, M: Fn(T, T) -> T>(
    line: DelayVarView<T>,
    feed: F,
    mix: M,
    inputs: Seq<T>,
    fed: Seq<T>,
    outputs: Seq<T>,
    k: int,
)
    requires
        echo_run(line, feed, mix, inputs, fed, outputs),
        0 <= k < inputs.len(),
    ensures
        call_ensures(feed, (inputs[k], echo_delayed(line, fed, k)), fed[k]),
        call_ensures(mix, (inputs[k], echo_delayed(line, fed, k)), outputs[k]),
    decreases inputs.len(),
{
    if k > 0 {
        let next = line.tick(fed[0]);
        let later = fed.drop_first();
        lemma_echo_run(next, feed, mix, inputs.drop_first(), later, outputs.drop_first(), k - 1);
        assert(echo_delayed(next, later, k - 1) == echo_delayed(line, fed, k)) by {
            if k - 1 > 0 && line.offset < k - 1 {
                assert(later[k - 2 - line.offset] == fed[k - 1 - line.offset]);
            }
        }
    }
}

/// An echo fresh from `new` over n frames delays by n ticks: at tick k
/// both functions get the frame written into the line at tick k - n, and
/// before tick n the frame that the line was filled with.
pub proof fn lemma_fresh_echo_delays_by_capacity<T, F: Fn(T, T) -> T, M: Fn(T, T) -> T>(
    capacity: nat,
    silence: T,
    feed: F,
    mix: M,
    inputs: Seq<T>,
    fed: Seq<T>,
    outputs: Seq<T>,
    k: int,
)
    requires
        capacity > 0,
        echo_run(
            DelayVarView::fresh(capacity, (capacity - 1) as nat, silence),
            feed,
            mix,
            inputs,
            fed,
            outputs,
        ),
        0 <= k < inputs.len(),
    ensures
        ({
            let delayed = if k < capacity {
                silence
            } else {
                fed[k - capacity]
            };
            &&& call_ensures(feed, (inputs[k], delayed), fed[k])
            &&& call_ensures(mix, (inputs[k], delayed), outputs[k])
        }),
{
    lemma_echo_run(
        DelayVarView::fresh(capacity, (capacity - 1) as nat, silence),
        feed,
        mix,
        inputs,
        fed,
        outputs,
        k,
    );
}

/// A variable delay line whose delayed frame is fed back into it and mixed
/// into the output.
#[verifier::reject_recursive_types(T)]
pub struct Echo<T, F: Fn(T, T) -> T, M: Fn(T, T) -> T> {
    delay: DelayVar<T>,
    mixer: Mixer<T, F, M>,
}

impl<T, F: Fn(T, T) -> T, M: Fn(T, T) -> T> View for Echo<T, F, M> {
    type V = DelayVarView<T>;

    /// The delay line of the echo.
    closed spec fn view(&self) -> DelayVarView<T> {
        self.delay@
    }
}

impl<T, F: Fn(T, T) -> T, M: Fn(T, T) -> T> Echo<T, F, M> {
    /// The function that makes the frame written into the line, of the
    /// incoming frame and the delayed frame.
    pub closed spec fn feed_fn(self) -> F {
        self.mixer.feed
    }

    /// The function that makes the outgoing frame, of the incoming frame
    /// and the delayed one.
    pub closed spec fn mix_fn(self) -> M {
        self.mixer.mix
    }

}

impl<T: Copy + Default, F: Fn(T, T) -> T, M: Fn(T, T) -> T> Echo<T, F, M> {
    /// An echo over a line of `capacity` frames, each holding the default
    /// frame, set to the longest delay that the line allows, `capacity - 1`:
    /// the echo delays by `capacity` ticks. A line of no frames is refused.
    /// Both functions must take every pair of frames.
    pub fn new(capacity: usize, feed: F, mix: M) -> (made: Result<Self, ConfigError>)
        requires
            forall|in_frame: T, held: T| call_requires(feed, (in_frame, held)),
            forall|in_frame: T, delayed: T| call_requires(mix, (in_frame, delayed)),
        ensures
            match made {
                Ok(echo) => {
                    &&& capacity > 0
                    &&& exists|silence: T| #[trigger]
                        is_default(silence) && echo@ == DelayVarView::fresh(
                            capacity as nat,
                            (capacity - 1) as nat,
                            silence,
                        )
                    &&& echo.feed_fn() == feed
                    &&& echo.mix_fn() == mix
                },
                Err(e) => capacity == 0 && e == ConfigError::ZeroCapacity,
            },
    {
        if capacity == 0 {
            return Err(ConfigError::ZeroCapacity);
        }
        match DelayVar::new(capacity, capacity - 1) {
            Ok(delay) => Ok(Echo { delay, mixer: Mixer { feed, mix, frame: PhantomData } }),
            Err(e) => Err(e),
        }
    }
}

impl<T: Copy, F: Fn(T, T) -> T, M: Fn(T, T) -> T> Echo<T, F, M> {
    /// The number of frames in the line: one more than the longest delay.
    pub fn capacity(&self) -> (frames: usize)
        ensures
            frames == self@.capacity(),
            self@.valid(),
    {
        self.delay.capacity()
    }

    /// Sets the delay of the line for the ticks to come. The delayed frame
    /// of the next tick is still the one that the last tick gave back; from
    /// the tick after it on, the delayed frame is `new_length + 1` ticks
    /// old. A delay that is not shorter than the line is refused, and the
    /// echo stays as it was.
    pub fn set_delay(&mut self, new_length: usize) -> (done: Result<(), ConfigError>)
        ensures
            old(self)@.valid(),
            final(self).feed_fn() == old(self).feed_fn(),
            final(self).mix_fn() == old(self).mix_fn(),
            match done {
                Ok(_) => {
                    &&& new_length < old(self)@.capacity()
                    &&& final(self)@ == old(self)@.retarget(new_length as nat)
                },
                Err(e) => {
                    &&& new_length >= old(self)@.capacity()
                    &&& e == ConfigError::OffsetOutOfRange
                    &&& final(self)@ == old(self)@
                },
            },
    {
        self.delay.set_offset_delay(new_length)
    }
}

impl<T, F: Fn(T, T) -> T, M: Fn(T, T) -> T> Echo<T, F, M> {
    /// What `echo_ticked` says of the line and the two functions, which
    /// stay the same.
    pub open spec fn stepped(self, in_frame: T, after: Self, out_frame: T) -> bool {
        &&& echo_ticked(self@, self.feed_fn(), self.mix_fn(), in_frame, after@, out_frame)
        &&& after.feed_fn() == self.feed_fn()
        &&& after.mix_fn() == self.mix_fn()
    }
}

impl<
    T: Copy + Send + Sync,
    F: Fn(T, T) -> T + Send + Sync,
    M: Fn(T, T) -> T + Send + Sync,
> AudioComponent<T> for Echo<T, F, M> {
    /// What `stepped` says.
    open spec fn ticked(&self, in_frame: T, after: &Self, out_frame: T) -> bool {
        self.stepped(in_frame, *after, out_frame)
    }

    /// Takes the delayed frame, which is the one that the line gave back
    /// at the tick before; writes into the line what `feed` makes of
    /// `in_frame` and the delayed frame; gives out what `mix` makes of
    /// `in_frame` and the delayed frame.
    fn tick(&mut self, in_frame: T) -> (out_frame: T)
        ensures
            old(self).stepped(in_frame, *final(self), out_frame),
    {
        let delayed = self.delay.read();
        let fed = self.mixer.feed(in_frame, delayed);
        let _ = self.delay.tick(fed);
        self.mixer.mix(in_frame, delayed)
    }
}

/// An echo whose mix gives back the incoming frame gives out each frame as
/// it came, whatever the line holds and whatever is fed back into it.
pub proof fn lemma_dry_echo_passes_input<
    T: Copy + Send + Sync,
    F: Fn(T, T) -> T + Send + Sync,
    M: Fn(T, T) -> T + Send + Sync,
>(before: Echo<T, F, M>, in_frame: T, after: Echo<T, F, M>, out_frame: T)
    requires
        before.stepped(in_frame, after, out_frame),
        forall|x: T, delayed: T, y: T| call_ensures(before.mix_fn(), (x, delayed), y) ==> y == x,
    ensures
        out_frame == in_frame,
        forall|x: T, delayed: T, y: T| call_ensures(after.mix_fn(), (x, delayed), y) ==> y == x,
{
}

} // verus!
