//! A modulated delay: an echo whose delay is set anew at every tick from
//! the output of an oscillator.
//!
//! The oscillator is any component. What its output means for the delay is
//! the caller's: the effect is made with a function `length` from the
//! oscillator's frame and the base delay to the delay asked for, and a
//! function `gain` applied to the echo's output. The effect keeps the delay
//! within what the line can give, whatever `length` asks for.
//!
//! The line has as many frames as the base delay, so that the effect, left
//! alone, delays by the base delay, as its echo does. The delay set at a
//! tick is the delay at which the line is read at that tick, and what the
//! line reads then is the delayed frame of the tick after it.
use vstd::prelude::*;
use core::marker::PhantomData;
use crate::{is_default, AudioComponent};
use crate::delay_var::DelayVarView;
use crate::echo::{echo_ticked, Echo};
use crate::error::ConfigError;

verus! {

/// The delay nearest to `requested` that a line of `capacity` frames can
/// give: `requested` itself if it is shorter than the line, else one less
/// than the line's length.
pub open spec fn clamped_delay(requested: nat, capacity: nat) -> nat {
    if requested < capacity {
        requested
    } else if capacity == 0 {
        0
    } else {
        (capacity - 1) as nat
    }
}

/// The delay nearest to `requested` that a line of `capacity` frames can
/// give.
pub fn clamp_delay(requested: usize, capacity: usize) -> (new_length: usize)
    ensures
        new_length == clamped_delay(requested as nat, capacity as nat),
        capacity > 0 ==> new_length < capacity,
        new_length <= requested,
{
    if requested < capacity {
        requested
    } else if capacity == 0 {
        0
    } else {
        capacity - 1
    }
}

/// The two functions of a modulated delay, each of which takes every
/// argument. That they do is part of the type, so that `tick` asks nothing
/// of its caller.
#[verifier::reject_recursive_types(T)]
struct Modulation<T, L: Fn(T, usize) -> usize, G: Fn(T) -> T> {
    length: L,
    gain: G,
    frame: PhantomData<T>,
}

impl<T, L: Fn(T, usize) -> usize, G: Fn(T) -> T> Modulation<T, L, G> {
    #[verifier::type_invariant]
    spec fn total(self) -> bool {
        &&& forall|lfo: T, base: usize| call_requires(self.length, (lfo, base))
        &&& forall|echoed: T| call_requires(self.gain, (echoed,))
    }

    /// The delay asked for.
    fn length(&self, lfo: T, base: usize) -> (requested: usize)
        ensures
            call_ensures(self.length, (lfo, base), requested),
    {
        proof {
            use_type_invariant(self);
        }
        (self.length)(lfo, base)
    }

    /// The frame to give out.
    fn gain(&self, echoed: T) -> (out_frame: T)
        ensures
            call_ensures(self.gain, (echoed,), out_frame),
    {
        proof {
            use_type_invariant(self);
        }
        (self.gain)(echoed)
    }
}

/// An oscillator, an echo, and the delay round which the oscillator moves
/// the echo's delay.
#[verifier::reject_recursive_types(T)]
pub struct Flanger<
    T,
    O,
    L: Fn(T, usize) -> usize,
    G: Fn(T) -> T,
    F: Fn(T, T) -> T,
    M: Fn(T, T) -> T,
> {
    oscillator: O,
    echo: Echo<T, F, M>,
    nframes_delay: usize,
    modulation: Modulation<T, L, G>,
}

impl<
    T: Copy,
    O: AudioComponent<T>,
    L: Fn(T, usize) -> usize,
    G: Fn(T) -> T,
    F: Fn(T, T) -> T,
    M: Fn(T, T) -> T,
> Flanger<T, O, L, G, F, M> {
    /// The oscillator.
    pub closed spec fn oscillator(self) -> O {
        self.oscillator
    }

    /// The echo.
    pub closed spec fn echo(self) -> Echo<T, F, M> {
        self.echo
    }

    /// The base delay, in frames.
    pub closed spec fn base_delay(self) -> usize {
        self.nframes_delay
    }

    /// The function from the oscillator's frame and the base delay to the
    /// delay asked for.
    pub closed spec fn length_fn(self) -> L {
        self.modulation.length
    }

    /// The function applied to the echo's output.
    pub closed spec fn gain_fn(self) -> G {
        self.modulation.gain
    }

    /// `after` has the base delay and the four functions of `self`.
    pub open spec fn same_setup(self, after: Self) -> bool {
        &&& after.base_delay() == self.base_delay()
        &&& after.length_fn() == self.length_fn()
        &&& after.gain_fn() == self.gain_fn()
        &&& after.echo().feed_fn() == self.echo().feed_fn()
        &&& after.echo().mix_fn() == self.echo().mix_fn()
    }

    /// What `retarget` does when the oscillator gave `lfo`: the delay of
    /// the echo's line becomes `new_length`, which is what `length` asked
    /// for, brought within the line. Nothing else changes.
    pub open spec fn retargeted(self, lfo: T, after: Self, new_length: usize) -> bool {
        &&& self.echo()@.valid()
        &&& exists|requested: usize|
            {
                &&& #[trigger] call_ensures(self.length_fn(), (lfo, self.base_delay()), requested)
                &&& new_length == clamped_delay(requested as nat, self.echo()@.capacity())
            }
        &&& after.echo()@ == self.echo()@.retarget(new_length as nat)
        &&& after.oscillator() == self.oscillator()
        &&& self.same_setup(after)
    }

    /// Sets the delay of the echo's line to what `length` asks for when the
    /// oscillator gave `lfo`, brought within what the line can give, and
    /// says what delay that is.
    pub fn retarget(&mut self, lfo: T) -> (new_length: usize)
        ensures
            old(self).retargeted(lfo, *final(self), new_length),
    {
        let requested = self.modulation.length(lfo, self.nframes_delay);
        let new_length = clamp_delay(requested, self.echo.capacity());
        let done = self.echo.set_delay(new_length);
        assert(done is Ok);
        assert(call_ensures(old(self).length_fn(), (lfo, old(self).base_delay()), requested));
        new_length
    }
}

impl<
    T: Copy + Default,
    O: AudioComponent<T>,
    L: Fn(T, usize) -> usize,
    G: Fn(T) -> T,
    F: Fn(T, T) -> T,
    M: Fn(T, T) -> T,
> Flanger<T, O, L, G, F, M> {
    /// A modulated delay round `nframes_delay` frames, over a line of as
    /// many frames, each holding the default frame, at its longest delay:
    /// the echo delays by `nframes_delay` ticks. A base delay of no frames
    /// is refused. The four functions must take every argument.
    pub fn new(oscillator: O, nframes_delay: usize, length: L, gain: G, feed: F, mix: M) -> (made:
        Result<Self, ConfigError>)
        requires
            forall|lfo: T, base: usize| call_requires(length, (lfo, base)),
            forall|echoed: T| call_requires(gain, (echoed,)),
            forall|in_frame: T, held: T| call_requires(feed, (in_frame, held)),
            forall|in_frame: T, delayed: T| call_requires(mix, (in_frame, delayed)),
        ensures
            match made {
                Ok(effect) => {
                    &&& nframes_delay > 0
                    &&& effect.oscillator() == oscillator
                    &&& effect.base_delay() == nframes_delay
                    &&& effect.length_fn() == length
                    &&& effect.gain_fn() == gain
                    &&& effect.echo().feed_fn() == feed
                    &&& effect.echo().mix_fn() == mix
                    &&& exists|silence: T| #[trigger]
                        is_default(silence) && effect.echo()@ == DelayVarView::fresh(
                            nframes_delay as nat,
                            (nframes_delay - 1) as nat,
                            silence,
                        )
                },
                Err(e) => nframes_delay == 0 && e == ConfigError::ZeroCapacity,
            },
    {
        match Echo::new(nframes_delay, feed, mix) {
            Ok(echo) => Ok(
                Flanger {
                    oscillator,
                    echo,
                    nframes_delay,
                    modulation: Modulation { length, gain, frame: PhantomData },
                },
            ),
            Err(e) => Err(e),
        }
    }
}

impl<
    T: Copy,
    O: AudioComponent<T>,
    L: Fn(T, usize) -> usize,
    G: Fn(T) -> T,
    F: Fn(T, T) -> T,
    M: Fn(T, T) -> T,
> Flanger<T, O, L, G, F, M> {
    /// The oscillator makes its tick with the incoming frame and gives
    /// `lfo`. The delay of the line is set as `retarget` sets it for `lfo`:
    /// to what `length` asked for, brought within the line. The echo then
    /// makes its tick with the incoming frame, and the outgoing frame is
    /// what `gain` made of the echo's output.
    pub open spec fn stepped(self, in_frame: T, after: Self, out_frame: T) -> bool {
        let new_length = after.echo()@.offset;
        &&& self.echo()@.valid()
        &&& self.same_setup(after)
        &&& exists|lfo: T, requested: usize|
            {
                &&& #[trigger] self.oscillator().ticked(in_frame, &after.oscillator(), lfo)
                &&& #[trigger] call_ensures(self.length_fn(), (lfo, self.base_delay()), requested)
                &&& new_length == clamped_delay(requested as nat, self.echo()@.capacity())
            }
        &&& exists|echoed: T|
            {
                &&& echo_ticked(
                    self.echo()@.retarget(new_length),
                    self.echo().feed_fn(),
                    self.echo().mix_fn(),
                    in_frame,
                    after.echo()@,
                    echoed,
                )
                &&& #[trigger] call_ensures(self.gain_fn(), (echoed,), out_frame)
            }
    }
}

impl<
    T: Copy + Send + Sync,
    O: AudioComponent<T>,
    L: Fn(T, usize) -> usize + Send + Sync,
    G: Fn(T) -> T + Send + Sync,
    F: Fn(T, T) -> T + Send + Sync,
    M: Fn(T, T) -> T + Send + Sync,
> AudioComponent<T> for Flanger<T, O, L, G, F, M> {
    /// What `stepped` says.
    open spec fn ticked(&self, in_frame: T, after: &Self, out_frame: T) -> bool {
        self.stepped(in_frame, *after, out_frame)
    }

    /// Ticks the oscillator with `in_frame`, sets the delay from what it
    /// gave, ticks the echo with `in_frame`, and gives out what `gain`
    /// makes of the echo's output.
    fn tick(&mut self, in_frame: T) -> (out_frame: T)
        ensures
            old(self).stepped(in_frame, *final(self), out_frame),
    {
        let lfo = self.oscillator.tick(in_frame);
        let new_length = self.retarget(lfo);
        let echoed = self.echo.tick(in_frame);
        let out_frame = self.modulation.gain(echoed);
        proof {
            let requested = choose|requested: usize|
                {
                    &&& #[trigger] call_ensures(
                        old(self).length_fn(),
                        (lfo, old(self).base_delay()),
                        requested,
                    )
                    &&& new_length == clamped_delay(
                        requested as nat,
                        old(self).echo()@.capacity(),
                    )
                };
            assert(old(self).oscillator().ticked(in_frame, &self.oscillator(), lfo));
            assert(call_ensures(old(self).length_fn(), (lfo, old(self).base_delay()), requested));
            assert(self.echo()@.offset == new_length);
            assert(call_ensures(old(self).gain_fn(), (echoed,), out_frame));
        }
        out_frame
    }
}

/// Where `length` always asks for the base delay, every tick leaves the
/// line at its longest delay, whatever the oscillator gives: the effect
/// goes on delaying by the base delay, and is its echo followed by `gain`.
pub proof fn lemma_unmodulated_delay_is_base<
    T: Copy + Send + Sync,
    O: AudioComponent<T>,
    L: Fn(T, usize) -> usize + Send + Sync,
    G: Fn(T) -> T + Send + Sync,
    F: Fn(T, T) -> T + Send + Sync,
    M: Fn(T, T) -> T + Send + Sync,
>(before: Flanger<T, O, L, G, F, M>, in_frame: T, after: Flanger<T, O, L, G, F, M>, out_frame: T)
    requires
        before.stepped(in_frame, after, out_frame),
        before.base_delay() == before.echo()@.capacity(),
        before.echo()@.offset + 1 == before.base_delay(),
        forall|lfo: T, requested: usize|
            call_ensures(before.length_fn(), (lfo, before.base_delay()), requested) ==> requested
                == before.base_delay(),
    ensures
        after.echo()@.offset + 1 == before.base_delay(),
        after.echo()@.capacity() == before.echo()@.capacity(),
        before.same_setup(after),
        exists|echoed: T|
            {
                &&& echo_ticked(
                    before.echo()@,
                    before.echo().feed_fn(),
                    before.echo().mix_fn(),
                    in_frame,
                    after.echo()@,
                    echoed,
                )
                &&& #[trigger] call_ensures(before.gain_fn(), (echoed,), out_frame)
            },
{
    assert(before.echo()@.retarget(after.echo()@.offset) == before.echo()@);
}

} // verus!
