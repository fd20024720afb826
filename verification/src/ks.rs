//! A plucked string after Karplus and Strong: a buffer whose last output
//! is added to what comes in, filtered, and fed back, with a burst of
//! excitation at the tick that follows a trigger.
//!
//! The string does no arithmetic on frames itself. It is made with the
//! function of its filter and two functions of its own: `excite`, which
//! makes the filter's input, and `sustain`, which makes the output.
use vstd::prelude::*;
use core::marker::PhantomData;
use crate::{is_default, AudioComponent};
use crate::delay_var::{DelayVar, DelayVarView};
use crate::error::ConfigError;
use crate::one_zero::OneZero;

verus! {

/// The two functions of a string, each of which takes every argument.
/// That they do is part of the type, so that `tick` asks nothing of its
/// caller.
#[verifier::reject_recursive_types(T)]
struct Voice<T, X: Fn(T, bool, T) -> T, Y: Fn(T, T) -> T> {
    excite: X,
    sustain: Y,
    frame: PhantomData<T>,
}

impl<T, X: Fn(T, bool, T) -> T, Y: Fn(T, T) -> T> Voice<T, X, Y> {
    #[verifier::type_invariant]
    spec fn total(self) -> bool {
        &&& forall|in_frame: T, triggered: bool, last: T|
            call_requires(self.excite, (in_frame, triggered, last))
        &&& forall|filtered: T, last: T| call_requires(self.sustain, (filtered, last))
    }

    /// The frame to hand to the filter.
    fn excite(&self, in_frame: T, triggered: bool, last: T) -> (input: T)
        ensures
            call_ensures(self.excite, (in_frame, triggered, last), input),
    {
        proof {
            use_type_invariant(self);
        }
        (self.excite)(in_frame, triggered, last)
    }

    /// The frame to give out.
    fn sustain(&self, filtered: T, last: T) -> (out_frame: T)
        ensures
            call_ensures(self.sustain, (filtered, last), out_frame),
    {
        proof {
            use_type_invariant(self);
        }
        (self.sustain)(filtered, last)
    }
}

/// What a string is, seen from outside.
pub struct KSView<T> {
    /// The buffer. The frame that it holds is the last output.
    pub line: DelayVarView<T>,
    /// Whether the next tick is excited.
    pub triggered: bool,
    /// The frame that the filter remembers: its last input.
    pub filter_input: T,
}

/// A string that sounds when it is triggered.
#[verifier::reject_recursive_types(T)]
pub struct KS<T, B: Fn(T, T) -> T, X: Fn(T, bool, T) -> T, Y: Fn(T, T) -> T> {
    delay_buffer: DelayVar<T>,
    is_triggered: bool,
    one_zero: OneZero<T, B>,
    voice: Voice<T, X, Y>,
}

impl<T, B: Fn(T, T) -> T, X: Fn(T, bool, T) -> T, Y: Fn(T, T) -> T> View for KS<T, B, X, Y> {
    type V = KSView<T>;

    closed spec fn view(&self) -> KSView<T> {
        KSView {
            line: self.delay_buffer@,
            triggered: self.is_triggered,
            filter_input: self.one_zero@,
        }
    }
}

impl<T, B: Fn(T, T) -> T, X: Fn(T, bool, T) -> T, Y: Fn(T, T) -> T> KS<T, B, X, Y> {
    /// The function of the filter, which makes the filter's output of its
    /// input and the input before it.
    pub closed spec fn blend_fn(self) -> B {
        self.one_zero.blend_fn()
    }

    /// The function that makes the filter's input, of the incoming frame,
    /// whether the tick is excited, and the last output.
    pub closed spec fn excite_fn(self) -> X {
        self.voice.excite
    }

    /// The function that makes the output, of the filter's output and the
    /// last output.
    pub closed spec fn sustain_fn(self) -> Y {
        self.voice.sustain
    }

    /// `after` has the three functions of `self`.
    pub open spec fn same_voice(self, after: Self) -> bool {
        &&& after.blend_fn() == self.blend_fn()
        &&& after.excite_fn() == self.excite_fn()
        &&& after.sustain_fn() == self.sustain_fn()
    }

}

impl<
    T: Copy + Default,
    B: Fn(T, T) -> T,
    X: Fn(T, bool, T) -> T,
    Y: Fn(T, T) -> T,
> KS<T, B, X, Y> {
    /// A string over a buffer of `delay_length` frames, each holding the
    /// default frame, at rest, with a filter that remembers the default
    /// frame. A buffer of no frames is refused. The three functions must
    /// take every argument.
    pub fn new(delay_length: usize, blend: B, excite: X, sustain: Y) -> (made: Result<
        Self,
        ConfigError,
    >)
        requires
            forall|input: T, previous: T| call_requires(blend, (input, previous)),
            forall|in_frame: T, triggered: bool, last: T|
                call_requires(excite, (in_frame, triggered, last)),
            forall|filtered: T, last: T| call_requires(sustain, (filtered, last)),
        ensures
            match made {
                Ok(string) => {
                    &&& delay_length > 0
                    &&& exists|silence: T| #[trigger]
                        is_default(silence) && string@.line == DelayVarView::fresh(
                            delay_length as nat,
                            0,
                            silence,
                        )
                    &&& exists|silence: T| #[trigger]
                        is_default(silence) && string@.filter_input == silence
                    &&& !string@.triggered
                    &&& string.blend_fn() == blend
                    &&& string.excite_fn() == excite
                    &&& string.sustain_fn() == sustain
                },
                Err(e) => delay_length == 0 && e == ConfigError::ZeroCapacity,
            },
    {
        match DelayVar::new(delay_length, 0) {
            Ok(delay_buffer) => Ok(
                KS {
                    delay_buffer,
                    is_triggered: false,
                    one_zero: OneZero::new(blend),
                    voice: Voice { excite, sustain, frame: PhantomData },
                },
            ),
            Err(e) => Err(e),
        }
    }
}

impl<T: Copy, B: Fn(T, T) -> T, X: Fn(T, bool, T) -> T, Y: Fn(T, T) -> T> KS<T, B, X, Y> {
    /// Excites the next tick. Nothing else changes.
    pub fn trigger(&mut self)
        ensures
            final(self)@ == (KSView { triggered: true, ..old(self)@ }),
            old(self).same_voice(*final(self)),
    {
        self.is_triggered = true;
    }
}

impl<T, B: Fn(T, T) -> T, X: Fn(T, bool, T) -> T, Y: Fn(T, T) -> T> KS<T, B, X, Y> {
    /// What one tick does, for some frames `input` and `filtered`: `input`
    /// is what `excite` made of the incoming frame, of whether the string
    /// was triggered, and of the last output; `filtered` is what the
    /// filter made of `input` and of its input before; the outgoing frame
    /// is what `sustain` made of `filtered` and the last output. The
    /// outgoing frame is written into the buffer, the filter remembers
    /// `input`, and the string is no longer triggered.
    pub open spec fn stepped(self, in_frame: T, after: Self, out_frame: T) -> bool {
        &&& self@.line.valid()
        &&& exists|input: T, filtered: T|
            {
                &&& #[trigger] call_ensures(
                    self.excite_fn(),
                    (in_frame, self@.triggered, self@.line.held),
                    input,
                )
                &&& call_ensures(self.blend_fn(), (input, self@.filter_input), filtered)
                &&& #[trigger] call_ensures(
                    self.sustain_fn(),
                    (filtered, self@.line.held),
                    out_frame,
                )
                &&& after@.filter_input == input
            }
        &&& after@.line == self@.line.tick(out_frame)
        &&& !after@.triggered
        &&& self.same_voice(after)
    }
}

impl<
    T: Copy + Send + Sync,
    B: Fn(T, T) -> T + Send + Sync,
    X: Fn(T, bool, T) -> T + Send + Sync,
    Y: Fn(T, T) -> T + Send + Sync,
> AudioComponent<T> for KS<T, B, X, Y> {
    /// What `stepped` says.
    open spec fn ticked(&self, in_frame: T, after: &Self, out_frame: T) -> bool {
        self.stepped(in_frame, *after, out_frame)
    }

    /// Hands to the filter what `excite` makes of `in_frame`, of whether
    /// the string was triggered since the last tick, and of the last
    /// output; gives out, and keeps as the last output, what `sustain`
    /// makes of the filter's output and the last output.
    fn tick(&mut self, in_frame: T) -> (out_frame: T)
        ensures
            old(self).stepped(in_frame, *final(self), out_frame),
    {
        let triggered = self.is_triggered;
        self.is_triggered = false;
        let last = self.delay_buffer.read();
        let input = self.voice.excite(in_frame, triggered, last);
        let filtered = self.one_zero.tick(input);
        let out_frame = self.voice.sustain(filtered, last);
        let _ = self.delay_buffer.tick(out_frame);
        assert(call_ensures(
            old(self).excite_fn(),
            (in_frame, old(self)@.triggered, old(self)@.line.held),
            input,
        ));
        assert(call_ensures(old(self).sustain_fn(), (filtered, old(self)@.line.held), out_frame));
        out_frame
    }
}

} // verus!
