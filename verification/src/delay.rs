//! A delay line of fixed length: a circular buffer with one cursor, read
//! and written at the same slot, so that a frame comes back after exactly
//! as many ticks as the buffer has slots.
use vstd::prelude::*;
use crate::{is_default, AudioComponent};
use crate::error::ConfigError;
use crate::ring::{lemma_step_forward, ring_from};

verus! {

/// A line of `len` frames that all hold `frame`.
pub open spec fn silent_line<T>(len: nat, frame: T) -> Seq<T> {
    Seq::new(len, |i: int| frame)
}

/// What a fixed line holding `line` (oldest frame first) gives back, tick by
/// tick, while `inputs` are fed to it in order.
pub open spec fn delay_outputs<T>(line: Seq<T>, inputs: Seq<T>) -> Seq<T>
    decreases inputs.len(),
{
    if inputs.len() == 0 {
        Seq::empty()
    } else {
        seq![line[0]] + delay_outputs(line.drop_first().push(inputs[0]), inputs.drop_first())
    }
}

/// What a fixed line holding `line` holds after `inputs` were fed to it.
pub open spec fn delay_line_after<T>(line: Seq<T>, inputs: Seq<T>) -> Seq<T>
    decreases inputs.len(),
{
    if inputs.len() == 0 {
        line
    } else {
        delay_line_after(line.drop_first().push(inputs[0]), inputs.drop_first())
    }
}

/// A fixed line of n frames is a delay of n ticks: its first n outputs are
/// the frames it held, oldest first, and from then on tick k gives back the
/// input of tick k - n. What it holds afterwards is the last n frames of
/// its old content followed by the inputs.
pub proof fn lemma_delay_outputs<T>(line: Seq<T>, inputs: Seq<T>)
    requires
        line.len() > 0,
    ensures
        delay_outputs(line, inputs) == (line + inputs).subrange(0, inputs.len() as int),
        delay_line_after(line, inputs) == (line + inputs).subrange(
            inputs.len() as int,
            (inputs.len() + line.len()) as int,
        ),
    decreases inputs.len(),
{
    if inputs.len() == 0 {
        assert(delay_outputs(line, inputs) =~= (line + inputs).subrange(0, 0));
        assert(line =~= (line + inputs).subrange(0, line.len() as int));
    } else {
        let next = line.drop_first().push(inputs[0]);
        let rest = inputs.drop_first();
        lemma_delay_outputs(next, rest);
        assert(next + rest =~= (line + inputs).drop_first());
        assert(delay_outputs(line, inputs) =~= (line + inputs).subrange(0, inputs.len() as int));
        assert(delay_line_after(line, inputs) =~= (line + inputs).subrange(
            inputs.len() as int,
            (inputs.len() + line.len()) as int,
        ));
    }
}

/// A line that holds the same frame in each of its n places, as a line
/// fresh from `new` does, gives back that frame for its first n ticks, and
/// from tick n on the input of n ticks before.
pub proof fn lemma_fresh_delay_outputs<T>(len: nat, silence: T, inputs: Seq<T>, k: int)
    requires
        len > 0,
        0 <= k < inputs.len(),
    ensures
        delay_outputs(silent_line(len, silence), inputs).len() == inputs.len(),
        delay_outputs(silent_line(len, silence), inputs)[k] == if k < len {
            silence
        } else {
            inputs[k - len]
        },
{
    lemma_delay_outputs(silent_line(len, silence), inputs);
}

/// A circular buffer with one cursor. The slot under the cursor holds the
/// oldest frame; `tick` hands it out and puts the new frame in its place.
#[derive(Debug)]
pub struct Delay<T> {
    buffer_delay: Vec<T>,
    index: usize,
    nframes_delay: usize,
}

impl<T> Delay<T> {
    /// The buffer has the length it was made with, which is not zero, and
    /// the cursor points into it.
    #[verifier::type_invariant]
    spec fn well_formed(self) -> bool {
        &&& self.nframes_delay == self.buffer_delay@.len()
        &&& self.index < self.nframes_delay
    }
}

impl<T> Delay<T> {
    /// The slots of the buffer, in the order in which they lie.
    pub closed spec fn slots(&self) -> Seq<T> {
        self.buffer_delay@
    }

    /// The place of the slot under the cursor.
    pub closed spec fn cursor(&self) -> nat {
        self.index as nat
    }
}

impl<T> View for Delay<T> {
    type V = Seq<T>;

    /// The frames in the line, oldest first: the slots read once round
    /// from the cursor.
    open spec fn view(&self) -> Seq<T> {
        ring_from(self.slots(), self.cursor() as int)
    }
}

impl<T: Copy + Default> Delay<T> {
    /// A line of `nframes_delay` frames, each holding the default frame,
    /// which for a number is zero. A line of no frames is refused.
    pub fn new(nframes_delay: usize) -> (made: Result<Self, ConfigError>)
        ensures
            match made {
                Ok(line) => {
                    &&& nframes_delay > 0
                    &&& line.cursor() == 0
                    &&& exists|silence: T| #[trigger]
                        is_default(silence) && line.slots() == silent_line(
                            nframes_delay as nat,
                            silence,
                        ) && line@ == silent_line(nframes_delay as nat, silence)
                },
                Err(e) => nframes_delay == 0 && e == ConfigError::ZeroCapacity,
            },
    {
        if nframes_delay == 0 {
            return Err(ConfigError::ZeroCapacity);
        }
        let silence = T::default();
        let mut buffer_delay: Vec<T> = Vec::with_capacity(nframes_delay);
        let mut filled: usize = 0;
        while filled < nframes_delay
            invariant
                filled <= nframes_delay,
                buffer_delay@ == silent_line(filled as nat, silence),
            decreases nframes_delay - filled,
        {
            buffer_delay.push(silence);
            filled = filled + 1;
            assert(buffer_delay@ =~= silent_line(filled as nat, silence));
        }
        let line = Delay { buffer_delay, index: 0, nframes_delay };
        assert(line@ =~= line.slots());
        assert(is_default(silence));
        Ok(line)
    }
}

impl<T: Copy> Delay<T> {
    /// The oldest frame in the line: the one that the next `tick` gives
    /// back. Nothing changes.
    pub fn read(&self) -> (frame: T)
        ensures
            self.cursor() < self.slots().len(),
            frame == self.slots()[self.cursor() as int],
            frame == self@[0],
    {
        proof {
            use_type_invariant(self);
        }
        self.buffer_delay[self.index]
    }
}

impl<T> Delay<T> {
    /// The frame under the cursor goes out, the incoming frame takes its
    /// slot and no other slot changes, and the cursor moves on by one slot,
    /// from the last slot to the first. Seen by age: the oldest frame goes
    /// out and the incoming frame is the newest.
    pub open spec fn stepped(self, in_frame: T, after: Self, out_frame: T) -> bool {
        &&& self.cursor() < self.slots().len()
        &&& out_frame == self.slots()[self.cursor() as int]
        &&& after.slots() == self.slots().update(self.cursor() as int, in_frame)
        &&& after.cursor() == (self.cursor() + 1) % self.slots().len()
        &&& after.cursor() == if self.cursor() + 1 == self.slots().len() {
            0
        } else {
            self.cursor() + 1
        }
        &&& after.cursor() < after.slots().len()
        &&& out_frame == self@[0]
        &&& after@ == self@.drop_first().push(in_frame)
    }
}

impl<T: Copy + Send + Sync> AudioComponent<T> for Delay<T> {
    /// What `stepped` says.
    open spec fn ticked(&self, in_frame: T, after: &Self, out_frame: T) -> bool {
        self.stepped(in_frame, *after, out_frame)
    }

    /// Gives back the oldest frame and takes `in_frame` in as the newest.
    fn tick(&mut self, in_frame: T) -> (out_frame: T)
        ensures
            old(self).stepped(in_frame, *final(self), out_frame),
    {
        proof {
            use_type_invariant(&*self);
        }
        let out_frame = self.buffer_delay[self.index];
        self.buffer_delay[self.index] = in_frame;
        self.index = (self.index + 1) % self.nframes_delay;
        proof {
            let n = self.nframes_delay as int;
            let at = old(self).index as int;
            assert(self.buffer_delay@ == old(self).buffer_delay@.update(at, in_frame));
            lemma_step_forward(at, n);
            assert(self@ =~= old(self)@.drop_first().push(in_frame));
        }
        out_frame
    }
}

} // verus!
