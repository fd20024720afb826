//! A delay line whose delay can be changed while it runs: a circular buffer
//! with a write cursor, and a read cursor that is worked out anew at every
//! tick from the write cursor and the delay asked for. Changing the delay
//! moves no frame.
use vstd::prelude::*;
use crate::{is_default, AudioComponent};
use crate::delay::silent_line;
use crate::error::ConfigError;
use crate::ring::{lemma_step_back, lemma_step_forward, ring_from};

verus! {

/// What a variable line is, seen from outside.
pub struct DelayVarView<T> {
    /// The frames in the buffer, in the order in which they were written:
    /// the last one is the newest.
    pub history: Seq<T>,
    /// The delay in force, in frames.
    pub offset: nat,
    /// The frame that `read` gives: the one the last tick gave back, or,
    /// before the first tick, the frame that the line was filled with.
    pub held: T,
}

impl<T> DelayVarView<T> {
    /// A line of `capacity` frames that all hold `silence`, which has
    /// given nothing back yet, with a delay of `offset`.
    pub open spec fn fresh(capacity: nat, offset: nat, silence: T) -> Self {
        DelayVarView { history: silent_line(capacity, silence), offset: offset, held: silence }
    }

    /// The number of frames the buffer holds.
    pub open spec fn capacity(self) -> nat {
        self.history.len()
    }

    /// The delay is shorter than the buffer.
    pub open spec fn valid(self) -> bool {
        self.offset < self.history.len()
    }

    /// The buffer once `frame` has taken the place of the oldest frame.
    pub open spec fn written(self, frame: T) -> Seq<T> {
        self.history.drop_first().push(frame)
    }

    /// What a tick with `frame` gives back: the frame written `offset`
    /// ticks before this one, and `frame` itself when the delay is zero.
    pub open spec fn output(self, frame: T) -> T {
        self.written(frame)[self.history.len() - 1 - self.offset]
    }

    /// The line after a tick with `frame`.
    pub open spec fn tick(self, frame: T) -> Self {
        DelayVarView { history: self.written(frame), offset: self.offset, held: self.output(frame) }
    }

    /// The line with another delay. The frames stay where they are.
    pub open spec fn retarget(self, offset: nat) -> Self {
        DelayVarView { history: self.history, offset: offset, held: self.held }
    }
}

/// What a variable line gives back, tick by tick, while tick k is made with
/// `inputs[k]` after the delay was set to `offsets[k]`.
pub open spec fn delay_var_outputs<T>(
    line: DelayVarView<T>,
    offsets: Seq<nat>,
    inputs: Seq<T>,
) -> Seq<T>
    decreases inputs.len(),
{
    if inputs.len() == 0 {
        Seq::empty()
    } else {
        let set = line.retarget(offsets[0]);
        seq![set.output(inputs[0])] + delay_var_outputs(
            set.tick(inputs[0]),
            offsets.drop_first(),
            inputs.drop_first(),
        )
    }
}

/// A delay takes effect at the very next tick, whatever was set before:
/// tick k gives back the input of `offsets[k]` ticks earlier, and where
/// the line has not run that long, the frame that it held at the start at
/// that distance from the newest.
pub proof fn lemma_delay_var_outputs<T>(
    line: DelayVarView<T>,
    offsets: Seq<nat>,
    inputs: Seq<T>,
    k: int,
)
    requires
        offsets.len() == inputs.len(),
        forall|i: int| 0 <= i < offsets.len() ==> offsets[i] < line.capacity(),
        0 <= k < inputs.len(),
    ensures
        delay_var_outputs(line, offsets, inputs).len() == inputs.len(),
        delay_var_outputs(line, offsets, inputs)[k] == if offsets[k] <= k {
            inputs[k - offsets[k]]
        } else {
            line.history[line.capacity() + k - offsets[k]]
        },
    decreases inputs.len(),
{
    let set = line.retarget(offsets[0]);
    let next = set.tick(inputs[0]);
    let later_offsets = offsets.drop_first();
    let later_inputs = inputs.drop_first();
    lemma_delay_var_outputs_len(next, later_offsets, later_inputs);
    if k > 0 {
        assert forall|i: int| 0 <= i < later_offsets.len() implies later_offsets[i]
            < next.capacity() by {
            assert(later_offsets[i] == offsets[i + 1]);
        }
        lemma_delay_var_outputs(next, later_offsets, later_inputs, k - 1);
        assert(later_offsets[k - 1] == offsets[k]);
    }
}

/// A line gives back one frame for each frame that it is fed.
pub proof fn lemma_delay_var_outputs_len<T>(
    line: DelayVarView<T>,
    offsets: Seq<nat>,
    inputs: Seq<T>,
)
    ensures
        delay_var_outputs(line, offsets, inputs).len() == inputs.len(),
    decreases inputs.len(),
{
    if inputs.len() > 0 {
        let set = line.retarget(offsets[0]);
        lemma_delay_var_outputs_len(
            set.tick(inputs[0]),
            offsets.drop_first(),
            inputs.drop_first(),
        );
    }
}

/// With a delay of zero a line gives back each frame in the tick that
/// brings it.
pub proof fn lemma_zero_delay_passes_input<T>(line: DelayVarView<T>, frame: T)
    requires
        line.valid(),
        line.offset == 0,
    ensures
        line.output(frame) == frame,
        line.tick(frame).held == frame,
{
}

/// With one delay kept throughout, tick k gives back the input of tick
/// k - offset as soon as the line has run `offset` ticks, and before that
/// what it held at the start.
pub proof fn lemma_constant_delay_outputs<T>(
    line: DelayVarView<T>,
    offset: nat,
    inputs: Seq<T>,
    k: int,
)
    requires
        offset < line.capacity(),
        0 <= k < inputs.len(),
    ensures
        delay_var_outputs(line, Seq::new(inputs.len(), |i: int| offset), inputs)[k] == if offset
            <= k {
            inputs[k - offset]
        } else {
            line.history[line.capacity() + k - offset]
        },
{
    lemma_delay_var_outputs(line, Seq::new(inputs.len(), |i: int| offset), inputs, k);
}

/// A circular buffer with a write cursor and a delay. Each tick writes
/// under the write cursor, reads `offset_delay` slots behind it, and moves
/// the write cursor on by one.
#[derive(Debug)]
pub struct DelayVar<T> {
    buffer_delay: Vec<T>,
    index_write: usize,
    index_read: usize,
    buffer_size: usize,
    offset_delay: usize,
}

impl<T> DelayVar<T> {
    /// The buffer has the length it was made with, which is not zero; both
    /// cursors point into it, and the delay is shorter than it.
    #[verifier::type_invariant]
    spec fn well_formed(self) -> bool {
        &&& self.buffer_size == self.buffer_delay@.len()
        &&& self.index_write < self.buffer_size
        &&& self.index_read < self.buffer_size
        &&& self.offset_delay < self.buffer_size
    }
}

impl<T> DelayVar<T> {
    /// The slots of the buffer, in the order in which they lie.
    pub closed spec fn slots(&self) -> Seq<T> {
        self.buffer_delay@
    }

    /// The place of the slot that the next tick writes.
    pub closed spec fn write_cursor(&self) -> nat {
        self.index_write as nat
    }

    /// The place of the slot that the last tick read.
    pub closed spec fn read_cursor(&self) -> nat {
        self.index_read as nat
    }

    /// The delay in force, in frames.
    pub closed spec fn offset(&self) -> nat {
        self.offset_delay as nat
    }

    /// Both cursors point into the buffer, and the delay is shorter than
    /// it.
    pub open spec fn in_range(&self) -> bool {
        &&& self.write_cursor() < self.slots().len()
        &&& self.read_cursor() < self.slots().len()
        &&& self.offset() < self.slots().len()
    }
}

impl<T> View for DelayVar<T> {
    type V = DelayVarView<T>;

    /// The slots read once round from the write cursor, which is the order
    /// in which they were written; the delay; and the frame in the slot
    /// that the last tick read.
    open spec fn view(&self) -> DelayVarView<T> {
        DelayVarView {
            history: ring_from(self.slots(), self.write_cursor() as int),
            offset: self.offset(),
            held: self.slots()[self.read_cursor() as int],
        }
    }
}

impl<T: Copy + Default> DelayVar<T> {
    /// A line of `buffer_size` frames, each holding the default frame,
    /// which for a number is zero, with a delay of `offset_delay` frames. A
    /// line of no frames is refused, and so is a delay that is not shorter
    /// than the line.
    pub fn new(buffer_size: usize, offset_delay: usize) -> (made: Result<Self, ConfigError>)
        ensures
            match made {
                Ok(line) => {
                    &&& offset_delay < buffer_size
                    &&& line.write_cursor() == 0
                    &&& line.read_cursor() == 0
                    &&& line.offset() == offset_delay
                    &&& exists|silence: T| #[trigger]
                        is_default(silence) && line.slots() == silent_line(
                            buffer_size as nat,
                            silence,
                        ) && line@ == DelayVarView::fresh(
                            buffer_size as nat,
                            offset_delay as nat,
                            silence,
                        )
                },
                Err(e) => {
                    &&& offset_delay >= buffer_size
                    &&& e == if buffer_size == 0 {
                        ConfigError::ZeroCapacity
                    } else {
                        ConfigError::OffsetOutOfRange
                    }
                },
            },
    {
        if buffer_size == 0 {
            return Err(ConfigError::ZeroCapacity);
        }
        if offset_delay >= buffer_size {
            return Err(ConfigError::OffsetOutOfRange);
        }
        let silence = T::default();
        let mut buffer_delay: Vec<T> = Vec::with_capacity(buffer_size);
        let mut filled: usize = 0;
        while filled < buffer_size
            invariant
                filled <= buffer_size,
                buffer_delay@ == silent_line(filled as nat, silence),
            decreases buffer_size - filled,
        {
            buffer_delay.push(silence);
            filled = filled + 1;
            assert(buffer_delay@ =~= silent_line(filled as nat, silence));
        }
        let line = DelayVar { buffer_delay, index_write: 0, index_read: 0, buffer_size, offset_delay };
        assert(line@.history =~= line.slots());
        assert(is_default(silence));
        Ok(line)
    }
}

impl<T: Copy> DelayVar<T> {
    /// The number of frames in the line: one more than the longest delay.
    pub fn capacity(&self) -> (frames: usize)
        ensures
            frames == self.slots().len(),
            frames == self@.capacity(),
            self.in_range(),
            self@.valid(),
    {
        proof {
            use_type_invariant(self);
        }
        self.buffer_size
    }

    /// The frame under the read cursor as the last tick left it. Nothing
    /// changes.
    pub fn read(&self) -> (frame: T)
        ensures
            self.in_range(),
            frame == self.slots()[self.read_cursor() as int],
            frame == self@.held,
    {
        proof {
            use_type_invariant(self);
        }
        self.buffer_delay[self.index_read]
    }

    /// Sets the delay for the ticks to come. No frame and no cursor moves.
    /// A delay that is not shorter than the line is refused, and the line
    /// stays as it was.
    pub fn set_offset_delay(&mut self, offset_delay: usize) -> (done: Result<(), ConfigError>)
        ensures
            old(self).in_range(),
            old(self)@.valid(),
            match done {
                Ok(_) => {
                    &&& offset_delay < old(self)@.capacity()
                    &&& final(self).offset() == offset_delay
                    &&& final(self).slots() == old(self).slots()
                    &&& final(self).write_cursor() == old(self).write_cursor()
                    &&& final(self).read_cursor() == old(self).read_cursor()
                    &&& final(self)@ == old(self)@.retarget(offset_delay as nat)
                },
                Err(e) => {
                    &&& offset_delay >= old(self)@.capacity()
                    &&& e == ConfigError::OffsetOutOfRange
                    &&& *final(self) == *old(self)
                },
            },
    {
        proof {
            use_type_invariant(&*self);
        }
        if offset_delay >= self.buffer_size {
            return Err(ConfigError::OffsetOutOfRange);
        }
        self.offset_delay = offset_delay;
        Ok(())
    }
}

impl<T> DelayVar<T> {
    /// The incoming frame takes the slot under the write cursor and no
    /// other slot changes. The read cursor is set as many slots behind the
    /// write cursor as the delay says, going round the buffer, and the
    /// frame under it goes out. The write cursor then moves on by one slot,
    /// from the last slot to the first. Seen by age: the frame written
    /// `offset` ticks before goes out, which is the incoming frame when the
    /// delay is zero.
    pub open spec fn stepped(self, in_frame: T, after: Self, out_frame: T) -> bool {
        let len = self.slots().len();
        &&& self.in_range()
        &&& after.in_range()
        &&& after.slots() == self.slots().update(self.write_cursor() as int, in_frame)
        &&& after.read_cursor() == (self.write_cursor() + len - self.offset()) % (len as int)
        &&& after.read_cursor() == if self.offset() <= self.write_cursor() {
            self.write_cursor() - self.offset()
        } else {
            self.write_cursor() + len - self.offset()
        }
        &&& after.write_cursor() == (self.write_cursor() + 1) % len
        &&& after.write_cursor() == if self.write_cursor() + 1 == len {
            0
        } else {
            self.write_cursor() + 1
        }
        &&& after.offset() == self.offset()
        &&& out_frame == after.slots()[after.read_cursor() as int]
        &&& self@.valid()
        &&& out_frame == self@.output(in_frame)
        &&& after@ == self@.tick(in_frame)
        &&& self@.offset == 0 ==> out_frame == in_frame
    }
}

impl<T: Copy + Send + Sync> AudioComponent<T> for DelayVar<T> {
    /// What `stepped` says.
    open spec fn ticked(&self, in_frame: T, after: &Self, out_frame: T) -> bool {
        self.stepped(in_frame, *after, out_frame)
    }

    /// Takes `in_frame` in as the newest frame and gives back the frame
    /// written as many ticks before as the delay says: `in_frame` itself
    /// when the delay is zero.
    fn tick(&mut self, in_frame: T) -> (out_frame: T)
        ensures
            old(self).stepped(in_frame, *final(self), out_frame),
    {
        proof {
            use_type_invariant(&*self);
        }
        self.buffer_delay[self.index_write] = in_frame;
        // (index_write + buffer_size - offset_delay) % buffer_size, in a
        // form that stays within the machine's range.
        self.index_read = if self.offset_delay <= self.index_write {
            self.index_write - self.offset_delay
        } else {
            self.buffer_size - (self.offset_delay - self.index_write)
        };
        let out_frame = self.buffer_delay[self.index_read];
        self.index_write = (self.index_write + 1) % self.buffer_size;
        proof {
            let n = self.buffer_size as int;
            let at = old(self).index_write as int;
            let back = self.offset_delay as int;
            lemma_step_back(at, back, n);
            lemma_step_forward(at, n);
            assert(self.index_read == (at + n - back) % n);
            assert(self.buffer_delay@ == old(self).buffer_delay@.update(at, in_frame));
            assert(self@.history =~= old(self)@.written(in_frame));
            assert(out_frame == old(self)@.output(in_frame));
        }
        out_frame
    }
}

} // verus!
