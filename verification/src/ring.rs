//! Facts about indices that go round a buffer of fixed length.
use vstd::prelude::*;
use vstd::arithmetic::div_mod::lemma_fundamental_div_mod_converse;

verus! {

/// The slots of a ring read once round, starting at the slot `start`.
pub open spec fn ring_from<T>(slots: Seq<T>, start: int) -> Seq<T> {
    slots.subrange(start, slots.len() as int) + slots.subrange(0, start)
}

/// One step forward from a slot of a ring of `len` slots leads to the next
/// slot, and from the last slot to the first.
pub proof fn lemma_step_forward(at: int, len: int)
    requires
        0 <= at < len,
    ensures
        (at + 1) % len == if at + 1 == len {
            0
        } else {
            at + 1
        },
{
    if at + 1 == len {
        lemma_fundamental_div_mod_converse(at + 1, len, 1, 0);
    } else {
        lemma_fundamental_div_mod_converse(at + 1, len, 0, at + 1);
    }
}

/// `back` steps backward from a slot of a ring of `len` slots, with
/// `back < len`, lead to a slot of the ring: the one `back` places before,
/// going round from the first slot to the last where the start is reached.
pub proof fn lemma_step_back(at: int, back: int, len: int)
    requires
        0 <= at < len,
        0 <= back < len,
    ensures
        (at + len - back) % len == if back <= at {
            at - back
        } else {
            at + len - back
        },
        0 <= (at + len - back) % len < len,
{
    if back <= at {
        lemma_fundamental_div_mod_converse(at + len - back, len, 1, at - back);
    } else {
        lemma_fundamental_div_mod_converse(at + len - back, len, 0, at + len - back);
    }
}

} // verus!
