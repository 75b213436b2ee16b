//! Bit-level helpers shared by the kernel: most-significant-bit search,
//! priority-ceiling masks and task-mask construction.

use vstd::prelude::*;

verus! {

/// Index of the highest set bit of `x` at or below position `i`, or 0 when
/// no such bit is set.  Bit 0 never decides the result on its own: position
/// 0 doubles as "nothing found", which is exactly the idle-task convention.
pub open spec fn spec_msb_from(x: u32, i: u32) -> u32
    decreases i,
{
    if i == 0 {
        0
    } else if x & (1u32 << i) != 0 {
        i
    } else {
        spec_msb_from(x, (i - 1) as u32)
    }
}

/// Index of the most significant set bit of `x`, or 0 when `x` has no set
/// bit above position 0.
pub open spec fn spec_msb(x: u32) -> u32 {
    spec_msb_from(x, 31)
}

pub proof fn lemma_msb_from_bound(x: u32, i: u32)
    ensures
        spec_msb_from(x, i) <= i,
    decreases i,
{
    if i > 0 && x & (1u32 << i) == 0 {
        lemma_msb_from_bound(x, (i - 1) as u32);
    }
}

/// The most significant bit index always fits a task identifier.
pub proof fn lemma_msb_bound(x: u32)
    ensures
        spec_msb(x) <= 31,
{
    lemma_msb_from_bound(x, 31);
}

proof fn lemma_msb_from_idle(x: u32, i: u32)
    requires
        x & !1u32 == 0,
        i <= 31,
    ensures
        spec_msb_from(x, i) == 0,
    decreases i,
{
    if i > 0 {
        assert(x & (1u32 << i) == 0) by (bit_vector)
            requires
                x & !1u32 == 0,
                1 <= i <= 31,
        ;
        lemma_msb_from_idle(x, (i - 1) as u32);
    }
}

/// When no task other than idle is in the set, the most significant bit of
/// the set is 0: the idle task is selected whenever nothing else is ready.
pub proof fn lemma_msb_idle(x: u32)
    requires
        x & !1u32 == 0,
    ensures
        spec_msb(x) == 0,
{
    lemma_msb_from_idle(x, 31);
}

proof fn lemma_msb_from_highest(x: u32, i: u32)
    requires
        i <= 31,
    ensures
        spec_msb_from(x, i) > 0 ==> x & (1u32 << spec_msb_from(x, i)) != 0,
        forall|j: u32| spec_msb_from(x, i) < j <= i ==> #[trigger] (x & (1u32 << j)) == 0,
    decreases i,
{
    if i > 0 && x & (1u32 << i) == 0 {
        lemma_msb_from_highest(x, (i - 1) as u32);
    }
}

/// What the most significant bit means: when the result is above 0 that
/// bit is set, and every bit above the result is clear.  (A result of 0
/// only says that bits 1 to 31 are clear: position 0 doubles as "nothing
/// found".)
pub proof fn lemma_msb_highest(x: u32)
    ensures
        spec_msb(x) > 0 ==> x & (1u32 << spec_msb(x)) != 0,
        forall|j: u32| spec_msb(x) < j <= 31 ==> #[trigger] (x & (1u32 << j)) == 0,
{
    lemma_msb_from_highest(x, 31);
}

/// Runtime most-significant-bit search, scanning from bit 31 downwards.
pub fn get_msb(x: u32) -> (r: u32)
    ensures
        r == spec_msb(x),
{
    let mut i: u32 = 31;
    while i > 0
        invariant
            i <= 31,
            spec_msb(x) == spec_msb_from(x, i),
        decreases i,
    {
        if x & (1u32 << i) != 0 {
            return i;
        }
        i = i - 1;
    }
    0
}

/// The boolean vector of every priority up to and including `ceiling`: the
/// set of tasks a ceiling of that height suppresses.
pub open spec fn spec_pi_mask(ceiling: u32) -> u32 {
    if ceiling < 31 {
        (((1u32 << ((ceiling + 1) as u32)) - 1) as u32)
    } else {
        0xffff_ffffu32
    }
}

proof fn lemma_msb_from_union(x: u32, y: u32, i: u32)
    requires
        i <= 31,
    ensures
        spec_msb_from(x | y, i) == (if spec_msb_from(x, i) >= spec_msb_from(y, i) {
            spec_msb_from(x, i)
        } else {
            spec_msb_from(y, i)
        }),
    decreases i,
{
    if i > 0 {
        assert(((x | y) & (1u32 << i) != 0) == (x & (1u32 << i) != 0 || y & (1u32 << i) != 0))
            by (bit_vector);
        if (x | y) & (1u32 << i) != 0 {
            lemma_msb_from_bound(x, i);
            lemma_msb_from_bound(y, i);
        } else {
            lemma_msb_from_union(x, y, (i - 1) as u32);
        }
    }
}

/// The most significant bit of a union is the higher of the two most
/// significant bits: a resource shared by two task sets has the higher of
/// their two ceilings.
pub proof fn lemma_msb_union(x: u32, y: u32)
    ensures
        spec_msb(x | y) == (if spec_msb(x) >= spec_msb(y) {
            spec_msb(x)
        } else {
            spec_msb(y)
        }),
{
    lemma_msb_from_union(x, y, 31);
}

/// A priority is suppressed by a ceiling exactly when it does not exceed it.
pub proof fn lemma_pi_mask_member(ceiling: u32, tid: u32)
    requires
        tid <= 31,
    ensures
        (spec_pi_mask(ceiling) & (1u32 << tid) != 0) <==> tid <= ceiling,
{
    if ceiling < 31 {
        assert(((((1u32 << ((ceiling + 1) as u32)) - 1) as u32) & (1u32 << tid) != 0)
            <==> tid <= ceiling) by (bit_vector)
            requires
                ceiling < 31,
                tid <= 31,
        ;
    } else {
        assert(0xffff_ffffu32 & (1u32 << tid) != 0) by (bit_vector)
            requires
                tid <= 31,
        ;
    }
}

/// Adding a set of bits disjoint from `b` and removing it again leaves `b`
/// as it was: what a lock blocks, the matching unlock unblocks, and nothing
/// else moves.
pub proof fn lemma_block_restore(b: u32, x: u32)
    requires
        x & b == 0,
    ensures
        (b | x) & !x == b,
{
    assert(x & b == 0 ==> (b | x) & !x == b) by (bit_vector);
}

/// The task mask described by a list of task identifiers.
pub open spec fn spec_task_mask(tasks: Seq<u32>) -> u32
    decreases tasks.len(),
{
    if tasks.len() == 0 {
        0u32
    } else {
        spec_task_mask(tasks.drop_last()) | (1u32 << tasks.last())
    }
}

/// Builds the boolean vector with one bit set for each listed task.
pub fn generate_task_mask(tasks: &[u32]) -> (r: u32)
    requires
        forall|k: int| 0 <= k < tasks@.len() ==> tasks@[k] < 32,
    ensures
        r == spec_task_mask(tasks@),
{
    let mut mask: u32 = 0;
    let mut idx: usize = 0;
    while idx < tasks.len()
        invariant
            idx <= tasks@.len(),
            forall|k: int| 0 <= k < tasks@.len() ==> tasks@[k] < 32,
            mask == spec_task_mask(tasks@.take(idx as int)),
        decreases tasks@.len() - idx,
    {
        proof {
            assert(tasks@.take(idx + 1).drop_last() =~= tasks@.take(idx as int));
            assert(tasks@.take(idx + 1).last() == tasks@[idx as int]);
        }
        mask = mask | (1u32 << tasks[idx]);
        idx = idx + 1;
    }
    proof {
        assert(tasks@.take(tasks@.len() as int) =~= tasks@);
    }
    mask
}

} // verus!
