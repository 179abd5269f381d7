//! The placement rule as mathematics: what a stack of disks is, which disk it
//! takes, and what a move makes of it.

use vstd::prelude::*;
use crate::error::PoleError;

verus! {

/// A disk of the puzzle. The value is its rank: a larger value is a larger disk.
pub type Disk = u8;

/// No disk lies above a smaller one: read from the bottom up, the ranks never
/// increase. Equal ranks may lie on each other.
pub open spec fn stacked(disks: Seq<Disk>) -> bool {
    forall|i: int, j: int| 0 <= i <= j < disks.len() ==> disks[i] >= disks[j]
}

/// The starting tower of `count` disks: from the bottom up the ranks are
/// `count`, `count - 1`, ..., `1`.
pub open spec fn tower(count: Disk) -> Seq<Disk> {
    Seq::new(count as nat, |i: int| (count - i) as Disk)
}

/// Whether `disk` may be placed on `disks`: on an empty stack always, else
/// when it is not larger than the top disk.
pub open spec fn accepts(disks: Seq<Disk>, disk: Disk) -> bool {
    disks.len() == 0 || disk <= disks.last()
}

/// What placing `disk` on `disks` answers.
pub open spec fn push_outcome(disks: Seq<Disk>, disk: Disk) -> Result<(), PoleError> {
    if accepts(disks, disk) {
        Ok(())
    } else {
        Err(PoleError::PlaceOnSmallerDisk { large: disk, small: disks.last() })
    }
}

/// The stack after `disk` was to be placed on `disks`: with the disk as its
/// new top where the stack takes it, unchanged where it does not.
pub open spec fn pushed(disks: Seq<Disk>, disk: Disk) -> Seq<Disk> {
    if accepts(disks, disk) {
        disks.push(disk)
    } else {
        disks
    }
}

/// What taking the top disk from `disks` answers.
pub open spec fn pop_outcome(disks: Seq<Disk>) -> Result<Disk, PoleError> {
    if disks.len() > 0 {
        Ok(disks.last())
    } else {
        Err(PoleError::RemoveFromEmpty)
    }
}

/// The stack after its top disk was to be taken: without it, or still empty.
pub open spec fn popped(disks: Seq<Disk>) -> Seq<Disk> {
    if disks.len() > 0 {
        disks.drop_last()
    } else {
        disks
    }
}

/// The starting tower obeys the placement rule.
pub proof fn lemma_tower_stacked(count: Disk)
    ensures
        stacked(tower(count)),
{
}

/// Placing a disk, taken or refused, leaves a stack that obeys the rule.
pub proof fn lemma_pushed_stacked(disks: Seq<Disk>, disk: Disk)
    requires
        stacked(disks),
    ensures
        stacked(pushed(disks, disk)),
{
    if accepts(disks, disk) {
        let after = disks.push(disk);
        assert forall|i: int, j: int| 0 <= i <= j < after.len() implies after[i] >= after[j] by {
            if j == disks.len() && i < j {
                assert(disks[i] >= disks[disks.len() - 1]);
            }
        }
    }
}

/// Taking the top disk leaves a stack that obeys the rule.
pub proof fn lemma_popped_stacked(disks: Seq<Disk>)
    requires
        stacked(disks),
    ensures
        stacked(popped(disks)),
{
}

/// The starting tower of `count` disks is `count` high, and the disk at
/// height `i` above the bottom has rank `count - i`: the largest lies at the
/// bottom and rank 1 at the top.
pub proof fn lemma_tower_ranks(count: Disk)
    ensures
        tower(count).len() == count,
        forall|i: int| 0 <= i < count ==> tower(count)[i] == count - i,
        count > 0 ==> tower(count).first() == count && tower(count).last() == 1,
{
}

/// Placing a disk succeeds exactly on an empty stack or with a disk that is
/// not larger than the top one. Then the stack is one disk higher, the disk
/// is its top, and what lay below is as before. Otherwise the stack stays as
/// it was and the error names the disk and the top it was held against.
pub proof fn lemma_push_takes_or_refuses(disks: Seq<Disk>, disk: Disk)
    ensures
        push_outcome(disks, disk) is Ok <==> disks.len() == 0 || disk <= disks[disks.len() - 1],
        push_outcome(disks, disk) is Ok ==> {
            &&& pushed(disks, disk).len() == disks.len() + 1
            &&& pushed(disks, disk).last() == disk
            &&& pushed(disks, disk).drop_last() == disks
        },
        push_outcome(disks, disk) is Err ==> {
            &&& pushed(disks, disk) == disks
            &&& push_outcome(disks, disk) == Err::<(), PoleError>(
                PoleError::PlaceOnSmallerDisk { large: disk, small: disks[disks.len() - 1] },
            )
            &&& disk > disks[disks.len() - 1]
        },
{
    if accepts(disks, disk) {
        assert(disks.push(disk).drop_last() =~= disks);
    }
}

/// Taking the top disk succeeds exactly on a stack that holds a disk. Then
/// the answer is the top disk, the stack is one disk lower, and every disk
/// below the old top is where it was. On an empty stack the answer is the
/// error for an empty pole and the stack stays empty.
pub proof fn lemma_pop_takes_or_refuses(disks: Seq<Disk>)
    ensures
        pop_outcome(disks) is Ok <==> disks.len() > 0,
        disks.len() > 0 ==> {
            &&& pop_outcome(disks) == Ok::<Disk, PoleError>(disks[disks.len() - 1])
            &&& popped(disks).len() == disks.len() - 1
            &&& forall|i: int| 0 <= i < disks.len() - 1 ==> popped(disks)[i] == disks[i]
        },
        disks.len() == 0 ==> {
            &&& pop_outcome(disks) == Err::<Disk, PoleError>(PoleError::RemoveFromEmpty)
            &&& popped(disks) == disks
            &&& popped(disks).len() == 0
        },
{
}

/// A disk that was placed comes back: where the stack takes `disk`, taking
/// the top disk right after answers `disk` and leaves the stack exactly as
/// it was before the disk was placed, with its height and its top.
pub proof fn lemma_push_then_pop(disks: Seq<Disk>, disk: Disk)
    requires
        push_outcome(disks, disk) is Ok,
    ensures
        pop_outcome(pushed(disks, disk)) == Ok::<Disk, PoleError>(disk),
        popped(pushed(disks, disk)) == disks,
{
    assert(disks.push(disk).drop_last() =~= disks);
}

} // verus!
