//! The pole: a stack of disks that never holds a disk above a smaller one.

use vstd::prelude::*;
use crate::error::PoleError;
use crate::rules::{
    lemma_popped_stacked, lemma_pushed_stacked, lemma_tower_stacked, pop_outcome, popped,
    push_outcome, pushed, stacked, tower, Disk,
};

verus! {

/// A pole with the disks that lie on it, from the bottom to the top.
#[derive(Debug)]
pub struct Pole(Vec<Disk>);

impl View for Pole {
    type V = Seq<Disk>;

    /// The disks on the pole from the bottom up; the last one is the top.
    closed spec fn view(&self) -> Seq<Disk> {
        self.0@
    }
}

impl Pole {
    /// Every pole obeys the placement rule at all times.
    #[verifier::type_invariant]
    pub open spec fn well_formed(&self) -> bool {
        stacked(self@)
    }

    /// A pole with no disk on it.
    pub fn new() -> (pole: Pole)
        ensures
            pole@ == Seq::<Disk>::empty(),
    {
        Pole(Vec::new())
    }

    /// Places `disk` on top of the pole, unless the pole holds disks and
    /// `disk` is larger than the top one: then the pole stays as it was and
    /// the error names both disks. A disk of the top disk's rank is taken.
    pub fn push(&mut self, disk: Disk) -> (outcome: Result<(), PoleError>)
        ensures
            outcome == push_outcome(old(self)@, disk),
            final(self)@ == pushed(old(self)@, disk),
            stacked(final(self)@),
    {
        proof {
            use_type_invariant(&*self);
            lemma_pushed_stacked(self@, disk);
        }
        let height: usize = self.0.len();
        if height > 0 && self.0[height - 1] < disk {
            Err(PoleError::PlaceOnSmallerDisk { large: disk, small: self.0[height - 1] })
        } else {
            // The disks leave the pole while the vector grows, so that the
            // pole holds a lawful stack at every moment.
            let mut disks: Vec<Disk> = Vec::new();
            std::mem::swap(&mut disks, &mut self.0);
            disks.push(disk);
            self.0 = disks;
            Ok(())
        }
    }

    /// Takes the top disk from the pole and returns it. From an empty pole
    /// nothing can be taken: the pole stays empty and the error says so.
    pub fn pop(&mut self) -> (outcome: Result<Disk, PoleError>)
        ensures
            outcome == pop_outcome(old(self)@),
            final(self)@ == popped(old(self)@),
            stacked(final(self)@),
    {
        proof {
            use_type_invariant(&*self);
            lemma_popped_stacked(self@);
        }
        let mut disks: Vec<Disk> = Vec::new();
        std::mem::swap(&mut disks, &mut self.0);
        let top = disks.pop();
        self.0 = disks;
        match top {
            Some(disk) => Ok(disk),
            None => Err(PoleError::RemoveFromEmpty),
        }
    }

    /// Discards what the pole holds and sets up the starting tower of `count`
    /// disks on it: the largest, of rank `count`, at the bottom and rank 1 at
    /// the top. With `count` 0 the pole is left empty.
    pub fn fill(&mut self, count: u8)
        ensures
            final(self)@ == tower(count),
            stacked(final(self)@),
    {
        let mut disks: Vec<Disk> = Vec::new();
        let mut rank: u8 = count;
        while rank > 0
            invariant
                rank <= count,
                disks@.len() == count - rank,
                forall|i: int| 0 <= i < disks@.len() ==> disks@[i] == count - i,
            decreases rank,
        {
            disks.push(rank);
            rank = rank - 1;
        }
        proof {
            assert(disks@ =~= tower(count));
            lemma_tower_stacked(count);
        }
        self.0 = disks;
    }

    /// The number of disks on the pole.
    pub fn len(&self) -> (height: usize)
        ensures
            height == self@.len(),
    {
        self.0.len()
    }

    /// Whether the pole holds no disk.
    pub fn is_empty(&self) -> (empty: bool)
        ensures
            empty == (self@.len() == 0),
    {
        self.0.len() == 0
    }

    /// The top disk, the only one that can be taken or that an incoming disk
    /// is held against; `None` on an empty pole.
    pub fn top(&self) -> (top: Option<Disk>)
        ensures
            top == (if self@.len() > 0 { Some(self@.last()) } else { None }),
    {
        let height: usize = self.0.len();
        if height > 0 {
            Some(self.0[height - 1])
        } else {
            None
        }
    }

    /// The disks on the pole from the bottom to the top, to be read only.
    pub fn disks(&self) -> (disks: &[Disk])
        ensures
            disks@ == self@,
            stacked(disks@),
    {
        proof {
            use_type_invariant(self);
        }
        self.0.as_slice()
    }
}

impl Clone for Pole {
    /// A pole of its own with the same disks in the same order.
    fn clone(&self) -> (copy: Pole)
        ensures
            copy@ == self@,
    {
        proof {
            use_type_invariant(self);
        }
        let disks = self.0.clone();
        assert(disks@ =~= self.0@);
        Pole(disks)
    }
}

} // verus!
