//! The arm chain: a sequence of segments, the first anchored at a center
//! point and each further one at the end of the one before.
//!
//! The point type is left open: the chain only stores points and links them,
//! so whoever computes an arm's end point also picks how points are held.
use vstd::prelude::*;
use crate::arm::{Arm, ArmColor, ARM_COUNT, arm_width, arm_length, configured_colors};

verus! {

/// One drawn arm: a line from `start` to `end`.
#[derive(Clone, Copy, Debug)]
pub struct Segment<P> {
    pub start: P,
    pub end: P,
    pub width: u32,
    pub length: u32,
    pub color: ArmColor,
}

/// The segments that a chain anchored at `center` has once its arms end at
/// `ends`, in order from the center.
pub open spec fn chain_of<P>(center: P, ends: Seq<P>) -> Seq<Segment<P>> {
    Seq::new(
        ends.len(),
        |i: int|
            Segment {
                start: if i == 0 { center } else { ends[i - 1] },
                end: ends[i],
                width: arm_width(i) as u32,
                length: arm_length(i) as u32,
                color: configured_colors()[i],
            },
    )
}

/// A chain under construction: the arms placed so far.
pub struct Chain<P> {
    center: P,
    segments: Vec<Segment<P>>,
    ends: Ghost<Seq<P>>,
}

impl<P: Copy> Chain<P> {
    pub open spec fn view(&self) -> Seq<Segment<P>> {
        chain_of(self.spec_center(), self.spec_ends())
    }

    pub closed spec fn spec_center(&self) -> P {
        self.center
    }

    /// Where the arms placed so far end, in order from the center.
    pub closed spec fn spec_ends(&self) -> Seq<P> {
        self.ends@
    }

    pub closed spec fn wf(&self) -> bool {
        &&& self.ends@.len() <= ARM_COUNT
        &&& self.segments@ == chain_of(self.center, self.ends@)
    }

    /// An empty chain anchored at `center`.
    pub fn new(center: P) -> (r: Chain<P>)
        ensures
            r.wf(),
            r.spec_center() == center,
            r.spec_ends() == Seq::<P>::empty(),
            r@.len() == 0,
    {
        let r = Chain { center, segments: Vec::new(), ends: Ghost(Seq::empty()) };
        assert(r.segments@ =~= chain_of(center, Seq::<P>::empty()));
        r
    }

    /// The point at which the chain is anchored.
    pub fn center(&self) -> (r: P)
        ensures
            r == self.spec_center(),
    {
        self.center
    }

    /// Number of arms placed so far.
    pub fn len(&self) -> (r: usize)
        requires
            self.wf(),
        ensures
            r == self@.len(),
    {
        self.segments.len()
    }

    /// Whether every arm has been placed.
    pub fn is_complete(&self) -> (r: bool)
        requires
            self.wf(),
        ensures
            r == (self@.len() == ARM_COUNT),
    {
        self.segments.len() == ARM_COUNT
    }

    /// The point at which the next arm starts: the end of the last arm
    /// placed, or the center while none is.
    pub fn tip(&self) -> (r: P)
        requires
            self.wf(),
        ensures
            self@.len() == 0 ==> r == self.spec_center(),
            self@.len() > 0 ==> r == self.spec_ends().last(),
    {
        let n = self.segments.len();
        if n == 0 {
            self.center
        } else {
            self.segments[n - 1].end
        }
    }

    /// The arm that is to be placed next, if any is left.
    pub fn next_arm(&self) -> (r: Option<Arm>)
        requires
            self.wf(),
        ensures
            self@.len() < ARM_COUNT ==> r == Some(Arm::spec_at(self@.len() as int)),
            self@.len() >= ARM_COUNT ==> r is None,
    {
        let n = self.segments.len();
        if n < ARM_COUNT {
            Some(Arm::at(n))
        } else {
            None
        }
    }

    /// Places the next arm, from the current tip to `end`.
    pub fn extend(&mut self, end: P)
        requires
            old(self).wf(),
            old(self)@.len() < ARM_COUNT,
        ensures
            final(self).wf(),
            final(self).spec_center() == old(self).spec_center(),
            final(self).spec_ends() == old(self).spec_ends().push(end),
    {
        let n = self.segments.len();
        let start = self.tip();
        let arm = Arm::at(n);
        let seg = Segment { start, end, width: arm.width, length: arm.length, color: arm.color };
        let ghost old_ends = self.ends@;
        self.segments.push(seg);
        self.ends = Ghost(old_ends.push(end));
        assert(self.segments@ =~= chain_of(self.center, self.ends@));
    }

    /// The segments placed so far, from the center outwards.
    pub fn segments(&self) -> (r: &Vec<Segment<P>>)
        requires
            self.wf(),
        ensures
            r@ == self@,
    {
        &self.segments
    }
}

/// A finished chain has one segment per arm, and each of them a positive
/// width and length.
pub proof fn lemma_complete_chain_extent<P>(center: P, ends: Seq<P>)
    requires
        ends.len() == ARM_COUNT,
    ensures
        chain_of(center, ends).len() == ARM_COUNT,
        forall|i: int|
            0 <= i < ARM_COUNT ==> {
                &&& (#[trigger] chain_of(center, ends)[i]).width > 0
                &&& chain_of(center, ends)[i].length > 0
            },
{
}

/// The first segment starts at the center, and every further segment starts
/// exactly where the one before it ends.
pub proof fn lemma_chain_links<P>(center: P, ends: Seq<P>)
    ensures
        ends.len() > 0 ==> chain_of(center, ends)[0].start == center,
        forall|i: int|
            1 <= i < ends.len() ==> (#[trigger] chain_of(center, ends)[i]).start
                == chain_of(center, ends)[i - 1].end,
{
}

/// Two chains anchored at the same center whose arms end at the same points
/// hold the same segments: a chain keeps no other state.
pub proof fn lemma_chain_determined<P: Copy>(a: &Chain<P>, b: &Chain<P>)
    requires
        a.wf(),
        b.wf(),
        a.spec_center() == b.spec_center(),
        a.spec_ends() == b.spec_ends(),
    ensures
        a@ == b@,
{
}

} // verus!
