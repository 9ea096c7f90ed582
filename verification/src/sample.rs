//! The stereo sample assembler: accumulates fragments delivered by the
//! audio driver's callback into fixed-size analysis windows.
//!
//! A sample is carried as the raw 32-bit pattern of the driver's sample
//! word; the assembler never interprets a sample except to ask whether it
//! denotes zero (both patterns with all bits below the sign bit clear do).

use vstd::prelude::*;

verus! {

/// True when the bit pattern denotes a zero sample (plus or minus zero).
pub open spec fn zero_sample(bits: u32) -> bool {
    bits == 0u32 || bits == 0x8000_0000u32
}

/// A fixed-capacity stereo analysis window, filled across successive
/// callback invocations and handed to the compute stage once full.
pub struct StereoSample {
    sample_size: usize,
    left: Vec<u32>,
    right: Vec<u32>,
}

impl StereoSample {
    /// The fixed capacity chosen at construction.
    pub closed spec fn capacity(&self) -> int {
        self.sample_size as int
    }

    /// The left-channel samples accumulated so far.
    pub closed spec fn left_view(&self) -> Seq<u32> {
        self.left@
    }

    /// The right-channel samples accumulated so far.
    pub closed spec fn right_view(&self) -> Seq<u32> {
        self.right@
    }

    /// Both channels always hold the same number of samples, never more
    /// than the capacity.
    pub open spec fn wf(&self) -> bool {
        self.left_view().len() == self.right_view().len()
        && self.left_view().len() <= self.capacity()
    }

    /// An empty window of the given capacity.
    pub fn new(sample_size: usize) -> (w: StereoSample)
        ensures
            w.wf(),
            w.capacity() == sample_size,
            w.left_view() == Seq::<u32>::empty(),
            w.right_view() == Seq::<u32>::empty(),
    {
        StereoSample {
            sample_size,
            left: Vec::with_capacity(sample_size),
            right: Vec::with_capacity(sample_size),
        }
    }

    /// Number of samples accumulated so far (per channel).
    pub fn len(&self) -> (n: usize)
        requires
            self.wf(),
        ensures
            n == self.left_view().len(),
    {
        let l_len = self.left.len();
        let r_len = self.right.len();
        if l_len > r_len {
            l_len
        } else {
            r_len
        }
    }

    /// Appends a pair of equal-length channel fragments. When the fragments
    /// fit with room to spare, both are appended whole and the window is
    /// not yet full; otherwise exactly the first `remaining` samples of
    /// each channel are consumed and the window reaches its capacity.
    pub fn extend(&mut self, left: &[u32], right: &[u32]) -> (full: bool)
        requires
            old(self).wf(),
            left@.len() == right@.len(),
        ensures
            final(self).wf(),
            final(self).capacity() == old(self).capacity(),
            ({
                let remaining = old(self).capacity() - old(self).left_view().len();
                if left@.len() < remaining {
                    !full
                    && final(self).left_view() == old(self).left_view() + left@
                    && final(self).right_view() == old(self).right_view() + right@
                } else {
                    full
                    && final(self).left_view()
                        == old(self).left_view() + left@.subrange(0, remaining)
                    && final(self).right_view()
                        == old(self).right_view() + right@.subrange(0, remaining)
                    && final(self).left_view().len() == final(self).capacity()
                }
            }),
    {
        let len = left.len();
        let remaining = self.sample_size - self.left.len();
        let take: usize = if remaining > len {
            len
        } else {
            remaining
        };
        let mut i: usize = 0;
        while i < take
            invariant
                i <= take,
                take <= left@.len(),
                take <= right@.len(),
                self.sample_size == old(self).sample_size,
                self.left@ == old(self).left@ + left@.subrange(0, i as int),
                self.right@ == old(self).right@ + right@.subrange(0, i as int),
            decreases take - i,
        {
            self.left.push(left[i]);
            self.right.push(right[i]);
            i += 1;
            proof {
                assert(left@.subrange(0, i as int)
                    =~= left@.subrange(0, i - 1) + seq![left@[i - 1]]);
                assert(right@.subrange(0, i as int)
                    =~= right@.subrange(0, i - 1) + seq![right@[i - 1]]);
            }
        }
        proof {
            if take == left@.len() {
                assert(left@.subrange(0, take as int) =~= left@);
                assert(right@.subrange(0, take as int) =~= right@);
            }
        }
        remaining <= len
    }

    /// The left channel's samples, for the analysis stage.
    pub fn left(&self) -> (s: &Vec<u32>)
        ensures
            s@ == self.left_view(),
    {
        &self.left
    }

    /// The right channel's samples, for the analysis stage.
    pub fn right(&self) -> (s: &Vec<u32>)
        ensures
            s@ == self.right_view(),
    {
        &self.right
    }

    /// The silence test: true exactly when the first sample of both
    /// channels denotes zero.
    pub fn is_no_sig(&self) -> (quiet: bool)
        requires
            self.wf(),
            self.left_view().len() > 0,
        ensures
            quiet == (zero_sample(self.left_view()[0]) && zero_sample(self.right_view()[0])),
    {
        (self.left[0] == 0 || self.left[0] == 0x8000_0000)
            && (self.right[0] == 0 || self.right[0] == 0x8000_0000)
    }
}

} // verus!
