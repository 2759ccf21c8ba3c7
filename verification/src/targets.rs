//! The offscreen render targets that carry geometry-pass output to the
//! lighting pass.
//!
//! Only the sizes are modelled here; whoever owns the textures allocates them
//! at the sizes this module dictates.

use vstd::prelude::*;

verus! {

/// Pixel dimensions of a surface or render target.
#[derive(Clone, Copy, Debug, PartialEq, Eq, Structural)]
pub struct Extent {
    pub width: u32,
    pub height: u32,
}

impl Extent {
    /// A size that covers no pixels, as a minimized window reports.
    pub open spec fn is_empty(self) -> bool {
        self.width == 0 || self.height == 0
    }

    /// Executable form of [`Extent::is_empty`].
    pub fn covers_nothing(&self) -> (empty: bool)
        ensures
            empty == self.is_empty(),
    {
        self.width == 0 || self.height == 0
    }
}

/// The depth, normal and color targets, which are always allocated together
/// and at one common size.
#[derive(Clone, Copy, Debug, PartialEq, Eq)]
pub struct SurfaceTargetSet {
    depth: Extent,
    normal: Extent,
    color: Extent,
}

impl SurfaceTargetSet {
    #[verifier::type_invariant]
    spec fn same_size(self) -> bool {
        self.depth == self.normal && self.normal == self.color
    }

    /// The size that all three targets share.
    pub closed spec fn size(self) -> Extent {
        self.depth
    }

    /// Allocates the three targets at `size`.
    pub fn new(size: Extent) -> (set: Self)
        ensures
            set.size() == size,
    {
        SurfaceTargetSet { depth: size, normal: size, color: size }
    }

    /// Size of the depth target.
    pub fn depth_size(&self) -> (size: Extent)
        ensures
            size == self.size(),
    {
        self.depth
    }

    /// Size of the normal target.
    pub fn normal_size(&self) -> (size: Extent)
        ensures
            size == self.size(),
    {
        proof {
            use_type_invariant(self);
        }
        self.normal
    }

    /// Size of the color target.
    pub fn color_size(&self) -> (size: Extent)
        ensures
            size == self.size(),
    {
        proof {
            use_type_invariant(self);
        }
        self.color
    }

    /// Replaces all three targets by ones of `size`, unless `size` is empty,
    /// in which case the set is left as it is. Returns whether the targets
    /// were replaced.
    pub fn recreate(&mut self, size: Extent) -> (recreated: bool)
        ensures
            recreated == !size.is_empty(),
            size.is_empty() ==> *final(self) == *old(self),
            !size.is_empty() ==> final(self).size() == size,
    {
        if size.width > 0 && size.height > 0 {
            *self = SurfaceTargetSet::new(size);
            true
        } else {
            false
        }
    }
}

} // verus!
