//! The presentation surface and its depth attachment, kept the same size.
//!
//! A frame may only be encoded while the surface configuration and the depth
//! attachment both have the size of the window. A resize makes the target
//! stale; it becomes valid again once both have been rebuilt at the size the
//! window reported last.

use vstd::prelude::*;
use crate::ratio::{Ratio, Rational};

verus! {

/// A size in pixels.
#[derive(Clone, Copy, Debug, PartialEq, Eq, Structural)]
pub struct Extent {
    pub width: u32,
    pub height: u32,
}

impl Extent {
    /// The extent `width` by `height`.
    pub fn new(width: u32, height: u32) -> (extent: Extent)
        ensures
            extent == (Extent { width, height }),
    {
        Extent { width, height }
    }

    /// The aspect ratio, width over height; none for an extent of no height.
    pub fn aspect(&self) -> (aspect: Option<Ratio>)
        ensures
            self.height == 0 <==> aspect is None,
            aspect matches Some(r) ==> r@ == (Rational {
                num: self.width as int,
                den: self.height as int,
            }),
    {
        Ratio::new(self.width as i64, self.height)
    }
}

/// Whether frames may be drawn to a target.
#[derive(Clone, Copy, Debug, PartialEq, Eq, Structural)]
pub enum TargetState {
    /// Surface and depth attachment have the window's size.
    Valid,
    /// The window was resized and the rebuild has not been confirmed.
    Stale,
}

/// The sizes of the surface configuration and of the depth attachment,
/// together with the size the window asks for.
#[derive(Clone, Copy, Debug, PartialEq, Eq, Structural)]
pub enum RenderTarget {
    /// Surface, depth attachment and window all have this extent.
    Valid { extent: Extent },
    /// The window reported `window`; the surface and the depth attachment
    /// are still as they were last reported.
    Stale { surface: Extent, depth: Extent, window: Extent },
}

impl RenderTarget {
    /// The size the window reported last.
    pub open spec fn window(self) -> Extent {
        match self {
            RenderTarget::Valid { extent } => extent,
            RenderTarget::Stale { window, .. } => window,
        }
    }

    /// The size of the surface configuration.
    pub open spec fn surface(self) -> Extent {
        match self {
            RenderTarget::Valid { extent } => extent,
            RenderTarget::Stale { surface, .. } => surface,
        }
    }

    /// The size of the depth attachment.
    pub open spec fn depth(self) -> Extent {
        match self {
            RenderTarget::Valid { extent } => extent,
            RenderTarget::Stale { depth, .. } => depth,
        }
    }

    /// The target after the window reported `size`: always stale, with the
    /// surface and the depth attachment untouched.
    pub open spec fn resized(self, size: Extent) -> RenderTarget {
        RenderTarget::Stale { surface: self.surface(), depth: self.depth(), window: size }
    }

    /// The target after a rebuild that left the surface at `surface` and the
    /// depth attachment at `depth`: valid exactly if both are the window's size.
    pub open spec fn rebuilt(self, surface: Extent, depth: Extent) -> RenderTarget {
        if surface == self.window() && depth == self.window() {
            RenderTarget::Valid { extent: self.window() }
        } else {
            RenderTarget::Stale { surface, depth, window: self.window() }
        }
    }

    /// A target whose surface and depth attachment were both created at the
    /// window's size.
    pub fn new(size: Extent) -> (target: RenderTarget)
        ensures
            target == (RenderTarget::Valid { extent: size }),
    {
        RenderTarget::Valid { extent: size }
    }

    /// Valid or stale.
    pub fn state(&self) -> (state: TargetState)
        ensures
            state == TargetState::Valid <==> *self is Valid,
            state == TargetState::Stale <==> *self is Stale,
    {
        match self {
            RenderTarget::Valid { .. } => TargetState::Valid,
            RenderTarget::Stale { .. } => TargetState::Stale,
        }
    }

    /// The size the window reported last.
    pub fn window_extent(&self) -> (extent: Extent)
        ensures
            extent == self.window(),
    {
        match self {
            RenderTarget::Valid { extent } => *extent,
            RenderTarget::Stale { window, .. } => *window,
        }
    }

    /// The size of the surface configuration.
    pub fn surface_extent(&self) -> (extent: Extent)
        ensures
            extent == self.surface(),
    {
        match self {
            RenderTarget::Valid { extent } => *extent,
            RenderTarget::Stale { surface, .. } => *surface,
        }
    }

    /// The size of the depth attachment.
    pub fn depth_extent(&self) -> (extent: Extent)
        ensures
            extent == self.depth(),
    {
        match self {
            RenderTarget::Valid { extent } => *extent,
            RenderTarget::Stale { depth, .. } => *depth,
        }
    }

    /// The extent a frame may be encoded against: `Some` exactly while the
    /// target is valid.
    pub fn drawable(&self) -> (extent: Option<Extent>)
        ensures
            match extent {
                Some(e) => *self == (RenderTarget::Valid { extent: e }),
                None => *self is Stale,
            },
    {
        match self {
            RenderTarget::Valid { extent } => Some(*extent),
            RenderTarget::Stale { .. } => None,
        }
    }

    /// Records that the window now has `size`. The target is stale afterwards,
    /// also when `size` is the size it already had.
    pub fn resize(&mut self, size: Extent)
        ensures
            *final(self) == old(self).resized(size),
    {
        let surface = self.surface_extent();
        let depth = self.depth_extent();
        *self = RenderTarget::Stale { surface, depth, window: size };
    }

    /// Records that the surface was configured at `surface` and the depth
    /// attachment recreated at `depth`. Returns whether the target is valid
    /// afterwards.
    pub fn confirm_rebuild(&mut self, surface: Extent, depth: Extent) -> (valid: bool)
        ensures
            *final(self) == old(self).rebuilt(surface, depth),
            valid == (surface == old(self).window() && depth == old(self).window()),
    {
        let window = self.window_extent();
        if surface == window && depth == window {
            *self = RenderTarget::Valid { extent: window };
            true
        } else {
            *self = RenderTarget::Stale { surface, depth, window };
            false
        }
    }
}

/// A valid target has one size: that of the window, the surface and the depth
/// attachment alike.
pub proof fn lemma_valid_target_agrees(target: RenderTarget)
    requires
        target is Valid,
    ensures
        target.surface() == target.window(),
        target.depth() == target.window(),
{
}

/// A resize leaves the target stale and asking for the new size, whatever it
/// was before.
pub proof fn lemma_resize_makes_stale(target: RenderTarget, size: Extent)
    ensures
        target.resized(size) is Stale,
        target.resized(size).window() == size,
        target.resized(size).surface() == target.surface(),
        target.resized(size).depth() == target.depth(),
{
}

/// A stale target becomes valid by a rebuild exactly if the surface and the
/// depth attachment both come out at the size the window reported last.
pub proof fn lemma_rebuild_validates(target: RenderTarget, surface: Extent, depth: Extent)
    ensures
        target.rebuilt(surface, depth) is Valid <==> surface == target.window() && depth
            == target.window(),
        target.rebuilt(surface, depth).window() == target.window(),
        target.rebuilt(surface, depth).surface() == surface,
        target.rebuilt(surface, depth).depth() == depth,
{
}

} // verus!
