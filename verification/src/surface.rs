//! The output surface: its stored size, and what to do when a frame cannot
//! be acquired.

use vstd::prelude::*;

verus! {

/// The size that the output surface is configured with.
#[derive(Clone, Copy, Debug, PartialEq, Eq, Structural)]
pub struct SurfaceConfig {
    pub width: u32,
    pub height: u32,
}

impl SurfaceConfig {
    /// Neither the width nor the height is zero.
    pub open spec fn spec_has_area(self) -> bool {
        self.width > 0 && self.height > 0
    }

    /// The stored size after a size-changed notification: the new size, unless
    /// it has no area.
    pub open spec fn resized(self, width: u32, height: u32) -> SurfaceConfig {
        if width > 0 && height > 0 {
            SurfaceConfig { width, height }
        } else {
            self
        }
    }

    /// Whether neither the width nor the height is zero. A surface cannot be
    /// configured with a size that has no area.
    pub fn has_area(&self) -> (b: bool)
        ensures
            b == self.spec_has_area(),
    {
        self.width > 0 && self.height > 0
    }

    /// Takes a size-changed notification. Returns whether the surface is to
    /// be reconfigured: a notification without area is ignored.
    pub fn resize(&mut self, width: u32, height: u32) -> (reconfigure: bool)
        ensures
            *final(self) == old(self).resized(width, height),
            reconfigure == (width > 0 && height > 0),
            reconfigure ==> final(self).width == width && final(self).height == height,
            !reconfigure ==> *final(self) == *old(self),
        no_unwind
    {
        if width > 0 && height > 0 {
            self.width = width;
            self.height = height;
            true
        } else {
            false
        }
    }
}

/// Why the next image of the surface could not be acquired.
#[derive(Clone, Copy, Debug, PartialEq, Eq, Structural)]
pub enum SurfaceError {
    Lost,
    Outdated,
    OutOfMemory,
    Timeout,
}

/// What to do about a [`SurfaceError`].
#[derive(Clone, Copy, Debug, PartialEq, Eq, Structural)]
pub enum Recovery {
    /// Configure the surface again with its last known size, and try again
    /// with the next frame.
    Reconfigure,
    /// Release everything and end the process with a failure.
    Abort,
    /// Report the timeout and go on with the next frame.
    Skip,
}

impl SurfaceError {
    /// What to do about this error: a lost or outdated surface is configured
    /// again, memory that ran out ends the run, a timeout is passed over.
    pub open spec fn spec_recovery(self) -> Recovery {
        match self {
            SurfaceError::Lost => Recovery::Reconfigure,
            SurfaceError::Outdated => Recovery::Reconfigure,
            SurfaceError::OutOfMemory => Recovery::Abort,
            SurfaceError::Timeout => Recovery::Skip,
        }
    }

    /// What to do about this error.
    pub fn recovery(self) -> (r: Recovery)
        ensures
            r == self.spec_recovery(),
    {
        match self {
            SurfaceError::Lost => Recovery::Reconfigure,
            SurfaceError::Outdated => Recovery::Reconfigure,
            SurfaceError::OutOfMemory => Recovery::Abort,
            SurfaceError::Timeout => Recovery::Skip,
        }
    }
}

} // verus!
