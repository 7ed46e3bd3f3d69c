//! What the window tells the engine, and what the engine tells the event
//! loop in return.

use crate::surface::SurfaceConfig;
use vstd::prelude::*;

verus! {

/// A notification from the window.
#[derive(Clone, Copy, Debug, PartialEq, Eq, Structural)]
pub enum WindowNotice {
    /// The user asked for the window to be closed.
    CloseRequested,
    /// The Escape key was pressed.
    EscapePressed,
    /// The window has a new size.
    Resized { width: u32, height: u32 },
    /// The scale factor changed, and with it the size of the window.
    ScaleFactorChanged { width: u32, height: u32 },
    /// Anything else.
    Other,
}

/// What the event loop is to do after a notification.
#[derive(Clone, Copy, Debug, PartialEq, Eq, Structural)]
pub enum LoopControl {
    /// Go on.
    Continue,
    /// Configure the surface with this size, and go on.
    Reconfigure(SurfaceConfig),
    /// Leave the loop.
    Exit,
}

impl WindowNotice {
    /// The notification ends the run: a close request, or the Escape key.
    pub open spec fn spec_asks_to_close(self) -> bool {
        self is CloseRequested || self is EscapePressed
    }

    /// The size that the notification brings, if it brings one.
    pub open spec fn spec_new_size(self) -> Option<SurfaceConfig> {
        match self {
            WindowNotice::Resized { width, height } => Some(SurfaceConfig { width, height }),
            WindowNotice::ScaleFactorChanged { width, height } => Some(
                SurfaceConfig { width, height },
            ),
            _ => None,
        }
    }

    /// Whether the notification ends the run.
    pub fn asks_to_close(&self) -> (b: bool)
        ensures
            b == self.spec_asks_to_close(),
    {
        match self {
            WindowNotice::CloseRequested => true,
            WindowNotice::EscapePressed => true,
            _ => false,
        }
    }

    /// The size that the notification brings, if it brings one.
    pub fn new_size(&self) -> (size: Option<SurfaceConfig>)
        ensures
            size == self.spec_new_size(),
    {
        match self {
            WindowNotice::Resized { width, height } => Some(
                SurfaceConfig { width: *width, height: *height },
            ),
            WindowNotice::ScaleFactorChanged { width, height } => Some(
                SurfaceConfig { width: *width, height: *height },
            ),
            _ => None,
        }
    }
}

} // verus!
