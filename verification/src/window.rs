//! The window controller: sole owner of the main window's handle and of its
//! geometry constraints.

use vstd::prelude::*;
use vstd::string::*;
use crate::error::{ErrorInfo, ErrorKind, ErrorView};

verus! {

/// Names the main window. A handle is live while the controller holds it and
/// stale afterwards.
#[derive(Clone, Copy, Debug, PartialEq, Eq, Structural)]
pub struct WindowHandle {
    pub id: u64,
}

/// A width and a height, in logical pixels.
#[derive(Clone, Copy, Debug, PartialEq, Eq, Structural)]
pub struct Size {
    pub width: i32,
    pub height: i32,
}

/// The startup configuration of the main window.
#[derive(Debug, PartialEq, Eq)]
pub struct WindowConfig {
    pub min_width: i32,
    pub min_height: i32,
    pub title: String,
    pub identifier: String,
}

impl WindowConfig {
    pub fn new(min_width: i32, min_height: i32, title: &str, identifier: &str) -> (c: WindowConfig)
        ensures
            c.min_width == min_width,
            c.min_height == min_height,
            c.title@ == title@,
            c.identifier@ == identifier@,
    {
        WindowConfig {
            min_width,
            min_height,
            title: String::from_str(title),
            identifier: String::from_str(identifier),
        }
    }
}

/// Both dimensions are positive.
pub open spec fn positive(width: i32, height: i32) -> bool {
    width > 0 && height > 0
}

/// The size that a request for `wanted` ends in under `minimum`: each
/// dimension is raised to the minimum where it falls below it.
pub open spec fn clamped(minimum: Option<Size>, wanted: Size) -> Size {
    match minimum {
        None => wanted,
        Some(least) => Size {
            width: if wanted.width < least.width {
                least.width
            } else {
                wanted.width
            },
            height: if wanted.height < least.height {
                least.height
            } else {
                wanted.height
            },
        },
    }
}

pub open spec fn creation_error() -> ErrorView {
    ErrorView { kind: ErrorKind::WindowCreation, message: "the main window could not be created"@ }
}

pub open spec fn stale_error() -> ErrorView {
    ErrorView { kind: ErrorKind::Constraint, message: "the window handle is stale"@ }
}

pub open spec fn dimension_error() -> ErrorView {
    ErrorView { kind: ErrorKind::Constraint, message: "dimensions must be positive"@ }
}

/// The controller. It holds at most one live handle and the minimum size in
/// force for it.
pub struct WindowController {
    live: Option<WindowHandle>,
    minimum: Option<Size>,
}

impl WindowController {
    /// The live handle, if a window exists.
    pub closed spec fn live(&self) -> Option<WindowHandle> {
        self.live
    }

    /// The minimum size in force, if one was applied.
    pub closed spec fn minimum(&self) -> Option<Size> {
        self.minimum
    }

    /// A minimum size belongs to a live window and is positive.
    pub open spec fn wf(&self) -> bool {
        self.minimum() matches Some(least) ==> self.live() is Some && positive(
            least.width,
            least.height,
        )
    }

    pub fn new() -> (c: WindowController)
        ensures
            c.wf(),
            c.live() is None,
            c.minimum() is None,
    {
        WindowController { live: None, minimum: None }
    }

    /// Takes ownership of the window that the platform allocated for `config`
    /// (`None`: it could not allocate one). Fails when there is no platform
    /// window, or when a window is already live.
    pub fn create_main_window(
        &mut self,
        config: &WindowConfig,
        platform_window: Option<u64>,
    ) -> (r: Result<WindowHandle, ErrorInfo>)
        requires
            old(self).wf(),
        ensures
            final(self).wf(),
            r is Ok <==> platform_window is Some && old(self).live() is None,
            r matches Ok(handle) ==> handle.id == platform_window.unwrap() && final(self).live()
                == Some(handle) && final(self).minimum() is None,
            r matches Err(e) ==> e@ == creation_error() && *final(self) == *old(self),
    {
        match (platform_window, self.live) {
            (Some(id), None) => {
                let handle = WindowHandle { id };
                self.live = Some(handle);
                self.minimum = None;
                Ok(handle)
            },
            _ => Err(
                ErrorInfo::new(ErrorKind::WindowCreation, "the main window could not be created"),
            ),
        }
    }

    pub fn is_live(&self, handle: WindowHandle) -> (b: bool)
        ensures
            b == (self.live() == Some(handle)),
    {
        match self.live {
            Some(current) => current.id == handle.id,
            None => false,
        }
    }

    pub fn handle(&self) -> (h: Option<WindowHandle>)
        ensures
            h == self.live(),
    {
        self.live
    }

    pub fn minimum_size(&self) -> (m: Option<Size>)
        ensures
            m == self.minimum(),
    {
        self.minimum
    }

    /// Puts a minimum size in force. Fails on a stale handle, and on a
    /// dimension that is not positive; the controller is then unchanged.
    pub fn apply_minimum_size(&mut self, handle: WindowHandle, width: i32, height: i32) -> (r:
        Result<(), ErrorInfo>)
        requires
            old(self).wf(),
        ensures
            final(self).wf(),
            final(self).live() == old(self).live(),
            r is Ok <==> old(self).live() == Some(handle) && positive(width, height),
            r is Ok ==> final(self).minimum() == Some(Size { width, height }),
            r matches Err(e) ==> *final(self) == *old(self) && e@ == (if old(self).live() != Some(
                handle,
            ) {
                stale_error()
            } else {
                dimension_error()
            }),
    {
        if !self.is_live(handle) {
            Err(ErrorInfo::new(ErrorKind::Constraint, "the window handle is stale"))
        } else if width <= 0 || height <= 0 {
            Err(ErrorInfo::new(ErrorKind::Constraint, "dimensions must be positive"))
        } else {
            self.minimum = Some(Size { width, height });
            Ok(())
        }
    }

    /// Lifts the minimum size. Fails on a stale handle.
    pub fn reset_minimum_size(&mut self, handle: WindowHandle) -> (r: Result<(), ErrorInfo>)
        requires
            old(self).wf(),
        ensures
            final(self).wf(),
            final(self).live() == old(self).live(),
            r is Ok <==> old(self).live() == Some(handle),
            r is Ok ==> final(self).minimum() is None,
            r matches Err(e) ==> *final(self) == *old(self) && e@ == stale_error(),
    {
        if !self.is_live(handle) {
            Err(ErrorInfo::new(ErrorKind::Constraint, "the window handle is stale"))
        } else {
            self.minimum = None;
            Ok(())
        }
    }

    /// The size that the window takes when `width` by `height` is asked for:
    /// a request below the minimum is raised to it.
    pub fn resize(&self, handle: WindowHandle, width: i32, height: i32) -> (r: Result<
        Size,
        ErrorInfo,
    >)
        requires
            self.wf(),
        ensures
            r is Ok <==> self.live() == Some(handle),
            r matches Ok(size) ==> size == clamped(self.minimum(), Size { width, height }),
            r matches Err(e) ==> e@ == stale_error(),
    {
        if !self.is_live(handle) {
            return Err(ErrorInfo::new(ErrorKind::Constraint, "the window handle is stale"));
        }
        match self.minimum {
            None => Ok(Size { width, height }),
            Some(least) => Ok(
                Size {
                    width: if width < least.width {
                        least.width
                    } else {
                        width
                    },
                    height: if height < least.height {
                        least.height
                    } else {
                        height
                    },
                },
            ),
        }
    }

    /// Gives the window up. Afterwards every handle is stale and no minimum
    /// size is in force. Returns whether `handle` was the live one; if not,
    /// nothing changes.
    pub fn destroy(&mut self, handle: WindowHandle) -> (done: bool)
        requires
            old(self).wf(),
        ensures
            final(self).wf(),
            done == (old(self).live() == Some(handle)),
            done ==> final(self).live() is None && final(self).minimum() is None,
            !done ==> *final(self) == *old(self),
    {
        if self.is_live(handle) {
            self.live = None;
            self.minimum = None;
            true
        } else {
            false
        }
    }
}

/// Once a minimum size is in force, no resize ends below it, whatever size is
/// asked for.
pub proof fn lemma_minimum_size_holds(least: Size, wanted: Size)
    ensures
        clamped(Some(least), wanted).width >= least.width,
        clamped(Some(least), wanted).height >= least.height,
        wanted.width >= least.width && wanted.height >= least.height ==> clamped(
            Some(least),
            wanted,
        ) == wanted,
{
}

} // verus!
