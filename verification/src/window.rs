//! Window options and events.

use vstd::prelude::*;
use vstd::string::StringExecFns;
use crate::types::Size;

verus! {

/// A window event.
#[derive(Debug, Clone, Copy, PartialEq, Eq, Structural)]
pub enum Event {
    /// The user requested for the window to close, such as by clicking on
    /// the window's X button.
    CloseRequested,
    /// The window has been resized.
    Resized,
}

/// What a window is opened with.
#[derive(Debug)]
pub struct WindowOptions {
    pub title: String,
    pub size: Size,
}

impl WindowOptions {
    /// Options for a window without a title, 2560 by 1440 pixels large.
    pub fn new() -> (res: Self)
        ensures
            res.title@ == Seq::<char>::empty(),
            res.size == (Size { width: 2560, height: 1440 }),
    {
        WindowOptions { title: String::new(), size: Size::new(2560, 1440) }
    }

    /// Replaces the title.
    pub fn set_title(&mut self, title: &str)
        ensures
            final(self).title@ == title@,
            final(self).size == old(self).size,
    {
        self.title = String::from_str(title);
    }
}

/// Why a window could not be opened.
#[derive(Debug)]
pub enum OpenError {
    /// An unknown error occurred.
    Unknown,
    /// An error occurred while creating the window.
    CreationFailed(String),
}

impl OpenError {
    /// What `to_string` returns for the error.
    pub open spec fn description(&self) -> Seq<char> {
        match self {
            OpenError::CreationFailed(reason) => reason@,
            OpenError::Unknown => "unknown error"@,
        }
    }

    /// Describes the error.
    pub fn to_string(&self) -> (res: String)
        ensures
            res@ == self.description(),
    {
        match self {
            OpenError::CreationFailed(reason) => reason.clone(),
            OpenError::Unknown => String::from_str("unknown error"),
        }
    }
}

} // verus!
