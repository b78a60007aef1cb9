//! The targets the shell runs on, and the capabilities that set them apart.

use vstd::prelude::*;

verus! {

/// A target operating system.
#[derive(Clone, Copy, Debug, PartialEq, Eq, Structural)]
pub enum Platform {
    Windows,
    MacOs,
    Ios,
    Android,
    /// Every other Unix target, where windows are laid out by a widget
    /// toolkit.
    Unix,
}

/// How a webview is attached to its host window.
#[derive(Clone, Copy, Debug, PartialEq, Eq, Structural)]
pub enum AttachStrategy {
    /// The webview is a direct child of the window.
    Window,
    /// The webview goes into the layout container that the window provides.
    Container,
}

impl Platform {
    /// The attachment that the target calls for.
    pub open spec fn attachment(self) -> AttachStrategy {
        if self == Platform::Unix {
            AttachStrategy::Container
        } else {
            AttachStrategy::Window
        }
    }

    /// The character that separates the components of a path.
    pub open spec fn path_separator(self) -> char {
        if self == Platform::Windows {
            '\\'
        } else {
            '/'
        }
    }

    /// The separator of this target's paths.
    pub fn separator(self) -> (separator: char)
        ensures
            separator == self.path_separator(),
    {
        match self {
            Platform::Windows => '\\',
            Platform::MacOs | Platform::Ios | Platform::Android | Platform::Unix => '/',
        }
    }

    /// Selects how the webview is attached on this target.
    pub fn attach_strategy(self) -> (strategy: AttachStrategy)
        ensures
            strategy == self.attachment(),
    {
        match self {
            Platform::Unix => AttachStrategy::Container,
            Platform::Windows | Platform::MacOs | Platform::Ios | Platform::Android => {
                AttachStrategy::Window
            },
        }
    }
}

} // verus!
