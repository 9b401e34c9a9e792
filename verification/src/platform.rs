//! Which program shows a folder in the system's file manager.

use vstd::prelude::*;
use vstd::string::StringExecFns;

verus! {

/// The operating systems on which a folder can be shown.
#[derive(Clone, Copy, Debug, PartialEq, Eq, Structural)]
pub enum Platform {
    Windows,
    MacOs,
    Linux,
}

impl Platform {
    /// The name of the program that opens a file-manager window.
    pub open spec fn opener(self) -> Seq<char> {
        match self {
            Platform::Windows => "explorer"@,
            Platform::MacOs => "open"@,
            Platform::Linux => "xdg-open"@,
        }
    }

    /// The opener's name as a string slice.
    pub fn opener_program(self) -> (program: &'static str)
        ensures
            program@ == self.opener(),
    {
        match self {
            Platform::Windows => "explorer",
            Platform::MacOs => "open",
            Platform::Linux => "xdg-open",
        }
    }
}

/// A program for the host to start, detached, with one argument.
#[derive(Debug, PartialEq, Eq)]
pub struct Launch {
    pub program: String,
    pub argument: String,
}

/// The launch that shows `path` on `platform`: the platform's opener, with
/// the path as its only argument.
///
/// The path is handed on as it came. Nothing is asked of it: whether it names
/// a folder, or anything at all, is left to the program that is started.
pub fn folder_launch(platform: Platform, path: String) -> (launch: Launch)
    ensures
        launch.program@ == platform.opener(),
        launch.argument == path,
{
    Launch { program: String::from_str(platform.opener_program()), argument: path }
}

} // verus!
