//! The snapshot of one observed container process that detectors examine.

use vstd::prelude::*;

verus! {

/// An immutable snapshot of one process running inside a container.
///
/// A snapshot is built once per observed process and only read afterwards.
#[derive(Debug)]
pub struct ContainerProcess {
    /// Process identifier; carried for diagnostics only.
    pub pid: u32,
    /// Resolved executable name, used for coarse routing.
    pub name: String,
    /// The full argument vector. Order is significant: flags and their
    /// values are positional.
    pub command_line: Vec<String>,
    /// Working directory of the process, against which relative paths on the
    /// command line are resolved.
    pub cwd: String,
}

/// What a [`ContainerProcess`] holds, as mathematical values.
pub struct ProcessView {
    pub pid: u32,
    pub name: Seq<char>,
    pub command_line: Seq<Seq<char>>,
    pub cwd: Seq<char>,
}

impl View for ContainerProcess {
    type V = ProcessView;

    open spec fn view(&self) -> ProcessView {
        ProcessView {
            pid: self.pid,
            name: self.name@,
            command_line: self.command_line.deep_view(),
            cwd: self.cwd@,
        }
    }
}

impl ContainerProcess {
    /// Records one observed process.
    pub fn new(pid: u32, name: String, command_line: Vec<String>, cwd: String) -> (process: Self)
        ensures
            process@ == (ProcessView {
                pid,
                name: name@,
                command_line: command_line.deep_view(),
                cwd: cwd@,
            }),
    {
        ContainerProcess { pid, name, command_line, cwd }
    }
}

} // verus!
