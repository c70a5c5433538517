//! The failures that the runtime reports.

use vstd::prelude::*;

verus! {

/// Why an operation of the runtime failed.
#[derive(Debug)]
pub enum RuntimeError {
    /// No line of the mount table names the controller.
    MountPointNotFound { subsystem: String },
    /// A file or directory under a cgroup could not be written.
    CgroupWrite { subsystem: String, path: String, cause: String },
    /// There is no record under this name.
    MetadataNotFound { name: String },
    /// The record is in a state that does not allow the operation.
    InvalidState { name: String },
    /// The kernel refused to start the container's first process.
    ChildSpawnFailed { cause: String },
    /// A system call failed inside the container.
    SyscallFailed { call: String, cause: String },
    /// The archive tool ended with a failure; `stderr` is what it wrote.
    TarFailed { stderr: String },
    /// A text did not have the form that was expected of it.
    ParseFailed { what: String },
    /// A file that was to be read is not there.
    FileNotFound { path: String },
}

/// A `RuntimeError` with its texts as sequences of characters.
pub enum RuntimeErrorView {
    MountPointNotFound { subsystem: Seq<char> },
    CgroupWrite { subsystem: Seq<char>, path: Seq<char>, cause: Seq<char> },
    MetadataNotFound { name: Seq<char> },
    InvalidState { name: Seq<char> },
    ChildSpawnFailed { cause: Seq<char> },
    SyscallFailed { call: Seq<char>, cause: Seq<char> },
    TarFailed { stderr: Seq<char> },
    ParseFailed { what: Seq<char> },
    FileNotFound { path: Seq<char> },
}

impl View for RuntimeError {
    type V = RuntimeErrorView;

    open spec fn view(&self) -> RuntimeErrorView {
        match self {
            RuntimeError::MountPointNotFound { subsystem } => RuntimeErrorView::MountPointNotFound {
                subsystem: subsystem@,
            },
            RuntimeError::CgroupWrite { subsystem, path, cause } => RuntimeErrorView::CgroupWrite {
                subsystem: subsystem@,
                path: path@,
                cause: cause@,
            },
            RuntimeError::MetadataNotFound { name } => RuntimeErrorView::MetadataNotFound {
                name: name@,
            },
            RuntimeError::InvalidState { name } => RuntimeErrorView::InvalidState { name: name@ },
            RuntimeError::ChildSpawnFailed { cause } => RuntimeErrorView::ChildSpawnFailed {
                cause: cause@,
            },
            RuntimeError::SyscallFailed { call, cause } => RuntimeErrorView::SyscallFailed {
                call: call@,
                cause: cause@,
            },
            RuntimeError::TarFailed { stderr } => RuntimeErrorView::TarFailed { stderr: stderr@ },
            RuntimeError::ParseFailed { what } => RuntimeErrorView::ParseFailed { what: what@ },
            RuntimeError::FileNotFound { path } => RuntimeErrorView::FileNotFound { path: path@ },
        }
    }
}

/// The one-line text that describes an error.
pub open spec fn message_of(e: RuntimeErrorView) -> Seq<char> {
    match e {
        RuntimeErrorView::MountPointNotFound { subsystem } => "cgroup mount point not found: "@
            + subsystem,
        RuntimeErrorView::CgroupWrite { subsystem, path, cause } => "cgroup "@ + subsystem
            + " write to "@ + path + " failed: "@ + cause,
        RuntimeErrorView::MetadataNotFound { name } => "container "@ + name + " not found"@,
        RuntimeErrorView::InvalidState { name } => "container "@ + name + " is running"@,
        RuntimeErrorView::ChildSpawnFailed { cause } => "could not start the container: "@ + cause,
        RuntimeErrorView::SyscallFailed { call, cause } => call + " failed: "@ + cause,
        RuntimeErrorView::TarFailed { stderr } => "tar failed: "@ + stderr,
        RuntimeErrorView::ParseFailed { what } => "could not parse "@ + what,
        RuntimeErrorView::FileNotFound { path } => "file not found: "@ + path,
    }
}

impl RuntimeError {
    /// A second error with the same contents.
    pub fn duplicate(&self) -> (copy: RuntimeError)
        ensures
            copy@ == self@,
    {
        match self {
            RuntimeError::MountPointNotFound { subsystem } => RuntimeError::MountPointNotFound {
                subsystem: subsystem.clone(),
            },
            RuntimeError::CgroupWrite { subsystem, path, cause } => RuntimeError::CgroupWrite {
                subsystem: subsystem.clone(),
                path: path.clone(),
                cause: cause.clone(),
            },
            RuntimeError::MetadataNotFound { name } => RuntimeError::MetadataNotFound {
                name: name.clone(),
            },
            RuntimeError::InvalidState { name } => RuntimeError::InvalidState { name: name.clone() },
            RuntimeError::ChildSpawnFailed { cause } => RuntimeError::ChildSpawnFailed {
                cause: cause.clone(),
            },
            RuntimeError::SyscallFailed { call, cause } => RuntimeError::SyscallFailed {
                call: call.clone(),
                cause: cause.clone(),
            },
            RuntimeError::TarFailed { stderr } => RuntimeError::TarFailed { stderr: stderr.clone() },
            RuntimeError::ParseFailed { what } => RuntimeError::ParseFailed { what: what.clone() },
            RuntimeError::FileNotFound { path } => RuntimeError::FileNotFound { path: path.clone() },
        }
    }

    /// The one-line text that describes this error.
    pub fn message(&self) -> (text: String)
        ensures
            text@ == message_of(self@),
    {
        match self {
            RuntimeError::MountPointNotFound { subsystem } => String::from_str(
                "cgroup mount point not found: ",
            ).concat(subsystem.as_str()),
            RuntimeError::CgroupWrite { subsystem, path, cause } => String::from_str(
                "cgroup ",
            ).concat(subsystem.as_str()).concat(" write to ").concat(path.as_str()).concat(
                " failed: ",
            ).concat(cause.as_str()),
            RuntimeError::MetadataNotFound { name } => String::from_str("container ").concat(
                name.as_str(),
            ).concat(" not found"),
            RuntimeError::InvalidState { name } => String::from_str("container ").concat(
                name.as_str(),
            ).concat(" is running"),
            RuntimeError::ChildSpawnFailed { cause } => String::from_str(
                "could not start the container: ",
            ).concat(cause.as_str()),
            RuntimeError::SyscallFailed { call, cause } => String::from_str(call.as_str()).concat(
                " failed: ",
            ).concat(cause.as_str()),
            RuntimeError::TarFailed { stderr } => String::from_str("tar failed: ").concat(
                stderr.as_str(),
            ),
            RuntimeError::ParseFailed { what } => String::from_str("could not parse ").concat(
                what.as_str(),
            ),
            RuntimeError::FileNotFound { path } => String::from_str("file not found: ").concat(
                path.as_str(),
            ),
        }
    }
}

} // verus!
