//! Errors of rootless setup.
use vstd::prelude::*;

verus! {

/// Which of the two id mapping lists an error is about.
#[derive(Clone, Copy, Debug, PartialEq, Eq, Structural)]
pub enum MappingKind {
    Uid,
    Gid,
}

/// Why rootless setup stopped. Every error ends the current attempt.
#[derive(Clone, Debug)]
pub enum RootlessError {
    /// The configuration has no Linux section.
    MissingPlatformSection,
    /// Rootless operation was required but no user namespace is declared.
    MissingUserNamespace,
    /// A mapping list is absent or empty.
    MissingMapping(MappingKind),
    /// A mapping write was asked for with no entries.
    EmptyMappingList,
    /// A `uid=`/`gid=` mount option whose value is not a number.
    InvalidMountOption { mount: String, option: String },
    /// A `uid=`/`gid=` mount option whose id no entry maps.
    UnmappedMountId { mount: String, id: u32 },
    /// A supplementary group that the GID mappings do not cover.
    UnmappedSupplementaryGroup(u32),
    /// An unprivileged user asked for supplementary groups.
    SupplementaryGroupsForbidden,
    /// The helper search path is not set.
    PathLookupFailure,
    /// A mapping helper program was not found.
    MissingHelperBinary(String),
    /// A mapping helper failed to run or exited with a non-zero status.
    HelperExecutionFailure { status: Option<i32>, stderr: String },
    /// The user-namespace clone switch holds something other than `0` or `1`.
    SysctlParseError(String),
    /// Writing a mapping file failed.
    MappingWriteFailure { path: String, cause: String },
}

/// The value of a [`RootlessError`], with its text as character sequences.
pub enum Fault {
    MissingPlatformSection,
    MissingUserNamespace,
    MissingMapping(MappingKind),
    EmptyMappingList,
    InvalidMountOption { mount: Seq<char>, option: Seq<char> },
    UnmappedMountId { mount: Seq<char>, id: u32 },
    UnmappedSupplementaryGroup(u32),
    SupplementaryGroupsForbidden,
    PathLookupFailure,
    MissingHelperBinary(Seq<char>),
    HelperExecutionFailure { status: Option<i32>, stderr: Seq<char> },
    SysctlParseError(Seq<char>),
    MappingWriteFailure { path: Seq<char>, cause: Seq<char> },
}

impl View for RootlessError {
    type V = Fault;

    open spec fn view(&self) -> Fault {
        match self {
            RootlessError::MissingPlatformSection => Fault::MissingPlatformSection,
            RootlessError::MissingUserNamespace => Fault::MissingUserNamespace,
            RootlessError::MissingMapping(k) => Fault::MissingMapping(*k),
            RootlessError::EmptyMappingList => Fault::EmptyMappingList,
            RootlessError::InvalidMountOption { mount, option } => Fault::InvalidMountOption {
                mount: mount@,
                option: option@,
            },
            RootlessError::UnmappedMountId { mount, id } => Fault::UnmappedMountId {
                mount: mount@,
                id: *id,
            },
            RootlessError::UnmappedSupplementaryGroup(g) => Fault::UnmappedSupplementaryGroup(*g),
            RootlessError::SupplementaryGroupsForbidden => Fault::SupplementaryGroupsForbidden,
            RootlessError::PathLookupFailure => Fault::PathLookupFailure,
            RootlessError::MissingHelperBinary(n) => Fault::MissingHelperBinary(n@),
            RootlessError::HelperExecutionFailure { status, stderr } => Fault::HelperExecutionFailure {
                status: *status,
                stderr: stderr@,
            },
            RootlessError::SysctlParseError(v) => Fault::SysctlParseError(v@),
            RootlessError::MappingWriteFailure { path, cause } => Fault::MappingWriteFailure {
                path: path@,
                cause: cause@,
            },
        }
    }
}

/// The fault of a result that carries no value: `None` on success.
pub open spec fn fault_of(r: Result<(), RootlessError>) -> Option<Fault> {
    match r {
        Ok(_) => None,
        Err(e) => Some(e@),
    }
}

} // verus!
