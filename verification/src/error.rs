//! The failures the tool reports, each with its message and exit code.

use vstd::prelude::*;
use vstd::string::*;

verus! {

/// Everything that can end an invocation unsuccessfully.
///
/// The variants that carry a `String` hold the platform's own error text for
/// the step that failed; the message shows it after the fixed sentence.
#[derive(Debug, PartialEq, Eq)]
pub enum LinkError {
    /// None of the link-kind flags was given.
    NoLinkTypeSpecified,
    /// More than one link-kind flag was given.
    MultipleLinkTypesSpecified,
    /// The directory that becomes the junction could not be created.
    DirectoryCreateFailed(String),
    /// The new directory could not be opened for writing.
    DirectoryOpenFailed(String),
    /// The platform refused the reparse data.
    ReparsePointSetFailed(String),
    /// The target does not fit the 16-bit length fields of the reparse buffer.
    TargetPathTooLong,
    /// The platform could not create the file symlink.
    SymbolicLinkFailed(String),
    /// The platform could not create the hard link.
    HardLinkFailed(String),
    /// The platform could not create the directory symlink.
    SoftLinkFailed(String),
    /// The tool was run on a platform without these link kinds.
    UnsupportedPlatform,
}

impl LinkError {
    /// Whether the failure comes from the junction path.
    pub open spec fn is_junction_failure(&self) -> bool {
        match self {
            LinkError::DirectoryCreateFailed(_) => true,
            LinkError::DirectoryOpenFailed(_) => true,
            LinkError::ReparsePointSetFailed(_) => true,
            LinkError::TargetPathTooLong => true,
            _ => false,
        }
    }

    /// The platform's error text, where the failure carries one.
    pub open spec fn platform_text(&self) -> Option<Seq<char>> {
        match self {
            LinkError::DirectoryCreateFailed(detail) => Some(detail@),
            LinkError::DirectoryOpenFailed(detail) => Some(detail@),
            LinkError::ReparsePointSetFailed(detail) => Some(detail@),
            LinkError::SymbolicLinkFailed(detail) => Some(detail@),
            LinkError::HardLinkFailed(detail) => Some(detail@),
            LinkError::SoftLinkFailed(detail) => Some(detail@),
            _ => None,
        }
    }

    /// The process exit code that belongs to this failure.
    pub open spec fn spec_exit_code(&self) -> int {
        match self {
            LinkError::NoLinkTypeSpecified => 1,
            LinkError::MultipleLinkTypesSpecified => 1,
            LinkError::DirectoryCreateFailed(_) => 2,
            LinkError::DirectoryOpenFailed(_) => 2,
            LinkError::ReparsePointSetFailed(_) => 2,
            LinkError::TargetPathTooLong => 2,
            LinkError::SymbolicLinkFailed(_) => 3,
            LinkError::HardLinkFailed(_) => 4,
            LinkError::SoftLinkFailed(_) => 5,
            LinkError::UnsupportedPlatform => 7,
        }
    }

    /// The text shown to the operator: a fixed sentence, followed by the
    /// platform's error text where the failure carries one.
    pub open spec fn spec_message(&self) -> Seq<char> {
        match self {
            LinkError::NoLinkTypeSpecified =>
                "No link type specified. Use --soft, --hard, --symbolic, or --junction."@,
            LinkError::MultipleLinkTypesSpecified =>
                "Multiple link types specified. Choose only one."@,
            LinkError::DirectoryCreateFailed(detail) =>
                "Failed to create directory for junction point: "@ + detail@,
            LinkError::DirectoryOpenFailed(detail) =>
                "Failed to open junction directory: "@ + detail@,
            LinkError::ReparsePointSetFailed(detail) =>
                "Failed to set reparse point for junction: "@ + detail@,
            LinkError::TargetPathTooLong => "Target path is too long for a junction point"@,
            LinkError::SymbolicLinkFailed(detail) => "Failed to create symbolic link: "@ + detail@,
            LinkError::HardLinkFailed(detail) => "Failed to create hard link: "@ + detail@,
            LinkError::SoftLinkFailed(detail) => "Failed to create soft link: "@ + detail@,
            LinkError::UnsupportedPlatform => "This utility only works on Windows."@,
        }
    }

    /// The exit code to leave the process with: 1 for a refused choice of
    /// flags, 2 for every junction failure, 3, 4 and 5 for a failed symbolic,
    /// hard and soft link, 7 on an unsupported platform.
    pub fn exit_code(&self) -> (code: i32)
        ensures
            code == self.spec_exit_code(),
            self.is_junction_failure() <==> code == 2,
    {
        match self {
            LinkError::NoLinkTypeSpecified => 1,
            LinkError::MultipleLinkTypesSpecified => 1,
            LinkError::DirectoryCreateFailed(_) => 2,
            LinkError::DirectoryOpenFailed(_) => 2,
            LinkError::ReparsePointSetFailed(_) => 2,
            LinkError::TargetPathTooLong => 2,
            LinkError::SymbolicLinkFailed(_) => 3,
            LinkError::HardLinkFailed(_) => 4,
            LinkError::SoftLinkFailed(_) => 5,
            LinkError::UnsupportedPlatform => 7,
        }
    }

    /// The text to show to the operator. Where the failure carries the
    /// platform's error text, the message ends with that text, unchanged.
    pub fn message(&self) -> (text: String)
        ensures
            text@ == self.spec_message(),
            self.platform_text() matches Some(detail) ==> {
                &&& text@.len() >= detail.len()
                &&& text@.subrange(text@.len() - detail.len(), text@.len() as int) == detail
            },
            self.is_junction_failure() && !(self is TargetPathTooLong)
                ==> self.platform_text() is Some,
    {
        match self {
            LinkError::NoLinkTypeSpecified => String::from_str(
                "No link type specified. Use --soft, --hard, --symbolic, or --junction.",
            ),
            LinkError::MultipleLinkTypesSpecified => String::from_str(
                "Multiple link types specified. Choose only one.",
            ),
            LinkError::DirectoryCreateFailed(detail) => String::from_str(
                "Failed to create directory for junction point: ",
            ).concat(detail.as_str()),
            LinkError::DirectoryOpenFailed(detail) => String::from_str(
                "Failed to open junction directory: ",
            ).concat(detail.as_str()),
            LinkError::ReparsePointSetFailed(detail) => String::from_str(
                "Failed to set reparse point for junction: ",
            ).concat(detail.as_str()),
            LinkError::TargetPathTooLong => String::from_str(
                "Target path is too long for a junction point",
            ),
            LinkError::SymbolicLinkFailed(detail) => String::from_str(
                "Failed to create symbolic link: ",
            ).concat(detail.as_str()),
            LinkError::HardLinkFailed(detail) => String::from_str(
                "Failed to create hard link: ",
            ).concat(detail.as_str()),
            LinkError::SoftLinkFailed(detail) => String::from_str(
                "Failed to create soft link: ",
            ).concat(detail.as_str()),
            LinkError::UnsupportedPlatform => String::from_str(
                "This utility only works on Windows.",
            ),
        }
    }
}

/// The exit code of an invocation that ended with `outcome`: zero on
/// success, the failure's own code otherwise.
pub open spec fn spec_process_exit_code(outcome: Result<(), LinkError>) -> int {
    match outcome {
        Ok(_) => 0,
        Err(error) => error.spec_exit_code(),
    }
}

/// The exit code of an invocation that ended with `outcome`.
pub fn process_exit_code(outcome: &Result<(), LinkError>) -> (code: i32)
    ensures
        code == spec_process_exit_code(*outcome),
{
    match outcome {
        Ok(_) => 0,
        Err(error) => error.exit_code(),
    }
}

} // verus!
