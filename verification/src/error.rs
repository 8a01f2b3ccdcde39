//! What can go wrong in a build, and what the user is told of it.

use vstd::prelude::*;
use vstd::string::*;

verus! {

/// What the user is told when the output directory is not text.
pub const CONFIGURATION_MESSAGE: &'static str =
    "The output directory is not valid UTF-8, so it cannot be passed to wasm-bindgen.";

/// What the user is told when the installed tool has another version than
/// the one that the bindings are generated for.
pub const VERSION_MISMATCH_MESSAGE: &'static str =
    "Something went wrong! wasm-bindgen CLI and dependency version don't match. This is likely not your fault! You should file an issue: https://github.com/rustwasm/wasm-pack/issues/new?template=bug_report.md.";

/// What the user is told when the probe for target support is asked for.
pub const UNIMPLEMENTED_MESSAGE: &'static str =
    "Checking whether wasm-bindgen supports the web target is not implemented.";

/// What stands between the label of a failed operation and its cause.
pub const CAUSE_SEPARATOR: &'static str = ": ";

/// Why a build ended without bindings.
#[derive(Debug, PartialEq, Eq)]
pub enum BindgenError {
    /// The output directory is not text, so it cannot be an argument.
    Configuration,
    /// The installed tool is not the version that is expected. Bindings of
    /// another version may be silently wrong, so the tool is not run.
    VersionMismatch { expected: String, reported: String },
    /// Work outside the library failed: the tool could not be found, could
    /// not be started, or did not succeed. `context` names the operation
    /// and `cause` is what the operation reported.
    ExternalProcess { context: String, cause: String },
    /// The probe that was asked for does not exist yet.
    UnimplementedCapability,
}

/// What a `BindgenError` stands for.
pub enum BindgenErrorView {
    Configuration,
    VersionMismatch { expected: Seq<char>, reported: Seq<char> },
    ExternalProcess { context: Seq<char>, cause: Seq<char> },
    UnimplementedCapability,
}

impl View for BindgenError {
    type V = BindgenErrorView;

    open spec fn view(&self) -> BindgenErrorView {
        match self {
            BindgenError::Configuration => BindgenErrorView::Configuration,
            BindgenError::VersionMismatch { expected, reported } => BindgenErrorView::VersionMismatch {
                expected: expected@,
                reported: reported@,
            },
            BindgenError::ExternalProcess { context, cause } => BindgenErrorView::ExternalProcess {
                context: context@,
                cause: cause@,
            },
            BindgenError::UnimplementedCapability => BindgenErrorView::UnimplementedCapability,
        }
    }
}

/// What a result stands for: success, or what the error stands for.
pub open spec fn result_view(result: Result<(), BindgenError>) -> Result<(), BindgenErrorView> {
    match result {
        Ok(()) => Ok(()),
        Err(error) => Err(error@),
    }
}

/// The one message that the user sees for `error`. An outside failure is
/// reported under the label of the operation that failed.
pub open spec fn message_text(error: BindgenErrorView) -> Seq<char> {
    match error {
        BindgenErrorView::Configuration => CONFIGURATION_MESSAGE@,
        BindgenErrorView::VersionMismatch { .. } => VERSION_MISMATCH_MESSAGE@,
        BindgenErrorView::ExternalProcess { context, cause } => context + CAUSE_SEPARATOR@ + cause,
        BindgenErrorView::UnimplementedCapability => UNIMPLEMENTED_MESSAGE@,
    }
}

impl Clone for BindgenError {
    fn clone(&self) -> (copy: Self)
        ensures
            copy@ == self@,
    {
        match self {
            BindgenError::Configuration => BindgenError::Configuration,
            BindgenError::VersionMismatch { expected, reported } => BindgenError::VersionMismatch {
                expected: expected.clone(),
                reported: reported.clone(),
            },
            BindgenError::ExternalProcess { context, cause } => BindgenError::ExternalProcess {
                context: context.clone(),
                cause: cause.clone(),
            },
            BindgenError::UnimplementedCapability => BindgenError::UnimplementedCapability,
        }
    }
}

impl BindgenError {
    /// The message for the user.
    pub fn message(&self) -> (text: String)
        ensures
            text@ == message_text(self@),
    {
        match self {
            BindgenError::Configuration => String::from_str(CONFIGURATION_MESSAGE),
            BindgenError::VersionMismatch { .. } => String::from_str(VERSION_MISMATCH_MESSAGE),
            BindgenError::ExternalProcess { context, cause } => {
                let mut text = context.clone();
                text.append(CAUSE_SEPARATOR);
                text.append(cause.as_str());
                text
            },
            BindgenError::UnimplementedCapability => String::from_str(UNIMPLEMENTED_MESSAGE),
        }
    }
}

} // verus!
