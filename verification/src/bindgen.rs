//! A build of the bindings, step by step.
//!
//! The library neither looks for the tool nor runs it. A `Build` asks for
//! one piece of outside work at a time, as an `Action`, and is advanced
//! with the `Outcome` of that work: first the tool's executable is
//! located, then the tool is asked for its version, and only a tool of the
//! expected version is run on the artifact. Every failure ends the build,
//! and nothing is tried twice.

use crate::artifact::{artifact_path, locate_artifact};
use crate::command::{bindgen_args, bindgen_arguments, Invocation, InvocationView};
use crate::error::{result_view, BindgenError, BindgenErrorView};
use crate::profile::{BuildProfile, CrateData, Target};
use crate::text::utf8_text;
use crate::version::{
    check_version, printed_version, reported_version, version_verdict, BINDGEN_VERSION,
    NO_VERSION_CAUSE, VERSION_FLAG,
};
use vstd::prelude::*;
use vstd::string::*;
use vstd::utf8::*;

verus! {

/// The name of the tool's executable.
pub const BINDGEN_TOOL: &'static str = "wasm-bindgen";

/// The label of the operation that finds the tool's executable.
pub const LOCATE_LABEL: &'static str = "Locating the wasm-bindgen CLI";

/// The label of the operation that asks the tool for its version.
pub const VERSION_LABEL: &'static str = "Checking the version of the wasm-bindgen CLI";

/// The label of the operation that runs the tool on the artifact.
pub const RUN_LABEL: &'static str = "Running the wasm-bindgen CLI";

/// How a piece of outside work ended.
#[derive(Debug, PartialEq, Eq)]
pub enum Outcome {
    /// The work was done. `output` is what it yielded: the path of the
    /// executable that was located, or what the tool printed when it was
    /// asked for its version. What a run on the artifact yields is not
    /// looked at.
    Done { output: String },
    /// The work could not be done, for the reason in `cause`.
    Failed { cause: String },
}

/// What an `Outcome` stands for.
pub enum OutcomeView {
    Done { output: Seq<char> },
    Failed { cause: Seq<char> },
}

impl View for Outcome {
    type V = OutcomeView;

    open spec fn view(&self) -> OutcomeView {
        match self {
            Outcome::Done { output } => OutcomeView::Done { output: output@ },
            Outcome::Failed { cause } => OutcomeView::Failed { cause: cause@ },
        }
    }
}

/// The outside work that a build asks for next.
#[derive(Debug, PartialEq, Eq)]
pub enum Action {
    /// Find the executable of the tool named `tool`.
    Locate { tool: String },
    /// Run `invocation`, which asks the tool for its version, and keep
    /// what it prints.
    QueryVersion { invocation: Invocation },
    /// Run `invocation`, which generates the bindings, under `label`.
    Run { invocation: Invocation, label: String },
    /// Nothing more: the build has ended with this result.
    Finish(Result<(), BindgenError>),
}

/// What an `Action` stands for.
pub enum ActionView {
    Locate { tool: Seq<char> },
    QueryVersion { invocation: InvocationView },
    Run { invocation: InvocationView, label: Seq<char> },
    Finish(Result<(), BindgenErrorView>),
}

impl View for Action {
    type V = ActionView;

    open spec fn view(&self) -> ActionView {
        match self {
            Action::Locate { tool } => ActionView::Locate { tool: tool@ },
            Action::QueryVersion { invocation } => ActionView::QueryVersion {
                invocation: invocation@,
            },
            Action::Run { invocation, label } => ActionView::Run {
                invocation: invocation@,
                label: label@,
            },
            Action::Finish(result) => ActionView::Finish(result_view(*result)),
        }
    }
}

/// Where a build stands.
#[derive(Debug)]
enum Stage {
    Locating { args: Vec<String> },
    Checking { invocation: Invocation },
    Running,
    Finished { result: Result<(), BindgenError> },
}

/// A build of the bindings for one crate. It is made by
/// `wasm_bindgen_build` and changes only through `advance`.
#[derive(Debug)]
pub struct Build {
    stage: Stage,
}

/// What a `Build` stands for: the outside work that it waits for, and what
/// it holds for the work to come.
pub enum BuildView {
    /// Waits for the tool's executable; `args` are the arguments that the
    /// tool will get.
    Locating { args: Seq<Seq<char>> },
    /// Waits for the version of the tool; `invocation` is the command that
    /// will run if the version is the expected one.
    Checking { invocation: InvocationView },
    /// Waits for the tool to exit.
    Running,
    /// Has ended.
    Finished { result: Result<(), BindgenErrorView> },
}

impl View for Build {
    type V = BuildView;

    closed spec fn view(&self) -> BuildView {
        match self.stage {
            Stage::Locating { args } => BuildView::Locating { args: args.deep_view() },
            Stage::Checking { invocation } => BuildView::Checking { invocation: invocation@ },
            Stage::Running => BuildView::Running,
            Stage::Finished { result } => BuildView::Finished { result: result_view(result) },
        }
    }
}

/// The arguments that the tool gets for the crate `data`, built under
/// `profile`.
pub open spec fn planned_args(
    data: CrateData,
    out_dir: Seq<char>,
    out_name: Option<Seq<char>>,
    disable_dts: bool,
    target: Target,
    profile: BuildProfile,
) -> Seq<Seq<char>> {
    bindgen_args(
        artifact_path(data.target_directory@, data.crate_name@, profile),
        out_dir,
        out_name,
        disable_dts,
        target,
        data.profile_config(profile),
    )
}

/// A build that has ended with `result`, and the action that says so.
pub open spec fn ended(result: Result<(), BindgenErrorView>) -> (BuildView, ActionView) {
    (BuildView::Finished { result }, ActionView::Finish(result))
}

/// A build that has ended because the operation labelled `context` failed.
pub open spec fn failed(context: Seq<char>, cause: Seq<char>) -> (BuildView, ActionView) {
    ended(Err(BindgenErrorView::ExternalProcess { context, cause }))
}

/// The command that asks the tool at `program` for its version.
pub open spec fn version_query(program: Seq<char>) -> InvocationView {
    InvocationView { program, args: seq![VERSION_FLAG@] }
}

/// How a build begins. `out_dir` is the output directory as the bytes of
/// its path: they become an argument of the tool, which takes text, so a
/// directory that is not UTF-8 ends the build at once.
pub open spec fn start(
    data: CrateData,
    out_dir: Seq<u8>,
    out_name: Option<Seq<char>>,
    disable_dts: bool,
    target: Target,
    profile: BuildProfile,
) -> (BuildView, ActionView) {
    if valid_utf8(out_dir) {
        (
            BuildView::Locating {
                args: planned_args(
                    data,
                    decode_utf8(out_dir),
                    out_name,
                    disable_dts,
                    target,
                    profile,
                ),
            },
            ActionView::Locate { tool: BINDGEN_TOOL@ },
        )
    } else {
        ended(Err(BindgenErrorView::Configuration))
    }
}

/// How a build goes on when the work that it asked for ends with
/// `outcome`. A build that has ended stays as it is.
pub open spec fn step(build: BuildView, outcome: OutcomeView) -> (BuildView, ActionView) {
    match build {
        BuildView::Locating { args } => match outcome {
            OutcomeView::Done { output } => (
                BuildView::Checking { invocation: InvocationView { program: output, args } },
                ActionView::QueryVersion { invocation: version_query(output) },
            ),
            OutcomeView::Failed { cause } => failed(LOCATE_LABEL@, cause),
        },
        BuildView::Checking { invocation } => match outcome {
            OutcomeView::Done { output } => match printed_version(output) {
                Some(reported) => match version_verdict(reported, BINDGEN_VERSION@) {
                    Ok(()) => (
                        BuildView::Running,
                        ActionView::Run { invocation, label: RUN_LABEL@ },
                    ),
                    Err(mismatch) => ended(Err(mismatch)),
                },
                None => failed(VERSION_LABEL@, NO_VERSION_CAUSE@),
            },
            OutcomeView::Failed { cause } => failed(VERSION_LABEL@, cause),
        },
        BuildView::Running => match outcome {
            OutcomeView::Done { .. } => ended(Ok(())),
            OutcomeView::Failed { cause } => failed(RUN_LABEL@, cause),
        },
        BuildView::Finished { result } => ended(result),
    }
}

/// What a build asks for in answer to each of `outcomes`, which reach
/// it one after the other.
pub open spec fn replies(build: BuildView, outcomes: Seq<OutcomeView>) -> Seq<ActionView>
    decreases outcomes.len(),
{
    if outcomes.len() == 0 {
        seq![]
    } else {
        let next = step(build, outcomes.first());
        seq![next.1] + replies(next.0, outcomes.drop_first())
    }
}

/// Ends a build with `result`.
fn end(result: Result<(), BindgenError>) -> (last: (Build, Action))
    ensures
        (last.0@, last.1@) == ended(result_view(result)),
{
    let kept = match &result {
        Ok(()) => Ok(()),
        Err(error) => Err(error.clone()),
    };
    (Build { stage: Stage::Finished { result: kept } }, Action::Finish(result))
}

/// Ends a build because the operation labelled `context` failed.
fn fail(context: &str, cause: String) -> (last: (Build, Action))
    ensures
        (last.0@, last.1@) == failed(context@, cause@),
{
    end(Err(BindgenError::ExternalProcess { context: String::from_str(context), cause }))
}

/// Begins the build of the bindings for the crate `data`, compiled under
/// `profile`. The bindings go to `out_dir`, given as the bytes of its
/// path, under the name `out_name` if there is one.
///
/// The result is the build and the first thing that it asks for.
pub fn wasm_bindgen_build(
    data: &CrateData,
    out_dir: &[u8],
    out_name: &Option<String>,
    disable_dts: bool,
    target: Target,
    profile: BuildProfile,
) -> (first: (Build, Action))
    ensures
        (first.0@, first.1@) == start(
            *data,
            out_dir@,
            out_name.deep_view(),
            disable_dts,
            target,
            profile,
        ),
{
    match utf8_text(out_dir) {
        None => end(Err(BindgenError::Configuration)),
        Some(out_dir) => {
            let wasm_path = locate_artifact(
                data.target_directory.as_str(),
                data.crate_name.as_str(),
                profile,
            );
            let config = data.configured_profile(profile);
            let args = bindgen_arguments(
                wasm_path.as_str(),
                out_dir,
                out_name,
                disable_dts,
                target,
                config,
            );
            (
                Build { stage: Stage::Locating { args } },
                Action::Locate { tool: String::from_str(BINDGEN_TOOL) },
            )
        },
    }
}

impl Build {
    /// Takes the outcome of the work that the build asked for last, and
    /// says what the build asks for next.
    pub fn advance(self, outcome: Outcome) -> (next: (Build, Action))
        ensures
            (next.0@, next.1@) == step(self@, outcome@),
    {
        match self.stage {
            Stage::Locating { args } => match outcome {
                Outcome::Done { output } => {
                    let mut flags: Vec<String> = Vec::new();
                    flags.push(String::from_str(VERSION_FLAG));
                    let query = Invocation { program: output.clone(), args: flags };
                    assert(query@.args =~= seq![VERSION_FLAG@]);
                    (
                        Build {
                            stage: Stage::Checking {
                                invocation: Invocation { program: output, args },
                            },
                        },
                        Action::QueryVersion { invocation: query },
                    )
                },
                Outcome::Failed { cause } => fail(LOCATE_LABEL, cause),
            },
            Stage::Checking { invocation } => match outcome {
                Outcome::Done { output } => match reported_version(output.as_str()) {
                    Some(reported) => match check_version(reported.as_str(), BINDGEN_VERSION) {
                        Ok(()) => (
                            Build { stage: Stage::Running },
                            Action::Run { invocation, label: String::from_str(RUN_LABEL) },
                        ),
                        Err(mismatch) => end(Err(mismatch)),
                    },
                    None => fail(VERSION_LABEL, String::from_str(NO_VERSION_CAUSE)),
                },
                Outcome::Failed { cause } => fail(VERSION_LABEL, cause),
            },
            Stage::Running => match outcome {
                Outcome::Done { .. } => end(Ok(())),
                Outcome::Failed { cause } => fail(RUN_LABEL, cause),
            },
            Stage::Finished { result } => end(result),
        }
    }
}

} // verus!
