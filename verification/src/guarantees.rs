//! What holds of every build, whatever the options and whatever happens
//! outside.
//!
//! The argument list mixes the tool's flags with texts that the caller
//! chose: the output directory and the output name. A statement that
//! counts a flag in the list therefore leaves out the callers who gave
//! that very flag as a directory or as a name.

use crate::artifact::{artifact_path, lemma_artifact_path_ends_in_extension};
use crate::bindgen::{
    planned_args, replies, start, step, ActionView, BuildView, OutcomeView, RUN_LABEL,
};
use crate::command::{
    dts_flag, lemma_args_layout, names_output, occurs_once, pair_at, target_flag, InvocationView,
};
use crate::error::BindgenErrorView;
use crate::profile::{BuildProfile, CrateData, Target};
use crate::version::{printed_version, BINDGEN_VERSION};
use vstd::prelude::*;
use vstd::utf8::*;

verus! {

/// Whether the caller gave `text` as the output directory or as the output
/// name.
pub open spec fn given_as_value(
    out_dir: Seq<char>,
    out_name: Option<Seq<char>>,
    text: Seq<char>,
) -> bool {
    out_dir == text || (names_output(out_name) && out_name->0 == text)
}

/// The length of each of the tool's flags, its third character and its
/// last one: enough to tell any two of them apart, and each of them from
/// the path of an artifact.
proof fn lemma_flag_shapes()
    ensures
        "--out-dir"@.len() == 9 && "--out-dir"@[2] == 'o' && "--out-dir"@.last() == 'r',
        "--typescript"@.len() == 12 && "--typescript"@[2] == 't' && "--typescript"@.last() == 't',
        "--no-typescript"@.len() == 15 && "--no-typescript"@.last() == 't',
        "--nodejs"@.len() == 8 && "--nodejs"@.last() == 's',
        "--no-modules"@.len() == 12 && "--no-modules"@[2] == 'n' && "--no-modules"@.last() == 's',
        "--web"@.len() == 5 && "--web"@.last() == 'b',
        "--browser"@.len() == 9 && "--browser"@[2] == 'b' && "--browser"@.last() == 'r',
        "--out-name"@.len() == 10 && "--out-name"@.last() == 'e',
        "--debug"@.len() == 7 && "--debug"@.last() == 'g',
        "--no-demangle"@.len() == 13 && "--no-demangle"@.last() == 'e',
        "--keep-debug"@.len() == 12 && "--keep-debug"@[2] == 'k' && "--keep-debug"@.last() == 'g',
        ".wasm"@.len() == 5 && ".wasm"@.last() == 'm',
{
    reveal_strlit("--out-dir");
    reveal_strlit("--typescript");
    reveal_strlit("--no-typescript");
    reveal_strlit("--nodejs");
    reveal_strlit("--no-modules");
    reveal_strlit("--web");
    reveal_strlit("--browser");
    reveal_strlit("--out-name");
    reveal_strlit("--debug");
    reveal_strlit("--no-demangle");
    reveal_strlit("--keep-debug");
    reveal_strlit(".wasm");
}

/// Different targets have different flags.
pub proof fn lemma_target_flags_differ(a: Target, b: Target)
    requires
        target_flag(a) == target_flag(b),
    ensures
        a == b,
{
    lemma_flag_shapes();
}

/// Of the four target flags the argument list holds the one of the chosen
/// target and no other, unless the caller gave another target's flag as
/// the output directory or as the output name.
pub proof fn lemma_only_the_chosen_target(
    data: CrateData,
    out_dir: Seq<char>,
    out_name: Option<Seq<char>>,
    disable_dts: bool,
    target: Target,
    profile: BuildProfile,
    other: Target,
)
    requires
        other != target ==> !given_as_value(out_dir, out_name, target_flag(other)),
    ensures
        planned_args(data, out_dir, out_name, disable_dts, target, profile).contains(
            target_flag(other),
        ) <==> other == target,
{
    let args = planned_args(data, out_dir, out_name, disable_dts, target, profile);
    let wasm_path = artifact_path(data.target_directory@, data.crate_name@, profile);
    lemma_flag_shapes();
    lemma_artifact_path_ends_in_extension(data.target_directory@, data.crate_name@, profile);
    lemma_args_layout(
        wasm_path,
        out_dir,
        out_name,
        disable_dts,
        target,
        data.profile_config(profile),
    );
    if other == target {
        assert(args[4] == target_flag(other));
    } else {
        assert forall|i: int| 0 <= i < args.len() implies args[i] != target_flag(other) by {}
    }
}

/// The flag of the chosen target stands in the argument list exactly once,
/// unless the caller gave that flag as the output directory or as the
/// output name.
pub proof fn lemma_target_flag_once(
    data: CrateData,
    out_dir: Seq<char>,
    out_name: Option<Seq<char>>,
    disable_dts: bool,
    target: Target,
    profile: BuildProfile,
)
    requires
        !given_as_value(out_dir, out_name, target_flag(target)),
    ensures
        occurs_once(
            planned_args(data, out_dir, out_name, disable_dts, target, profile),
            target_flag(target),
        ),
{
    let args = planned_args(data, out_dir, out_name, disable_dts, target, profile);
    let wasm_path = artifact_path(data.target_directory@, data.crate_name@, profile);
    lemma_flag_shapes();
    lemma_artifact_path_ends_in_extension(data.target_directory@, data.crate_name@, profile);
    lemma_args_layout(
        wasm_path,
        out_dir,
        out_name,
        disable_dts,
        target,
        data.profile_config(profile),
    );
    assert(args[4] == target_flag(target));
    assert forall|j: int| 0 <= j < args.len() && args[j] == target_flag(target) implies j == 4 by {}
}

/// With type declarations switched off the argument list holds
/// `--no-typescript` and not `--typescript`; with them switched on it is
/// the other way round. This leaves out the caller who gave the flag that
/// was not chosen as the output directory or as the output name.
pub proof fn lemma_only_the_chosen_dts_flag(
    data: CrateData,
    out_dir: Seq<char>,
    out_name: Option<Seq<char>>,
    disable_dts: bool,
    target: Target,
    profile: BuildProfile,
)
    requires
        !given_as_value(out_dir, out_name, dts_flag(!disable_dts)),
    ensures
        ({
            let args = planned_args(data, out_dir, out_name, disable_dts, target, profile);
            &&& disable_dts ==> args.contains("--no-typescript"@) && !args.contains(
                "--typescript"@,
            )
            &&& !disable_dts ==> args.contains("--typescript"@) && !args.contains(
                "--no-typescript"@,
            )
        }),
{
    let args = planned_args(data, out_dir, out_name, disable_dts, target, profile);
    let wasm_path = artifact_path(data.target_directory@, data.crate_name@, profile);
    lemma_flag_shapes();
    lemma_artifact_path_ends_in_extension(data.target_directory@, data.crate_name@, profile);
    lemma_args_layout(
        wasm_path,
        out_dir,
        out_name,
        disable_dts,
        target,
        data.profile_config(profile),
    );
    assert(args[3] == dts_flag(disable_dts));
    assert forall|i: int| 0 <= i < args.len() implies args[i] != dts_flag(!disable_dts) by {}
}

/// The flag for type declarations stands in the argument list exactly
/// once, unless the caller gave that flag as the output directory or as
/// the output name.
pub proof fn lemma_dts_flag_once(
    data: CrateData,
    out_dir: Seq<char>,
    out_name: Option<Seq<char>>,
    disable_dts: bool,
    target: Target,
    profile: BuildProfile,
)
    requires
        !given_as_value(out_dir, out_name, dts_flag(disable_dts)),
    ensures
        occurs_once(
            planned_args(data, out_dir, out_name, disable_dts, target, profile),
            dts_flag(disable_dts),
        ),
{
    let args = planned_args(data, out_dir, out_name, disable_dts, target, profile);
    let wasm_path = artifact_path(data.target_directory@, data.crate_name@, profile);
    lemma_flag_shapes();
    lemma_artifact_path_ends_in_extension(data.target_directory@, data.crate_name@, profile);
    lemma_args_layout(
        wasm_path,
        out_dir,
        out_name,
        disable_dts,
        target,
        data.profile_config(profile),
    );
    assert(args[3] == dts_flag(disable_dts));
    assert forall|j: int| 0 <= j < args.len() && args[j] == dts_flag(disable_dts) implies j
        == 3 by {}
}

/// Without an output name, and an empty one is none, `--out-name` stands
/// nowhere in the argument list, unless the caller gave it as the output
/// directory.
pub proof fn lemma_no_out_name_no_flag(
    data: CrateData,
    out_dir: Seq<char>,
    out_name: Option<Seq<char>>,
    disable_dts: bool,
    target: Target,
    profile: BuildProfile,
)
    requires
        !names_output(out_name),
        out_dir != "--out-name"@,
    ensures
        !planned_args(data, out_dir, out_name, disable_dts, target, profile).contains(
            "--out-name"@,
        ),
{
    let args = planned_args(data, out_dir, out_name, disable_dts, target, profile);
    let wasm_path = artifact_path(data.target_directory@, data.crate_name@, profile);
    lemma_flag_shapes();
    lemma_artifact_path_ends_in_extension(data.target_directory@, data.crate_name@, profile);
    lemma_args_layout(
        wasm_path,
        out_dir,
        out_name,
        disable_dts,
        target,
        data.profile_config(profile),
    );
    assert forall|i: int| 0 <= i < args.len() implies args[i] != "--out-name"@ by {}
}

/// With an output name the argument list holds `--out-name` with the name
/// right behind it, at one place only: behind the five arguments that
/// every list has. This leaves out the caller who gave `--out-name` as the
/// output directory and the flag for type declarations as the name.
pub proof fn lemma_out_name_pair_once(
    data: CrateData,
    out_dir: Seq<char>,
    out_name: Option<Seq<char>>,
    disable_dts: bool,
    target: Target,
    profile: BuildProfile,
)
    requires
        names_output(out_name),
        !(out_dir == "--out-name"@ && out_name->0 == dts_flag(disable_dts)),
    ensures
        ({
            let args = planned_args(data, out_dir, out_name, disable_dts, target, profile);
            &&& pair_at(args, 5, "--out-name"@, out_name->0)
            &&& forall|i: int| pair_at(args, i, "--out-name"@, out_name->0) ==> i == 5
        }),
{
    let args = planned_args(data, out_dir, out_name, disable_dts, target, profile);
    let wasm_path = artifact_path(data.target_directory@, data.crate_name@, profile);
    lemma_flag_shapes();
    lemma_artifact_path_ends_in_extension(data.target_directory@, data.crate_name@, profile);
    lemma_args_layout(
        wasm_path,
        out_dir,
        out_name,
        disable_dts,
        target,
        data.profile_config(profile),
    );
    assert forall|i: int| pair_at(args, i, "--out-name"@, out_name->0) implies i == 5 by {}
}

/// Where the profile keeps demangling, `--no-demangle` stands nowhere in
/// the argument list; where it switches demangling off, the flag stands
/// there exactly once. This leaves out the caller who gave the flag as the
/// output directory or as the output name.
pub proof fn lemma_no_demangle_flag(
    data: CrateData,
    out_dir: Seq<char>,
    out_name: Option<Seq<char>>,
    disable_dts: bool,
    target: Target,
    profile: BuildProfile,
)
    requires
        !given_as_value(out_dir, out_name, "--no-demangle"@),
    ensures
        ({
            let args = planned_args(data, out_dir, out_name, disable_dts, target, profile);
            let config = data.profile_config(profile);
            &&& config.demangle_name_section ==> !args.contains("--no-demangle"@)
            &&& !config.demangle_name_section ==> occurs_once(args, "--no-demangle"@)
        }),
{
    let args = planned_args(data, out_dir, out_name, disable_dts, target, profile);
    let wasm_path = artifact_path(data.target_directory@, data.crate_name@, profile);
    let config = data.profile_config(profile);
    lemma_flag_shapes();
    lemma_artifact_path_ends_in_extension(data.target_directory@, data.crate_name@, profile);
    lemma_args_layout(wasm_path, out_dir, out_name, disable_dts, target, config);
    let named: int = if names_output(out_name) { 2 } else { 0 };
    let debug: int = if config.debug_js_glue { 1 } else { 0 };
    let at = 5 + named + debug;
    if config.demangle_name_section {
        assert forall|i: int| 0 <= i < args.len() implies args[i] != "--no-demangle"@ by {}
    } else {
        assert(args[at] == "--no-demangle"@);
        assert forall|j: int| 0 <= j < args.len() && args[j] == "--no-demangle"@ implies j
            == at by {}
    }
}

/// A build has one reply for each outcome.
pub proof fn lemma_one_reply_each(build: BuildView, outcomes: Seq<OutcomeView>)
    ensures
        replies(build, outcomes).len() == outcomes.len(),
    decreases outcomes.len(),
{
    if outcomes.len() > 0 {
        lemma_one_reply_each(step(build, outcomes.first()).0, outcomes.drop_first());
    }
}

/// The first reply is that of one step; every later one is a reply of the
/// build that this step leaves, to the outcomes that follow.
pub proof fn lemma_reply_by_steps(build: BuildView, outcomes: Seq<OutcomeView>, i: int)
    requires
        0 <= i < outcomes.len(),
    ensures
        i == 0 ==> replies(build, outcomes)[i] == step(build, outcomes[0]).1,
        i > 0 ==> replies(build, outcomes)[i] == replies(
            step(build, outcomes[0]).0,
            outcomes.drop_first(),
        )[i - 1],
{
    lemma_one_reply_each(step(build, outcomes.first()).0, outcomes.drop_first());
}

/// A build that has ended says so again, whatever reaches it.
pub proof fn lemma_ended_build_stays(
    result: Result<(), BindgenErrorView>,
    outcomes: Seq<OutcomeView>,
    i: int,
)
    requires
        0 <= i < outcomes.len(),
    ensures
        replies(BuildView::Finished { result }, outcomes)[i] == ActionView::Finish(result),
    decreases outcomes.len(),
{
    let build = BuildView::Finished { result };
    lemma_reply_by_steps(build, outcomes, i);
    if i > 0 {
        lemma_ended_build_stays(result, outcomes.drop_first(), i - 1);
    }
}

/// The tool is run on the artifact only at the expected version. Whatever
/// the options and whatever the outcomes that reach a build, the build
/// asks for that run in one case only: the output directory is text, the
/// tool was located, and the version that it printed is the expected one.
/// It then asks once, in its second reply, for the located program with
/// the planned arguments.
pub proof fn lemma_run_only_at_expected_version(
    data: CrateData,
    out_dir: Seq<u8>,
    out_name: Option<Seq<char>>,
    disable_dts: bool,
    target: Target,
    profile: BuildProfile,
    outcomes: Seq<OutcomeView>,
    i: int,
)
    requires
        0 <= i < outcomes.len(),
    ensures
        ({
            let first = start(data, out_dir, out_name, disable_dts, target, profile);
            let reply = replies(first.0, outcomes)[i];
            &&& !(first.1 is Run)
            &&& reply is Run <==> {
                &&& i == 1
                &&& valid_utf8(out_dir)
                &&& outcomes[0] is Done
                &&& outcomes[1] is Done
                &&& printed_version(outcomes[1]->output) == Some(BINDGEN_VERSION@)
            }
            &&& reply is Run ==> reply == ActionView::Run {
                invocation: InvocationView {
                    program: outcomes[0]->output,
                    args: planned_args(
                        data,
                        decode_utf8(out_dir),
                        out_name,
                        disable_dts,
                        target,
                        profile,
                    ),
                },
                label: RUN_LABEL@,
            }
        }),
{
    let first = start(data, out_dir, out_name, disable_dts, target, profile);
    lemma_reply_by_steps(first.0, outcomes, i);
    let second = step(first.0, outcomes[0]);
    let rest = outcomes.drop_first();
    if i > 0 {
        lemma_reply_by_steps(second.0, rest, i - 1);
        assert(rest[0] == outcomes[1]);
        let third = step(second.0, rest[0]);
        if second.0 is Finished {
            lemma_ended_build_stays(second.0->result, rest, i - 1);
        }
        if i > 1 {
            let later = rest.drop_first();
            lemma_reply_by_steps(third.0, later, i - 2);
            let fourth = step(third.0, later[0]);
            if third.0 is Finished {
                lemma_ended_build_stays(third.0->result, later, i - 2);
            } else {
                assert(fourth.0 is Finished);
                if i > 2 {
                    lemma_ended_build_stays(fourth.0->result, later.drop_first(), i - 3);
                }
            }
        }
    }
}

/// A tool of another version ends the build. Once a located tool has
/// printed a version that is not the expected one, every reply of the
/// build is the end with the mismatch as the error.
pub proof fn lemma_mismatch_ends_the_build(
    data: CrateData,
    out_dir: Seq<u8>,
    out_name: Option<Seq<char>>,
    disable_dts: bool,
    target: Target,
    profile: BuildProfile,
    outcomes: Seq<OutcomeView>,
    i: int,
)
    requires
        valid_utf8(out_dir),
        1 <= i < outcomes.len(),
        outcomes[0] is Done,
        outcomes[1] is Done,
        printed_version(outcomes[1]->output) is Some,
        printed_version(outcomes[1]->output) != Some(BINDGEN_VERSION@),
    ensures
        replies(start(data, out_dir, out_name, disable_dts, target, profile).0, outcomes)[i]
            == ActionView::Finish(
            Err(
                BindgenErrorView::VersionMismatch {
                    expected: BINDGEN_VERSION@,
                    reported: printed_version(outcomes[1]->output)->0,
                },
            ),
        ),
{
    let first = start(data, out_dir, out_name, disable_dts, target, profile);
    lemma_reply_by_steps(first.0, outcomes, i);
    let second = step(first.0, outcomes[0]);
    let rest = outcomes.drop_first();
    lemma_reply_by_steps(second.0, rest, i - 1);
    assert(rest[0] == outcomes[1]);
    let third = step(second.0, rest[0]);
    if i > 1 {
        lemma_ended_build_stays(third.0->result, rest.drop_first(), i - 2);
    }
}

} // verus!
