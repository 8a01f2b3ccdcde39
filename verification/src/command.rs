//! The command line that `wasm-bindgen` is run with.
//!
//! The argument list is a function of the options alone. Its order is
//! fixed: the artifact, the output directory, the flag for type
//! declarations, the flag for the target, then what is optional: the
//! output name, and one flag for each setting of the profile that departs
//! from what the tool does by itself.

use crate::profile::{ProfileConfig, Target};
use vstd::prelude::*;
use vstd::string::*;

verus! {

/// A command that is ready to run: the program and its arguments in order.
#[derive(Debug, PartialEq, Eq)]
pub struct Invocation {
    /// The path of the executable.
    pub program: String,
    /// The arguments, without the program's own name.
    pub args: Vec<String>,
}

/// What an `Invocation` stands for.
pub struct InvocationView {
    pub program: Seq<char>,
    pub args: Seq<Seq<char>>,
}

impl View for Invocation {
    type V = InvocationView;

    open spec fn view(&self) -> InvocationView {
        InvocationView { program: self.program@, args: self.args.deep_view() }
    }
}

/// The flag that says whether TypeScript declarations are written.
pub open spec fn dts_flag(disable_dts: bool) -> Seq<char> {
    if disable_dts {
        "--no-typescript"@
    } else {
        "--typescript"@
    }
}

/// The flag that selects the target environment.
pub open spec fn target_flag(target: Target) -> Seq<char> {
    match target {
        Target::Nodejs => "--nodejs"@,
        Target::NoModules => "--no-modules"@,
        Target::Web => "--web"@,
        Target::Bundler => "--browser"@,
    }
}

/// Whether an output name was given: an empty name counts as none.
pub open spec fn names_output(out_name: Option<Seq<char>>) -> bool {
    out_name matches Some(name) && name.len() > 0
}

/// The arguments that name the output files: none unless a name was
/// given.
pub open spec fn out_name_args(out_name: Option<Seq<char>>) -> Seq<Seq<char>> {
    if names_output(out_name) {
        seq!["--out-name"@, out_name->0]
    } else {
        seq![]
    }
}

/// The flags that a profile's configuration adds. Demangling is what the
/// tool does by itself, so only switching it off takes a flag.
pub open spec fn profile_args(config: ProfileConfig) -> Seq<Seq<char>> {
    (if config.debug_js_glue {
        seq!["--debug"@]
    } else {
        seq![]
    }) + (if !config.demangle_name_section {
        seq!["--no-demangle"@]
    } else {
        seq![]
    }) + (if config.dwarf_debug_info {
        seq!["--keep-debug"@]
    } else {
        seq![]
    })
}

/// The argument list for the artifact at `wasm_path`.
pub open spec fn bindgen_args(
    wasm_path: Seq<char>,
    out_dir: Seq<char>,
    out_name: Option<Seq<char>>,
    disable_dts: bool,
    target: Target,
    config: ProfileConfig,
) -> Seq<Seq<char>> {
    seq![wasm_path, "--out-dir"@, out_dir, dts_flag(disable_dts), target_flag(target)]
        + out_name_args(out_name) + profile_args(config)
}

/// Whether `text` stands in `args` at exactly one index.
pub open spec fn occurs_once(args: Seq<Seq<char>>, text: Seq<char>) -> bool {
    exists|i: int|
        {
            &&& 0 <= i < args.len()
            &&& #[trigger] args[i] == text
            &&& forall|j: int| 0 <= j < args.len() && #[trigger] args[j] == text ==> j == i
        }
}

/// Whether `first` stands in `args` at index `i`, with `second` right
/// behind it.
pub open spec fn pair_at(args: Seq<Seq<char>>, i: int, first: Seq<char>, second: Seq<char>) -> bool {
    0 <= i && i + 1 < args.len() && args[i] == first && args[i + 1] == second
}

/// Where each argument stands. The optional arguments follow the five
/// fixed ones without gaps, in their order.
pub proof fn lemma_args_layout(
    wasm_path: Seq<char>,
    out_dir: Seq<char>,
    out_name: Option<Seq<char>>,
    disable_dts: bool,
    target: Target,
    config: ProfileConfig,
)
    ensures
        ({
            let args = bindgen_args(wasm_path, out_dir, out_name, disable_dts, target, config);
            let named: int = if names_output(out_name) { 2 } else { 0 };
            let debug: int = if config.debug_js_glue { 1 } else { 0 };
            let mangled: int = if config.demangle_name_section { 0 } else { 1 };
            let dwarf: int = if config.dwarf_debug_info { 1 } else { 0 };
            &&& args.len() == 5 + named + debug + mangled + dwarf
            &&& args[0] == wasm_path
            &&& args[1] == "--out-dir"@
            &&& args[2] == out_dir
            &&& args[3] == dts_flag(disable_dts)
            &&& args[4] == target_flag(target)
            &&& names_output(out_name) ==> args[5] == "--out-name"@ && args[6] == out_name->0
            &&& config.debug_js_glue ==> args[5 + named] == "--debug"@
            &&& !config.demangle_name_section ==> args[5 + named + debug] == "--no-demangle"@
            &&& config.dwarf_debug_info ==> args[5 + named + debug + mangled] == "--keep-debug"@
        }),
{
}

/// The flag for type declarations, as the tool takes it.
pub fn dts_argument(disable_dts: bool) -> (flag: &'static str)
    ensures
        flag@ == dts_flag(disable_dts),
{
    if disable_dts {
        "--no-typescript"
    } else {
        "--typescript"
    }
}

/// The flag for the target environment, as the tool takes it.
pub fn target_argument(target: Target) -> (flag: &'static str)
    ensures
        flag@ == target_flag(target),
{
    match target {
        Target::Nodejs => "--nodejs",
        Target::NoModules => "--no-modules",
        Target::Web => "--web",
        Target::Bundler => "--browser",
    }
}

/// Appends `text` to `args`.
fn push_text(args: &mut Vec<String>, text: &str)
    ensures
        final(args).deep_view() == old(args).deep_view().push(text@),
{
    args.push(String::from_str(text));
    assert(args.deep_view() =~= old(args).deep_view().push(text@));
}

/// Builds the argument list for the artifact at `wasm_path`.
pub fn bindgen_arguments(
    wasm_path: &str,
    out_dir: &str,
    out_name: &Option<String>,
    disable_dts: bool,
    target: Target,
    config: ProfileConfig,
) -> (args: Vec<String>)
    ensures
        args.deep_view() == bindgen_args(
            wasm_path@,
            out_dir@,
            out_name.deep_view(),
            disable_dts,
            target,
            config,
        ),
{
    let mut args: Vec<String> = Vec::new();
    push_text(&mut args, wasm_path);
    push_text(&mut args, "--out-dir");
    push_text(&mut args, out_dir);
    push_text(&mut args, dts_argument(disable_dts));
    push_text(&mut args, target_argument(target));
    let ghost fixed = args.deep_view();
    if let Some(name) = out_name {
        if !name.as_str().is_empty() {
            push_text(&mut args, "--out-name");
            push_text(&mut args, name.as_str());
        }
    }
    let ghost named = args.deep_view();
    assert(named =~= fixed + out_name_args(out_name.deep_view()));
    if config.debug_js_glue {
        push_text(&mut args, "--debug");
    }
    if !config.demangle_name_section {
        push_text(&mut args, "--no-demangle");
    }
    if config.dwarf_debug_info {
        push_text(&mut args, "--keep-debug");
    }
    assert(args.deep_view() =~= named + profile_args(config));
    args
}

} // verus!
