use wasm_pack_bindgen::bindgen::{
    wasm_bindgen_build, Action, Build, Outcome, BINDGEN_TOOL, LOCATE_LABEL, RUN_LABEL,
    VERSION_LABEL,
};
use wasm_pack_bindgen::command::Invocation;
use wasm_pack_bindgen::error::BindgenError;
use wasm_pack_bindgen::profile::{BuildProfile, CrateData, ProfileConfig, Target};
use wasm_pack_bindgen::version::{NO_VERSION_CAUSE, VERSION_FLAG};

fn config(debug_js_glue: bool, demangle_name_section: bool, dwarf_debug_info: bool) -> ProfileConfig {
    ProfileConfig { debug_js_glue, demangle_name_section, dwarf_debug_info }
}

fn a_crate() -> CrateData {
    CrateData {
        target_directory: String::from("/proj/target"),
        crate_name: String::from("mycrate"),
        dev: config(true, true, true),
        profiling: config(false, true, true),
        release: config(false, false, false),
    }
}

fn done(output: &str) -> Outcome {
    Outcome::Done { output: String::from(output) }
}

fn failed(cause: &str) -> Outcome {
    Outcome::Failed { cause: String::from(cause) }
}

fn begin() -> (Build, Action) {
    wasm_bindgen_build(&a_crate(), b"pkg", &None, false, Target::Bundler, BuildProfile::Release)
}

/// Stands for the world outside: answers what a build asks for with the
/// outcomes that it was given, and keeps what it was asked.
struct Recorder {
    located: Outcome,
    version: Outcome,
    exit: Outcome,
    asked: Vec<String>,
    ran: Vec<Invocation>,
}

impl Recorder {
    fn new(located: Outcome, version: Outcome, exit: Outcome) -> Recorder {
        Recorder { located, version, exit, asked: Vec::new(), ran: Vec::new() }
    }

    fn drive(&mut self, first: (Build, Action)) -> Result<(), BindgenError> {
        let (mut build, mut action) = first;
        loop {
            let outcome = match action {
                Action::Locate { tool } => {
                    self.asked.push(format!("locate {}", tool));
                    std::mem::replace(&mut self.located, failed("asked twice"))
                }
                Action::QueryVersion { invocation } => {
                    self.asked.push(format!("{} {}", invocation.program, invocation.args.join(" ")));
                    std::mem::replace(&mut self.version, failed("asked twice"))
                }
                Action::Run { invocation, label } => {
                    self.asked.push(format!("run {}", label));
                    self.ran.push(invocation);
                    std::mem::replace(&mut self.exit, failed("asked twice"))
                }
                Action::Finish(result) => return result,
            };
            let next = build.advance(outcome);
            build = next.0;
            action = next.1;
        }
    }
}

#[test]
fn a_build_first_asks_for_the_tool() {
    let (_, action) = begin();
    assert_eq!(action, Action::Locate { tool: String::from("wasm-bindgen") });
    assert_eq!(BINDGEN_TOOL, "wasm-bindgen");
}

#[test]
fn a_located_tool_is_asked_for_its_version() {
    let (build, _) = begin();
    let (_, action) = build.advance(done("/cache/wasm-bindgen"));
    assert_eq!(
        action,
        Action::QueryVersion {
            invocation: Invocation {
                program: String::from("/cache/wasm-bindgen"),
                args: vec![String::from("--version")],
            },
        }
    );
    assert_eq!(VERSION_FLAG, "--version");
}

#[test]
fn a_tool_of_the_expected_version_is_run() {
    let mut world = Recorder::new(done("/cache/wasm-bindgen"), done("wasm-bindgen 0.2.37\n"), done(""));
    let result = world.drive(begin());
    assert_eq!(result, Ok(()));
    assert_eq!(
        world.asked,
        vec![
            "locate wasm-bindgen",
            "/cache/wasm-bindgen --version",
            "run Running the wasm-bindgen CLI",
        ]
    );
    assert_eq!(
        world.ran,
        vec![Invocation {
            program: String::from("/cache/wasm-bindgen"),
            args: vec![
                String::from("/proj/target/wasm32-unknown-unknown/release/mycrate.wasm"),
                String::from("--out-dir"),
                String::from("pkg"),
                String::from("--typescript"),
                String::from("--browser"),
                String::from("--no-demangle"),
            ],
        }]
    );
}

#[test]
fn a_tool_of_another_version_is_never_run() {
    let mut world = Recorder::new(done("/cache/wasm-bindgen"), done("wasm-bindgen 0.2.30\n"), done(""));
    let result = world.drive(begin());
    assert_eq!(
        result,
        Err(BindgenError::VersionMismatch {
            expected: String::from("0.2.37"),
            reported: String::from("0.2.30"),
        })
    );
    assert_eq!(world.asked, vec!["locate wasm-bindgen", "/cache/wasm-bindgen --version"]);
    assert!(world.ran.is_empty());
}

#[test]
fn a_newer_tool_is_refused_like_an_older_one() {
    let mut world = Recorder::new(done("wasm-bindgen"), done("wasm-bindgen 0.2.38\n"), done(""));
    let result = world.drive(begin());
    assert_eq!(
        result,
        Err(BindgenError::VersionMismatch {
            expected: String::from("0.2.37"),
            reported: String::from("0.2.38"),
        })
    );
    assert!(world.ran.is_empty());
}

#[test]
fn a_tool_that_is_not_found_ends_the_build() {
    let mut world = Recorder::new(failed("wasm-bindgen binary does not exist"), done("wasm-bindgen 0.2.37\n"), done(""));
    let result = world.drive(begin());
    assert_eq!(
        result,
        Err(BindgenError::ExternalProcess {
            context: String::from("Locating the wasm-bindgen CLI"),
            cause: String::from("wasm-bindgen binary does not exist"),
        })
    );
    assert_eq!(world.asked, vec!["locate wasm-bindgen"]);
    assert!(world.ran.is_empty());
    assert_eq!(LOCATE_LABEL, "Locating the wasm-bindgen CLI");
}

#[test]
fn a_tool_that_reports_no_version_ends_the_build() {
    let mut world = Recorder::new(done("wasm-bindgen"), failed("could not be started"), done(""));
    let result = world.drive(begin());
    assert_eq!(
        result,
        Err(BindgenError::ExternalProcess {
            context: String::from("Checking the version of the wasm-bindgen CLI"),
            cause: String::from("could not be started"),
        })
    );
    assert_eq!(world.asked, vec!["locate wasm-bindgen", "wasm-bindgen --version"]);
    assert!(world.ran.is_empty());
    assert_eq!(VERSION_LABEL, "Checking the version of the wasm-bindgen CLI");
}

#[test]
fn a_tool_that_prints_no_version_ends_the_build() {
    for printed in ["", "\n", "wasm-bindgen", "wasm-bindgen\n", "0.2.37"] {
        let mut world = Recorder::new(done("wasm-bindgen"), done(printed), done(""));
        let result = world.drive(begin());
        assert_eq!(
            result,
            Err(BindgenError::ExternalProcess {
                context: String::from("Checking the version of the wasm-bindgen CLI"),
                cause: String::from("The tool printed no version."),
            })
        );
        assert!(world.ran.is_empty());
    }
    assert_eq!(NO_VERSION_CAUSE, "The tool printed no version.");
}

#[test]
fn the_version_is_read_from_what_the_tool_prints() {
    for printed in ["wasm-bindgen 0.2.37", "wasm-bindgen 0.2.37 (b1f2e3a 2019-03-04)\n", "  wasm-bindgen\t0.2.37\r\n"] {
        let mut world = Recorder::new(done("wasm-bindgen"), done(printed), done(""));
        assert_eq!(world.drive(begin()), Ok(()));
        assert_eq!(world.ran.len(), 1);
    }
}

#[test]
fn a_run_that_fails_is_reported_under_its_label() {
    let mut world = Recorder::new(done("wasm-bindgen"), done("wasm-bindgen 0.2.37\n"), failed("exited with status 1"));
    let result = world.drive(begin());
    assert_eq!(
        result,
        Err(BindgenError::ExternalProcess {
            context: String::from("Running the wasm-bindgen CLI"),
            cause: String::from("exited with status 1"),
        })
    );
    assert_eq!(world.ran.len(), 1);
    assert_eq!(
        result.unwrap_err().message(),
        "Running the wasm-bindgen CLI: exited with status 1"
    );
    assert_eq!(RUN_LABEL, "Running the wasm-bindgen CLI");
}

#[test]
fn what_a_run_prints_is_not_looked_at() {
    let mut world = Recorder::new(
        done("wasm-bindgen"),
        done("wasm-bindgen 0.2.37\n"),
        done("wasm-bindgen 0.2.30\n"),
    );
    assert_eq!(world.drive(begin()), Ok(()));
}

#[test]
fn the_tool_is_run_at_most_once() {
    let mut world = Recorder::new(done("wasm-bindgen"), done("wasm-bindgen 0.2.37\n"), done(""));
    let _ = world.drive(begin());
    assert_eq!(world.ran.len(), 1);
    assert_eq!(world.asked.len(), 3);
}

#[test]
fn an_output_directory_that_is_not_text_ends_the_build_at_once() {
    let bytes: [u8; 4] = [b'p', b'k', 0xff, b'g'];
    let first = wasm_bindgen_build(&a_crate(), &bytes, &None, false, Target::Web, BuildProfile::Dev);
    assert_eq!(first.1, Action::Finish(Err(BindgenError::Configuration)));
    let mut world = Recorder::new(done("wasm-bindgen"), done("wasm-bindgen 0.2.37\n"), done(""));
    assert_eq!(world.drive(first), Err(BindgenError::Configuration));
    assert!(world.asked.is_empty());
    assert!(world.ran.is_empty());
}

#[test]
fn a_cut_off_character_is_not_text() {
    let bytes: [u8; 3] = [b'p', 0xc3, b'k'];
    let (_, action) = wasm_bindgen_build(&a_crate(), &bytes, &None, false, Target::Web, BuildProfile::Dev);
    assert_eq!(action, Action::Finish(Err(BindgenError::Configuration)));
    let end: [u8; 2] = [b'p', 0xc3];
    let (_, action) = wasm_bindgen_build(&a_crate(), &end, &None, false, Target::Web, BuildProfile::Dev);
    assert_eq!(action, Action::Finish(Err(BindgenError::Configuration)));
}

#[test]
fn an_output_directory_beyond_ascii_is_read_as_utf8() {
    let out_dir = "/proj/pa\u{df}/\u{7d50}\u{679c}";
    let mut world = Recorder::new(done("wasm-bindgen"), done("wasm-bindgen 0.2.37\n"), done(""));
    let result = world.drive(wasm_bindgen_build(
        &a_crate(),
        out_dir.as_bytes(),
        &None,
        true,
        Target::Web,
        BuildProfile::Profiling,
    ));
    assert_eq!(result, Ok(()));
    assert_eq!(
        world.ran[0].args,
        vec![
            "/proj/target/wasm32-unknown-unknown/release/mycrate.wasm",
            "--out-dir",
            out_dir,
            "--no-typescript",
            "--web",
            "--keep-debug",
        ]
    );
}

#[test]
fn an_empty_output_directory_is_text() {
    let mut world = Recorder::new(done("wasm-bindgen"), done("wasm-bindgen 0.2.37\n"), done(""));
    let result = world.drive(wasm_bindgen_build(
        &a_crate(),
        b"",
        &None,
        false,
        Target::Web,
        BuildProfile::Release,
    ));
    assert_eq!(result, Ok(()));
    assert_eq!(world.ran[0].args[1], "--out-dir");
    assert_eq!(world.ran[0].args[2], "");
}

#[test]
fn the_profile_selects_directory_and_configuration() {
    let mut world = Recorder::new(done("wasm-bindgen"), done("wasm-bindgen 0.2.37\n"), done(""));
    let name = Some(String::from("foo"));
    let result = world.drive(wasm_bindgen_build(
        &a_crate(),
        b"pkg",
        &name,
        false,
        Target::NoModules,
        BuildProfile::Dev,
    ));
    assert_eq!(result, Ok(()));
    assert_eq!(
        world.ran[0].args,
        vec![
            "/proj/target/wasm32-unknown-unknown/debug/mycrate.wasm",
            "--out-dir",
            "pkg",
            "--typescript",
            "--no-modules",
            "--out-name",
            "foo",
            "--debug",
            "--keep-debug",
        ]
    );
}

#[test]
fn a_build_that_has_ended_stays_ended() {
    let (build, _) = begin();
    let (build, action) = build.advance(failed("gone"));
    let error = BindgenError::ExternalProcess {
        context: String::from("Locating the wasm-bindgen CLI"),
        cause: String::from("gone"),
    };
    assert_eq!(action, Action::Finish(Err(error.clone())));
    let (build, action) = build.advance(done("wasm-bindgen"));
    assert_eq!(action, Action::Finish(Err(error.clone())));
    let (build, action) = build.advance(done("wasm-bindgen 0.2.37\n"));
    assert_eq!(action, Action::Finish(Err(error.clone())));
    let (_, action) = build.advance(failed("again"));
    assert_eq!(action, Action::Finish(Err(error)));
}

#[test]
fn a_build_that_succeeded_stays_succeeded() {
    let (build, _) = begin();
    let (build, _) = build.advance(done("wasm-bindgen"));
    let (build, _) = build.advance(done("wasm-bindgen 0.2.37\n"));
    let (build, action) = build.advance(done(""));
    assert_eq!(action, Action::Finish(Ok(())));
    let (build, action) = build.advance(failed("late"));
    assert_eq!(action, Action::Finish(Ok(())));
    let (_, action) = build.advance(done("wasm-bindgen 0.2.37\n"));
    assert_eq!(action, Action::Finish(Ok(())));
}

#[test]
fn a_mismatch_stays_the_result() {
    let (build, _) = begin();
    let (build, _) = build.advance(done("wasm-bindgen"));
    let (build, action) = build.advance(done("wasm-bindgen 0.2.30\n"));
    let error = BindgenError::VersionMismatch {
        expected: String::from("0.2.37"),
        reported: String::from("0.2.30"),
    };
    assert_eq!(action, Action::Finish(Err(error.clone())));
    let (_, action) = build.advance(done("wasm-bindgen 0.2.37\n"));
    assert_eq!(action, Action::Finish(Err(error)));
}

#[test]
fn each_profile_has_its_configuration() {
    let data = a_crate();
    assert_eq!(data.configured_profile(BuildProfile::Dev), config(true, true, true));
    assert_eq!(data.configured_profile(BuildProfile::Profiling), config(false, true, true));
    assert_eq!(data.configured_profile(BuildProfile::Release), config(false, false, false));
}
