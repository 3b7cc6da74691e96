use ppi::config::{Config, ScriptSpec, SkeletonSpec};
use ppi::dispatch::{check_namespaces, resolve, script_exit_code, subcommands, Action, SubcommandKind};
use ppi::error::{GitCommand, ToolError};
use ppi::commit_id::short_commit_id;
use ppi::pipeline::{Event, Provisioning, Stage, Step};
use ppi::process::{classify_outcome, ProcessOutcome};

fn skeleton(name: &str, source: &str, branch: &str) -> SkeletonSpec {
    SkeletonSpec { name: name.to_string(), source: source.to_string(), branch: branch.to_string() }
}

fn script(name: &str, executable: &str) -> ScriptSpec {
    ScriptSpec { name: name.to_string(), executable: executable.to_string() }
}

fn lib_config() -> Config {
    Config {
        skeletons: vec![skeleton("lib", "https://example/repo.git", "main")],
        scripts: vec![script("fmt", "/usr/bin/true")],
    }
}

fn oid() -> Vec<u8> {
    vec![0xab, 0xcd, 0xef, 0x12, 0x34, 0x56, 0x78, 0x9a, 0xbc, 0xde, 0xf0, 0x01, 0x23, 0x45, 0x67, 0x89, 0x0a, 0xbc, 0xde, 0xf0]
}

fn ok() -> Event {
    Event::CommandFinished(ProcessOutcome::Success)
}

fn git(step: &Step) -> (GitCommand, Vec<String>, String) {
    match step {
        Step::RunGit { command, args, directory } => (*command, args.clone(), directory.clone()),
        other => panic!("expected a git command, got {:?}", other),
    }
}

fn strings(words: &[&str]) -> Vec<String> {
    words.iter().map(|w| w.to_string()).collect()
}

/// Feeds the reports of a successful run after the clone and returns the steps.
fn finish_successfully(p: &mut Provisioning) -> Vec<Step> {
    let mut steps = Vec::new();
    steps.push(p.advance(ok()));
    steps.push(p.advance(Event::LibraryOk));
    steps.push(p.advance(Event::OldestCommit(oid())));
    steps.push(p.advance(ok()));
    steps.push(p.advance(ok()));
    steps.push(p.advance(ok()));
    steps
}

#[test]
fn overlapping_names_are_refused() {
    let config = Config {
        skeletons: vec![skeleton("lib", "src", "main"), skeleton("app", "src2", "dev")],
        scripts: vec![script("fmt", "/usr/bin/true"), script("app", "/bin/app")],
    };
    assert_eq!(check_namespaces(&config), Err(ToolError::ConfigOverlap));
    assert_eq!(config.find_overlap(), Some("app".to_string()));
    assert_eq!(ToolError::ConfigOverlap.exit_code(), 1);
}

#[test]
fn disjoint_names_are_accepted() {
    assert_eq!(check_namespaces(&lib_config()), Ok(()));
    assert_eq!(lib_config().find_overlap(), None);
    let empty = Config { skeletons: vec![], scripts: vec![] };
    assert_eq!(check_namespaces(&empty), Ok(()));
}

#[test]
fn subcommands_list_skeletons_then_scripts() {
    let config = Config {
        skeletons: vec![skeleton("lib", "a", "main"), skeleton("bin", "b", "main")],
        scripts: vec![script("fmt", "/usr/bin/true")],
    };
    let subs = subcommands(&config);
    let names: Vec<&str> = subs.iter().map(|s| s.name.as_str()).collect();
    assert_eq!(names, vec!["lib", "bin", "fmt"]);
    assert_eq!(subs[0].kind, SubcommandKind::Skeleton);
    assert_eq!(subs[1].kind, SubcommandKind::Skeleton);
    assert_eq!(subs[2].kind, SubcommandKind::Script);
}

#[test]
fn missing_output_directory_fails_with_status_one() {
    let action = resolve(&lib_config(), Some("lib".to_string()), None, vec![]);
    match action {
        Action::Fail(e) => {
            assert_eq!(e, ToolError::MissingOutputDirectory);
            assert_eq!(e.exit_code(), 1);
        }
        other => panic!("unexpected {:?}", other),
    }
}

#[test]
fn no_subcommand_shows_help() {
    assert!(matches!(resolve(&lib_config(), None, None, vec![]), Action::ShowHelp));
    assert!(matches!(resolve(&lib_config(), Some("other".to_string()), None, vec![]), Action::ShowHelp));
}

#[test]
fn skeleton_with_directory_provisions() {
    match resolve(&lib_config(), Some("lib".to_string()), Some("./out".to_string()), vec![]) {
        Action::Provision { skeleton, output_dir } => {
            assert_eq!(skeleton, 0);
            assert_eq!(output_dir, "./out");
        }
        other => panic!("unexpected {:?}", other),
    }
}

#[test]
fn script_fmt_runs_with_arguments_and_exits_zero() {
    let config = lib_config();
    match resolve(&config, Some("fmt".to_string()), None, strings(&["--whatever"])) {
        Action::RunScript { script, args } => {
            assert_eq!(config.scripts[script].executable, "/usr/bin/true");
            assert_eq!(args, strings(&["--whatever"]));
        }
        other => panic!("unexpected {:?}", other),
    }
    assert_eq!(script_exit_code(Some(0)), Ok(0));
}

#[test]
fn script_exit_code_is_passed_on() {
    assert_eq!(script_exit_code(Some(3)), Ok(3));
    assert_eq!(script_exit_code(Some(-2)), Ok(-2));
    assert_eq!(script_exit_code(None), Err(ToolError::ChildExitCodeUnavailable));
}

#[test]
fn outcomes_are_classified() {
    assert_eq!(classify_outcome(true, true), ProcessOutcome::Success);
    assert_eq!(classify_outcome(true, false), ProcessOutcome::NonZeroExit);
    assert_eq!(classify_outcome(false, false), ProcessOutcome::LaunchFailed);
    assert_eq!(classify_outcome(false, true), ProcessOutcome::LaunchFailed);
}

#[test]
fn short_commit_id_takes_seven_hex_digits() {
    assert_eq!(short_commit_id(&oid()), "abcdef1");
    assert_eq!(short_commit_id(&vec![0, 1, 2, 255]), "000102f");
}

#[test]
fn provisioning_lib_skeleton_squashes_and_detaches() {
    let spec = skeleton("lib", "https://example/repo.git", "main");
    let (mut p, first) = Provisioning::start(&spec, "./out".to_string());
    match &first {
        Step::CloneEmbedded { source, destination } => {
            assert_eq!(source, "https://example/repo.git");
            assert_eq!(destination, "./out");
        }
        other => panic!("unexpected {:?}", other),
    }
    let checkout = p.advance(Event::LibraryOk);
    assert_eq!(git(&checkout), (GitCommand::Checkout, strings(&["checkout", "main"]), "./out".to_string()));
    let steps = finish_successfully(&mut p);
    match &steps[0] {
        Step::RemoveRemote { remote } => assert_eq!(remote, "origin"),
        other => panic!("unexpected {:?}", other),
    }
    assert!(matches!(steps[1], Step::FindOldestCommit));
    assert_eq!(git(&steps[2]), (GitCommand::Reset, strings(&["reset", "--mixed", "abcdef1"]), "./out".to_string()));
    assert_eq!(git(&steps[3]), (GitCommand::Add, strings(&["add", "--all"]), "./out".to_string()));
    assert_eq!(
        git(&steps[4]),
        (GitCommand::Commit, strings(&["commit", "--amend", "-am", "initialized from lib skeleton"]), "./out".to_string())
    );
    assert!(matches!(steps[5], Step::Exit { code: 0 }));
    assert_eq!(p.stage, Stage::Done);
}

#[test]
fn clone_fallback_leads_to_the_same_steps() {
    let spec = skeleton("lib", "https://example/repo.git", "main");
    let (mut direct, _) = Provisioning::start(&spec, "./out".to_string());
    let (mut fallback, _) = Provisioning::start(&spec, "./out".to_string());
    let clone = fallback.advance(Event::LibraryFailed);
    assert_eq!(
        git(&clone),
        (GitCommand::Clone, strings(&["clone", "https://example/repo.git", "./out"]), ".".to_string())
    );
    match fallback.advance(ok()) {
        Step::OpenRepository { path } => assert_eq!(path, "./out"),
        other => panic!("unexpected {:?}", other),
    }
    let a = direct.advance(Event::LibraryOk);
    let b = fallback.advance(Event::LibraryOk);
    assert_eq!(git(&a), git(&b));
    assert_eq!(direct.stage, fallback.stage);
    let sa = finish_successfully(&mut direct);
    let sb = finish_successfully(&mut fallback);
    assert_eq!(format!("{:?}", sa), format!("{:?}", sb));
    assert_eq!(fallback.stage, Stage::Done);
}

#[test]
fn failed_fallback_clone_aborts() {
    let spec = skeleton("lib", "src", "main");
    let (mut p, _) = Provisioning::start(&spec, "out".to_string());
    p.advance(Event::LibraryFailed);
    let step = p.advance(Event::CommandFinished(ProcessOutcome::NonZeroExit));
    assert!(matches!(step, Step::Abort(ToolError::ExternalCommandNonZero(GitCommand::Clone))));
    assert_eq!(p.stage, Stage::Failed);
    assert!(matches!(p.advance(Event::LibraryOk), Step::Abort(ToolError::UnexpectedEvent)));
    assert_eq!(p.stage, Stage::Failed);
}

#[test]
fn reopen_failure_is_a_library_error() {
    let spec = skeleton("lib", "src", "main");
    let (mut p, _) = Provisioning::start(&spec, "out".to_string());
    p.advance(Event::LibraryFailed);
    p.advance(ok());
    assert!(matches!(p.advance(Event::LibraryFailed), Step::Abort(ToolError::EmbeddedClientError)));
}

#[test]
fn checkout_that_cannot_start_aborts() {
    let spec = skeleton("lib", "src", "main");
    let (mut p, _) = Provisioning::start(&spec, "out".to_string());
    p.advance(Event::LibraryOk);
    let step = p.advance(Event::CommandFinished(ProcessOutcome::LaunchFailed));
    assert!(matches!(step, Step::Abort(ToolError::ExternalCommandLaunchFailed(GitCommand::Checkout))));
}

#[test]
fn short_oldest_commit_id_is_refused() {
    let spec = skeleton("lib", "src", "main");
    let (mut p, _) = Provisioning::start(&spec, "out".to_string());
    p.advance(Event::LibraryOk);
    p.advance(ok());
    p.advance(Event::LibraryOk);
    assert!(matches!(p.advance(Event::OldestCommit(vec![1, 2, 3])), Step::Abort(ToolError::EmbeddedClientError)));
}

#[test]
fn unexpected_event_fails_the_run() {
    let spec = skeleton("lib", "src", "main");
    let (mut p, _) = Provisioning::start(&spec, "out".to_string());
    assert!(matches!(p.advance(ok()), Step::Abort(ToolError::UnexpectedEvent)));
    assert_eq!(p.stage, Stage::Failed);
}

#[test]
fn finished_run_keeps_exiting_with_zero() {
    let spec = skeleton("lib", "src", "main");
    let (mut p, _) = Provisioning::start(&spec, "out".to_string());
    p.advance(Event::LibraryOk);
    finish_successfully(&mut p);
    assert!(matches!(p.advance(Event::LibraryOk), Step::Exit { code: 0 }));
}

#[test]
fn error_descriptions_name_the_problem() {
    assert_eq!(ToolError::MissingOutputDirectory.describe(), "failed to provide a path to clone the skeleton directory into");
    assert_eq!(GitCommand::Reset.word(), "reset");
}
