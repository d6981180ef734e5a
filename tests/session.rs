use baur::args::{parse_args, Args};
use baur::record::{decode_records, FetchError, PackageRecord};
use baur::session::{start, step, Action, Event, Outcome, Step, SyncError, SyncState};
use baur::sync::{
    build_package, clone_command, info_url, manual_command, package_dir, recipe_url, search_url,
    Command,
};

const ROOT: &str = "/home/u/.cache/baur";

fn parsed(list: &[&str]) -> Args {
    parse_args(&list.iter().map(|t| t.to_string()).collect()).unwrap()
}

fn record(name: Option<&str>, version: Option<&str>, description: Option<&str>) -> PackageRecord {
    PackageRecord {
        name: name.map(String::from),
        version: version.map(String::from),
        description: description.map(String::from),
    }
}

fn vim() -> PackageRecord {
    record(Some("vim"), Some("9.0"), Some("Editor"))
}

fn begin(list: &[&str]) -> Step {
    start(&parsed(list), &ROOT.to_string())
}

fn fetched_url(s: &Step) -> String {
    match &s.action {
        Action::Fetch { url } => url.clone(),
        other => panic!("expected a fetch, got {:?}", other),
    }
}

fn run_command(s: &Step) -> Command {
    match &s.action {
        Action::Run(c) => c.clone(),
        other => panic!("expected a command, got {:?}", other),
    }
}

fn finished(s: &Step) -> Result<Outcome, SyncError> {
    assert!(matches!(s.state, SyncState::Finished));
    match &s.action {
        Action::Finish(r) => *r,
        other => panic!("expected the end, got {:?}", other),
    }
}

fn assert_command(c: &Command, program: &str, args: &[&str], dir: &str) {
    assert_eq!(c.program, program);
    assert_eq!(c.args, args.iter().map(|a| a.to_string()).collect::<Vec<String>>());
    assert_eq!(c.dir, dir);
}

#[test]
fn addresses_of_the_index() {
    assert_eq!(info_url("vim"), "https://aur.archlinux.org/rpc/v5/info/vim");
    assert_eq!(
        search_url("editor"),
        "https://aur.archlinux.org/rpc/v5/search/editor?by=name-desc"
    );
    assert_eq!(recipe_url("vim"), "https://aur.archlinux.org/vim.git");
    assert_eq!(package_dir(ROOT, "vim"), "/home/u/.cache/baur/vim");
}

#[test]
fn commands_that_are_run() {
    assert_command(&manual_command(), "man", &["pacman"], ".");
    assert_command(
        &clone_command(ROOT, "vim"),
        "git",
        &["clone", "https://aur.archlinux.org/vim.git", "vim"],
        ROOT,
    );
    assert_command(&build_package(&"/tmp/vim".to_string()), "makepkg", &["-si"], "/tmp/vim");
}

#[test]
fn install_with_confirmation_clones_then_builds() {
    let s = begin(&["-S", "vim"]);
    assert!(s.lines.is_empty());
    assert_eq!(fetched_url(&s), "https://aur.archlinux.org/rpc/v5/info/vim");
    let body = r#"{"results":[{"Name":"vim","Version":"9.0","Description":"Editor"}]}"#;
    let s = step(s.state, Event::Results(decode_records(body)));
    assert_eq!(s.lines, vec!["Name: vim", "Version: 9.0", "Description: Editor"]);
    assert!(matches!(s.action, Action::Confirm));
    let s = step(s.state, Event::Answer(true));
    match &s.action {
        Action::CheckCache { path } => assert_eq!(path, "/home/u/.cache/baur/vim"),
        other => panic!("expected a cache check, got {:?}", other),
    }
    let s = step(s.state, Event::Cached(false));
    assert_command(
        &run_command(&s),
        "git",
        &["clone", "https://aur.archlinux.org/vim.git", "vim"],
        ROOT,
    );
    let s = step(s.state, Event::Exited(true));
    assert_command(&run_command(&s), "makepkg", &["-si"], "/home/u/.cache/baur/vim");
    let s = step(s.state, Event::Exited(true));
    assert_eq!(finished(&s), Ok(Outcome::Installed));
}

#[test]
fn no_packages_found_ends_without_clone_or_build() {
    let s = begin(&["-S", "vim"]);
    let s = step(s.state, Event::Results(Ok(Vec::new())));
    assert_eq!(s.lines, vec!["error: No packages found"]);
    assert_eq!(finished(&s), Ok(Outcome::NoPackages));
}

#[test]
fn multiple_packages_found_ends_without_clone_or_build() {
    let s = begin(&["-S", "vim"]);
    let s = step(s.state, Event::Results(Ok(vec![vim(), record(Some("vim-git"), None, None)])));
    assert_eq!(s.lines, vec!["error: Multiple packages found"]);
    assert_eq!(finished(&s), Ok(Outcome::MultiplePackages));
}

#[test]
fn search_lists_matches_without_confirmation() {
    let s = begin(&["-Ss", "editor"]);
    assert_eq!(
        fetched_url(&s),
        "https://aur.archlinux.org/rpc/v5/search/editor?by=name-desc"
    );
    let s = step(
        s.state,
        Event::Results(Ok(vec![vim(), record(Some("nano"), Some("8.2"), None)])),
    );
    assert_eq!(s.lines, vec!["aur/vim 9.0", "  Editor", "aur/nano 8.2", "  Unknown"]);
    assert_eq!(finished(&s), Ok(Outcome::Listed));
}

#[test]
fn search_without_target_does_nothing() {
    let s = begin(&["-Ss"]);
    assert!(s.lines.is_empty());
    assert_eq!(finished(&s), Ok(Outcome::NothingToSearch));
}

#[test]
fn search_without_target_still_warns_about_flags() {
    let s = begin(&["-Sxs"]);
    assert_eq!(s.lines, vec!["Warning: Ignoring unknown flag 'x'"]);
    assert_eq!(finished(&s), Ok(Outcome::NothingToSearch));
}

#[test]
fn install_without_target_is_an_error() {
    let s = begin(&["-S"]);
    assert_eq!(finished(&s), Err(SyncError::MissingTarget));
    assert_eq!(
        SyncError::MissingTarget.message(),
        "error: no targets specified (use -h for help)"
    );
}

#[test]
fn unknown_flags_warn_and_install_goes_on() {
    let s = begin(&["-Syu", "vim"]);
    assert_eq!(s.lines, vec!["Warning: Ignoring unknown flag 'u'"]);
    assert_eq!(fetched_url(&s), "https://aur.archlinux.org/rpc/v5/info/vim");
}

#[test]
fn declining_aborts() {
    let s = begin(&["-S", "vim"]);
    let s = step(s.state, Event::Results(Ok(vec![vim()])));
    let s = step(s.state, Event::Answer(false));
    assert_eq!(s.lines, vec!["Aborted"]);
    assert_eq!(finished(&s), Ok(Outcome::Aborted));
    let s = step(s.state, Event::Exited(true));
    assert_eq!(finished(&s), Err(SyncError::OutOfOrder));
}

#[test]
fn cached_recipe_is_built_without_clone() {
    let s = begin(&["-S", "vim"]);
    let s = step(s.state, Event::Results(Ok(vec![vim()])));
    let s = step(s.state, Event::Answer(true));
    let s = step(s.state, Event::Cached(true));
    assert_eq!(s.lines, vec!["Package already exists in cache"]);
    assert_command(&run_command(&s), "makepkg", &["-si"], "/home/u/.cache/baur/vim");
    let s = step(s.state, Event::Exited(true));
    assert_eq!(finished(&s), Ok(Outcome::Installed));
}

#[test]
fn unnamed_package_cannot_be_fetched() {
    let s = begin(&["-S", "vim"]);
    let s = step(s.state, Event::Results(Ok(vec![record(None, Some("1"), None)])));
    assert_eq!(s.lines, vec!["Name: Unknown", "Version: 1", "Description: No description"]);
    let s = step(s.state, Event::Answer(true));
    assert_eq!(finished(&s), Err(SyncError::UnnamedPackage));
}

#[test]
fn failed_lookups_are_errors() {
    let s = begin(&["-S", "vim"]);
    let s = step(s.state, Event::Results(Err(FetchError::Network)));
    assert_eq!(finished(&s), Err(SyncError::Network));
    let s = begin(&["-Ss", "vim"]);
    let s = step(s.state, Event::Results(decode_records("not json")));
    assert_eq!(finished(&s), Err(SyncError::Decode));
}

#[test]
fn search_answer_without_results_is_a_decode_error() {
    let s = begin(&["-Ss", "vim"]);
    let s = step(s.state, Event::Results(decode_records(r#"{"type":"error"}"#)));
    assert!(s.lines.is_empty());
    assert_eq!(finished(&s), Err(SyncError::Decode));
}

#[test]
fn failed_clone_is_an_error() {
    let s = begin(&["-S", "vim"]);
    let s = step(s.state, Event::Results(Ok(vec![vim()])));
    let s = step(s.state, Event::Answer(true));
    let s = step(s.state, Event::Cached(false));
    let s = step(s.state, Event::Exited(false));
    assert_eq!(finished(&s), Err(SyncError::CloneFailed));
}

#[test]
fn failed_build_is_an_error() {
    let s = begin(&["-S", "vim"]);
    let s = step(s.state, Event::Results(Ok(vec![vim()])));
    let s = step(s.state, Event::Answer(true));
    let s = step(s.state, Event::Cached(true));
    let s = step(s.state, Event::Exited(false));
    assert_eq!(finished(&s), Err(SyncError::BuildFailed));
}

#[test]
fn unexpected_event_is_an_error() {
    let s = begin(&["-S", "vim"]);
    let s = step(s.state, Event::Answer(true));
    assert_eq!(finished(&s), Err(SyncError::OutOfOrder));
}

#[test]
fn session_error_messages() {
    assert_eq!(SyncError::UnnamedPackage.message(), "Failed to get package name");
    assert_eq!(
        SyncError::BuildFailed.message(),
        "error: building the package failed"
    );
    assert_eq!(
        SyncError::Network.message(),
        "error: the package index could not be reached"
    );
}
