use vstd::prelude::*;
use crate::args::{Args, ArgsView};
use crate::record::{
    display_lines, info_lines, records_view, search_listing, search_lines, FetchError,
    PackageRecord, RecordView,
};
use crate::sync::{
    build_command_spec, build_package, clone_command, clone_command_spec, info_url, info_url_spec,
    package_dir, package_dir_spec, scan_flags, scan_spec, search_url, search_url_spec,
    warning_lines, warnings_spec, Command, CommandView,
};

verus! {

/// How a synchronize session ended without an error.
#[derive(Debug, Clone, Copy, PartialEq, Eq, Structural)]
pub enum Outcome {
    /// The package was fetched and built.
    Installed,
    /// The matches of a search were listed.
    Listed,
    /// Search mode without a target: nothing to do.
    NothingToSearch,
    /// The lookup found no package.
    NoPackages,
    /// The lookup found more than one package.
    MultiplePackages,
    /// The user declined the installation.
    Aborted,
}

/// How a synchronize session failed.
#[derive(Debug, Clone, Copy, PartialEq, Eq, Structural)]
pub enum SyncError {
    /// Install mode was asked for without a target.
    MissingTarget,
    /// The remote index could not be reached.
    Network,
    /// The remote index answered with something that is not JSON.
    Decode,
    /// The package found has no name, so it cannot be fetched.
    UnnamedPackage,
    /// Fetching the recipe failed.
    CloneFailed,
    /// Building the package failed.
    BuildFailed,
    /// An event came that the session was not waiting for.
    OutOfOrder,
}

impl SyncError {
    /// The message shown to the user for this error.
    pub fn message(&self) -> (r: String)
        ensures
            r@ == self.spec_message(),
    {
        match self {
            SyncError::MissingTarget => String::from_str(
                "error: no targets specified (use -h for help)",
            ),
            SyncError::Network => String::from_str("error: the package index could not be reached"),
            SyncError::Decode => String::from_str("error: the package index sent malformed data"),
            SyncError::UnnamedPackage => String::from_str("Failed to get package name"),
            SyncError::CloneFailed => String::from_str("error: fetching the package recipe failed"),
            SyncError::BuildFailed => String::from_str("error: building the package failed"),
            SyncError::OutOfOrder => String::from_str("error: unexpected event in the session"),
        }
    }

    pub open spec fn spec_message(&self) -> Seq<char> {
        match self {
            SyncError::MissingTarget => "error: no targets specified (use -h for help)"@,
            SyncError::Network => "error: the package index could not be reached"@,
            SyncError::Decode => "error: the package index sent malformed data"@,
            SyncError::UnnamedPackage => "Failed to get package name"@,
            SyncError::CloneFailed => "error: fetching the package recipe failed"@,
            SyncError::BuildFailed => "error: building the package failed"@,
            SyncError::OutOfOrder => "error: unexpected event in the session"@,
        }
    }
}

/// The error of the session for a failed lookup.
pub open spec fn fetch_failure(e: FetchError) -> SyncError {
    match e {
        FetchError::Network => SyncError::Network,
        FetchError::Decode => SyncError::Decode,
    }
}

/// Where a synchronize session stands: what it waits for, and what it must
/// remember until then.
#[derive(Debug)]
pub enum SyncState {
    /// Waiting for the matches of a search.
    Searching,
    /// Waiting for the result of the exact lookup.
    Resolving { cache_root: String },
    /// Waiting for the user's answer about the package.
    Confirming { cache_root: String, package_name: Option<String> },
    /// Waiting to learn whether the recipe is already in the cache.
    Locating { cache_root: String, name: String },
    /// Waiting for the recipe to be fetched into `dir`.
    Cloning { dir: String },
    /// Waiting for the build to end.
    Building,
    /// Nothing left to do.
    Finished,
}

/// The mathematical value of a [`SyncState`].
pub enum SyncStateView {
    Searching,
    Resolving { cache_root: Seq<char> },
    Confirming { cache_root: Seq<char>, package_name: Option<Seq<char>> },
    Locating { cache_root: Seq<char>, name: Seq<char> },
    Cloning { dir: Seq<char> },
    Building,
    Finished,
}

impl View for SyncState {
    type V = SyncStateView;

    open spec fn view(&self) -> SyncStateView {
        match self {
            SyncState::Searching => SyncStateView::Searching,
            SyncState::Resolving { cache_root } => SyncStateView::Resolving {
                cache_root: cache_root@,
            },
            SyncState::Confirming { cache_root, package_name } => SyncStateView::Confirming {
                cache_root: cache_root@,
                package_name: match package_name {
                    Some(n) => Some(n@),
                    None => None,
                },
            },
            SyncState::Locating { cache_root, name } => SyncStateView::Locating {
                cache_root: cache_root@,
                name: name@,
            },
            SyncState::Cloning { dir } => SyncStateView::Cloning { dir: dir@ },
            SyncState::Building => SyncStateView::Building,
            SyncState::Finished => SyncStateView::Finished,
        }
    }
}

/// What the program around the session must do next.
#[derive(Debug)]
pub enum Action {
    /// Send a request to the index at `url` and report the records.
    Fetch { url: String },
    /// Ask the user whether to install the package shown.
    Confirm,
    /// Make sure the cache root exists, creating it and its parents if need
    /// be, then report whether `path` exists.
    CheckCache { path: String },
    /// Run the command, letting its output through as it comes, and report
    /// whether it succeeded.
    Run(Command),
    /// The session is over, with this result.
    Finish(Result<Outcome, SyncError>),
}

/// The mathematical value of an [`Action`].
pub enum ActionView {
    Fetch { url: Seq<char> },
    Confirm,
    CheckCache { path: Seq<char> },
    Run(CommandView),
    Finish(Result<Outcome, SyncError>),
}

impl View for Action {
    type V = ActionView;

    open spec fn view(&self) -> ActionView {
        match self {
            Action::Fetch { url } => ActionView::Fetch { url: url@ },
            Action::Confirm => ActionView::Confirm,
            Action::CheckCache { path } => ActionView::CheckCache { path: path@ },
            Action::Run(c) => ActionView::Run(c@),
            Action::Finish(r) => ActionView::Finish(*r),
        }
    }
}

/// What the program around the session reports back.
#[derive(Debug)]
pub enum Event {
    /// The records that a request gave, or why there are none.
    Results(Result<Vec<PackageRecord>, FetchError>),
    /// The user's answer.
    Answer(bool),
    /// Whether the package's directory is already in the cache.
    Cached(bool),
    /// Whether the command ran and exited successfully.
    Exited(bool),
}

/// The mathematical value of an [`Event`].
pub enum EventView {
    Results(Result<Seq<RecordView>, FetchError>),
    Answer(bool),
    Cached(bool),
    Exited(bool),
}

impl View for Event {
    type V = EventView;

    open spec fn view(&self) -> EventView {
        match self {
            Event::Results(r) => EventView::Results(
                match r {
                    Ok(v) => Ok(records_view(v@)),
                    Err(e) => Err(*e),
                },
            ),
            Event::Answer(b) => EventView::Answer(*b),
            Event::Cached(b) => EventView::Cached(*b),
            Event::Exited(b) => EventView::Exited(*b),
        }
    }
}

/// One move of the session: its new state, the lines to show the user
/// first, then the action to perform.
#[derive(Debug)]
pub struct Step {
    pub state: SyncState,
    pub lines: Vec<String>,
    pub action: Action,
}

/// The mathematical value of a [`Step`].
pub struct StepView {
    pub state: SyncStateView,
    pub lines: Seq<Seq<char>>,
    pub action: ActionView,
}

impl View for Step {
    type V = StepView;

    open spec fn view(&self) -> StepView {
        StepView { state: self.state@, lines: self.lines.deep_view(), action: self.action@ }
    }
}

/// The move that ends the session.
pub open spec fn finish_spec(lines: Seq<Seq<char>>, r: Result<Outcome, SyncError>) -> StepView {
    StepView { state: SyncStateView::Finished, lines, action: ActionView::Finish(r) }
}

/// The first move of a `-S` session: the flags choose search or install
/// mode, unknown flags are warned about, and the target decides whether
/// the index is asked.
pub open spec fn start_spec(args: ArgsView, cache_root: Seq<char>) -> StepView {
    let (search, unknown) = scan_spec(args.operation_flags);
    let warnings = warnings_spec(unknown);
    if search {
        match args.target {
            None => finish_spec(warnings, Ok(Outcome::NothingToSearch)),
            Some(t) => StepView {
                state: SyncStateView::Searching,
                lines: warnings,
                action: ActionView::Fetch { url: search_url_spec(t) },
            },
        }
    } else {
        match args.target {
            None => finish_spec(warnings, Err(SyncError::MissingTarget)),
            Some(t) => StepView {
                state: SyncStateView::Resolving { cache_root },
                lines: warnings,
                action: ActionView::Fetch { url: info_url_spec(t) },
            },
        }
    }
}

/// The move of the session on an event.
pub open spec fn step_spec(state: SyncStateView, event: EventView) -> StepView {
    match (state, event) {
        (SyncStateView::Searching, EventView::Results(Ok(recs))) => finish_spec(
            search_listing(recs),
            Ok(Outcome::Listed),
        ),
        (SyncStateView::Searching, EventView::Results(Err(e))) => finish_spec(
            Seq::empty(),
            Err(fetch_failure(e)),
        ),
        (SyncStateView::Resolving { cache_root }, EventView::Results(Ok(recs))) => {
            if recs.len() == 0 {
                finish_spec(seq!["error: No packages found"@], Ok(Outcome::NoPackages))
            } else if recs.len() > 1 {
                finish_spec(seq!["error: Multiple packages found"@], Ok(Outcome::MultiplePackages))
            } else {
                StepView {
                    state: SyncStateView::Confirming {
                        cache_root,
                        package_name: recs[0].name,
                    },
                    lines: info_lines(recs[0]),
                    action: ActionView::Confirm,
                }
            }
        },
        (SyncStateView::Resolving { .. }, EventView::Results(Err(e))) => finish_spec(
            Seq::empty(),
            Err(fetch_failure(e)),
        ),
        (SyncStateView::Confirming { cache_root, package_name }, EventView::Answer(yes)) => {
            if !yes {
                finish_spec(seq!["Aborted"@], Ok(Outcome::Aborted))
            } else {
                match package_name {
                    None => finish_spec(Seq::empty(), Err(SyncError::UnnamedPackage)),
                    Some(n) => StepView {
                        state: SyncStateView::Locating { cache_root, name: n },
                        lines: Seq::empty(),
                        action: ActionView::CheckCache { path: package_dir_spec(cache_root, n) },
                    },
                }
            }
        },
        (SyncStateView::Locating { cache_root, name }, EventView::Cached(present)) => {
            if present {
                StepView {
                    state: SyncStateView::Building,
                    lines: seq!["Package already exists in cache"@],
                    action: ActionView::Run(
                        build_command_spec(package_dir_spec(cache_root, name)),
                    ),
                }
            } else {
                StepView {
                    state: SyncStateView::Cloning { dir: package_dir_spec(cache_root, name) },
                    lines: Seq::empty(),
                    action: ActionView::Run(clone_command_spec(cache_root, name)),
                }
            }
        },
        (SyncStateView::Cloning { dir }, EventView::Exited(ok)) => {
            if ok {
                StepView {
                    state: SyncStateView::Building,
                    lines: Seq::empty(),
                    action: ActionView::Run(build_command_spec(dir)),
                }
            } else {
                finish_spec(Seq::empty(), Err(SyncError::CloneFailed))
            }
        },
        (SyncStateView::Building, EventView::Exited(ok)) => {
            if ok {
                finish_spec(Seq::empty(), Ok(Outcome::Installed))
            } else {
                finish_spec(Seq::empty(), Err(SyncError::BuildFailed))
            }
        },
        _ => finish_spec(Seq::empty(), Err(SyncError::OutOfOrder)),
    }
}

/// The error of the session for a failed lookup.
pub fn to_sync_error(e: FetchError) -> (r: SyncError)
    ensures
        r == fetch_failure(e),
{
    match e {
        FetchError::Network => SyncError::Network,
        FetchError::Decode => SyncError::Decode,
    }
}

/// The move that ends the session, after showing `lines`.
fn finish(lines: Vec<String>, r: Result<Outcome, SyncError>) -> (s: Step)
    ensures
        s@ == finish_spec(lines.deep_view(), r),
{
    Step { state: SyncState::Finished, lines, action: Action::Finish(r) }
}

/// One line to show.
fn single_line(text: &str) -> (r: Vec<String>)
    ensures
        r.deep_view() == seq![text@],
{
    let r = vec![String::from_str(text)];
    assert(r.deep_view() =~= seq![text@]);
    r
}

/// Starts a `-S` session for the parsed command line; `cache_root` is the
/// directory that holds fetched recipes.
pub fn start(args: &Args, cache_root: &String) -> (r: Step)
    ensures
        r@ == start_spec(args@, cache_root@),
{
    let scan = scan_flags(&args.operation_flags);
    let warnings = warning_lines(&scan.unknown);
    if scan.search {
        match &args.target {
            None => finish(warnings, Ok(Outcome::NothingToSearch)),
            Some(t) => Step {
                state: SyncState::Searching,
                lines: warnings,
                action: Action::Fetch { url: search_url(t.as_str()) },
            },
        }
    } else {
        match &args.target {
            None => finish(warnings, Err(SyncError::MissingTarget)),
            Some(t) => Step {
                state: SyncState::Resolving { cache_root: cache_root.clone() },
                lines: warnings,
                action: Action::Fetch { url: info_url(t.as_str()) },
            },
        }
    }
}

/// Moves the session on the event that the last action produced.
pub fn step(state: SyncState, event: Event) -> (r: Step)
    ensures
        r@ == step_spec(state@, event@),
{
    let no_lines: Vec<String> = Vec::new();
    assert(no_lines.deep_view() =~= Seq::<Seq<char>>::empty());
    match state {
        SyncState::Searching => match event {
            Event::Results(Ok(recs)) => finish(search_lines(&recs), Ok(Outcome::Listed)),
            Event::Results(Err(e)) => finish(no_lines, Err(to_sync_error(e))),
            _ => finish(no_lines, Err(SyncError::OutOfOrder)),
        },
        SyncState::Resolving { cache_root } => match event {
            Event::Results(Ok(recs)) => {
                if recs.len() == 0 {
                    finish(single_line("error: No packages found"), Ok(Outcome::NoPackages))
                } else if recs.len() > 1 {
                    finish(
                        single_line("error: Multiple packages found"),
                        Ok(Outcome::MultiplePackages),
                    )
                } else {
                    let rec = &recs[0];
                    Step {
                        state: SyncState::Confirming { cache_root, package_name: rec.name.clone() },
                        lines: display_lines(rec),
                        action: Action::Confirm,
                    }
                }
            },
            Event::Results(Err(e)) => finish(no_lines, Err(to_sync_error(e))),
            _ => finish(no_lines, Err(SyncError::OutOfOrder)),
        },
        SyncState::Confirming { cache_root, package_name } => match event {
            Event::Answer(yes) => {
                if !yes {
                    finish(single_line("Aborted"), Ok(Outcome::Aborted))
                } else {
                    match package_name {
                        None => finish(no_lines, Err(SyncError::UnnamedPackage)),
                        Some(n) => {
                            let path = package_dir(cache_root.as_str(), n.as_str());
                            Step {
                                state: SyncState::Locating { cache_root, name: n },
                                lines: no_lines,
                                action: Action::CheckCache { path },
                            }
                        },
                    }
                }
            },
            _ => finish(no_lines, Err(SyncError::OutOfOrder)),
        },
        SyncState::Locating { cache_root, name } => match event {
            Event::Cached(present) => {
                let dir = package_dir(cache_root.as_str(), name.as_str());
                if present {
                    Step {
                        state: SyncState::Building,
                        lines: single_line("Package already exists in cache"),
                        action: Action::Run(build_package(&dir)),
                    }
                } else {
                    let command = clone_command(cache_root.as_str(), name.as_str());
                    Step {
                        state: SyncState::Cloning { dir },
                        lines: no_lines,
                        action: Action::Run(command),
                    }
                }
            },
            _ => finish(no_lines, Err(SyncError::OutOfOrder)),
        },
        SyncState::Cloning { dir } => match event {
            Event::Exited(ok) => {
                if ok {
                    let command = build_package(&dir);
                    Step { state: SyncState::Building, lines: no_lines, action: Action::Run(command) }
                } else {
                    finish(no_lines, Err(SyncError::CloneFailed))
                }
            },
            _ => finish(no_lines, Err(SyncError::OutOfOrder)),
        },
        SyncState::Building => match event {
            Event::Exited(ok) => {
                if ok {
                    finish(no_lines, Ok(Outcome::Installed))
                } else {
                    finish(no_lines, Err(SyncError::BuildFailed))
                }
            },
            _ => finish(no_lines, Err(SyncError::OutOfOrder)),
        },
        SyncState::Finished => finish(no_lines, Err(SyncError::OutOfOrder)),
    }
}

/// The actions that a session performs from `state` as `events` come in.
pub open spec fn actions_after(state: SyncStateView, events: Seq<EventView>) -> Seq<ActionView>
    decreases events.len(),
{
    if events.len() == 0 {
        Seq::empty()
    } else {
        let s = step_spec(state, events[0]);
        seq![s.action] + actions_after(s.state, events.drop_first())
    }
}

/// An action that reads or changes the package cache: checking it, or
/// running the clone or the build.
pub open spec fn touches_cache(a: ActionView) -> bool {
    a is CheckCache || a is Run
}

/// An action that runs the clone command.
pub open spec fn is_clone(a: ActionView) -> bool {
    match a {
        ActionView::Run(c) => c.program == "git"@,
        _ => false,
    }
}

/// Unfolds the actions after one first event.
proof fn lemma_actions_after_first(state: SyncStateView, e: EventView, events: Seq<EventView>)
    ensures
        actions_after(state, seq![e] + events) == seq![step_spec(state, e).action]
            + actions_after(step_spec(state, e).state, events),
{
    let all = seq![e] + events;
    assert(all[0] == e);
    assert(all.drop_first() =~= events);
}

/// A finished session only ever reports that it is over.
proof fn lemma_finished_stays(events: Seq<EventView>)
    ensures
        forall|i: int|
            0 <= i < actions_after(SyncStateView::Finished, events).len() ==> (#[trigger] actions_after(
                SyncStateView::Finished,
                events,
            )[i]) is Finish,
    decreases events.len(),
{
    if events.len() > 0 {
        lemma_finished_stays(events.drop_first());
    }
}

/// From a state whose every move finishes, only finishing actions follow.
proof fn lemma_last_move(state: SyncStateView, events: Seq<EventView>)
    requires
        forall|e: EventView| (#[trigger] step_spec(state, e)).state is Finished && step_spec(
            state,
            e,
        ).action is Finish,
    ensures
        forall|i: int|
            0 <= i < actions_after(state, events).len() ==> (#[trigger] actions_after(
                state,
                events,
            )[i]) is Finish,
{
    if events.len() > 0 {
        let s = step_spec(state, events[0]);
        assert(s.state is Finished);
        lemma_finished_stays(events.drop_first());
        assert(s.state == SyncStateView::Finished);
    }
}

/// Searching without a target does nothing and succeeds: nothing is asked
/// of the index, and the only lines shown are the warnings for unknown flags.
pub proof fn law_search_without_target_is_noop(args: ArgsView, cache_root: Seq<char>)
    requires
        scan_spec(args.operation_flags).0,
        args.target is None,
    ensures
        start_spec(args, cache_root) == finish_spec(
            warnings_spec(scan_spec(args.operation_flags).1),
            Ok(Outcome::NothingToSearch),
        ),
        scan_spec(args.operation_flags).1.len() == 0 ==> start_spec(args, cache_root).lines.len()
            == 0,
{
}

/// A lookup that finds no package, or more than one, ends the session at
/// once with a success: nothing is shown for confirmation, and the cache is
/// neither checked nor changed, whatever events follow.
pub proof fn law_unresolved_lookup_stops(
    cache_root: Seq<char>,
    recs: Seq<RecordView>,
    events: Seq<EventView>,
)
    requires
        recs.len() != 1,
    ensures
        ({
            let acts = actions_after(
                SyncStateView::Resolving { cache_root },
                seq![EventView::Results(Ok(recs))] + events,
            );
            &&& acts[0] == ActionView::Finish(
                if recs.len() == 0 {
                    Ok(Outcome::NoPackages)
                } else {
                    Ok(Outcome::MultiplePackages)
                },
            )
            &&& forall|i: int| 0 <= i < acts.len() ==> (#[trigger] acts[i]) is Finish
        }),
{
    let state = SyncStateView::Resolving { cache_root };
    let e = EventView::Results(Ok(recs));
    lemma_actions_after_first(state, e, events);
    lemma_finished_stays(events);
    let acts = actions_after(state, seq![e] + events);
    assert forall|i: int| 0 <= i < acts.len() implies (#[trigger] acts[i]) is Finish by {
        if i > 0 {
            assert(acts[i] == actions_after(SyncStateView::Finished, events)[i - 1]);
        }
    }
}

/// When the package's directory is already in the cache, the recipe is
/// not fetched again: the build runs in that directory, and no clone
/// follows, whatever events come after.
pub proof fn law_cached_recipe_is_reused(
    cache_root: Seq<char>,
    name: Seq<char>,
    events: Seq<EventView>,
)
    ensures
        ({
            let acts = actions_after(
                SyncStateView::Locating { cache_root, name },
                seq![EventView::Cached(true)] + events,
            );
            &&& acts[0] == ActionView::Run(build_command_spec(package_dir_spec(cache_root, name)))
            &&& forall|i: int| 0 <= i < acts.len() ==> !is_clone(#[trigger] acts[i])
        }),
{
    let state = SyncStateView::Locating { cache_root, name };
    let e = EventView::Cached(true);
    lemma_actions_after_first(state, e, events);
    lemma_last_move(SyncStateView::Building, events);
    let acts = actions_after(state, seq![e] + events);
    assert forall|i: int| 0 <= i < acts.len() implies !is_clone(#[trigger] acts[i]) by {
        if i == 0 {
            reveal_strlit("makepkg");
            reveal_strlit("git");
            assert("makepkg"@.len() != "git"@.len());
        } else {
            assert(acts[i] == actions_after(SyncStateView::Building, events)[i - 1]);
        }
    }
}

/// Declining the confirmation ends the session: neither the fetch of the
/// recipe nor the build is ever run, and the cache is not looked at.
pub proof fn law_decline_never_acquires(
    cache_root: Seq<char>,
    package_name: Option<Seq<char>>,
    events: Seq<EventView>,
)
    ensures
        ({
            let acts = actions_after(
                SyncStateView::Confirming { cache_root, package_name },
                seq![EventView::Answer(false)] + events,
            );
            &&& acts[0] == ActionView::Finish(Ok(Outcome::Aborted))
            &&& forall|i: int| 0 <= i < acts.len() ==> !touches_cache(#[trigger] acts[i])
        }),
{
    let state = SyncStateView::Confirming { cache_root, package_name };
    let e = EventView::Answer(false);
    lemma_actions_after_first(state, e, events);
    lemma_finished_stays(events);
    let acts = actions_after(state, seq![e] + events);
    assert forall|i: int| 0 <= i < acts.len() implies !touches_cache(#[trigger] acts[i]) by {
        if i > 0 {
            assert(acts[i] == actions_after(SyncStateView::Finished, events)[i - 1]);
        }
    }
}

} // verus!
