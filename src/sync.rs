use vstd::prelude::*;
use crate::args::Args;

verus! {

/// Relies on String::push: the character is added at the end.
#[verifier::external_body]
fn push_char(s: &mut String, c: char)
    ensures
        final(s)@ == old(s)@.push(c),
{
    s.push(c)
}

/// Where the operation goes once the command line is parsed.
#[derive(Debug, Clone, Copy, PartialEq, Eq, Structural)]
pub enum Route {
    /// `-S`: the synchronize session.
    Synchronize,
    /// Every other operation, or none: the manual page is shown.
    ManualPage,
}

/// Chooses the handler of the parsed operation.
pub fn route(args: &Args) -> (r: Route)
    ensures
        r == (if args.operation == Some('S') {
            Route::Synchronize
        } else {
            Route::ManualPage
        }),
{
    match args.operation {
        Some(op) => if op == 'S' {
            Route::Synchronize
        } else {
            Route::ManualPage
        },
        None => Route::ManualPage,
    }
}

/// An external program to run, with its arguments and its working directory.
#[derive(Debug, Clone)]
pub struct Command {
    pub program: String,
    pub args: Vec<String>,
    pub dir: String,
}

/// The mathematical value of a [`Command`].
pub struct CommandView {
    pub program: Seq<char>,
    pub args: Seq<Seq<char>>,
    pub dir: Seq<char>,
}

impl View for Command {
    type V = CommandView;

    open spec fn view(&self) -> CommandView {
        CommandView { program: self.program@, args: self.args.deep_view(), dir: self.dir@ }
    }
}

/// The index's address for the exact lookup of a package.
pub open spec fn info_url_spec(name: Seq<char>) -> Seq<char> {
    "https://aur.archlinux.org/rpc/v5/info/"@ + name
}

/// The index's address for a search by name and description.
pub open spec fn search_url_spec(fragment: Seq<char>) -> Seq<char> {
    "https://aur.archlinux.org/rpc/v5/search/"@ + fragment + "?by=name-desc"@
}

/// The repository that holds a package's build recipe.
pub open spec fn recipe_url_spec(name: Seq<char>) -> Seq<char> {
    "https://aur.archlinux.org/"@ + name + ".git"@
}

/// The directory in the cache where a package's recipe is kept.
pub open spec fn package_dir_spec(cache_root: Seq<char>, name: Seq<char>) -> Seq<char> {
    cache_root + "/"@ + name
}

/// The command that shows the manual page.
pub open spec fn manual_command_spec() -> CommandView {
    CommandView { program: "man"@, args: seq!["pacman"@], dir: "."@ }
}

/// The command that fetches a package's recipe into the cache.
pub open spec fn clone_command_spec(cache_root: Seq<char>, name: Seq<char>) -> CommandView {
    CommandView {
        program: "git"@,
        args: seq!["clone"@, recipe_url_spec(name), name],
        dir: cache_root,
    }
}

/// The command that builds and installs a fetched recipe.
pub open spec fn build_command_spec(pkg_directory: Seq<char>) -> CommandView {
    CommandView { program: "makepkg"@, args: seq!["-si"@], dir: pkg_directory }
}

pub fn info_url(name: &str) -> (r: String)
    ensures
        r@ == info_url_spec(name@),
{
    String::from_str("https://aur.archlinux.org/rpc/v5/info/").concat(name)
}

pub fn search_url(fragment: &str) -> (r: String)
    ensures
        r@ == search_url_spec(fragment@),
{
    String::from_str("https://aur.archlinux.org/rpc/v5/search/").concat(fragment).concat(
        "?by=name-desc",
    )
}

pub fn recipe_url(name: &str) -> (r: String)
    ensures
        r@ == recipe_url_spec(name@),
{
    String::from_str("https://aur.archlinux.org/").concat(name).concat(".git")
}

pub fn package_dir(cache_root: &str, name: &str) -> (r: String)
    ensures
        r@ == package_dir_spec(cache_root@, name@),
{
    String::from_str(cache_root).concat("/").concat(name)
}

/// The command that shows the manual page, for every operation but `-S`.
pub fn manual_command() -> (r: Command)
    ensures
        r@ == manual_command_spec(),
{
    let r = Command {
        program: String::from_str("man"),
        args: vec![String::from_str("pacman")],
        dir: String::from_str("."),
    };
    assert(r@.args =~= manual_command_spec().args);
    r
}

/// The command that fetches a package's recipe: a clone run in the cache
/// root, into a directory named after the package.
pub fn clone_command(cache_root: &str, name: &str) -> (r: Command)
    ensures
        r@ == clone_command_spec(cache_root@, name@),
{
    let r = Command {
        program: String::from_str("git"),
        args: vec![String::from_str("clone"), recipe_url(name), String::from_str(name)],
        dir: String::from_str(cache_root),
    };
    assert(r@.args =~= clone_command_spec(cache_root@, name@).args);
    r
}

/// The command that builds and installs the recipe in `pkg_directory`.
pub fn build_package(pkg_directory: &String) -> (r: Command)
    ensures
        r@ == build_command_spec(pkg_directory@),
{
    let r = Command {
        program: String::from_str("makepkg"),
        args: vec![String::from_str("-si")],
        dir: pkg_directory.clone(),
    };
    assert(r@.args =~= build_command_spec(pkg_directory@).args);
    r
}

/// What the flags of `-S` select: search mode, and the flags that are not
/// understood, in order.
pub struct FlagScan {
    pub search: bool,
    pub unknown: Vec<char>,
}

/// Reads the flags left to right. `s` selects search mode and ends the
/// scan: later flags are not looked at. `y` is understood and changes
/// nothing. Any other flag is collected as unknown and the scan goes on.
pub open spec fn scan_spec(flags: Seq<char>) -> (bool, Seq<char>)
    decreases flags.len(),
{
    if flags.len() == 0 {
        (false, Seq::empty())
    } else {
        let (search, unknown) = scan_spec(flags.drop_last());
        let c = flags.last();
        if search || c == 's' {
            (true, unknown)
        } else if c == 'y' {
            (false, unknown)
        } else {
            (false, unknown.push(c))
        }
    }
}

/// Scans the flags of `-S`.
pub fn scan_flags(flags: &Vec<char>) -> (r: FlagScan)
    ensures
        (r.search, r.unknown@) == scan_spec(flags@),
{
    let mut search = false;
    let mut unknown: Vec<char> = Vec::new();
    let mut i: usize = 0;
    assert(flags@.take(0) =~= Seq::<char>::empty());
    while i < flags.len() && !search
        invariant
            0 <= i <= flags.len(),
            (search, unknown@) == scan_spec(flags@.take(i as int)),
        decreases flags.len() - i,
    {
        let c = flags[i];
        assert(flags@.take(i + 1).drop_last() =~= flags@.take(i as int));
        if c == 's' {
            search = true;
        } else if c != 'y' {
            unknown.push(c);
        }
        i = i + 1;
    }
    proof {
        lemma_scan_found_stays(flags@, i as int);
    }
    FlagScan { search, unknown }
}

/// After search mode is selected, the rest of the flags change nothing.
proof fn lemma_scan_found_stays(flags: Seq<char>, i: int)
    requires
        0 <= i <= flags.len(),
        i < flags.len() ==> scan_spec(flags.take(i)).0,
    ensures
        scan_spec(flags) == scan_spec(flags.take(i)),
    decreases flags.len() - i,
{
    if i == flags.len() {
        assert(flags.take(i) =~= flags);
    } else {
        assert(flags.take(i + 1).drop_last() =~= flags.take(i));
        lemma_scan_found_stays(flags, i + 1);
    }
}

/// The warning shown for a flag that is not understood.
pub open spec fn warning_spec(c: char) -> Seq<char> {
    "Warning: Ignoring unknown flag '"@.push(c) + "'"@
}

/// The warnings for a list of unknown flags, one line each.
pub open spec fn warnings_spec(unknown: Seq<char>) -> Seq<Seq<char>> {
    unknown.map_values(|c: char| warning_spec(c))
}

/// The warnings for a list of unknown flags, one line each.
pub fn warning_lines(unknown: &Vec<char>) -> (r: Vec<String>)
    ensures
        r.deep_view() == warnings_spec(unknown@),
{
    let mut lines: Vec<String> = Vec::new();
    let mut i: usize = 0;
    while i < unknown.len()
        invariant
            0 <= i <= unknown.len(),
            lines.deep_view() =~= warnings_spec(unknown@.take(i as int)),
        decreases unknown.len() - i,
    {
        let mut line = String::from_str("Warning: Ignoring unknown flag '");
        push_char(&mut line, unknown[i]);
        let line = line.concat("'");
        let ghost before = lines.deep_view();
        lines.push(line);
        assert(lines.deep_view() =~= before.push(warning_spec(unknown@[i as int])));
        assert(unknown@.take(i + 1) =~= unknown@.take(i as int).push(unknown[i as int]));
        assert(warnings_spec(unknown@.take(i + 1)) =~= warnings_spec(unknown@.take(i as int)).push(
            warning_spec(unknown@[i as int]),
        ));
        i = i + 1;
    }
    assert(unknown@.take(unknown.len() as int) =~= unknown@);
    lines
}

} // verus!
