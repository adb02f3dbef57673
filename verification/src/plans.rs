//! The shell command that each request becomes, or the reason it is refused.
use vstd::prelude::*;
use crate::backends::{
    Backend, Operation, PackageManager, command_line, operation_command, operation_named,
    pm_named, takes_packages,
};
use crate::request::{is_option, Request, RequestView};
use crate::text::{joined, str_eq, views, command_with_words};

verus! {

/// The command that `-B`/`--brew` runs for `action`: the package options
/// sent to Homebrew; `None` for an action that is not one of them.
pub open spec fn brew_plan(action: Seq<char>, rest: Seq<Seq<char>>) -> Option<Seq<char>> {
    match operation_named(action) {
        Some(op) => Some(operation_command(Backend::Homebrew, op, rest)),
        None => None,
    }
}

/// The Homebrew command for `action` and the words after it; `None` when the
/// action is unknown (the caller reports it and shows the help).
pub fn brew_command(action: &str, rest: &[String]) -> (r: Option<String>)
    ensures
        r is Some <==> brew_plan(action@, views(rest@)) is Some,
        r matches Some(c) ==> brew_plan(action@, views(rest@)) == Some(c@),
{
    match Operation::from_option(action) {
        Some(op) => Some(command_line(Backend::Homebrew, op, rest)),
        None => None,
    }
}

/// The command that `-M`/`--make` runs for its optional subcommand.
pub open spec fn make_plan(sub: Option<Seq<char>>) -> Option<Seq<char>> {
    match sub {
        None => Some("make"@),
        Some(s) => if is_option(s, "-C"@, "--clean"@) {
            Some("make clean"@)
        } else if is_option(s, "-I"@, "--install"@) {
            Some("sudo make install"@)
        } else if is_option(s, "-U"@, "--uninstall"@) {
            Some("sudo make uninstall"@)
        } else {
            None
        },
    }
}

/// The characters of an optional text.
pub open spec fn opt_chars(sub: Option<&str>) -> Option<Seq<char>> {
    match sub {
        Some(s) => Some(s@),
        None => None,
    }
}

/// The make command for the subcommand; `None` for an unknown subcommand.
pub fn make_command(sub: Option<&str>) -> (r: Option<&'static str>)
    ensures
        r is Some <==> make_plan(opt_chars(sub)) is Some,
        r matches Some(c) ==> make_plan(opt_chars(sub)) == Some(c@),
{
    match sub {
        None => Some("make"),
        Some(s) => if str_eq(s, "-C") || str_eq(s, "--clean") {
            Some("make clean")
        } else if str_eq(s, "-I") || str_eq(s, "--install") {
            Some("sudo make install")
        } else if str_eq(s, "-U") || str_eq(s, "--uninstall") {
            Some("sudo make uninstall")
        } else {
            None
        },
    }
}

/// What `-C`/`--cargo` does.
#[derive(Debug)]
pub enum CargoPlan {
    /// Run this command.
    Run(String),
    /// `-I` without a crate name: report it and stop with status 1.
    MissingCrate,
    /// An unknown subcommand: report it and show the help.
    Unknown,
}

/// What `-C`/`--cargo` does, its command taken as characters.
pub enum CargoPlanView {
    Run(Seq<char>),
    MissingCrate,
    Unknown,
}

impl View for CargoPlan {
    type V = CargoPlanView;

    open spec fn view(&self) -> CargoPlanView {
        match self {
            CargoPlan::Run(c) => CargoPlanView::Run(c@),
            CargoPlan::MissingCrate => CargoPlanView::MissingCrate,
            CargoPlan::Unknown => CargoPlanView::Unknown,
        }
    }
}

/// What `-C`/`--cargo` does for a subcommand and the words after it.
pub open spec fn cargo_plan_of(sub: Seq<char>, rest: Seq<Seq<char>>) -> CargoPlanView {
    if is_option(sub, "-B"@, "--build"@) {
        CargoPlanView::Run("cargo build --release"@)
    } else if is_option(sub, "-I"@, "--install"@) {
        if rest.len() == 0 {
            CargoPlanView::MissingCrate
        } else {
            CargoPlanView::Run("cargo install"@ + seq![' '] + joined(rest))
        }
    } else {
        CargoPlanView::Unknown
    }
}

/// What `-C`/`--cargo` does for `sub` and the words after it.
pub fn cargo_plan(sub: &str, rest: &[String]) -> (r: CargoPlan)
    ensures
        r@ == cargo_plan_of(sub@, views(rest@)),
{
    if str_eq(sub, "-B") || str_eq(sub, "--build") {
        CargoPlan::Run(String::from_str("cargo build --release"))
    } else if str_eq(sub, "-I") || str_eq(sub, "--install") {
        if rest.len() == 0 {
            CargoPlan::MissingCrate
        } else {
            CargoPlan::Run(command_with_words("cargo install", rest))
        }
    } else {
        CargoPlan::Unknown
    }
}

/// `git clone <url>`.
pub fn git_clone_command(url: &str) -> (r: String)
    ensures
        r@ == "git clone "@ + url@,
{
    let mut r = String::from_str("git clone ");
    r.append(url);
    r
}

/// `wget <url>`.
pub fn wget_command(url: &str) -> (r: String)
    ensures
        r@ == "wget "@ + url@,
{
    let mut r = String::from_str("wget ");
    r.append(url);
    r
}

/// The shell test that a command is on `PATH`, silent either way:
/// `command -v <cmd> >/dev/null 2>&1`.
pub fn probe_script(cmd: &str) -> (r: String)
    ensures
        r@ == "command -v "@ + cmd@ + " >/dev/null 2>&1"@,
{
    let mut r = String::from_str("command -v ");
    r.append(cmd);
    r.append(" >/dev/null 2>&1");
    r
}

/// The argument that a package operation passes to a custom backend script
/// (`se-pkg-<pm>` in the scripts directory).
pub open spec fn script_action(op: Operation) -> Seq<char> {
    match op {
        Operation::Install => "install"@,
        Operation::Remove => "remove"@,
        Operation::Purge => "purge"@,
        Operation::Search => "search"@,
        Operation::Update => "update"@,
        Operation::Upgrade => "upgrade"@,
    }
}

impl Operation {
    /// The argument that this operation passes to a custom backend script.
    pub fn script_action(self) -> (r: &'static str)
        ensures
            r@ == script_action(self),
    {
        match self {
            Operation::Install => "install",
            Operation::Remove => "remove",
            Operation::Purge => "purge",
            Operation::Search => "search",
            Operation::Update => "update",
            Operation::Upgrade => "upgrade",
        }
    }
}

/// What a package option does.
#[derive(Debug)]
pub enum PackagePlan {
    /// Run the custom backend script with this action and these arguments.
    Script { action: String, args: Vec<String> },
    /// Run this command.
    Run(String),
    /// The configured manager is neither known nor backed by a script:
    /// report `Unsupported PM`.
    UnsupportedPm,
    /// The option is not a package option: report it and show the help.
    UnknownOption,
}

/// What a package option does, its texts taken as characters.
pub enum PackagePlanView {
    Script { action: Seq<char>, args: Seq<Seq<char>> },
    Run(Seq<char>),
    UnsupportedPm,
    UnknownOption,
}

impl View for PackagePlan {
    type V = PackagePlanView;

    open spec fn view(&self) -> PackagePlanView {
        match self {
            PackagePlan::Script { action, args } => PackagePlanView::Script {
                action: action@,
                args: views(args@),
            },
            PackagePlan::Run(c) => PackagePlanView::Run(c@),
            PackagePlan::UnsupportedPm => PackagePlanView::UnsupportedPm,
            PackagePlan::UnknownOption => PackagePlanView::UnknownOption,
        }
    }
}

/// What the package option `option`, with the words `rest` after it, does
/// when `pm` is configured; `scripted` tells whether a custom backend script
/// exists for `pm`, which then takes precedence over the built-in commands.
pub open spec fn package_plan_of(
    pm: Seq<char>,
    scripted: bool,
    option: Seq<char>,
    rest: Seq<Seq<char>>,
) -> PackagePlanView {
    if scripted {
        match operation_named(option) {
            Some(op) => PackagePlanView::Script {
                action: script_action(op),
                args: if takes_packages(op) {
                    rest
                } else {
                    Seq::empty()
                },
            },
            None => PackagePlanView::UnknownOption,
        }
    } else {
        match pm_named(pm) {
            None => PackagePlanView::UnsupportedPm,
            Some(m) => match operation_named(option) {
                Some(op) => PackagePlanView::Run(
                    operation_command(Backend::Manager(m), op, rest),
                ),
                None => PackagePlanView::UnknownOption,
            },
        }
    }
}

/// Copies of all the words.
fn copy_words(words: &[String]) -> (r: Vec<String>)
    ensures
        r@ == words@,
{
    let mut r: Vec<String> = Vec::new();
    let mut i: usize = 0;
    while i < words.len()
        invariant
            i <= words@.len(),
            r@ == words@.take(i as int),
        decreases words@.len() - i,
    {
        r.push(words[i].clone());
        assert(words@.take(i + 1) =~= words@.take(i as int).push(words@[i as int]));
        i = i + 1;
    }
    assert(words@.take(words@.len() as int) =~= words@);
    r
}

/// What the package option `option` with the words `rest` after it does
/// when `pm` is configured and, if `scripted`, a custom backend script for
/// `pm` exists.
pub fn package_plan(pm: &str, scripted: bool, option: &str, rest: &[String]) -> (r: PackagePlan)
    ensures
        r@ == package_plan_of(pm@, scripted, option@, views(rest@)),
{
    if scripted {
        match Operation::from_option(option) {
            Some(op) => {
                let args = if op.takes_packages() {
                    copy_words(rest)
                } else {
                    Vec::new()
                };
                proof {
                    if !takes_packages(op) {
                        assert(views(args@) =~= Seq::<Seq<char>>::empty());
                    }
                }
                PackagePlan::Script { action: String::from_str(op.script_action()), args }
            },
            None => PackagePlan::UnknownOption,
        }
    } else {
        match PackageManager::from_name(pm) {
            None => PackagePlan::UnsupportedPm,
            Some(m) => match Operation::from_option(option) {
                Some(op) => PackagePlan::Run(command_line(Backend::Manager(m), op, rest)),
                None => PackagePlan::UnknownOption,
            },
        }
    }
}

/// A language runtime that `-L`/`--lang` can install.
#[derive(Clone, Copy, Debug, PartialEq, Eq, Structural)]
pub enum Language {
    Scala,
    Java,
    /// Any other name: reported, with the list of supported languages.
    Unsupported,
}

/// A name for what `str::to_lowercase` returns: the lowercase form of the
/// text under Unicode's case mapping.
pub uninterp spec fn lowercase(s: Seq<char>) -> Seq<char>;

/// `s` with each ASCII capital letter replaced by its small letter.
pub open spec fn ascii_lower(s: Seq<char>) -> Seq<char> {
    Seq::new(
        s.len(),
        |i: int|
            if 'A' <= s[i] <= 'Z' {
                ((s[i] as int) + 32) as char
            } else {
                s[i]
            },
    )
}

/// Whether every character of `s` is ASCII.
pub open spec fn all_ascii(s: Seq<char>) -> bool {
    forall|i: int| 0 <= i < s.len() ==> (#[trigger] s[i] as int) < 128
}

/// Calls `str::to_lowercase`. Trusted: the result is the named lowercase
/// form of `s`, a function of `s` alone, and on ASCII text it only turns
/// capital letters into small ones (Unicode maps `A`..`Z` to `a`..`z` and
/// leaves the other ASCII characters as they are). What the case mapping
/// does to other characters is not stated.
#[verifier::external_body]
fn to_lowercase(s: &str) -> (r: String)
    ensures
        r@ == lowercase(s@),
        all_ascii(s@) ==> r@ == ascii_lower(s@),
{
    s.to_lowercase()
}

/// The language named by an already lowercased name.
pub open spec fn language_of_lowercase(l: Seq<char>) -> Language {
    if l == "scala"@ {
        Language::Scala
    } else if l == "java"@ {
        Language::Java
    } else {
        Language::Unsupported
    }
}

/// The language that a lowercased name selects.
pub fn language_from_lowercase(l: &str) -> (r: Language)
    ensures
        r == language_of_lowercase(l@),
{
    if str_eq(l, "scala") {
        Language::Scala
    } else if str_eq(l, "java") {
        Language::Java
    } else {
        Language::Unsupported
    }
}

/// The language that `-L`/`--lang` names, its case ignored as
/// `str::to_lowercase` ignores it.
pub fn language_named(name: &str) -> (r: Language)
    ensures
        r == language_of_lowercase(lowercase(name@)),
        all_ascii(name@) ==> r == language_of_lowercase(ascii_lower(name@)),
{
    let l = to_lowercase(name);
    language_from_lowercase(l.as_str())
}

/// A tool that a request needs on `PATH` before it does anything.
#[derive(Clone, Copy, Debug, PartialEq, Eq, Structural)]
pub enum RequiredTool {
    Brew,
    Make,
    Cargo,
    Git,
    Wget,
}

/// Whether a request may go on, once its tool has been looked for.
#[derive(Clone, Copy, Debug, PartialEq, Eq, Structural)]
pub enum Gate {
    /// Go on with the request.
    Proceed,
    /// The tool is missing: print its message and stop with exit status 1.
    Stop(RequiredTool),
}

/// The tool that a request needs on `PATH`, if any: Homebrew for `-B`,
/// make for `-M`, cargo for `-C`, git for `-GC` and wget for `-W`, each once
/// its operand is there.
pub open spec fn tool_required(r: RequestView) -> Option<RequiredTool> {
    match r {
        RequestView::Brew { .. } => Some(RequiredTool::Brew),
        RequestView::Make { .. } => Some(RequiredTool::Make),
        RequestView::Cargo { .. } => Some(RequiredTool::Cargo),
        RequestView::GitClone { .. } => Some(RequiredTool::Git),
        RequestView::Wget { .. } => Some(RequiredTool::Wget),
        _ => None,
    }
}

/// Whether a request goes on, `found` telling whether the tool it needs is
/// on `PATH` (ignored for a request that needs none).
pub open spec fn gate_of(r: RequestView, found: bool) -> Gate {
    match tool_required(r) {
        Some(t) => if found {
            Gate::Proceed
        } else {
            Gate::Stop(t)
        },
        None => Gate::Proceed,
    }
}

/// The tool that `request` needs on `PATH` before it does anything.
pub fn required_tool(request: &Request) -> (r: Option<RequiredTool>)
    ensures
        r == tool_required(request@),
{
    match request {
        Request::Brew { .. } => Some(RequiredTool::Brew),
        Request::Make { .. } => Some(RequiredTool::Make),
        Request::Cargo { .. } => Some(RequiredTool::Cargo),
        Request::GitClone { .. } => Some(RequiredTool::Git),
        Request::Wget { .. } => Some(RequiredTool::Wget),
        _ => None,
    }
}

/// Whether `request` goes on: it stops when it needs a tool and `found`
/// says the tool is not on `PATH`.
pub fn gate(request: &Request, found: bool) -> (r: Gate)
    ensures
        r == gate_of(request@, found),
        r is Stop ==> !found,
{
    match required_tool(request) {
        Some(t) => if found {
            Gate::Proceed
        } else {
            Gate::Stop(t)
        },
        None => Gate::Proceed,
    }
}

impl RequiredTool {
    /// The command name looked for on `PATH`.
    pub fn command_name(self) -> (r: &'static str)
        ensures
            r@ == match self {
                RequiredTool::Brew => "brew"@,
                RequiredTool::Make => "make"@,
                RequiredTool::Cargo => "cargo"@,
                RequiredTool::Git => "git"@,
                RequiredTool::Wget => "wget"@,
            },
    {
        match self {
            RequiredTool::Brew => "brew",
            RequiredTool::Make => "make",
            RequiredTool::Cargo => "cargo",
            RequiredTool::Git => "git",
            RequiredTool::Wget => "wget",
        }
    }

    /// The line printed when the tool is missing.
    pub fn missing_message(self) -> (r: &'static str)
        ensures
            r@ == match self {
                RequiredTool::Brew => "\x1b[1;31mHomebrew (brew) is not installed or not in PATH.\x1b[0m"@,
                RequiredTool::Make => "\x1b[1;31mmake is not installed or not in PATH.\x1b[0m"@,
                RequiredTool::Cargo => "\x1b[1;31mcargo is not installed or not in PATH.\x1b[0m"@,
                RequiredTool::Git => "\x1b[1;31mgit is not installed or not in PATH.\x1b[0m"@,
                RequiredTool::Wget => "\x1b[1;31mwget is not installed or not in PATH.\x1b[0m"@,
            },
    {
        match self {
            RequiredTool::Brew => "\x1b[1;31mHomebrew (brew) is not installed or not in PATH.\x1b[0m",
            RequiredTool::Make => "\x1b[1;31mmake is not installed or not in PATH.\x1b[0m",
            RequiredTool::Cargo => "\x1b[1;31mcargo is not installed or not in PATH.\x1b[0m",
            RequiredTool::Git => "\x1b[1;31mgit is not installed or not in PATH.\x1b[0m",
            RequiredTool::Wget => "\x1b[1;31mwget is not installed or not in PATH.\x1b[0m",
        }
    }

    /// The line printed after the message, where there is one: where to get
    /// the tool.
    pub fn install_hint(self) -> (r: Option<&'static str>)
        ensures
            r is Some <==> (self == RequiredTool::Brew || self == RequiredTool::Cargo),
            r matches Some(h) ==> h@ == if self == RequiredTool::Brew {
                "Install it from https://brew.sh"@
            } else {
                "Install Rust via https://rustup.rs"@
            },
    {
        match self {
            RequiredTool::Brew => Some("Install it from https://brew.sh"),
            RequiredTool::Cargo => Some("Install Rust via https://rustup.rs"),
            _ => None,
        }
    }
}

} // verus!
