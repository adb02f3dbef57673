//! First-run setup: find the package manager of the running system, ask the
//! questions that decide the final choice, and name what is written to the
//! configuration.
//!
//! The setup talks to the system and to the user, so it is a state machine:
//! each step names an action (probe for a tool, ask a question, finish,
//! abort); the caller performs it and hands the reply to the next step.
use vstd::prelude::*;
use crate::backends::{PackageManager, pm_name, pm_named};
use crate::config::{config_text, configured_pm, law_config_round_trip, mentions_marker, marker};
use crate::text::{trim, trimmed};
use crate::plans::package_plan_of;

verus! {

/// A tool whose presence on `PATH` the setup checks.
#[derive(Clone, Copy, Debug, PartialEq, Eq, Structural)]
pub enum Tool {
    XbpsInstall,
    Apt,
    Pacman,
    Dnf,
    Zypper,
    Emerge,
    Paru,
}

/// A question that the setup asks.
#[derive(Clone, Copy, Debug, PartialEq, Eq, Structural)]
pub enum Question {
    /// On Void Linux: install xtools?
    Xtools,
    /// On an apt system: install and use nala?
    Nala,
    /// On a pacman system: use paru?
    Paru,
}

/// A package installed before the configuration is written.
#[derive(Clone, Copy, Debug, PartialEq, Eq, Structural)]
pub enum Extra {
    Xtools,
    Nala,
}

/// Why the setup gave up.
#[derive(Clone, Copy, Debug, PartialEq, Eq, Structural)]
pub enum Failure {
    /// None of the supported package managers was found.
    NoManager,
    /// paru was chosen but is not installed.
    ParuMissing,
}

/// What the setup asks its caller to do next.
#[derive(Clone, Copy, Debug, PartialEq, Eq, Structural)]
pub enum SetupAction {
    /// Check whether the tool is on `PATH`; reply with the outcome.
    Probe(Tool),
    /// Show the question and read one line; reply with it.
    Ask(Question),
    /// Install `extra` if there is one, write the configuration for `pm`,
    /// and use `pm`.
    Finish { extra: Option<Extra>, pm: PackageManager },
    /// Print the failure and stop with exit status 1.
    Abort(Failure),
}

/// Whether a trimmed answer equals `y` ignoring ASCII case.
pub open spec fn is_yes(t: Seq<char>) -> bool {
    t.len() == 1 && (t[0] == 'y' || t[0] == 'Y')
}

/// Whether a trimmed answer accepts a question whose default is yes: empty,
/// or `y` ignoring ASCII case.
pub open spec fn accepts_default_yes(t: Seq<char>) -> bool {
    t.len() == 0 || is_yes(t)
}

/// The step after probing for `tool`.
pub open spec fn after_probe(tool: Tool, found: bool) -> SetupAction {
    match tool {
        Tool::XbpsInstall => if found {
            SetupAction::Ask(Question::Xtools)
        } else {
            SetupAction::Probe(Tool::Apt)
        },
        Tool::Apt => if found {
            SetupAction::Ask(Question::Nala)
        } else {
            SetupAction::Probe(Tool::Pacman)
        },
        Tool::Pacman => if found {
            SetupAction::Ask(Question::Paru)
        } else {
            SetupAction::Probe(Tool::Dnf)
        },
        Tool::Dnf => if found {
            SetupAction::Finish { extra: None, pm: PackageManager::Dnf }
        } else {
            SetupAction::Probe(Tool::Zypper)
        },
        Tool::Zypper => if found {
            SetupAction::Finish { extra: None, pm: PackageManager::Zypper }
        } else {
            SetupAction::Probe(Tool::Emerge)
        },
        Tool::Emerge => if found {
            SetupAction::Finish { extra: None, pm: PackageManager::Emerge }
        } else {
            SetupAction::Abort(Failure::NoManager)
        },
        Tool::Paru => if found {
            SetupAction::Finish { extra: None, pm: PackageManager::Paru }
        } else {
            SetupAction::Abort(Failure::ParuMissing)
        },
    }
}

/// The step after the trimmed answer `t` to question `q`.
pub open spec fn after_answer(q: Question, t: Seq<char>) -> SetupAction {
    match q {
        Question::Xtools => if accepts_default_yes(t) {
            SetupAction::Finish { extra: Some(Extra::Xtools), pm: PackageManager::Void }
        } else {
            SetupAction::Finish { extra: None, pm: PackageManager::Void }
        },
        Question::Nala => if accepts_default_yes(t) {
            SetupAction::Finish { extra: Some(Extra::Nala), pm: PackageManager::Nala }
        } else {
            SetupAction::Finish { extra: None, pm: PackageManager::Apt }
        },
        Question::Paru => if is_yes(t) {
            SetupAction::Probe(Tool::Paru)
        } else {
            SetupAction::Finish { extra: None, pm: PackageManager::Pacman }
        },
    }
}

/// How far a step is from the end of the setup; every reply lowers it.
pub open spec fn steps_left(a: SetupAction) -> nat {
    match a {
        SetupAction::Probe(Tool::XbpsInstall) => 10,
        SetupAction::Ask(Question::Xtools) => 9,
        SetupAction::Probe(Tool::Apt) => 8,
        SetupAction::Ask(Question::Nala) => 7,
        SetupAction::Probe(Tool::Pacman) => 6,
        SetupAction::Ask(Question::Paru) => 5,
        SetupAction::Probe(Tool::Dnf) => 4,
        SetupAction::Probe(Tool::Zypper) => 3,
        SetupAction::Probe(Tool::Emerge) => 2,
        SetupAction::Probe(Tool::Paru) => 1,
        SetupAction::Finish { .. } => 0,
        SetupAction::Abort(_) => 0,
    }
}

/// The first step of the setup: look for `xbps-install`.
pub fn setup_begin() -> (r: SetupAction)
    ensures
        r == SetupAction::Probe(Tool::XbpsInstall),
{
    SetupAction::Probe(Tool::XbpsInstall)
}

/// The step after probing for `tool`; `found` tells whether it is on `PATH`.
pub fn setup_after_probe(tool: Tool, found: bool) -> (r: SetupAction)
    ensures
        r == after_probe(tool, found),
        steps_left(r) < steps_left(SetupAction::Probe(tool)),
{
    match tool {
        Tool::XbpsInstall => if found {
            SetupAction::Ask(Question::Xtools)
        } else {
            SetupAction::Probe(Tool::Apt)
        },
        Tool::Apt => if found {
            SetupAction::Ask(Question::Nala)
        } else {
            SetupAction::Probe(Tool::Pacman)
        },
        Tool::Pacman => if found {
            SetupAction::Ask(Question::Paru)
        } else {
            SetupAction::Probe(Tool::Dnf)
        },
        Tool::Dnf => if found {
            SetupAction::Finish { extra: None, pm: PackageManager::Dnf }
        } else {
            SetupAction::Probe(Tool::Zypper)
        },
        Tool::Zypper => if found {
            SetupAction::Finish { extra: None, pm: PackageManager::Zypper }
        } else {
            SetupAction::Probe(Tool::Emerge)
        },
        Tool::Emerge => if found {
            SetupAction::Finish { extra: None, pm: PackageManager::Emerge }
        } else {
            SetupAction::Abort(Failure::NoManager)
        },
        Tool::Paru => if found {
            SetupAction::Finish { extra: None, pm: PackageManager::Paru }
        } else {
            SetupAction::Abort(Failure::ParuMissing)
        },
    }
}

/// Whether a trimmed answer is `y` or `Y`.
fn answer_is_yes(t: &str) -> (r: bool)
    ensures
        r == is_yes(t@),
{
    if t.unicode_len() != 1 {
        return false;
    }
    let c = t.get_char(0);
    c == 'y' || c == 'Y'
}

/// The step after the answer `t`, already trimmed, to question `q`.
pub fn setup_after_trimmed_answer(q: Question, t: &str) -> (r: SetupAction)
    ensures
        r == after_answer(q, t@),
        steps_left(r) < steps_left(SetupAction::Ask(q)),
{
    let yes = answer_is_yes(t);
    let accepted = t.unicode_len() == 0 || yes;
    match q {
        Question::Xtools => if accepted {
            SetupAction::Finish { extra: Some(Extra::Xtools), pm: PackageManager::Void }
        } else {
            SetupAction::Finish { extra: None, pm: PackageManager::Void }
        },
        Question::Nala => if accepted {
            SetupAction::Finish { extra: Some(Extra::Nala), pm: PackageManager::Nala }
        } else {
            SetupAction::Finish { extra: None, pm: PackageManager::Apt }
        },
        Question::Paru => if yes {
            SetupAction::Probe(Tool::Paru)
        } else {
            SetupAction::Finish { extra: None, pm: PackageManager::Pacman }
        },
    }
}

/// The step after the line `answer` that the user typed for question `q`:
/// the answer is trimmed of surrounding whitespace first.
pub fn setup_after_answer(q: Question, answer: &str) -> (r: SetupAction)
    ensures
        r == after_answer(q, trimmed(answer@)),
        steps_left(r) < steps_left(SetupAction::Ask(q)),
{
    let t = trim(answer);
    setup_after_trimmed_answer(q, t)
}

impl Tool {
    /// The command name looked for on `PATH`.
    pub fn command_name(self) -> (r: &'static str)
        ensures
            r@ == match self {
                Tool::XbpsInstall => "xbps-install"@,
                Tool::Apt => "apt"@,
                Tool::Pacman => "pacman"@,
                Tool::Dnf => "dnf"@,
                Tool::Zypper => "zypper"@,
                Tool::Emerge => "emerge"@,
                Tool::Paru => "paru"@,
            },
    {
        match self {
            Tool::XbpsInstall => "xbps-install",
            Tool::Apt => "apt",
            Tool::Pacman => "pacman",
            Tool::Dnf => "dnf",
            Tool::Zypper => "zypper",
            Tool::Emerge => "emerge",
            Tool::Paru => "paru",
        }
    }
}

impl Question {
    /// The line printed before the question: what was detected.
    pub fn notice(self) -> (r: &'static str)
        ensures
            r@ == match self {
                Question::Xtools => "\x1b[1;34mDetected Void Linux (xbps)\x1b[0m"@,
                Question::Nala => "\x1b[1;34mDetected apt-based system\x1b[0m"@,
                Question::Paru => "\x1b[1;34mDetected pacman-based system\x1b[0m"@,
            },
    {
        match self {
            Question::Xtools => "\x1b[1;34mDetected Void Linux (xbps)\x1b[0m",
            Question::Nala => "\x1b[1;34mDetected apt-based system\x1b[0m",
            Question::Paru => "\x1b[1;34mDetected pacman-based system\x1b[0m",
        }
    }

    /// The question itself, printed without a newline.
    pub fn prompt(self) -> (r: &'static str)
        ensures
            r@ == match self {
                Question::Xtools => "\x1b[1;33mInstall xtools? [Y/n]\x1b[0m "@,
                Question::Nala => "\x1b[1;33mInstall nala? [Y/n]\x1b[0m "@,
                Question::Paru => "\x1b[1;33mUse paru (AUR helper)? [y/N]\x1b[0m "@,
            },
    {
        match self {
            Question::Xtools => "\x1b[1;33mInstall xtools? [Y/n]\x1b[0m ",
            Question::Nala => "\x1b[1;33mInstall nala? [Y/n]\x1b[0m ",
            Question::Paru => "\x1b[1;33mUse paru (AUR helper)? [y/N]\x1b[0m ",
        }
    }
}

impl Extra {
    /// The command that installs the extra package.
    pub fn install_command(self) -> (r: &'static str)
        ensures
            r@ == match self {
                Extra::Xtools => "sudo xbps-install -S xtools"@,
                Extra::Nala => "sudo apt install nala -y"@,
            },
    {
        match self {
            Extra::Xtools => "sudo xbps-install -S xtools",
            Extra::Nala => "sudo apt install nala -y",
        }
    }
}

impl Failure {
    /// The message printed before stopping.
    pub fn message(self) -> (r: &'static str)
        ensures
            r@ == match self {
                Failure::NoManager => "No supported package manager found."@,
                Failure::ParuMissing => "Install paru manually, then rerun se."@,
            },
    {
        match self {
            Failure::NoManager => "No supported package manager found.",
            Failure::ParuMissing => "Install paru manually, then rerun se.",
        }
    }
}

proof fn lemma_plain_name(s: Seq<char>)
    requires
        forall|k: int| 0 <= k < s.len() ==> 'a' <= #[trigger] s[k] <= 'z',
    ensures
        !s.contains('\n'),
        !mentions_marker(s),
{
    if mentions_marker(s) {
        let i = choose|i: int| 0 <= i && i + 3 <= s.len() && #[trigger] s.subrange(i, i + 3) == marker();
        assert(s.subrange(i, i + 3)[0] == s[i]);
    }
}

/// Every package manager that the setup can choose is stored so that a later
/// run reads the same name back from the configuration, and that name is one
/// that `se` has commands for, naming the same manager: a package option is
/// never answered with `Unsupported PM` for it.
pub proof fn law_setup_choice_read_back(m: PackageManager, option: Seq<char>, rest: Seq<Seq<char>>)
    ensures
        configured_pm(config_text(pm_name(m))) == Some(pm_name(m)),
        pm_named(pm_name(m)) == Some(m),
        !(package_plan_of(pm_name(m), false, option, rest) is UnsupportedPm),
{
    reveal_strlit("nala");
    reveal_strlit("apt");
    reveal_strlit("pacman");
    reveal_strlit("paru");
    reveal_strlit("dnf");
    reveal_strlit("zypper");
    reveal_strlit("emerge");
    reveal_strlit("void");
    lemma_plain_name(pm_name(m));
    law_config_round_trip(pm_name(m));
    match m {
        PackageManager::Nala => {

        },
        PackageManager::Apt => {
            assert("apt"@.len() != "nala"@.len());
        },
        PackageManager::Pacman => {
            assert("pacman"@.len() != "nala"@.len());
            assert("pacman"@.len() != "apt"@.len());
        },
        PackageManager::Paru => {
            assert("paru"@[0] != "nala"@[0]);
            assert("paru"@.len() != "apt"@.len());
            assert("paru"@.len() != "pacman"@.len());
        },
        PackageManager::Dnf => {
            assert("dnf"@.len() != "nala"@.len());
            assert("dnf"@[0] != "apt"@[0]);
            assert("dnf"@.len() != "pacman"@.len());
            assert("dnf"@.len() != "paru"@.len());
        },
        PackageManager::Zypper => {
            assert("zypper"@.len() != "nala"@.len());
            assert("zypper"@.len() != "apt"@.len());
            assert("zypper"@[0] != "pacman"@[0]);
            assert("zypper"@.len() != "paru"@.len());
            assert("zypper"@.len() != "dnf"@.len());
        },
        PackageManager::Emerge => {
            assert("emerge"@.len() != "nala"@.len());
            assert("emerge"@.len() != "apt"@.len());
            assert("emerge"@[0] != "pacman"@[0]);
            assert("emerge"@.len() != "paru"@.len());
            assert("emerge"@.len() != "dnf"@.len());
            assert("emerge"@[0] != "zypper"@[0]);
        },
        PackageManager::Void => {
            assert("void"@[0] != "nala"@[0]);
            assert("void"@.len() != "apt"@.len());
            assert("void"@.len() != "pacman"@.len());
            assert("void"@[0] != "paru"@[0]);
            assert("void"@.len() != "dnf"@.len());
            assert("void"@.len() != "zypper"@.len());
            assert("void"@.len() != "emerge"@.len());
        },
    }
}

} // verus!
