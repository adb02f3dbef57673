//! Installing a language runtime with `-L`/`--lang`. Scala needs `wget`, so
//! `wget` is made present first, through the configured package manager;
//! Java is installed by the configured package manager directly.
//!
//! The flow talks to the system, so it is a state machine: each step names
//! an action; the caller performs it and asks for the next step.
use vstd::prelude::*;
use crate::backends::{PackageManager, pm_named};
use crate::plans::Language;

verus! {

/// Which check for `wget` a probe is.
#[derive(Clone, Copy, Debug, PartialEq, Eq, Structural)]
pub enum WgetProbe {
    /// The first check, before anything was installed.
    Before,
    /// The check after `wget` was installed.
    AfterInstall,
}

/// Why installing a runtime stopped.
#[derive(Clone, Copy, Debug, PartialEq, Eq, Structural)]
pub enum LangFailure {
    /// `wget` is missing and the configured manager is not one that `se`
    /// knows how to install it with.
    CannotInstallWget,
    /// `wget` is still missing after it was installed.
    WgetInstallFailed,
    /// The configured manager is not one that `se` can install Java with.
    JavaUnsupported,
}

/// What the runtime installation asks its caller to do next.
#[derive(Clone, Copy, Debug, PartialEq, Eq, Structural)]
pub enum LangAction {
    /// Check whether `wget` is on `PATH`; reply with the outcome.
    ProbeWget(WgetProbe),
    /// Print that `wget` is missing and will be installed.
    AnnounceWgetInstall,
    /// Run the command that installs `wget` through this manager, then check
    /// again.
    InstallWget(PackageManager),
    /// Run the Scala installer script; done.
    RunScalaInstaller,
    /// Print the notice and run the command that installs OpenJDK 21
    /// through this manager; done.
    InstallJava(PackageManager),
    /// Print the failure and stop with exit status 1.
    Fail(LangFailure),
    /// Report the unknown language and the supported ones; done.
    UnknownLanguage,
}

/// The first step for language `lang` when `pm` is configured.
pub open spec fn lang_start(lang: Language, pm: Seq<char>) -> LangAction {
    match lang {
        Language::Scala => LangAction::ProbeWget(WgetProbe::Before),
        Language::Java => match pm_named(pm) {
            Some(m) => LangAction::InstallJava(m),
            None => LangAction::Fail(LangFailure::JavaUnsupported),
        },
        Language::Unsupported => LangAction::UnknownLanguage,
    }
}

/// The step after a check for `wget`.
pub open spec fn lang_probed(probe: WgetProbe, found: bool) -> LangAction {
    if found {
        LangAction::RunScalaInstaller
    } else {
        match probe {
            WgetProbe::Before => LangAction::AnnounceWgetInstall,
            WgetProbe::AfterInstall => LangAction::Fail(LangFailure::WgetInstallFailed),
        }
    }
}

/// The step after announcing that `wget` will be installed.
pub open spec fn lang_announced(pm: Seq<char>) -> LangAction {
    match pm_named(pm) {
        Some(m) => LangAction::InstallWget(m),
        None => LangAction::Fail(LangFailure::CannotInstallWget),
    }
}

/// The first step for language `lang` when `pm` is configured: Scala
/// begins by checking for `wget`; Java is installed through `pm` at once.
pub fn lang_begin(lang: Language, pm: &str) -> (r: LangAction)
    ensures
        r == lang_start(lang, pm@),
{
    match lang {
        Language::Scala => LangAction::ProbeWget(WgetProbe::Before),
        Language::Java => match PackageManager::from_name(pm) {
            Some(m) => LangAction::InstallJava(m),
            None => LangAction::Fail(LangFailure::JavaUnsupported),
        },
        Language::Unsupported => LangAction::UnknownLanguage,
    }
}

/// The step after checking for `wget`; `found` tells whether it is on
/// `PATH`. The Scala installer is run only once `wget` was found.
pub fn lang_after_probe(probe: WgetProbe, found: bool) -> (r: LangAction)
    ensures
        r == lang_probed(probe, found),
        r == LangAction::RunScalaInstaller <==> found,
{
    if found {
        LangAction::RunScalaInstaller
    } else {
        match probe {
            WgetProbe::Before => LangAction::AnnounceWgetInstall,
            WgetProbe::AfterInstall => LangAction::Fail(LangFailure::WgetInstallFailed),
        }
    }
}

/// The step after announcing that `wget` will be installed: install it
/// through the configured manager `pm`, or stop when `se` does not know `pm`.
pub fn lang_after_announce(pm: &str) -> (r: LangAction)
    ensures
        r == lang_announced(pm@),
{
    match PackageManager::from_name(pm) {
        Some(m) => LangAction::InstallWget(m),
        None => LangAction::Fail(LangFailure::CannotInstallWget),
    }
}

/// The step after installing `wget`: check for it again.
pub fn lang_after_install() -> (r: LangAction)
    ensures
        r == LangAction::ProbeWget(WgetProbe::AfterInstall),
{
    LangAction::ProbeWget(WgetProbe::AfterInstall)
}

/// The command that installs Scala once `wget` is present.
pub fn scala_installer() -> (r: &'static str)
    ensures
        r@ == "~/.config/se/scripts/scalainst"@,
{
    "~/.config/se/scripts/scalainst"
}

/// The line printed before `wget` is installed through `pm`.
pub fn wget_install_notice(pm: &str) -> (r: String)
    ensures
        r@ == "\x1b[1;33mwget not found — installing via "@ + pm@ + "...\x1b[0m"@,
{
    let mut r = String::from_str("\x1b[1;33mwget not found — installing via ");
    r.append(pm);
    r.append("...\x1b[0m");
    r
}

/// The line printed before OpenJDK 21 is installed through `pm`.
pub fn java_install_notice(pm: &str) -> (r: String)
    ensures
        r@ == "\x1b[1;34mInstalling OpenJDK 21 via "@ + pm@ + "...\x1b[0m"@,
{
    let mut r = String::from_str("\x1b[1;34mInstalling OpenJDK 21 via ");
    r.append(pm);
    r.append("...\x1b[0m");
    r
}

impl LangFailure {
    /// The message printed before stopping, `pm` being the configured
    /// package manager.
    pub fn message(self, pm: &str) -> (r: String)
        ensures
            r@ == match self {
                LangFailure::CannotInstallWget => "\x1b[1;31mCannot auto-install wget for unknown PM\x1b[0m"@,
                LangFailure::WgetInstallFailed => "\x1b[1;31mwget install failed. Please install it manually.\x1b[0m"@,
                LangFailure::JavaUnsupported => "\x1b[1;31mCannot install OpenJDK 21: unsupported package manager '"@
                    + pm@ + "'\x1b[0m"@,
            },
    {
        match self {
            LangFailure::CannotInstallWget => String::from_str(
                "\x1b[1;31mCannot auto-install wget for unknown PM\x1b[0m",
            ),
            LangFailure::WgetInstallFailed => String::from_str(
                "\x1b[1;31mwget install failed. Please install it manually.\x1b[0m",
            ),
            LangFailure::JavaUnsupported => {
                let mut r = String::from_str(
                    "\x1b[1;31mCannot install OpenJDK 21: unsupported package manager '",
                );
                r.append(pm);
                r.append("'\x1b[0m");
                r
            },
        }
    }
}

} // verus!
