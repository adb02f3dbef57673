//! Laws of the library: what the setup questions, the command tables and the
//! subcommand options mean, stated over all inputs and each written out on
//! its own, apart from the definitions that the functions' contracts use.
use vstd::prelude::*;
use crate::backends::{Backend, Operation, PackageManager, base_command, java_install, wget_install};
use crate::plans::{
    brew_plan, cargo_plan_of, gate_of, make_plan, package_plan_of, CargoPlanView, Gate, Language,
    PackagePlanView, RequiredTool,
};
use crate::lang::{lang_announced, lang_probed, lang_start, LangAction, LangFailure, WgetProbe};
use crate::paths::{config_dir_in, config_file_in, custom_script_in, scripts_dir_in};
use crate::setup::{after_answer, after_probe, Extra, Failure, Question, SetupAction, Tool};
use crate::text::joined;
use crate::config::has_prefix;
use crate::backends::{operation_named, pm_named};
use crate::request::{request_of, RequestView};

verus! {

/// Whether a trimmed answer is exactly `y` or `Y`.
pub open spec fn said_yes(t: Seq<char>) -> bool {
    t =~= seq!['y'] || t =~= seq!['Y']
}

/// The questions marked `[Y/n]` (xtools, nala) take an empty answer as yes:
/// for every trimmed answer, the extra package is installed exactly when
/// the answer is empty, `y` or `Y`; xtools keeps Void as the manager, and
/// nala becomes the manager exactly when it is installed (apt otherwise).
pub proof fn law_default_yes_questions(t: Seq<char>)
    ensures
        after_answer(Question::Xtools, t) == (SetupAction::Finish {
            extra: if t.len() == 0 || said_yes(t) {
                Some(Extra::Xtools)
            } else {
                None
            },
            pm: PackageManager::Void,
        }),
        after_answer(Question::Nala, t) == (if t.len() == 0 || said_yes(t) {
            SetupAction::Finish { extra: Some(Extra::Nala), pm: PackageManager::Nala }
        } else {
            SetupAction::Finish { extra: None, pm: PackageManager::Apt }
        }),
        after_answer(Question::Xtools, Seq::empty()) == after_answer(Question::Xtools, seq!['y']),
        after_answer(Question::Nala, Seq::empty()) == after_answer(Question::Nala, seq!['y']),
{
}

/// The question marked `[y/N]` (paru) takes an empty answer as no: paru is
/// looked for exactly when the answer is `y` or `Y`; any other answer keeps
/// pacman, the same as answering `n`.
pub proof fn law_default_no_question(t: Seq<char>)
    ensures
        after_answer(Question::Paru, t) == (if said_yes(t) {
            SetupAction::Probe(Tool::Paru)
        } else {
            SetupAction::Finish { extra: None, pm: PackageManager::Pacman }
        }),
        after_answer(Question::Paru, Seq::empty()) == after_answer(Question::Paru, seq!['n']),
{
}

/// The order in which the setup looks for package managers.
pub open spec fn probe_order() -> Seq<Tool> {
    seq![Tool::XbpsInstall, Tool::Apt, Tool::Pacman, Tool::Dnf, Tool::Zypper, Tool::Emerge]
}

/// The setup looks for xbps-install, apt, pacman, dnf, zypper and emerge in
/// that order, moving on to the next whenever one is missing, and gives up
/// when the last is missing too. The first three, when found, lead to their
/// question; dnf, zypper and emerge are used as found, and so is paru once
/// chosen.
pub proof fn law_probe_order(i: int)
    requires
        0 <= i < probe_order().len(),
    ensures
        i + 1 < probe_order().len() ==> after_probe(probe_order()[i], false) == SetupAction::Probe(
            probe_order()[i + 1],
        ),
        i + 1 == probe_order().len() ==> after_probe(probe_order()[i], false)
            == SetupAction::Abort(Failure::NoManager),
        after_probe(Tool::XbpsInstall, true) == SetupAction::Ask(Question::Xtools),
        after_probe(Tool::Apt, true) == SetupAction::Ask(Question::Nala),
        after_probe(Tool::Pacman, true) == SetupAction::Ask(Question::Paru),
        after_probe(Tool::Dnf, true) == (SetupAction::Finish { extra: None, pm: PackageManager::Dnf }),
        after_probe(Tool::Zypper, true) == (SetupAction::Finish { extra: None, pm: PackageManager::Zypper }),
        after_probe(Tool::Emerge, true) == (SetupAction::Finish { extra: None, pm: PackageManager::Emerge }),
        after_probe(Tool::Paru, true) == (SetupAction::Finish { extra: None, pm: PackageManager::Paru }),
        after_probe(Tool::Paru, false) == SetupAction::Abort(Failure::ParuMissing),
{
}

/// `-M` runs plain `make` without a subcommand; each subcommand, in its short
/// or its long form and no other word, selects one make target: `-C`/`--clean`
/// cleans, `-I`/`--install` installs with sudo, `-U`/`--uninstall`
/// uninstalls with sudo. Any other word selects nothing.
pub proof fn law_make_subcommands(s: Seq<char>)
    ensures
        make_plan(None) == Some("make"@),
        make_plan(Some(s)) == Some("make clean"@) <==> (s == "-C"@ || s == "--clean"@),
        make_plan(Some(s)) == Some("sudo make install"@) <==> (s == "-I"@ || s == "--install"@),
        make_plan(Some(s)) == Some("sudo make uninstall"@) <==> (s == "-U"@ || s == "--uninstall"@),
        make_plan(Some(s)) is None <==> !(s == "-C"@ || s == "--clean"@ || s == "-I"@ || s
            == "--install"@ || s == "-U"@ || s == "--uninstall"@),
{
    reveal_strlit("-C");
    reveal_strlit("--clean");
    reveal_strlit("-I");
    reveal_strlit("--install");
    reveal_strlit("-U");
    reveal_strlit("--uninstall");
    reveal_strlit("make clean");
    reveal_strlit("sudo make install");
    reveal_strlit("sudo make uninstall");
    assert("--clean"@.len() != "-C"@.len());
    assert("-I"@[1] != "-C"@[1]);
    assert("-I"@.len() != "--clean"@.len());
    assert("--install"@.len() != "-C"@.len());
    assert("--install"@.len() != "--clean"@.len());
    assert("--install"@.len() != "-I"@.len());
    assert("-U"@[1] != "-C"@[1]);
    assert("-U"@.len() != "--clean"@.len());
    assert("-U"@[1] != "-I"@[1]);
    assert("-U"@.len() != "--install"@.len());
    assert("--uninstall"@.len() != "-C"@.len());
    assert("--uninstall"@.len() != "--clean"@.len());
    assert("--uninstall"@.len() != "-I"@.len());
    assert("--uninstall"@.len() != "--install"@.len());
    assert("--uninstall"@.len() != "-U"@.len());
    assert("make clean"@.len() != "sudo make install"@.len());
    assert("make clean"@.len() != "sudo make uninstall"@.len());
    assert("sudo make install"@.len() != "sudo make uninstall"@.len());
}

/// `-C -B`/`--build` builds in release mode, whatever follows; `-I`/`--install`
/// installs the crates named after it, and without a name it is refused; the
/// long form of each subcommand acts as its short form, and any other word is
/// unknown.
pub proof fn law_cargo_subcommands(sub: Seq<char>, rest: Seq<Seq<char>>)
    ensures
        cargo_plan_of(sub, rest) == CargoPlanView::Run("cargo build --release"@) <==> (sub == "-B"@
            || sub == "--build"@),
        cargo_plan_of(sub, rest) is MissingCrate <==> ((sub == "-I"@ || sub == "--install"@)
            && rest.len() == 0),
        (sub == "-I"@ || sub == "--install"@) && rest.len() > 0 ==> cargo_plan_of(sub, rest)
            == CargoPlanView::Run("cargo install "@ + joined(rest)),
        cargo_plan_of(sub, rest) is Unknown <==> !(sub == "-B"@ || sub == "--build"@ || sub == "-I"@
            || sub == "--install"@),
        cargo_plan_of("--build"@, rest) == cargo_plan_of("-B"@, rest),
        cargo_plan_of("--install"@, rest) == cargo_plan_of("-I"@, rest),
{
    reveal_strlit("-B");
    reveal_strlit("--build");
    reveal_strlit("-I");
    reveal_strlit("--install");
    reveal_strlit("cargo build --release");
    reveal_strlit("cargo install");
    reveal_strlit("cargo install ");
    assert("--build"@.len() != "-B"@.len());
    assert("-I"@[1] != "-B"@[1]);
    assert("-I"@.len() != "--build"@.len());
    assert("--install"@.len() != "-B"@.len());
    assert("--install"@.len() != "--build"@.len());
    assert("--install"@.len() != "-I"@.len());
    assert("cargo install"@ + seq![' '] =~= "cargo install "@);
    let other = "cargo install "@ + joined(rest);
    assert(other[6] == 'i');
    assert("cargo build --release"@[6] == 'b');
    assert("cargo install"@ + seq![' '] + joined(rest) =~= other);
}

/// The commands that each package manager is driven with, operation by
/// operation: `sudo nala install`, `pacman -Ss`, `sudo emerge -avuDN @world`
/// and the rest, written out on their own.
pub proof fn law_manager_command_table(m: PackageManager, op: Operation)
    ensures
        base_command(Backend::Manager(m), op) == match m {
            PackageManager::Nala => match op {
                Operation::Install => "sudo nala install"@,
                Operation::Remove => "sudo nala remove"@,
                Operation::Purge => "sudo nala purge"@,
                Operation::Search => "nala search"@,
                Operation::Update => "sudo nala update"@,
                Operation::Upgrade => "sudo nala upgrade"@,
            },
            PackageManager::Apt => match op {
                Operation::Install => "sudo apt install"@,
                Operation::Remove => "sudo apt remove"@,
                Operation::Purge => "sudo apt purge"@,
                Operation::Search => "apt search"@,
                Operation::Update => "sudo apt update"@,
                Operation::Upgrade => "sudo apt upgrade"@,
            },
            PackageManager::Pacman => match op {
                Operation::Install => "sudo pacman -S"@,
                Operation::Remove => "sudo pacman -R"@,
                Operation::Purge => "sudo pacman -Rns"@,
                Operation::Search => "pacman -Ss"@,
                Operation::Update => "sudo pacman -Sy"@,
                Operation::Upgrade => "sudo pacman -Syu"@,
            },
            PackageManager::Paru => match op {
                Operation::Install => "paru -S"@,
                Operation::Remove => "paru -R"@,
                Operation::Purge => "paru -Rns"@,
                Operation::Search => "paru -Ss"@,
                Operation::Update => "paru -Sy"@,
                Operation::Upgrade => "paru -Syu"@,
            },
            PackageManager::Dnf => match op {
                Operation::Install => "sudo dnf install"@,
                Operation::Remove => "sudo dnf remove"@,
                Operation::Purge => "sudo dnf remove"@,
                Operation::Search => "dnf search"@,
                Operation::Update => "sudo dnf check-update"@,
                Operation::Upgrade => "sudo dnf upgrade"@,
            },
            PackageManager::Zypper => match op {
                Operation::Install => "sudo zypper install"@,
                Operation::Remove => "sudo zypper remove"@,
                Operation::Purge => "sudo zypper remove"@,
                Operation::Search => "zypper search"@,
                Operation::Update => "sudo zypper refresh"@,
                Operation::Upgrade => "sudo zypper update"@,
            },
            PackageManager::Emerge => match op {
                Operation::Install => "sudo emerge"@,
                Operation::Remove => "sudo emerge -C"@,
                Operation::Purge => "sudo emerge -C"@,
                Operation::Search => "emerge -s"@,
                Operation::Update => "sudo emerge --sync"@,
                Operation::Upgrade => "sudo emerge -avuDN @world"@,
            },
            PackageManager::Void => match op {
                Operation::Install => "sudo xbps-install -S"@,
                Operation::Remove => "sudo xbps-remove"@,
                Operation::Purge => "sudo xbps-remove -R"@,
                Operation::Search => "xbps-query -Rs"@,
                Operation::Update => "sudo xbps-install -S"@,
                Operation::Upgrade => "sudo xbps-install -Su"@,
            },
        },
{
}

/// Every command of a package manager runs under sudo, except searches and
/// everything done through paru (which calls sudo itself).
pub proof fn law_manager_commands_use_sudo(m: PackageManager, op: Operation)
    ensures
        has_prefix(base_command(Backend::Manager(m), op), "sudo "@) <==> (m != PackageManager::Paru
            && op != Operation::Search),
{
    reveal_strlit("sudo ");
    reveal_strlit("apt search");
    reveal_strlit("dnf search");
    reveal_strlit("emerge -s");
    reveal_strlit("nala search");
    reveal_strlit("pacman -Ss");
    reveal_strlit("paru -R");
    reveal_strlit("paru -Rns");
    reveal_strlit("paru -S");
    reveal_strlit("paru -Ss");
    reveal_strlit("paru -Sy");
    reveal_strlit("paru -Syu");
    reveal_strlit("sudo apt install");
    reveal_strlit("sudo apt purge");
    reveal_strlit("sudo apt remove");
    reveal_strlit("sudo apt update");
    reveal_strlit("sudo apt upgrade");
    reveal_strlit("sudo dnf check-update");
    reveal_strlit("sudo dnf install");
    reveal_strlit("sudo dnf remove");
    reveal_strlit("sudo dnf upgrade");
    reveal_strlit("sudo emerge");
    reveal_strlit("sudo emerge --sync");
    reveal_strlit("sudo emerge -C");
    reveal_strlit("sudo emerge -avuDN @world");
    reveal_strlit("sudo nala install");
    reveal_strlit("sudo nala purge");
    reveal_strlit("sudo nala remove");
    reveal_strlit("sudo nala update");
    reveal_strlit("sudo nala upgrade");
    reveal_strlit("sudo pacman -R");
    reveal_strlit("sudo pacman -Rns");
    reveal_strlit("sudo pacman -S");
    reveal_strlit("sudo pacman -Sy");
    reveal_strlit("sudo pacman -Syu");
    reveal_strlit("sudo xbps-install -S");
    reveal_strlit("sudo xbps-install -Su");
    reveal_strlit("sudo xbps-remove");
    reveal_strlit("sudo xbps-remove -R");
    reveal_strlit("sudo zypper install");
    reveal_strlit("sudo zypper refresh");
    reveal_strlit("sudo zypper remove");
    reveal_strlit("sudo zypper update");
    reveal_strlit("xbps-query -Rs");
    reveal_strlit("zypper search");
    match m {
        PackageManager::Nala => match op {
            Operation::Install => assert("sudo nala install"@.take(5) =~= "sudo "@),
            Operation::Remove => assert("sudo nala remove"@.take(5) =~= "sudo "@),
            Operation::Purge => assert("sudo nala purge"@.take(5) =~= "sudo "@),
            Operation::Search => assert("nala search"@[0] != "sudo "@[0]),
            Operation::Update => assert("sudo nala update"@.take(5) =~= "sudo "@),
            Operation::Upgrade => assert("sudo nala upgrade"@.take(5) =~= "sudo "@),
        },
        PackageManager::Apt => match op {
            Operation::Install => assert("sudo apt install"@.take(5) =~= "sudo "@),
            Operation::Remove => assert("sudo apt remove"@.take(5) =~= "sudo "@),
            Operation::Purge => assert("sudo apt purge"@.take(5) =~= "sudo "@),
            Operation::Search => assert("apt search"@[0] != "sudo "@[0]),
            Operation::Update => assert("sudo apt update"@.take(5) =~= "sudo "@),
            Operation::Upgrade => assert("sudo apt upgrade"@.take(5) =~= "sudo "@),
        },
        PackageManager::Pacman => match op {
            Operation::Install => assert("sudo pacman -S"@.take(5) =~= "sudo "@),
            Operation::Remove => assert("sudo pacman -R"@.take(5) =~= "sudo "@),
            Operation::Purge => assert("sudo pacman -Rns"@.take(5) =~= "sudo "@),
            Operation::Search => assert("pacman -Ss"@[0] != "sudo "@[0]),
            Operation::Update => assert("sudo pacman -Sy"@.take(5) =~= "sudo "@),
            Operation::Upgrade => assert("sudo pacman -Syu"@.take(5) =~= "sudo "@),
        },
        PackageManager::Paru => match op {
            Operation::Install => assert("paru -S"@[0] != "sudo "@[0]),
            Operation::Remove => assert("paru -R"@[0] != "sudo "@[0]),
            Operation::Purge => assert("paru -Rns"@[0] != "sudo "@[0]),
            Operation::Search => assert("paru -Ss"@[0] != "sudo "@[0]),
            Operation::Update => assert("paru -Sy"@[0] != "sudo "@[0]),
            Operation::Upgrade => assert("paru -Syu"@[0] != "sudo "@[0]),
        },
        PackageManager::Dnf => match op {
            Operation::Install => assert("sudo dnf install"@.take(5) =~= "sudo "@),
            Operation::Remove => assert("sudo dnf remove"@.take(5) =~= "sudo "@),
            Operation::Purge => assert("sudo dnf remove"@.take(5) =~= "sudo "@),
            Operation::Search => assert("dnf search"@[0] != "sudo "@[0]),
            Operation::Update => assert("sudo dnf check-update"@.take(5) =~= "sudo "@),
            Operation::Upgrade => assert("sudo dnf upgrade"@.take(5) =~= "sudo "@),
        },
        PackageManager::Zypper => match op {
            Operation::Install => assert("sudo zypper install"@.take(5) =~= "sudo "@),
            Operation::Remove => assert("sudo zypper remove"@.take(5) =~= "sudo "@),
            Operation::Purge => assert("sudo zypper remove"@.take(5) =~= "sudo "@),
            Operation::Search => assert("zypper search"@[0] != "sudo "@[0]),
            Operation::Update => assert("sudo zypper refresh"@.take(5) =~= "sudo "@),
            Operation::Upgrade => assert("sudo zypper update"@.take(5) =~= "sudo "@),
        },
        PackageManager::Emerge => match op {
            Operation::Install => assert("sudo emerge"@.take(5) =~= "sudo "@),
            Operation::Remove => assert("sudo emerge -C"@.take(5) =~= "sudo "@),
            Operation::Purge => assert("sudo emerge -C"@.take(5) =~= "sudo "@),
            Operation::Search => assert("emerge -s"@[0] != "sudo "@[0]),
            Operation::Update => assert("sudo emerge --sync"@.take(5) =~= "sudo "@),
            Operation::Upgrade => assert("sudo emerge -avuDN @world"@.take(5) =~= "sudo "@),
        },
        PackageManager::Void => match op {
            Operation::Install => assert("sudo xbps-install -S"@.take(5) =~= "sudo "@),
            Operation::Remove => assert("sudo xbps-remove"@.take(5) =~= "sudo "@),
            Operation::Purge => assert("sudo xbps-remove -R"@.take(5) =~= "sudo "@),
            Operation::Search => assert("xbps-query -Rs"@[0] != "sudo "@[0]),
            Operation::Update => assert("sudo xbps-install -S"@.take(5) =~= "sudo "@),
            Operation::Upgrade => assert("sudo xbps-install -Su"@.take(5) =~= "sudo "@),
        },
    }
}

/// Homebrew is driven with `brew install`, `brew uninstall`, `brew search`,
/// `brew update` and `brew upgrade`; purging is uninstalling with `--zap`.
pub proof fn law_homebrew_commands(op: Operation)
    ensures
        base_command(Backend::Homebrew, op) == match op {
            Operation::Install => "brew install"@,
            Operation::Remove => "brew uninstall"@,
            Operation::Purge => "brew uninstall"@ + " --zap"@,
            Operation::Search => "brew search"@,
            Operation::Update => "brew update"@,
            Operation::Upgrade => "brew upgrade"@,
        },
{
    reveal_strlit("brew uninstall --zap");
    reveal_strlit("brew uninstall");
    reveal_strlit(" --zap");
    assert("brew uninstall"@ + " --zap"@ =~= "brew uninstall --zap"@);
}

/// The OpenJDK 21 package of each package manager.
pub open spec fn openjdk21_package(m: PackageManager) -> Seq<char> {
    match m {
        PackageManager::Nala => "openjdk-21-jdk"@,
        PackageManager::Apt => "openjdk-21-jdk"@,
        PackageManager::Pacman => "jdk21-openjdk"@,
        PackageManager::Paru => "jdk21-openjdk"@,
        PackageManager::Dnf => "java-21-openjdk"@,
        PackageManager::Zypper => "java-21-openjdk"@,
        PackageManager::Emerge => "dev-java/openjdk:21"@,
        PackageManager::Void => "openjdk21"@,
    }
}

/// `wget` and OpenJDK 21 are installed with the manager's own install
/// command: both commands are that command with the same options around the
/// package, the one naming `wget` and the other the manager's OpenJDK 21
/// package, so the two never coincide.
pub proof fn law_runtime_installs(m: PackageManager)
    ensures
        exists|flags: Seq<char>, tail: Seq<char>|
            wget_install(m) == base_command(Backend::Manager(m), Operation::Install) + flags + "wget"@
                + tail && #[trigger] java_install(m) == base_command(
                Backend::Manager(m),
                Operation::Install,
            ) + flags + openjdk21_package(m) + tail,
        java_install(m) != wget_install(m),
{
    reveal_strlit("");
    reveal_strlit(" ");
    reveal_strlit(" --noconfirm ");
    reveal_strlit(" -y");
    reveal_strlit(" -y ");
    reveal_strlit("dev-java/openjdk:21");
    reveal_strlit("java-21-openjdk");
    reveal_strlit("jdk21-openjdk");
    reveal_strlit("openjdk-21-jdk");
    reveal_strlit("openjdk21");
    reveal_strlit("paru -S");
    reveal_strlit("paru -S --noconfirm jdk21-openjdk");
    reveal_strlit("paru -S --noconfirm wget");
    reveal_strlit("sudo apt install");
    reveal_strlit("sudo apt install openjdk-21-jdk -y");
    reveal_strlit("sudo apt install wget -y");
    reveal_strlit("sudo dnf install");
    reveal_strlit("sudo dnf install java-21-openjdk -y");
    reveal_strlit("sudo dnf install wget -y");
    reveal_strlit("sudo emerge");
    reveal_strlit("sudo emerge dev-java/openjdk:21");
    reveal_strlit("sudo emerge wget");
    reveal_strlit("sudo nala install");
    reveal_strlit("sudo nala install openjdk-21-jdk -y");
    reveal_strlit("sudo nala install wget -y");
    reveal_strlit("sudo pacman -S");
    reveal_strlit("sudo pacman -S --noconfirm jdk21-openjdk");
    reveal_strlit("sudo pacman -S --noconfirm wget");
    reveal_strlit("sudo xbps-install -S");
    reveal_strlit("sudo xbps-install -Sy openjdk21");
    reveal_strlit("sudo xbps-install -Sy wget");
    reveal_strlit("sudo zypper install");
    reveal_strlit("sudo zypper install -y java-21-openjdk");
    reveal_strlit("sudo zypper install -y wget");
    reveal_strlit("wget");
    reveal_strlit("y ");
    match m {
        PackageManager::Nala => {
            let flags = " "@;
            let tail = " -y"@;
            assert("sudo nala install"@ + flags + "wget"@ + tail =~= "sudo nala install wget -y"@);
            assert("sudo nala install"@ + flags + "openjdk-21-jdk"@ + tail =~= "sudo nala install openjdk-21-jdk -y"@);
            assert("sudo nala install wget -y"@.len() != "sudo nala install openjdk-21-jdk -y"@.len());
            assert(wget_install(m) == base_command(Backend::Manager(m), Operation::Install) + flags
                + "wget"@ + tail);
            assert(java_install(m) == base_command(Backend::Manager(m), Operation::Install) + flags
                + openjdk21_package(m) + tail);
        },
        PackageManager::Apt => {
            let flags = " "@;
            let tail = " -y"@;
            assert("sudo apt install"@ + flags + "wget"@ + tail =~= "sudo apt install wget -y"@);
            assert("sudo apt install"@ + flags + "openjdk-21-jdk"@ + tail =~= "sudo apt install openjdk-21-jdk -y"@);
            assert("sudo apt install wget -y"@.len() != "sudo apt install openjdk-21-jdk -y"@.len());
            assert(wget_install(m) == base_command(Backend::Manager(m), Operation::Install) + flags
                + "wget"@ + tail);
            assert(java_install(m) == base_command(Backend::Manager(m), Operation::Install) + flags
                + openjdk21_package(m) + tail);
        },
        PackageManager::Pacman => {
            let flags = " --noconfirm "@;
            let tail = ""@;
            assert("sudo pacman -S"@ + flags + "wget"@ + tail =~= "sudo pacman -S --noconfirm wget"@);
            assert("sudo pacman -S"@ + flags + "jdk21-openjdk"@ + tail =~= "sudo pacman -S --noconfirm jdk21-openjdk"@);
            assert("sudo pacman -S --noconfirm wget"@.len() != "sudo pacman -S --noconfirm jdk21-openjdk"@.len());
            assert(wget_install(m) == base_command(Backend::Manager(m), Operation::Install) + flags
                + "wget"@ + tail);
            assert(java_install(m) == base_command(Backend::Manager(m), Operation::Install) + flags
                + openjdk21_package(m) + tail);
        },
        PackageManager::Paru => {
            let flags = " --noconfirm "@;
            let tail = ""@;
            assert("paru -S"@ + flags + "wget"@ + tail =~= "paru -S --noconfirm wget"@);
            assert("paru -S"@ + flags + "jdk21-openjdk"@ + tail =~= "paru -S --noconfirm jdk21-openjdk"@);
            assert("paru -S --noconfirm wget"@.len() != "paru -S --noconfirm jdk21-openjdk"@.len());
            assert(wget_install(m) == base_command(Backend::Manager(m), Operation::Install) + flags
                + "wget"@ + tail);
            assert(java_install(m) == base_command(Backend::Manager(m), Operation::Install) + flags
                + openjdk21_package(m) + tail);
        },
        PackageManager::Dnf => {
            let flags = " "@;
            let tail = " -y"@;
            assert("sudo dnf install"@ + flags + "wget"@ + tail =~= "sudo dnf install wget -y"@);
            assert("sudo dnf install"@ + flags + "java-21-openjdk"@ + tail =~= "sudo dnf install java-21-openjdk -y"@);
            assert("sudo dnf install wget -y"@.len() != "sudo dnf install java-21-openjdk -y"@.len());
            assert(wget_install(m) == base_command(Backend::Manager(m), Operation::Install) + flags
                + "wget"@ + tail);
            assert(java_install(m) == base_command(Backend::Manager(m), Operation::Install) + flags
                + openjdk21_package(m) + tail);
        },
        PackageManager::Zypper => {
            let flags = " -y "@;
            let tail = ""@;
            assert("sudo zypper install"@ + flags + "wget"@ + tail =~= "sudo zypper install -y wget"@);
            assert("sudo zypper install"@ + flags + "java-21-openjdk"@ + tail =~= "sudo zypper install -y java-21-openjdk"@);
            assert("sudo zypper install -y wget"@.len() != "sudo zypper install -y java-21-openjdk"@.len());
            assert(wget_install(m) == base_command(Backend::Manager(m), Operation::Install) + flags
                + "wget"@ + tail);
            assert(java_install(m) == base_command(Backend::Manager(m), Operation::Install) + flags
                + openjdk21_package(m) + tail);
        },
        PackageManager::Emerge => {
            let flags = " "@;
            let tail = ""@;
            assert("sudo emerge"@ + flags + "wget"@ + tail =~= "sudo emerge wget"@);
            assert("sudo emerge"@ + flags + "dev-java/openjdk:21"@ + tail =~= "sudo emerge dev-java/openjdk:21"@);
            assert("sudo emerge wget"@.len() != "sudo emerge dev-java/openjdk:21"@.len());
            assert(wget_install(m) == base_command(Backend::Manager(m), Operation::Install) + flags
                + "wget"@ + tail);
            assert(java_install(m) == base_command(Backend::Manager(m), Operation::Install) + flags
                + openjdk21_package(m) + tail);
        },
        PackageManager::Void => {
            let flags = "y "@;
            let tail = ""@;
            assert("sudo xbps-install -S"@ + flags + "wget"@ + tail =~= "sudo xbps-install -Sy wget"@);
            assert("sudo xbps-install -S"@ + flags + "openjdk21"@ + tail =~= "sudo xbps-install -Sy openjdk21"@);
            assert("sudo xbps-install -Sy wget"@.len() != "sudo xbps-install -Sy openjdk21"@.len());
            assert(wget_install(m) == base_command(Backend::Manager(m), Operation::Install) + flags
                + "wget"@ + tail);
            assert(java_install(m) == base_command(Backend::Manager(m), Operation::Install) + flags
                + openjdk21_package(m) + tail);
        },
    }
}

/// Each package operation is requested by its short and its long option and
/// by no other word: `-S`/`--get` installs, `-Rm`/`--remove` removes,
/// `-Cl`/`--purge` purges, `-I`/`--index` searches, `-Up`/`--update` updates
/// the package lists and `-Ut`/`--upgrade` upgrades the system.
pub proof fn law_package_options(s: Seq<char>)
    ensures
        operation_named(s) == Some(Operation::Install) <==> (s == "-S"@ || s == "--get"@),
        operation_named(s) == Some(Operation::Remove) <==> (s == "-Rm"@ || s == "--remove"@),
        operation_named(s) == Some(Operation::Purge) <==> (s == "-Cl"@ || s == "--purge"@),
        operation_named(s) == Some(Operation::Search) <==> (s == "-I"@ || s == "--index"@),
        operation_named(s) == Some(Operation::Update) <==> (s == "-Up"@ || s == "--update"@),
        operation_named(s) == Some(Operation::Upgrade) <==> (s == "-Ut"@ || s == "--upgrade"@),
{
    reveal_strlit("-S");
    reveal_strlit("--get");
    reveal_strlit("-Rm");
    reveal_strlit("--remove");
    reveal_strlit("-Cl");
    reveal_strlit("--purge");
    reveal_strlit("-I");
    reveal_strlit("--index");
    reveal_strlit("-Up");
    reveal_strlit("--update");
    reveal_strlit("-Ut");
    reveal_strlit("--upgrade");
    assert("--get"@.len() != "-S"@.len());
    assert("-Rm"@.len() != "-S"@.len());
    assert("-Rm"@.len() != "--get"@.len());
    assert("--remove"@.len() != "-S"@.len());
    assert("--remove"@.len() != "--get"@.len());
    assert("--remove"@.len() != "-Rm"@.len());
    assert("-Cl"@.len() != "-S"@.len());
    assert("-Cl"@.len() != "--get"@.len());
    assert("-Cl"@[1] != "-Rm"@[1]);
    assert("-Cl"@.len() != "--remove"@.len());
    assert("--purge"@.len() != "-S"@.len());
    assert("--purge"@.len() != "--get"@.len());
    assert("--purge"@.len() != "-Rm"@.len());
    assert("--purge"@.len() != "--remove"@.len());
    assert("--purge"@.len() != "-Cl"@.len());
    assert("-I"@[1] != "-S"@[1]);
    assert("-I"@.len() != "--get"@.len());
    assert("-I"@.len() != "-Rm"@.len());
    assert("-I"@.len() != "--remove"@.len());
    assert("-I"@.len() != "-Cl"@.len());
    assert("-I"@.len() != "--purge"@.len());
    assert("--index"@.len() != "-S"@.len());
    assert("--index"@.len() != "--get"@.len());
    assert("--index"@.len() != "-Rm"@.len());
    assert("--index"@.len() != "--remove"@.len());
    assert("--index"@.len() != "-Cl"@.len());
    assert("--index"@[2] != "--purge"@[2]);
    assert("--index"@.len() != "-I"@.len());
    assert("-Up"@.len() != "-S"@.len());
    assert("-Up"@.len() != "--get"@.len());
    assert("-Up"@[1] != "-Rm"@[1]);
    assert("-Up"@.len() != "--remove"@.len());
    assert("-Up"@[1] != "-Cl"@[1]);
    assert("-Up"@.len() != "--purge"@.len());
    assert("-Up"@.len() != "-I"@.len());
    assert("-Up"@.len() != "--index"@.len());
    assert("--update"@.len() != "-S"@.len());
    assert("--update"@.len() != "--get"@.len());
    assert("--update"@.len() != "-Rm"@.len());
    assert("--update"@[2] != "--remove"@[2]);
    assert("--update"@.len() != "-Cl"@.len());
    assert("--update"@.len() != "--purge"@.len());
    assert("--update"@.len() != "-I"@.len());
    assert("--update"@.len() != "--index"@.len());
    assert("--update"@.len() != "-Up"@.len());
    assert("-Ut"@.len() != "-S"@.len());
    assert("-Ut"@.len() != "--get"@.len());
    assert("-Ut"@[1] != "-Rm"@[1]);
    assert("-Ut"@.len() != "--remove"@.len());
    assert("-Ut"@[1] != "-Cl"@[1]);
    assert("-Ut"@.len() != "--purge"@.len());
    assert("-Ut"@.len() != "-I"@.len());
    assert("-Ut"@.len() != "--index"@.len());
    assert("-Ut"@[2] != "-Up"@[2]);
    assert("-Ut"@.len() != "--update"@.len());
    assert("--upgrade"@.len() != "-S"@.len());
    assert("--upgrade"@.len() != "--get"@.len());
    assert("--upgrade"@.len() != "-Rm"@.len());
    assert("--upgrade"@.len() != "--remove"@.len());
    assert("--upgrade"@.len() != "-Cl"@.len());
    assert("--upgrade"@.len() != "--purge"@.len());
    assert("--upgrade"@.len() != "-I"@.len());
    assert("--upgrade"@.len() != "--index"@.len());
    assert("--upgrade"@.len() != "-Up"@.len());
    assert("--upgrade"@.len() != "--update"@.len());
    assert("--upgrade"@.len() != "-Ut"@.len());
}

/// The first argument selects the request, in its short or its long form
/// alike: `-V`/`--version`, `-H`/`--help` (also no argument at all),
/// `-Rec`/`--reconfigure`, `-B`/`--brew`, `-M`/`--make`, `-C`/`--cargo`,
/// `-GC`/`--git-clone`, `-W`/`--wget`, `-L`/`--lang`; any other first
/// argument is a package option.
pub proof fn law_request_options(args: Seq<Seq<char>>)
    ensures
        request_of(args) is Version <==> (args.len() >= 2 && (args[1] == "-V"@ || args[1] == "--version"@)),
        request_of(args) is Help <==> (args.len() < 2 || args[1] == "-H"@ || args[1] == "--help"@),
        request_of(args) is Reconfigure <==> (args.len() >= 2 && (args[1] == "-Rec"@ || args[1] == "--reconfigure"@)),
        (request_of(args) is Brew || request_of(args) is BrewWithoutAction) <==> (args.len() >= 2 && (args[1] == "-B"@ || args[1] == "--brew"@)),
        request_of(args) is Make <==> (args.len() >= 2 && (args[1] == "-M"@ || args[1] == "--make"@)),
        (request_of(args) is Cargo || request_of(args) is CargoWithoutSubcommand) <==> (args.len() >= 2 && (args[1] == "-C"@ || args[1] == "--cargo"@)),
        (request_of(args) is GitClone || request_of(args) is GitCloneWithoutUrl) <==> (args.len() >= 2 && (args[1] == "-GC"@ || args[1] == "--git-clone"@)),
        (request_of(args) is Wget || request_of(args) is WgetWithoutUrl) <==> (args.len() >= 2 && (args[1] == "-W"@ || args[1] == "--wget"@)),
        (request_of(args) is Lang || request_of(args) is LangWithoutName) <==> (args.len() >= 2 && (args[1] == "-L"@ || args[1] == "--lang"@)),
        request_of(args) is Package <==> (args.len() >= 2 && !(args[1] == "-V"@ || args[1] == "--version"@ || args[1] == "-H"@ || args[1] == "--help"@ || args[1] == "-Rec"@ || args[1] == "--reconfigure"@ || args[1] == "-B"@ || args[1] == "--brew"@ || args[1] == "-M"@ || args[1] == "--make"@ || args[1] == "-C"@ || args[1] == "--cargo"@ || args[1] == "-GC"@ || args[1] == "--git-clone"@ || args[1] == "-W"@ || args[1] == "--wget"@ || args[1] == "-L"@ || args[1] == "--lang"@)),
{
    reveal_strlit("-V");
    reveal_strlit("--version");
    reveal_strlit("-H");
    reveal_strlit("--help");
    reveal_strlit("-Rec");
    reveal_strlit("--reconfigure");
    reveal_strlit("-B");
    reveal_strlit("--brew");
    reveal_strlit("-M");
    reveal_strlit("--make");
    reveal_strlit("-C");
    reveal_strlit("--cargo");
    reveal_strlit("-GC");
    reveal_strlit("--git-clone");
    reveal_strlit("-W");
    reveal_strlit("--wget");
    reveal_strlit("-L");
    reveal_strlit("--lang");
    assert("--version"@.len() != "-V"@.len());
    assert("-H"@[1] != "-V"@[1]);
    assert("-H"@.len() != "--version"@.len());
    assert("--help"@.len() != "-V"@.len());
    assert("--help"@.len() != "--version"@.len());
    assert("--help"@.len() != "-H"@.len());
    assert("-Rec"@.len() != "-V"@.len());
    assert("-Rec"@.len() != "--version"@.len());
    assert("-Rec"@.len() != "-H"@.len());
    assert("-Rec"@.len() != "--help"@.len());
    assert("--reconfigure"@.len() != "-V"@.len());
    assert("--reconfigure"@.len() != "--version"@.len());
    assert("--reconfigure"@.len() != "-H"@.len());
    assert("--reconfigure"@.len() != "--help"@.len());
    assert("--reconfigure"@.len() != "-Rec"@.len());
    assert("-B"@[1] != "-V"@[1]);
    assert("-B"@.len() != "--version"@.len());
    assert("-B"@[1] != "-H"@[1]);
    assert("-B"@.len() != "--help"@.len());
    assert("-B"@.len() != "-Rec"@.len());
    assert("-B"@.len() != "--reconfigure"@.len());
    assert("--brew"@.len() != "-V"@.len());
    assert("--brew"@.len() != "--version"@.len());
    assert("--brew"@.len() != "-H"@.len());
    assert("--brew"@[2] != "--help"@[2]);
    assert("--brew"@.len() != "-Rec"@.len());
    assert("--brew"@.len() != "--reconfigure"@.len());
    assert("--brew"@.len() != "-B"@.len());
    assert("-M"@[1] != "-V"@[1]);
    assert("-M"@.len() != "--version"@.len());
    assert("-M"@[1] != "-H"@[1]);
    assert("-M"@.len() != "--help"@.len());
    assert("-M"@.len() != "-Rec"@.len());
    assert("-M"@.len() != "--reconfigure"@.len());
    assert("-M"@[1] != "-B"@[1]);
    assert("-M"@.len() != "--brew"@.len());
    assert("--make"@.len() != "-V"@.len());
    assert("--make"@.len() != "--version"@.len());
    assert("--make"@.len() != "-H"@.len());
    assert("--make"@[2] != "--help"@[2]);
    assert("--make"@.len() != "-Rec"@.len());
    assert("--make"@.len() != "--reconfigure"@.len());
    assert("--make"@.len() != "-B"@.len());
    assert("--make"@[2] != "--brew"@[2]);
    assert("--make"@.len() != "-M"@.len());
    assert("-C"@[1] != "-V"@[1]);
    assert("-C"@.len() != "--version"@.len());
    assert("-C"@[1] != "-H"@[1]);
    assert("-C"@.len() != "--help"@.len());
    assert("-C"@.len() != "-Rec"@.len());
    assert("-C"@.len() != "--reconfigure"@.len());
    assert("-C"@[1] != "-B"@[1]);
    assert("-C"@.len() != "--brew"@.len());
    assert("-C"@[1] != "-M"@[1]);
    assert("-C"@.len() != "--make"@.len());
    assert("--cargo"@.len() != "-V"@.len());
    assert("--cargo"@.len() != "--version"@.len());
    assert("--cargo"@.len() != "-H"@.len());
    assert("--cargo"@.len() != "--help"@.len());
    assert("--cargo"@.len() != "-Rec"@.len());
    assert("--cargo"@.len() != "--reconfigure"@.len());
    assert("--cargo"@.len() != "-B"@.len());
    assert("--cargo"@.len() != "--brew"@.len());
    assert("--cargo"@.len() != "-M"@.len());
    assert("--cargo"@.len() != "--make"@.len());
    assert("--cargo"@.len() != "-C"@.len());
    assert("-GC"@.len() != "-V"@.len());
    assert("-GC"@.len() != "--version"@.len());
    assert("-GC"@.len() != "-H"@.len());
    assert("-GC"@.len() != "--help"@.len());
    assert("-GC"@.len() != "-Rec"@.len());
    assert("-GC"@.len() != "--reconfigure"@.len());
    assert("-GC"@.len() != "-B"@.len());
    assert("-GC"@.len() != "--brew"@.len());
    assert("-GC"@.len() != "-M"@.len());
    assert("-GC"@.len() != "--make"@.len());
    assert("-GC"@.len() != "-C"@.len());
    assert("-GC"@.len() != "--cargo"@.len());
    assert("--git-clone"@.len() != "-V"@.len());
    assert("--git-clone"@.len() != "--version"@.len());
    assert("--git-clone"@.len() != "-H"@.len());
    assert("--git-clone"@.len() != "--help"@.len());
    assert("--git-clone"@.len() != "-Rec"@.len());
    assert("--git-clone"@.len() != "--reconfigure"@.len());
    assert("--git-clone"@.len() != "-B"@.len());
    assert("--git-clone"@.len() != "--brew"@.len());
    assert("--git-clone"@.len() != "-M"@.len());
    assert("--git-clone"@.len() != "--make"@.len());
    assert("--git-clone"@.len() != "-C"@.len());
    assert("--git-clone"@.len() != "--cargo"@.len());
    assert("--git-clone"@.len() != "-GC"@.len());
    assert("-W"@[1] != "-V"@[1]);
    assert("-W"@.len() != "--version"@.len());
    assert("-W"@[1] != "-H"@[1]);
    assert("-W"@.len() != "--help"@.len());
    assert("-W"@.len() != "-Rec"@.len());
    assert("-W"@.len() != "--reconfigure"@.len());
    assert("-W"@[1] != "-B"@[1]);
    assert("-W"@.len() != "--brew"@.len());
    assert("-W"@[1] != "-M"@[1]);
    assert("-W"@.len() != "--make"@.len());
    assert("-W"@[1] != "-C"@[1]);
    assert("-W"@.len() != "--cargo"@.len());
    assert("-W"@.len() != "-GC"@.len());
    assert("-W"@.len() != "--git-clone"@.len());
    assert("--wget"@.len() != "-V"@.len());
    assert("--wget"@.len() != "--version"@.len());
    assert("--wget"@.len() != "-H"@.len());
    assert("--wget"@[2] != "--help"@[2]);
    assert("--wget"@.len() != "-Rec"@.len());
    assert("--wget"@.len() != "--reconfigure"@.len());
    assert("--wget"@.len() != "-B"@.len());
    assert("--wget"@[2] != "--brew"@[2]);
    assert("--wget"@.len() != "-M"@.len());
    assert("--wget"@[2] != "--make"@[2]);
    assert("--wget"@.len() != "-C"@.len());
    assert("--wget"@.len() != "--cargo"@.len());
    assert("--wget"@.len() != "-GC"@.len());
    assert("--wget"@.len() != "--git-clone"@.len());
    assert("--wget"@.len() != "-W"@.len());
    assert("-L"@[1] != "-V"@[1]);
    assert("-L"@.len() != "--version"@.len());
    assert("-L"@[1] != "-H"@[1]);
    assert("-L"@.len() != "--help"@.len());
    assert("-L"@.len() != "-Rec"@.len());
    assert("-L"@.len() != "--reconfigure"@.len());
    assert("-L"@[1] != "-B"@[1]);
    assert("-L"@.len() != "--brew"@.len());
    assert("-L"@[1] != "-M"@[1]);
    assert("-L"@.len() != "--make"@.len());
    assert("-L"@[1] != "-C"@[1]);
    assert("-L"@.len() != "--cargo"@.len());
    assert("-L"@.len() != "-GC"@.len());
    assert("-L"@.len() != "--git-clone"@.len());
    assert("-L"@[1] != "-W"@[1]);
    assert("-L"@.len() != "--wget"@.len());
    assert("--lang"@.len() != "-V"@.len());
    assert("--lang"@.len() != "--version"@.len());
    assert("--lang"@.len() != "-H"@.len());
    assert("--lang"@[2] != "--help"@[2]);
    assert("--lang"@.len() != "-Rec"@.len());
    assert("--lang"@.len() != "--reconfigure"@.len());
    assert("--lang"@.len() != "-B"@.len());
    assert("--lang"@[2] != "--brew"@[2]);
    assert("--lang"@.len() != "-M"@.len());
    assert("--lang"@[2] != "--make"@[2]);
    assert("--lang"@.len() != "-C"@.len());
    assert("--lang"@.len() != "--cargo"@.len());
    assert("--lang"@.len() != "-GC"@.len());
    assert("--lang"@.len() != "--git-clone"@.len());
    assert("--lang"@.len() != "-W"@.len());
    assert("--lang"@[2] != "--wget"@[2]);
    assert("--lang"@.len() != "-L"@.len());
}

/// The operands of a request are the words after its option, in order: for
/// `-B` and `-C` the first of them is the action and the others follow it;
/// `-M`, `-GC`, `-W` and `-L` take the first of them; a package option takes
/// all of them.
pub proof fn law_request_operands(args: Seq<Seq<char>>)
    ensures
        request_of(args) matches RequestView::Brew { action, rest } ==> seq![action] + rest
            == args.skip(2),
        request_of(args) matches RequestView::Cargo { sub, rest } ==> seq![sub] + rest == args.skip(
            2,
        ),
        request_of(args) matches RequestView::Package { option, rest } ==> seq![option] + rest
            == args.skip(1),
        request_of(args) matches RequestView::Make { subcommand } ==> (subcommand is Some
            <==> args.len() >= 3) && (args.len() >= 3 ==> subcommand == Some(args[2])),
        request_of(args) matches RequestView::GitClone { url } ==> args.len() >= 3 && url
            == args[2],
        request_of(args) matches RequestView::Wget { url } ==> args.len() >= 3 && url == args[2],
        request_of(args) matches RequestView::Lang { name } ==> args.len() >= 3 && name == args[2],
{
    if args.len() >= 3 {
        assert(seq![args[2]] + args.skip(3) =~= args.skip(2));
    }
    if args.len() >= 2 {
        assert(seq![args[1]] + args.skip(2) =~= args.skip(1));
    }
}

/// Package options for a manager that has a custom backend script go to the
/// script, whichever manager it is; for a manager without one that `se`
/// does not know, every option is answered with `Unsupported PM`; for a
/// known manager, an install, removal, purge or search runs that manager's
/// command followed by a space and the words after the option, while
/// updates and upgrades run its command alone and ignore those words.
pub proof fn law_package_plans(
    pm: Seq<char>,
    other_pm: Seq<char>,
    option: Seq<char>,
    rest: Seq<Seq<char>>,
    other_rest: Seq<Seq<char>>,
)
    ensures
        package_plan_of(pm, true, option, rest) == package_plan_of(other_pm, true, option, rest),
        pm_named(pm) is None ==> (package_plan_of(pm, false, option, rest) is UnsupportedPm),
        (pm_named(pm) is Some && operation_named(option) is None) ==> (package_plan_of(
            pm,
            false,
            option,
            rest,
        ) is UnknownOption),
        pm_named(pm) matches Some(m) ==> (operation_named(option) matches Some(op) ==> (
        package_plan_of(pm, false, option, rest) == PackagePlanView::Run(
            if op == Operation::Update || op == Operation::Upgrade {
                base_command(Backend::Manager(m), op)
            } else {
                base_command(Backend::Manager(m), op) + " "@ + joined(rest)
            },
        ))),
        (operation_named(option) == Some(Operation::Update) || operation_named(option) == Some(
            Operation::Upgrade,
        )) ==> package_plan_of(pm, false, option, rest) == package_plan_of(
            pm,
            false,
            option,
            other_rest,
        ),
{
    reveal_strlit(" ");
    assert(seq![' '] =~= " "@);
}

/// A custom backend script is called with the name of the operation
/// (`install`, `remove`, `purge`, `search`, `update`, `upgrade`) and, for
/// all but updates and upgrades, the words after the option.
pub proof fn law_script_calls(pm: Seq<char>, option: Seq<char>, rest: Seq<Seq<char>>)
    ensures
        operation_named(option) matches Some(op) ==> (package_plan_of(pm, true, option, rest)
            == (PackagePlanView::Script {
            action: match op {
                Operation::Install => "install"@,
                Operation::Remove => "remove"@,
                Operation::Purge => "purge"@,
                Operation::Search => "search"@,
                Operation::Update => "update"@,
                Operation::Upgrade => "upgrade"@,
            },
            args: if op == Operation::Update || op == Operation::Upgrade {
                Seq::empty()
            } else {
                rest
            },
        })),
        operation_named(option) is None ==> (package_plan_of(pm, true, option, rest) is UnknownOption),
{
}

/// Homebrew, which `-B` selects whatever manager is configured, is sent the
/// same operations as a configured manager: its command followed, for an
/// install, removal, purge or search, by a space and the words after the
/// action; an action that is not a package option selects nothing.
pub proof fn law_brew_plans(action: Seq<char>, rest: Seq<Seq<char>>)
    ensures
        (brew_plan(action, rest) is None) <==> (operation_named(action) is None),
        operation_named(action) matches Some(op) ==> brew_plan(action, rest) == Some(
            if op == Operation::Update || op == Operation::Upgrade {
                base_command(Backend::Homebrew, op)
            } else {
                base_command(Backend::Homebrew, op) + " "@ + joined(rest)
            },
        ),
{
    reveal_strlit(" ");
    assert(seq![' '] =~= " "@);
}

/// Words are joined with single spaces: one word is itself, and each further
/// word is added after a space.
pub proof fn law_joined(words: Seq<Seq<char>>, w: Seq<char>)
    ensures
        joined(seq![w]) == w,
        words.len() > 0 ==> joined(words.push(w)) == joined(words) + " "@ + w,
{
    reveal_strlit(" ");
    assert(seq![' '] =~= " "@);
    assert(words.push(w).drop_last() =~= words);
}

/// Where `se` keeps its files under a home directory: the configuration file
/// `.config/se/config.se` and the scripts `.config/se/scripts/se-pkg-<pm>`.
pub proof fn law_paths(home: Seq<char>, pm: Seq<char>)
    ensures
        config_dir_in(home) == home + "/.config/se"@,
        config_file_in(home) == home + "/.config/se/config.se"@,
        scripts_dir_in(home) == home + "/.config/se/scripts"@,
        custom_script_in(home, pm) == home + "/.config/se/scripts/se-pkg-"@ + pm,
{
    reveal_strlit("/.config/se");
    reveal_strlit("/config.se");
    reveal_strlit("/scripts");
    reveal_strlit("/se-pkg-");
    reveal_strlit("/.config/se/config.se");
    reveal_strlit("/.config/se/scripts");
    reveal_strlit("/.config/se/scripts/se-pkg-");
    assert(home + "/.config/se"@ + "/config.se"@ =~= home + "/.config/se/config.se"@);
    assert(home + "/.config/se"@ + "/scripts"@ =~= home + "/.config/se/scripts"@);
    assert(home + "/.config/se"@ + "/scripts"@ + "/se-pkg-"@ + pm =~= home
        + "/.config/se/scripts/se-pkg-"@ + pm);
}

/// Installing Scala first makes sure that `wget` is present, through the
/// configured manager: the installer runs only after `wget` was found; a
/// missing `wget` is announced, then installed through the configured
/// manager (or, for a manager that `se` does not know, the run stops), then
/// looked for again, and a second miss stops the run. Java is installed by
/// the configured manager at once, without `wget`.
pub proof fn law_language_flow(pm: Seq<char>, probe: WgetProbe, found: bool)
    ensures
        lang_start(Language::Scala, pm) == LangAction::ProbeWget(WgetProbe::Before),
        lang_probed(probe, found) == LangAction::RunScalaInstaller <==> found,
        lang_probed(WgetProbe::Before, false) == LangAction::AnnounceWgetInstall,
        lang_probed(WgetProbe::AfterInstall, false) == LangAction::Fail(
            LangFailure::WgetInstallFailed,
        ),
        pm_named(pm) matches Some(m) ==> lang_announced(pm) == LangAction::InstallWget(m)
            && lang_start(Language::Java, pm) == LangAction::InstallJava(m),
        pm_named(pm) is None ==> lang_announced(pm) == LangAction::Fail(
            LangFailure::CannotInstallWget,
        ) && lang_start(Language::Java, pm) == LangAction::Fail(LangFailure::JavaUnsupported),
        lang_start(Language::Unsupported, pm) == LangAction::UnknownLanguage,
{
}

/// A request that needs a tool stops exactly when the tool is missing:
/// Homebrew for `-B`, make for `-M`, cargo for `-C`, git for `-GC` and wget
/// for `-W`, each once its operand is given; no other request stops.
pub proof fn law_tool_gates(args: Seq<Seq<char>>, found: bool)
    ensures
        gate_of(request_of(args), true) == Gate::Proceed,
        gate_of(request_of(args), found) is Stop <==> !found && (request_of(args) is Brew
            || request_of(args) is Make || request_of(args) is Cargo || request_of(args) is GitClone
            || request_of(args) is Wget),
        request_of(args) is Brew ==> gate_of(request_of(args), false) == Gate::Stop(RequiredTool::Brew),
        request_of(args) is Make ==> gate_of(request_of(args), false) == Gate::Stop(RequiredTool::Make),
        request_of(args) is Cargo ==> gate_of(request_of(args), false) == Gate::Stop(RequiredTool::Cargo),
        request_of(args) is GitClone ==> gate_of(request_of(args), false) == Gate::Stop(RequiredTool::Git),
        request_of(args) is Wget ==> gate_of(request_of(args), false) == Gate::Stop(RequiredTool::Wget),
{
}

} // verus!
