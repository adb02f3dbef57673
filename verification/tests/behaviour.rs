use se_pkg::backends::{Backend, Operation, PackageManager, command_line, java_install_command, wget_install_command};
use se_pkg::config::{parse_pm_config, render_pm_config};
use se_pkg::paths::{config_dir, config_dir_under, config_file_under, custom_pm_exists, custom_script_under, scripts_dir_under};
use se_pkg::plans::{
    brew_command, cargo_plan, git_clone_command, language_from_lowercase, language_named,
    make_command, package_plan, probe_script, wget_command, CargoPlan, Language, PackagePlan,
};
use se_pkg::lang::{
    java_install_notice, lang_after_announce, lang_after_install, lang_after_probe, lang_begin,
    scala_installer, wget_install_notice, LangAction, LangFailure, WgetProbe,
};
use se_pkg::plans::{gate, required_tool, Gate, RequiredTool};
use se_pkg::request::{parse_request, Request};
use se_pkg::setup::{
    setup_after_answer, setup_after_probe, setup_after_trimmed_answer, setup_begin, Extra, Failure, Question,
    SetupAction, Tool,
};
use se_pkg::text::{command_with_words, starts_with, str_eq, trim};

fn words(ws: &[&str]) -> Vec<String> {
    ws.iter().map(|w| w.to_string()).collect()
}

fn args(ws: &[&str]) -> Vec<String> {
    let mut v = vec!["se".to_string()];
    v.extend(words(ws));
    v
}

#[test]
fn config_round_trip_for_every_manager() {
    let all = [
        PackageManager::Nala,
        PackageManager::Apt,
        PackageManager::Pacman,
        PackageManager::Paru,
        PackageManager::Dnf,
        PackageManager::Zypper,
        PackageManager::Emerge,
        PackageManager::Void,
    ];
    for m in all {
        let text = render_pm_config(m.name());
        assert_eq!(text, format!("PM={}", m.name()));
        let back = parse_pm_config(&text).unwrap();
        assert_eq!(back, m.name());
        assert_eq!(PackageManager::from_name(&back), Some(m));
    }
}

#[test]
fn config_reads_first_marked_line() {
    assert_eq!(parse_pm_config("# se\nPM=dnf\nPM=apt\n"), Some("dnf".to_string()));
    assert_eq!(parse_pm_config("PM=apt\r\n"), Some("apt".to_string()));
    assert_eq!(parse_pm_config("PM=apt"), Some("apt".to_string()));
    assert_eq!(parse_pm_config("x\n\nPM=zypper"), Some("zypper".to_string()));
}

#[test]
fn config_removes_every_marker() {
    assert_eq!(parse_pm_config("PM=fooPM=bar"), Some("foobar".to_string()));
    assert_eq!(parse_pm_config("PM=PM="), Some("".to_string()));
}

#[test]
fn config_without_marked_line() {
    assert_eq!(parse_pm_config(""), None);
    assert_eq!(parse_pm_config("\n\n"), None);
    assert_eq!(parse_pm_config("pm=apt\n PM=apt"), None);
    assert_eq!(parse_pm_config("PM"), None);
}

#[test]
fn config_keeps_lone_carriage_return_on_last_line() {
    assert_eq!(parse_pm_config("PM=apt\r"), Some("apt\r".to_string()));
}

#[test]
fn paths_under_home() {
    assert_eq!(config_dir_under("/home/alice"), "/home/alice/.config/se");
    assert_eq!(config_file_under("/home/alice"), "/home/alice/.config/se/config.se");
    assert_eq!(scripts_dir_under("/home/alice"), "/home/alice/.config/se/scripts");
    assert_eq!(custom_script_under("/home/alice", "paru"), "/home/alice/.config/se/scripts/se-pkg-paru");
}

#[test]
fn paths_of_current_user() {
    if let Some(d) = config_dir() {
        assert!(d.ends_with("/.config/se"));
    }
    assert!(!custom_pm_exists("no-such-manager-for-tests"));
}

#[test]
fn request_without_arguments_is_help() {
    assert!(matches!(parse_request(&args(&[])), Request::Help));
    assert!(matches!(parse_request(&args(&["-H"])), Request::Help));
    assert!(matches!(parse_request(&args(&["--help"])), Request::Help));
}

#[test]
fn request_version_and_reconfigure() {
    assert!(matches!(parse_request(&args(&["-V"])), Request::Version));
    assert!(matches!(parse_request(&args(&["--version", "x"])), Request::Version));
    assert!(matches!(parse_request(&args(&["-Rec"])), Request::Reconfigure));
    assert!(matches!(parse_request(&args(&["--reconfigure"])), Request::Reconfigure));
}

#[test]
fn request_brew() {
    match parse_request(&args(&["-B", "-S", "wget", "curl"])) {
        Request::Brew { action, rest } => {
            assert_eq!(action, "-S");
            assert_eq!(rest, words(&["wget", "curl"]));
        }
        other => panic!("unexpected {:?}", other),
    }
    assert!(matches!(parse_request(&args(&["--brew"])), Request::BrewWithoutAction));
}

#[test]
fn request_make() {
    assert!(matches!(parse_request(&args(&["-M"])), Request::Make { subcommand: None }));
    match parse_request(&args(&["--make", "-C", "extra"])) {
        Request::Make { subcommand: Some(s) } => assert_eq!(s, "-C"),
        other => panic!("unexpected {:?}", other),
    }
}

#[test]
fn request_cargo_git_wget_lang() {
    match parse_request(&args(&["-C", "-I", "ripgrep"])) {
        Request::Cargo { sub, rest } => {
            assert_eq!(sub, "-I");
            assert_eq!(rest, words(&["ripgrep"]));
        }
        other => panic!("unexpected {:?}", other),
    }
    assert!(matches!(parse_request(&args(&["-C"])), Request::CargoWithoutSubcommand));
    match parse_request(&args(&["-GC", "https://example.com/r", "ignored"])) {
        Request::GitClone { url } => assert_eq!(url, "https://example.com/r"),
        other => panic!("unexpected {:?}", other),
    }
    assert!(matches!(parse_request(&args(&["--git-clone"])), Request::GitCloneWithoutUrl));
    match parse_request(&args(&["--wget", "https://example.com/f.tar.gz"])) {
        Request::Wget { url } => assert_eq!(url, "https://example.com/f.tar.gz"),
        other => panic!("unexpected {:?}", other),
    }
    assert!(matches!(parse_request(&args(&["-W"])), Request::WgetWithoutUrl));
    match parse_request(&args(&["-L", "scala"])) {
        Request::Lang { name } => assert_eq!(name, "scala"),
        other => panic!("unexpected {:?}", other),
    }
    assert!(matches!(parse_request(&args(&["--lang"])), Request::LangWithoutName));
}

#[test]
fn request_package_option() {
    match parse_request(&args(&["-S", "vim", "git"])) {
        Request::Package { option, rest } => {
            assert_eq!(option, "-S");
            assert_eq!(rest, words(&["vim", "git"]));
        }
        other => panic!("unexpected {:?}", other),
    }
    match parse_request(&args(&["--frobnicate"])) {
        Request::Package { option, rest } => {
            assert_eq!(option, "--frobnicate");
            assert!(rest.is_empty());
        }
        other => panic!("unexpected {:?}", other),
    }
}

#[test]
fn brew_commands() {
    assert_eq!(brew_command("-S", &words(&["wget"])).unwrap(), "brew install wget");
    assert_eq!(brew_command("--remove", &words(&["a", "b"])).unwrap(), "brew uninstall a b");
    assert_eq!(brew_command("-Cl", &words(&["x"])).unwrap(), "brew uninstall --zap x");
    assert_eq!(brew_command("-I", &words(&["ripgrep"])).unwrap(), "brew search ripgrep");
    assert_eq!(brew_command("-Up", &words(&["ignored"])).unwrap(), "brew update");
    assert_eq!(brew_command("--upgrade", &[]).unwrap(), "brew upgrade");
    assert_eq!(brew_command("-S", &[]).unwrap(), "brew install ");
    assert_eq!(brew_command("-X", &[]), None);
}

#[test]
fn make_commands() {
    assert_eq!(make_command(None), Some("make"));
    assert_eq!(make_command(Some("-C")), Some("make clean"));
    assert_eq!(make_command(Some("--clean")), Some("make clean"));
    assert_eq!(make_command(Some("-I")), Some("sudo make install"));
    assert_eq!(make_command(Some("--uninstall")), Some("sudo make uninstall"));
    assert_eq!(make_command(Some("-Z")), None);
}

#[test]
fn cargo_plans() {
    assert!(matches!(cargo_plan("-B", &[]), CargoPlan::Run(c) if c == "cargo build --release"));
    assert!(matches!(cargo_plan("--install", &words(&["ripgrep"])), CargoPlan::Run(c) if c == "cargo install ripgrep"));
    assert!(matches!(cargo_plan("-I", &words(&["a", "b"])), CargoPlan::Run(c) if c == "cargo install a b"));
    assert!(matches!(cargo_plan("-I", &[]), CargoPlan::MissingCrate));
    assert!(matches!(cargo_plan("-X", &[]), CargoPlan::Unknown));
}

#[test]
fn url_commands() {
    assert_eq!(git_clone_command("https://github.com/user/repo"), "git clone https://github.com/user/repo");
    assert_eq!(wget_command("https://example.com/f"), "wget https://example.com/f");
    assert_eq!(probe_script("brew"), "command -v brew >/dev/null 2>&1");
}

#[test]
fn package_plans_builtin() {
    let p = package_plan("apt", false, "-S", &words(&["vim", "git"]));
    assert!(matches!(p, PackagePlan::Run(c) if c == "sudo apt install vim git"));
    let p = package_plan("pacman", false, "--purge", &words(&["x"]));
    assert!(matches!(p, PackagePlan::Run(c) if c == "sudo pacman -Rns x"));
    let p = package_plan("emerge", false, "-Ut", &words(&["x"]));
    assert!(matches!(p, PackagePlan::Run(c) if c == "sudo emerge -avuDN @world"));
    let p = package_plan("void", false, "-I", &words(&["foo"]));
    assert!(matches!(p, PackagePlan::Run(c) if c == "xbps-query -Rs foo"));
    let p = package_plan("dnf", false, "-Up", &[]);
    assert!(matches!(p, PackagePlan::Run(c) if c == "sudo dnf check-update"));
}

#[test]
fn package_plans_refused() {
    assert!(matches!(package_plan("yum", false, "-S", &words(&["x"])), PackagePlan::UnsupportedPm));
    assert!(matches!(package_plan("yum", false, "-Q", &[]), PackagePlan::UnsupportedPm));
    assert!(matches!(package_plan("apt", false, "-Q", &[]), PackagePlan::UnknownOption));
    assert!(matches!(package_plan("yum", true, "-Q", &[]), PackagePlan::UnknownOption));
}

#[test]
fn package_plans_script() {
    match package_plan("yum", true, "-S", &words(&["a", "b"])) {
        PackagePlan::Script { action, args } => {
            assert_eq!(action, "install");
            assert_eq!(args, words(&["a", "b"]));
        }
        other => panic!("unexpected {:?}", other),
    }
    match package_plan("apt", true, "--upgrade", &words(&["a"])) {
        PackagePlan::Script { action, args } => {
            assert_eq!(action, "upgrade");
            assert!(args.is_empty());
        }
        other => panic!("unexpected {:?}", other),
    }
}

#[test]
fn every_table_entry() {
    let ops = [
        Operation::Install,
        Operation::Remove,
        Operation::Purge,
        Operation::Search,
        Operation::Update,
        Operation::Upgrade,
    ];
    let expected_nala = [
        "sudo nala install p",
        "sudo nala remove p",
        "sudo nala purge p",
        "nala search p",
        "sudo nala update",
        "sudo nala upgrade",
    ];
    let expected_paru = ["paru -S p", "paru -R p", "paru -Rns p", "paru -Ss p", "paru -Sy", "paru -Syu"];
    let expected_zypper = [
        "sudo zypper install p",
        "sudo zypper remove p",
        "sudo zypper remove p",
        "zypper search p",
        "sudo zypper refresh",
        "sudo zypper update",
    ];
    for (i, op) in ops.iter().enumerate() {
        let p = words(&["p"]);
        assert_eq!(command_line(Backend::Manager(PackageManager::Nala), *op, &p), expected_nala[i]);
        assert_eq!(command_line(Backend::Manager(PackageManager::Paru), *op, &p), expected_paru[i]);
        assert_eq!(command_line(Backend::Manager(PackageManager::Zypper), *op, &p), expected_zypper[i]);
    }
}

#[test]
fn install_commands() {
    assert_eq!(wget_install_command(PackageManager::Zypper), "sudo zypper install -y wget");
    assert_eq!(java_install_command(PackageManager::Emerge), "sudo emerge dev-java/openjdk:21");
    assert_eq!(wget_install_command(PackageManager::Void), "sudo xbps-install -Sy wget");
    assert_eq!(java_install_command(PackageManager::Apt), "sudo apt install openjdk-21-jdk -y");
}

#[test]
fn languages() {
    assert_eq!(language_named("scala"), Language::Scala);
    assert_eq!(language_named("SCALA"), Language::Scala);
    assert_eq!(language_named("Java"), Language::Java);
    assert_eq!(language_named("rust"), Language::Unsupported);
    assert_eq!(language_from_lowercase("Java"), Language::Unsupported);
    assert_eq!(language_from_lowercase("java"), Language::Java);
}

#[test]
fn setup_probe_order() {
    assert_eq!(setup_begin(), SetupAction::Probe(Tool::XbpsInstall));
    assert_eq!(setup_after_probe(Tool::XbpsInstall, false), SetupAction::Probe(Tool::Apt));
    assert_eq!(setup_after_probe(Tool::Apt, false), SetupAction::Probe(Tool::Pacman));
    assert_eq!(setup_after_probe(Tool::Pacman, false), SetupAction::Probe(Tool::Dnf));
    assert_eq!(setup_after_probe(Tool::Dnf, false), SetupAction::Probe(Tool::Zypper));
    assert_eq!(setup_after_probe(Tool::Zypper, false), SetupAction::Probe(Tool::Emerge));
    assert_eq!(setup_after_probe(Tool::Emerge, false), SetupAction::Abort(Failure::NoManager));
}

#[test]
fn setup_found_managers() {
    assert_eq!(setup_after_probe(Tool::XbpsInstall, true), SetupAction::Ask(Question::Xtools));
    assert_eq!(setup_after_probe(Tool::Apt, true), SetupAction::Ask(Question::Nala));
    assert_eq!(setup_after_probe(Tool::Pacman, true), SetupAction::Ask(Question::Paru));
    assert_eq!(
        setup_after_probe(Tool::Dnf, true),
        SetupAction::Finish { extra: None, pm: PackageManager::Dnf }
    );
    assert_eq!(
        setup_after_probe(Tool::Zypper, true),
        SetupAction::Finish { extra: None, pm: PackageManager::Zypper }
    );
    assert_eq!(
        setup_after_probe(Tool::Emerge, true),
        SetupAction::Finish { extra: None, pm: PackageManager::Emerge }
    );
    assert_eq!(
        setup_after_probe(Tool::Paru, true),
        SetupAction::Finish { extra: None, pm: PackageManager::Paru }
    );
    assert_eq!(setup_after_probe(Tool::Paru, false), SetupAction::Abort(Failure::ParuMissing));
}

#[test]
fn setup_answers() {
    let void_yes = SetupAction::Finish { extra: Some(Extra::Xtools), pm: PackageManager::Void };
    let void_no = SetupAction::Finish { extra: None, pm: PackageManager::Void };
    assert_eq!(setup_after_answer(Question::Xtools, "\n"), void_yes);
    assert_eq!(setup_after_answer(Question::Xtools, "  Y \n"), void_yes);
    assert_eq!(setup_after_answer(Question::Xtools, "n\n"), void_no);
    assert_eq!(setup_after_answer(Question::Xtools, "yes\n"), void_no);
    assert_eq!(
        setup_after_answer(Question::Nala, "y\n"),
        SetupAction::Finish { extra: Some(Extra::Nala), pm: PackageManager::Nala }
    );
    assert_eq!(
        setup_after_answer(Question::Nala, "no\n"),
        SetupAction::Finish { extra: None, pm: PackageManager::Apt }
    );
    assert_eq!(setup_after_answer(Question::Paru, "y\n"), SetupAction::Probe(Tool::Paru));
    assert_eq!(
        setup_after_answer(Question::Paru, "\n"),
        SetupAction::Finish { extra: None, pm: PackageManager::Pacman }
    );
    assert_eq!(
        setup_after_trimmed_answer(Question::Paru, "Y"),
        SetupAction::Probe(Tool::Paru)
    );
}

#[test]
fn setup_texts() {
    assert_eq!(Tool::XbpsInstall.command_name(), "xbps-install");
    assert_eq!(Question::Paru.prompt(), "\x1b[1;33mUse paru (AUR helper)? [y/N]\x1b[0m ");
    assert_eq!(Question::Nala.notice(), "\x1b[1;34mDetected apt-based system\x1b[0m");
    assert_eq!(Extra::Xtools.install_command(), "sudo xbps-install -S xtools");
    assert_eq!(Failure::NoManager.message(), "No supported package manager found.");
}

#[test]
fn text_helpers() {
    assert!(str_eq("abc", "abc"));
    assert!(!str_eq("abc", "abd"));
    assert!(!str_eq("ab", "abc"));
    assert!(starts_with("PM=apt", "PM="));
    assert!(!starts_with("PM", "PM="));
    assert_eq!(trim(" \t x y \u{3000}\n"), "x y");
    assert_eq!(trim("   "), "");
    assert_eq!(command_with_words("a", &words(&["b", "c"])), "a b c");
    assert_eq!(command_with_words("a", &[]), "a ");
}

#[test]
fn lang_scala_installs_wget_first() {
    assert_eq!(lang_begin(Language::Scala, "apt"), LangAction::ProbeWget(WgetProbe::Before));
    assert_eq!(lang_after_probe(WgetProbe::Before, true), LangAction::RunScalaInstaller);
    assert_eq!(lang_after_probe(WgetProbe::Before, false), LangAction::AnnounceWgetInstall);
    assert_eq!(lang_after_announce("apt"), LangAction::InstallWget(PackageManager::Apt));
    assert_eq!(lang_after_install(), LangAction::ProbeWget(WgetProbe::AfterInstall));
    assert_eq!(lang_after_probe(WgetProbe::AfterInstall, true), LangAction::RunScalaInstaller);
}

#[test]
fn lang_failures() {
    assert_eq!(lang_after_announce("yum"), LangAction::Fail(LangFailure::CannotInstallWget));
    assert_eq!(
        lang_after_probe(WgetProbe::AfterInstall, false),
        LangAction::Fail(LangFailure::WgetInstallFailed)
    );
    assert_eq!(lang_begin(Language::Java, "yum"), LangAction::Fail(LangFailure::JavaUnsupported));
    assert_eq!(lang_begin(Language::Java, "dnf"), LangAction::InstallJava(PackageManager::Dnf));
    assert_eq!(lang_begin(Language::Unsupported, "dnf"), LangAction::UnknownLanguage);
    assert_eq!(
        LangFailure::JavaUnsupported.message("yum"),
        "\x1b[1;31mCannot install OpenJDK 21: unsupported package manager 'yum'\x1b[0m"
    );
    assert_eq!(
        LangFailure::CannotInstallWget.message("yum"),
        "\x1b[1;31mCannot auto-install wget for unknown PM\x1b[0m"
    );
}

#[test]
fn lang_texts() {
    assert_eq!(scala_installer(), "~/.config/se/scripts/scalainst");
    assert_eq!(wget_install_notice("apt"), "\x1b[1;33mwget not found — installing via apt...\x1b[0m");
    assert_eq!(java_install_notice("dnf"), "\x1b[1;34mInstalling OpenJDK 21 via dnf...\x1b[0m");
}

#[test]
fn tool_gates() {
    let brew = parse_request(&args(&["-B", "-S", "x"]));
    assert_eq!(required_tool(&brew), Some(RequiredTool::Brew));
    assert_eq!(gate(&brew, false), Gate::Stop(RequiredTool::Brew));
    assert_eq!(gate(&brew, true), Gate::Proceed);
    let missing = parse_request(&args(&["-B"]));
    assert_eq!(required_tool(&missing), None);
    assert_eq!(gate(&missing, false), Gate::Proceed);
    assert_eq!(required_tool(&parse_request(&args(&["-M"]))), Some(RequiredTool::Make));
    assert_eq!(required_tool(&parse_request(&args(&["-C", "-B"]))), Some(RequiredTool::Cargo));
    assert_eq!(required_tool(&parse_request(&args(&["-GC", "u"]))), Some(RequiredTool::Git));
    assert_eq!(required_tool(&parse_request(&args(&["-W", "u"]))), Some(RequiredTool::Wget));
    assert_eq!(required_tool(&parse_request(&args(&["-S", "vim"]))), None);
    assert_eq!(RequiredTool::Cargo.install_hint(), Some("Install Rust via https://rustup.rs"));
    assert_eq!(RequiredTool::Git.install_hint(), None);
    assert_eq!(RequiredTool::Make.missing_message(), "\x1b[1;31mmake is not installed or not in PATH.\x1b[0m");
    assert_eq!(RequiredTool::Wget.command_name(), "wget");
}
