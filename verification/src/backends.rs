//! The package managers that `se` drives, the operations it offers on them,
//! and the shell command that carries out each operation.
use vstd::prelude::*;
use crate::text::{str_eq, joined, views, command_with_words};

verus! {

/// A package manager that `se` can be configured to use.
#[derive(Clone, Copy, Debug, PartialEq, Eq, Structural)]
pub enum PackageManager {
    Nala,
    Apt,
    Pacman,
    Paru,
    Dnf,
    Zypper,
    Emerge,
    Void,
}

/// Where a package operation is sent: the configured package manager, or
/// Homebrew, which `-B` selects whatever is configured.
#[derive(Clone, Copy, Debug, PartialEq, Eq, Structural)]
pub enum Backend {
    Manager(PackageManager),
    Homebrew,
}

/// An operation on packages, as the options `-S`, `-Rm`, `-Cl`, `-I`, `-Up`
/// and `-Ut` (or their long forms) request it.
#[derive(Clone, Copy, Debug, PartialEq, Eq, Structural)]
pub enum Operation {
    Install,
    Remove,
    Purge,
    Search,
    Update,
    Upgrade,
}

/// The name under which a package manager is stored in the configuration.
pub open spec fn pm_name(m: PackageManager) -> Seq<char> {
    match m {
        PackageManager::Nala => "nala"@,
        PackageManager::Apt => "apt"@,
        PackageManager::Pacman => "pacman"@,
        PackageManager::Paru => "paru"@,
        PackageManager::Dnf => "dnf"@,
        PackageManager::Zypper => "zypper"@,
        PackageManager::Emerge => "emerge"@,
        PackageManager::Void => "void"@,
    }
}

/// The package manager stored under `name`, if `se` knows it.
pub open spec fn pm_named(name: Seq<char>) -> Option<PackageManager> {
    if name == "nala"@ {
        Some(PackageManager::Nala)
    } else if name == "apt"@ {
        Some(PackageManager::Apt)
    } else if name == "pacman"@ {
        Some(PackageManager::Pacman)
    } else if name == "paru"@ {
        Some(PackageManager::Paru)
    } else if name == "dnf"@ {
        Some(PackageManager::Dnf)
    } else if name == "zypper"@ {
        Some(PackageManager::Zypper)
    } else if name == "emerge"@ {
        Some(PackageManager::Emerge)
    } else if name == "void"@ {
        Some(PackageManager::Void)
    } else {
        None
    }
}

/// The operation that an option requests, if it is one of the package options.
pub open spec fn operation_named(opt: Seq<char>) -> Option<Operation> {
    if opt == "-S"@ || opt == "--get"@ {
        Some(Operation::Install)
    } else if opt == "-Rm"@ || opt == "--remove"@ {
        Some(Operation::Remove)
    } else if opt == "-Cl"@ || opt == "--purge"@ {
        Some(Operation::Purge)
    } else if opt == "-I"@ || opt == "--index"@ {
        Some(Operation::Search)
    } else if opt == "-Up"@ || opt == "--update"@ {
        Some(Operation::Update)
    } else if opt == "-Ut"@ || opt == "--upgrade"@ {
        Some(Operation::Upgrade)
    } else {
        None
    }
}

/// Whether an operation is given the package names that follow the option.
pub open spec fn takes_packages(op: Operation) -> bool {
    match op {
        Operation::Update | Operation::Upgrade => false,
        _ => true,
    }
}

/// The command that performs `op` on `b`, before any package names.
pub open spec fn base_command(b: Backend, op: Operation) -> Seq<char> {
    match b {
        Backend::Homebrew => match op {
            Operation::Install => "brew install"@,
            Operation::Remove => "brew uninstall"@,
            Operation::Purge => "brew uninstall --zap"@,
            Operation::Search => "brew search"@,
            Operation::Update => "brew update"@,
            Operation::Upgrade => "brew upgrade"@,
        },
        Backend::Manager(m) => match m {
            PackageManager::Nala => match op {
                Operation::Install => "sudo nala install"@,
                Operation::Remove => "sudo nala remove"@,
                Operation::Purge => "sudo nala purge"@,
                Operation::Search => "nala search"@,
                Operation::Update => "sudo nala update"@,
                Operation::Upgrade => "sudo nala upgrade"@,
            },
            PackageManager::Apt => match op {
                Operation::Install => "sudo apt install"@,
                Operation::Remove => "sudo apt remove"@,
                Operation::Purge => "sudo apt purge"@,
                Operation::Search => "apt search"@,
                Operation::Update => "sudo apt update"@,
                Operation::Upgrade => "sudo apt upgrade"@,
            },
            PackageManager::Pacman => match op {
                Operation::Install => "sudo pacman -S"@,
                Operation::Remove => "sudo pacman -R"@,
                Operation::Purge => "sudo pacman -Rns"@,
                Operation::Search => "pacman -Ss"@,
                Operation::Update => "sudo pacman -Sy"@,
                Operation::Upgrade => "sudo pacman -Syu"@,
            },
            PackageManager::Paru => match op {
                Operation::Install => "paru -S"@,
                Operation::Remove => "paru -R"@,
                Operation::Purge => "paru -Rns"@,
                Operation::Search => "paru -Ss"@,
                Operation::Update => "paru -Sy"@,
                Operation::Upgrade => "paru -Syu"@,
            },
            PackageManager::Dnf => match op {
                Operation::Install => "sudo dnf install"@,
                Operation::Remove => "sudo dnf remove"@,
                Operation::Purge => "sudo dnf remove"@,
                Operation::Search => "dnf search"@,
                Operation::Update => "sudo dnf check-update"@,
                Operation::Upgrade => "sudo dnf upgrade"@,
            },
            PackageManager::Zypper => match op {
                Operation::Install => "sudo zypper install"@,
                Operation::Remove => "sudo zypper remove"@,
                Operation::Purge => "sudo zypper remove"@,
                Operation::Search => "zypper search"@,
                Operation::Update => "sudo zypper refresh"@,
                Operation::Upgrade => "sudo zypper update"@,
            },
            PackageManager::Emerge => match op {
                Operation::Install => "sudo emerge"@,
                Operation::Remove => "sudo emerge -C"@,
                Operation::Purge => "sudo emerge -C"@,
                Operation::Search => "emerge -s"@,
                Operation::Update => "sudo emerge --sync"@,
                Operation::Upgrade => "sudo emerge -avuDN @world"@,
            },
            PackageManager::Void => match op {
                Operation::Install => "sudo xbps-install -S"@,
                Operation::Remove => "sudo xbps-remove"@,
                Operation::Purge => "sudo xbps-remove -R"@,
                Operation::Search => "xbps-query -Rs"@,
                Operation::Update => "sudo xbps-install -S"@,
                Operation::Upgrade => "sudo xbps-install -Su"@,
            },
        },
    }
}

/// The full command line: the base command, then, for operations that take
/// packages, a space and the package names joined by spaces.
pub open spec fn operation_command(b: Backend, op: Operation, packages: Seq<Seq<char>>) -> Seq<char> {
    if takes_packages(op) {
        base_command(b, op) + seq![' '] + joined(packages)
    } else {
        base_command(b, op)
    }
}

/// The command that installs `wget` through `m`.
pub open spec fn wget_install(m: PackageManager) -> Seq<char> {
    match m {
        PackageManager::Nala => "sudo nala install wget -y"@,
        PackageManager::Apt => "sudo apt install wget -y"@,
        PackageManager::Pacman => "sudo pacman -S --noconfirm wget"@,
        PackageManager::Paru => "paru -S --noconfirm wget"@,
        PackageManager::Dnf => "sudo dnf install wget -y"@,
        PackageManager::Zypper => "sudo zypper install -y wget"@,
        PackageManager::Emerge => "sudo emerge wget"@,
        PackageManager::Void => "sudo xbps-install -Sy wget"@,
    }
}

/// The command that installs OpenJDK 21 through `m`.
pub open spec fn java_install(m: PackageManager) -> Seq<char> {
    match m {
        PackageManager::Nala => "sudo nala install openjdk-21-jdk -y"@,
        PackageManager::Apt => "sudo apt install openjdk-21-jdk -y"@,
        PackageManager::Pacman => "sudo pacman -S --noconfirm jdk21-openjdk"@,
        PackageManager::Paru => "paru -S --noconfirm jdk21-openjdk"@,
        PackageManager::Dnf => "sudo dnf install java-21-openjdk -y"@,
        PackageManager::Zypper => "sudo zypper install -y java-21-openjdk"@,
        PackageManager::Emerge => "sudo emerge dev-java/openjdk:21"@,
        PackageManager::Void => "sudo xbps-install -Sy openjdk21"@,
    }
}

impl PackageManager {
    /// The name under which this package manager is stored.
    pub fn name(self) -> (r: &'static str)
        ensures
            r@ == pm_name(self),
    {
        match self {
            PackageManager::Nala => "nala",
            PackageManager::Apt => "apt",
            PackageManager::Pacman => "pacman",
            PackageManager::Paru => "paru",
            PackageManager::Dnf => "dnf",
            PackageManager::Zypper => "zypper",
            PackageManager::Emerge => "emerge",
            PackageManager::Void => "void",
        }
    }

    /// The package manager stored under `name`; `None` for a name that `se`
    /// has no command table for.
    pub fn from_name(name: &str) -> (r: Option<PackageManager>)
        ensures
            r == pm_named(name@),
    {
        if str_eq(name, "nala") {
            Some(PackageManager::Nala)
        } else if str_eq(name, "apt") {
            Some(PackageManager::Apt)
        } else if str_eq(name, "pacman") {
            Some(PackageManager::Pacman)
        } else if str_eq(name, "paru") {
            Some(PackageManager::Paru)
        } else if str_eq(name, "dnf") {
            Some(PackageManager::Dnf)
        } else if str_eq(name, "zypper") {
            Some(PackageManager::Zypper)
        } else if str_eq(name, "emerge") {
            Some(PackageManager::Emerge)
        } else if str_eq(name, "void") {
            Some(PackageManager::Void)
        } else {
            None
        }
    }
}

impl Operation {
    /// The operation that a package option requests; `None` for any other
    /// argument.
    pub fn from_option(opt: &str) -> (r: Option<Operation>)
        ensures
            r == operation_named(opt@),
    {
        if str_eq(opt, "-S") || str_eq(opt, "--get") {
            Some(Operation::Install)
        } else if str_eq(opt, "-Rm") || str_eq(opt, "--remove") {
            Some(Operation::Remove)
        } else if str_eq(opt, "-Cl") || str_eq(opt, "--purge") {
            Some(Operation::Purge)
        } else if str_eq(opt, "-I") || str_eq(opt, "--index") {
            Some(Operation::Search)
        } else if str_eq(opt, "-Up") || str_eq(opt, "--update") {
            Some(Operation::Update)
        } else if str_eq(opt, "-Ut") || str_eq(opt, "--upgrade") {
            Some(Operation::Upgrade)
        } else {
            None
        }
    }

    /// Whether this operation is given the package names after the option.
    pub fn takes_packages(self) -> (r: bool)
        ensures
            r == takes_packages(self),
    {
        match self {
            Operation::Update | Operation::Upgrade => false,
            _ => true,
        }
    }
}

/// The command that performs `op` on `b`, before any package names.
pub fn base_command_text(b: Backend, op: Operation) -> (r: &'static str)
    ensures
        r@ == base_command(b, op),
{
    match b {
        Backend::Homebrew => match op {
            Operation::Install => "brew install",
            Operation::Remove => "brew uninstall",
            Operation::Purge => "brew uninstall --zap",
            Operation::Search => "brew search",
            Operation::Update => "brew update",
            Operation::Upgrade => "brew upgrade",
        },
        Backend::Manager(m) => match m {
            PackageManager::Nala => match op {
                Operation::Install => "sudo nala install",
                Operation::Remove => "sudo nala remove",
                Operation::Purge => "sudo nala purge",
                Operation::Search => "nala search",
                Operation::Update => "sudo nala update",
                Operation::Upgrade => "sudo nala upgrade",
            },
            PackageManager::Apt => match op {
                Operation::Install => "sudo apt install",
                Operation::Remove => "sudo apt remove",
                Operation::Purge => "sudo apt purge",
                Operation::Search => "apt search",
                Operation::Update => "sudo apt update",
                Operation::Upgrade => "sudo apt upgrade",
            },
            PackageManager::Pacman => match op {
                Operation::Install => "sudo pacman -S",
                Operation::Remove => "sudo pacman -R",
                Operation::Purge => "sudo pacman -Rns",
                Operation::Search => "pacman -Ss",
                Operation::Update => "sudo pacman -Sy",
                Operation::Upgrade => "sudo pacman -Syu",
            },
            PackageManager::Paru => match op {
                Operation::Install => "paru -S",
                Operation::Remove => "paru -R",
                Operation::Purge => "paru -Rns",
                Operation::Search => "paru -Ss",
                Operation::Update => "paru -Sy",
                Operation::Upgrade => "paru -Syu",
            },
            PackageManager::Dnf => match op {
                Operation::Install => "sudo dnf install",
                Operation::Remove => "sudo dnf remove",
                Operation::Purge => "sudo dnf remove",
                Operation::Search => "dnf search",
                Operation::Update => "sudo dnf check-update",
                Operation::Upgrade => "sudo dnf upgrade",
            },
            PackageManager::Zypper => match op {
                Operation::Install => "sudo zypper install",
                Operation::Remove => "sudo zypper remove",
                Operation::Purge => "sudo zypper remove",
                Operation::Search => "zypper search",
                Operation::Update => "sudo zypper refresh",
                Operation::Upgrade => "sudo zypper update",
            },
            PackageManager::Emerge => match op {
                Operation::Install => "sudo emerge",
                Operation::Remove => "sudo emerge -C",
                Operation::Purge => "sudo emerge -C",
                Operation::Search => "emerge -s",
                Operation::Update => "sudo emerge --sync",
                Operation::Upgrade => "sudo emerge -avuDN @world",
            },
            PackageManager::Void => match op {
                Operation::Install => "sudo xbps-install -S",
                Operation::Remove => "sudo xbps-remove",
                Operation::Purge => "sudo xbps-remove -R",
                Operation::Search => "xbps-query -Rs",
                Operation::Update => "sudo xbps-install -S",
                Operation::Upgrade => "sudo xbps-install -Su",
            },
        },
    }
}

/// The command line that performs `op` on `b` for `packages`: the base
/// command, then, for operations that take packages, a space and the names
/// joined by spaces (as `format!("{} {}", base, packages.join(" "))`).
pub fn command_line(b: Backend, op: Operation, packages: &[String]) -> (r: String)
    ensures
        r@ == operation_command(b, op, views(packages@)),
{
    let base = base_command_text(b, op);
    if op.takes_packages() {
        command_with_words(base, packages)
    } else {
        String::from_str(base)
    }
}

/// The command that installs `wget` through `m`.
pub fn wget_install_command(m: PackageManager) -> (r: &'static str)
    ensures
        r@ == wget_install(m),
{
    match m {
        PackageManager::Nala => "sudo nala install wget -y",
        PackageManager::Apt => "sudo apt install wget -y",
        PackageManager::Pacman => "sudo pacman -S --noconfirm wget",
        PackageManager::Paru => "paru -S --noconfirm wget",
        PackageManager::Dnf => "sudo dnf install wget -y",
        PackageManager::Zypper => "sudo zypper install -y wget",
        PackageManager::Emerge => "sudo emerge wget",
        PackageManager::Void => "sudo xbps-install -Sy wget",
    }
}

/// The command that installs OpenJDK 21 through `m`.
pub fn java_install_command(m: PackageManager) -> (r: &'static str)
    ensures
        r@ == java_install(m),
{
    match m {
        PackageManager::Nala => "sudo nala install openjdk-21-jdk -y",
        PackageManager::Apt => "sudo apt install openjdk-21-jdk -y",
        PackageManager::Pacman => "sudo pacman -S --noconfirm jdk21-openjdk",
        PackageManager::Paru => "paru -S --noconfirm jdk21-openjdk",
        PackageManager::Dnf => "sudo dnf install java-21-openjdk -y",
        PackageManager::Zypper => "sudo zypper install -y java-21-openjdk",
        PackageManager::Emerge => "sudo emerge dev-java/openjdk:21",
        PackageManager::Void => "sudo xbps-install -Sy openjdk21",
    }
}

} // verus!
