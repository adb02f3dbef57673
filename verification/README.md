# se_pkg

`se` is one command for the package managers of many Linux distributions
(apt/nala, pacman/paru, dnf, zypper, xbps, emerge), plus shortcuts for
Homebrew, make, cargo, git clone, wget and language runtimes.

- `src/` is the verified library: reading the command line (`request`), the
  command tables and the command lines they give (`backends`, `plans`), the
  configuration file format (`config`), the first-run setup as a state
  machine (`setup`), the language-runtime flow that installs wget first
  (`lang`), the file locations (`paths`) and string helpers (`text`).
- `app/main.rs` is the program: it runs shell commands, talks to the
  terminal and reads and writes files, asking the library what to do.
- `tests/` exercises the library on concrete inputs.
