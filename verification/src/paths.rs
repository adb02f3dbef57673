//! Where `se` keeps its files: the configuration directory under the user's
//! home, the configuration file, and the directory of custom backend scripts.
use vstd::prelude::*;

verus! {

/// The configuration directory under the home directory `home`.
pub open spec fn config_dir_in(home: Seq<char>) -> Seq<char> {
    home + "/.config/se"@
}

/// The configuration file under the home directory `home`.
pub open spec fn config_file_in(home: Seq<char>) -> Seq<char> {
    config_dir_in(home) + "/config.se"@
}

/// The directory of scripts under the home directory `home`.
pub open spec fn scripts_dir_in(home: Seq<char>) -> Seq<char> {
    config_dir_in(home) + "/scripts"@
}

/// The custom backend script for package manager `pm` under the home
/// directory `home`.
pub open spec fn custom_script_in(home: Seq<char>, pm: Seq<char>) -> Seq<char> {
    scripts_dir_in(home) + "/se-pkg-"@ + pm
}

/// Calls `dirs::home_dir` and turns the path into text as
/// `Path::to_string_lossy` does. Nothing is stated of the result: it comes
/// from the environment (`$HOME`, or the user database), and `None` means
/// that no home directory could be found.
#[verifier::external_body]
fn home() -> (r: Option<String>) {
    match dirs::home_dir() {
        Some(p) => Some(p.to_string_lossy().into_owned()),
        None => None,
    }
}

/// Calls `std::path::Path::exists`. Nothing is stated of the result: it
/// depends on what is on disk when the call is made.
#[verifier::external_body]
fn path_exists(p: &str) -> (r: bool) {
    std::path::Path::new(p).exists()
}

/// The configuration directory under the home directory `home`:
/// `<home>/.config/se`.
pub fn config_dir_under(home: &str) -> (r: String)
    ensures
        r@ == config_dir_in(home@),
{
    let mut r = String::from_str(home);
    r.append("/.config/se");
    r
}

/// The configuration file under the home directory `home`:
/// `<home>/.config/se/config.se`.
pub fn config_file_under(home: &str) -> (r: String)
    ensures
        r@ == config_file_in(home@),
{
    let mut r = config_dir_under(home);
    r.append("/config.se");
    r
}

/// The directory of scripts under the home directory `home`:
/// `<home>/.config/se/scripts`.
pub fn scripts_dir_under(home: &str) -> (r: String)
    ensures
        r@ == scripts_dir_in(home@),
{
    let mut r = config_dir_under(home);
    r.append("/scripts");
    r
}

/// The custom backend script for `pm` under the home directory `home`:
/// `<home>/.config/se/scripts/se-pkg-<pm>`.
pub fn custom_script_under(home: &str, pm: &str) -> (r: String)
    ensures
        r@ == custom_script_in(home@, pm@),
{
    let mut r = scripts_dir_under(home);
    r.append("/se-pkg-");
    r.append(pm);
    r
}

/// The configuration directory of the current user; `None` when the home
/// directory cannot be found.
pub fn config_dir() -> (r: Option<String>)
    ensures
        r matches Some(d) ==> exists|h: Seq<char>| d@ == config_dir_in(h),
{
    match home() {
        Some(h) => Some(config_dir_under(h.as_str())),
        None => None,
    }
}

/// The configuration file of the current user; `None` when the home
/// directory cannot be found.
pub fn config_file() -> (r: Option<String>)
    ensures
        r matches Some(f) ==> exists|h: Seq<char>| f@ == config_file_in(h),
{
    match home() {
        Some(h) => Some(config_file_under(h.as_str())),
        None => None,
    }
}

/// The directory of scripts of the current user; `None` when the home
/// directory cannot be found.
pub fn scripts_dir() -> (r: Option<String>)
    ensures
        r matches Some(d) ==> exists|h: Seq<char>| d@ == scripts_dir_in(h),
{
    match home() {
        Some(h) => Some(scripts_dir_under(h.as_str())),
        None => None,
    }
}

/// The custom backend script for `pm` of the current user; `None` when the
/// home directory cannot be found.
pub fn custom_pm_script(pm: &str) -> (r: Option<String>)
    ensures
        r matches Some(p) ==> exists|h: Seq<char>| p@ == custom_script_in(h, pm@),
{
    match home() {
        Some(h) => Some(custom_script_under(h.as_str(), pm)),
        None => None,
    }
}

/// Whether a custom backend script for `pm` exists in the scripts
/// directory; `false` when the home directory cannot be found.
pub fn custom_pm_exists(pm: &str) -> (r: bool) {
    match custom_pm_script(pm) {
        Some(p) => path_exists(p.as_str()),
        None => false,
    }
}

} // verus!
