//! What the command line asks for. The first argument after the program
//! name selects the request; the arguments after it are its operands.
use vstd::prelude::*;
use crate::text::{str_eq, views};

verus! {

/// A request read from the command line.
#[derive(Debug)]
pub enum Request {
    /// No argument, `-H` or `--help`: show the command reference.
    Help,
    /// `-V` or `--version`.
    Version,
    /// `-Rec` or `--reconfigure`: run the setup again.
    Reconfigure,
    /// `-B`/`--brew` with the action that follows and the remaining words.
    Brew { action: String, rest: Vec<String> },
    /// `-B`/`--brew` with nothing after it.
    BrewWithoutAction,
    /// `-M`/`--make` with its optional subcommand.
    Make { subcommand: Option<String> },
    /// `-C`/`--cargo` with its subcommand and the remaining words.
    Cargo { sub: String, rest: Vec<String> },
    /// `-C`/`--cargo` with nothing after it.
    CargoWithoutSubcommand,
    /// `-GC`/`--git-clone` with the URL.
    GitClone { url: String },
    /// `-GC`/`--git-clone` with nothing after it.
    GitCloneWithoutUrl,
    /// `-W`/`--wget` with the URL.
    Wget { url: String },
    /// `-W`/`--wget` with nothing after it.
    WgetWithoutUrl,
    /// `-L`/`--lang` with the language name.
    Lang { name: String },
    /// `-L`/`--lang` with nothing after it.
    LangWithoutName,
    /// Any other option: a package operation for the configured manager,
    /// with the words after it.
    Package { option: String, rest: Vec<String> },
}

/// A request, its texts taken as character sequences.
pub enum RequestView {
    Help,
    Version,
    Reconfigure,
    Brew { action: Seq<char>, rest: Seq<Seq<char>> },
    BrewWithoutAction,
    Make { subcommand: Option<Seq<char>> },
    Cargo { sub: Seq<char>, rest: Seq<Seq<char>> },
    CargoWithoutSubcommand,
    GitClone { url: Seq<char> },
    GitCloneWithoutUrl,
    Wget { url: Seq<char> },
    WgetWithoutUrl,
    Lang { name: Seq<char> },
    LangWithoutName,
    Package { option: Seq<char>, rest: Seq<Seq<char>> },
}

impl View for Request {
    type V = RequestView;

    open spec fn view(&self) -> RequestView {
        match self {
            Request::Help => RequestView::Help,
            Request::Version => RequestView::Version,
            Request::Reconfigure => RequestView::Reconfigure,
            Request::Brew { action, rest } => RequestView::Brew {
                action: action@,
                rest: views(rest@),
            },
            Request::BrewWithoutAction => RequestView::BrewWithoutAction,
            Request::Make { subcommand } => RequestView::Make {
                subcommand: match subcommand {
                    Some(s) => Some(s@),
                    None => None,
                },
            },
            Request::Cargo { sub, rest } => RequestView::Cargo { sub: sub@, rest: views(rest@) },
            Request::CargoWithoutSubcommand => RequestView::CargoWithoutSubcommand,
            Request::GitClone { url } => RequestView::GitClone { url: url@ },
            Request::GitCloneWithoutUrl => RequestView::GitCloneWithoutUrl,
            Request::Wget { url } => RequestView::Wget { url: url@ },
            Request::WgetWithoutUrl => RequestView::WgetWithoutUrl,
            Request::Lang { name } => RequestView::Lang { name: name@ },
            Request::LangWithoutName => RequestView::LangWithoutName,
            Request::Package { option, rest } => RequestView::Package {
                option: option@,
                rest: views(rest@),
            },
        }
    }
}

/// Whether `a` is the short or the long form of an option.
pub open spec fn is_option(a: Seq<char>, short: Seq<char>, long: Seq<char>) -> bool {
    a == short || a == long
}

/// The request that the arguments make; `args[0]` is the program name.
pub open spec fn request_of(args: Seq<Seq<char>>) -> RequestView {
    if args.len() < 2 {
        RequestView::Help
    } else {
        let a = args[1];
        if is_option(a, "-V"@, "--version"@) {
            RequestView::Version
        } else if is_option(a, "-H"@, "--help"@) {
            RequestView::Help
        } else if is_option(a, "-Rec"@, "--reconfigure"@) {
            RequestView::Reconfigure
        } else if is_option(a, "-B"@, "--brew"@) {
            if args.len() < 3 {
                RequestView::BrewWithoutAction
            } else {
                RequestView::Brew { action: args[2], rest: args.skip(3) }
            }
        } else if is_option(a, "-M"@, "--make"@) {
            RequestView::Make {
                subcommand: if args.len() < 3 {
                    None
                } else {
                    Some(args[2])
                },
            }
        } else if is_option(a, "-C"@, "--cargo"@) {
            if args.len() < 3 {
                RequestView::CargoWithoutSubcommand
            } else {
                RequestView::Cargo { sub: args[2], rest: args.skip(3) }
            }
        } else if is_option(a, "-GC"@, "--git-clone"@) {
            if args.len() < 3 {
                RequestView::GitCloneWithoutUrl
            } else {
                RequestView::GitClone { url: args[2] }
            }
        } else if is_option(a, "-W"@, "--wget"@) {
            if args.len() < 3 {
                RequestView::WgetWithoutUrl
            } else {
                RequestView::Wget { url: args[2] }
            }
        } else if is_option(a, "-L"@, "--lang"@) {
            if args.len() < 3 {
                RequestView::LangWithoutName
            } else {
                RequestView::Lang { name: args[2] }
            }
        } else {
            RequestView::Package { option: a, rest: args.skip(2) }
        }
    }
}

/// Copies of the arguments from position `k` on.
fn words_from(args: &[String], k: usize) -> (r: Vec<String>)
    requires
        k <= args@.len(),
    ensures
        views(r@) == views(args@.skip(k as int)),
{
    let mut r: Vec<String> = Vec::new();
    let mut i: usize = k;
    while i < args.len()
        invariant
            k <= i <= args@.len(),
            r@ == args@.subrange(k as int, i as int),
        decreases args@.len() - i,
    {
        r.push(args[i].clone());
        assert(args@.subrange(k as int, i + 1) =~= args@.subrange(k as int, i as int).push(
            args@[i as int],
        ));
        i = i + 1;
    }
    assert(args@.subrange(k as int, args@.len() as int) =~= args@.skip(k as int));
    r
}

/// Whether `a` is the short or the long form of an option.
fn option_is(a: &str, short: &str, long: &str) -> (r: bool)
    ensures
        r == is_option(a@, short@, long@),
{
    str_eq(a, short) || str_eq(a, long)
}

/// The request that the command-line arguments make; `args[0]` is the
/// program name, as in `std::env::args`.
pub fn parse_request(args: &[String]) -> (r: Request)
    ensures
        r@ == request_of(views(args@)),
{
    let ghost vs = views(args@);
    proof {
        assert forall|k: int| 0 <= k <= args@.len() implies #[trigger] views(args@.skip(k))
            == vs.skip(k) by {
            assert(views(args@.skip(k)) =~= vs.skip(k));
        }
    }
    let n = args.len();
    if n < 2 {
        return Request::Help;
    }
    let a = args[1].as_str();
    if option_is(a, "-V", "--version") {
        Request::Version
    } else if option_is(a, "-H", "--help") {
        Request::Help
    } else if option_is(a, "-Rec", "--reconfigure") {
        Request::Reconfigure
    } else if option_is(a, "-B", "--brew") {
        if n < 3 {
            Request::BrewWithoutAction
        } else {
            Request::Brew { action: args[2].clone(), rest: words_from(args, 3) }
        }
    } else if option_is(a, "-M", "--make") {
        if n < 3 {
            Request::Make { subcommand: None }
        } else {
            Request::Make { subcommand: Some(args[2].clone()) }
        }
    } else if option_is(a, "-C", "--cargo") {
        if n < 3 {
            Request::CargoWithoutSubcommand
        } else {
            Request::Cargo { sub: args[2].clone(), rest: words_from(args, 3) }
        }
    } else if option_is(a, "-GC", "--git-clone") {
        if n < 3 {
            Request::GitCloneWithoutUrl
        } else {
            Request::GitClone { url: args[2].clone() }
        }
    } else if option_is(a, "-W", "--wget") {
        if n < 3 {
            Request::WgetWithoutUrl
        } else {
            Request::Wget { url: args[2].clone() }
        }
    } else if option_is(a, "-L", "--lang") {
        if n < 3 {
            Request::LangWithoutName
        } else {
            Request::Lang { name: args[2].clone() }
        }
    } else {
        Request::Package { option: args[1].clone(), rest: words_from(args, 2) }
    }
}

} // verus!
