//! The command line: `--help`/`-h` and `--version`/`-V`.

use vstd::prelude::*;

verus! {

/// What the command line asks for.
#[derive(Clone, Copy, Debug, PartialEq, Eq, Structural)]
pub enum CliRequest {
    /// Print the help text and exit.
    Help,
    /// Print the version line and exit.
    Version,
    /// Start the application.
    Run,
}

/// The request of the arguments from position `i` on: the first argument
/// that is `--help` or `-h` asks for help, the first that is `--version` or
/// `-V` for the version, whichever comes first; arguments that are not
/// valid Unicode (`None`) and all other arguments are ignored.
pub open spec fn request_from(args: Seq<Option<Seq<char>>>, i: int) -> CliRequest
    decreases args.len() - i,
{
    if i < 0 || i >= args.len() {
        CliRequest::Run
    } else {
        match args[i] {
            Some(a) => if a == "--help"@ || a == "-h"@ {
                CliRequest::Help
            } else if a == "--version"@ || a == "-V"@ {
                CliRequest::Version
            } else {
                request_from(args, i + 1)
            },
            None => request_from(args, i + 1),
        }
    }
}

/// The views of the arguments.
pub open spec fn arg_views(args: Seq<Option<String>>) -> Seq<Option<Seq<char>>> {
    args.map_values(
        |a: Option<String>|
            match a {
                Some(s) => Some(s@),
                None => None,
            },
    )
}

/// What the arguments ask for, scanning all of them (the program name
/// included) in order; see `request_from`.
pub fn cli_request(args: &Vec<Option<String>>) -> (request: CliRequest)
    ensures
        request == request_from(arg_views(args@), 0),
{
    let help = String::from_str("--help");
    let help_short = String::from_str("-h");
    let version = String::from_str("--version");
    let version_short = String::from_str("-V");
    let mut i: usize = args.len();
    let mut request = CliRequest::Run;
    assert(request_from(arg_views(args@), args@.len() as int) == CliRequest::Run);
    while i > 0
        invariant
            i <= args@.len(),
            request == request_from(arg_views(args@), i as int),
            help@ == "--help"@,
            help_short@ == "-h"@,
            version@ == "--version"@,
            version_short@ == "-V"@,
        decreases i,
    {
        i = i - 1;
        match &args[i] {
            Some(a) => {
                if *a == help || *a == help_short {
                    request = CliRequest::Help;
                } else if *a == version || *a == version_short {
                    request = CliRequest::Version;
                }
            },
            None => {},
        }
    }
    request
}

/// The help text printed for `--help`.
pub open spec fn spec_help_text() -> Seq<char> {
    "COSMIC System Monitor
Designed for the COSMIC\u{2122} desktop environment, cosmic-monitor is a libcosmic-based system monitor.

Project home page: https://github.com/pop-os/cosmic-monitor
Options:
  --help                          Show this message
  --version                       Show the version of cosmic-monitor"@
}

/// The help text printed for `--help`.
pub fn help_text() -> (text: &'static str)
    ensures
        text@ == spec_help_text(),
{
    "COSMIC System Monitor
Designed for the COSMIC\u{2122} desktop environment, cosmic-monitor is a libcosmic-based system monitor.

Project home page: https://github.com/pop-os/cosmic-monitor
Options:
  --help                          Show this message
  --version                       Show the version of cosmic-monitor"
}

/// The line printed for `--version`: the program name and `version`.
pub fn version_text(version: &str) -> (text: String)
    ensures
        text@ == "cosmic-monitor "@ + version@,
{
    let mut text = String::from_str("cosmic-monitor ");
    text.append(version);
    text
}

} // verus!
