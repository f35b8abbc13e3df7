//! The command line of the plugin binary.
use crate::config::event;
use crate::hooks::{event_name, EVENT_COUNT};
use crate::text::{joined, same_text};
use vstd::prelude::*;

verus! {

/// The help text.
pub const HELP: &'static str = "herdr-jcode: setup | remove | doctor | report\nsetup/remove accept --config PATH. Otherwise use $JCODE_HOME/config.toml or ~/.jcode/config.toml.\nInstalls session_start, turn_start, turn_end, and session_end hooks.\nNative Jcode detection is separate from lifecycle reporting.";

/// Why a command line is refused.
pub enum CliError {
    UnknownAction,
    ExpectedConfig,
    NoConfigHome,
    NotReady,
}

/// The message of a command-line error.
pub open spec fn error_message(e: CliError) -> Seq<char> {
    match e {
        CliError::UnknownAction => "unknown action; use --help"@,
        CliError::ExpectedConfig => "expected setup/remove [--config PATH]"@,
        CliError::NoConfigHome => "set JCODE_HOME or HOME, or pass --config PATH"@,
        CliError::NotReady => "integration is not ready; see diagnostic JSON"@,
    }
}

impl CliError {
    /// The message printed for the error.
    pub fn message(&self) -> (r: &'static str)
        ensures
            r@ == error_message(*self),
    {
        match self {
            CliError::UnknownAction => "unknown action; use --help",
            CliError::ExpectedConfig => "expected setup/remove [--config PATH]",
            CliError::NoConfigHome => "set JCODE_HOME or HOME, or pass --config PATH",
            CliError::NotReady => "integration is not ready; see diagnostic JSON",
        }
    }
}

/// What the command line asks for.
pub enum Command {
    Help,
    Report,
    Doctor,
    /// `setup` (`install`) or `remove`, on the given configuration file or the default one.
    Edit { install: bool, config: Option<String> },
    Invalid(CliError),
}

/// The texts of the arguments.
pub open spec fn arg_texts(args: Seq<String>) -> Seq<Seq<char>> {
    args.map_values(|s: String| s@)
}

/// What the arguments (without the program name) ask for: help when there are none or
/// only `--help`/`help`; `report` or `doctor` alone; `setup` or `remove`, alone or with
/// `--config PATH`.
pub open spec fn command_for(args: Seq<String>) -> Command {
    let a = arg_texts(args);
    if a.len() == 0 || (a.len() == 1 && (a[0] == "--help"@ || a[0] == "help"@)) {
        Command::Help
    } else if a.len() == 1 && a[0] == "report"@ {
        Command::Report
    } else if a.len() == 1 && a[0] == "doctor"@ {
        Command::Doctor
    } else if a[0] != "setup"@ && a[0] != "remove"@ {
        Command::Invalid(CliError::UnknownAction)
    } else if a.len() == 1 {
        Command::Edit { install: a[0] == "setup"@, config: None }
    } else if a.len() == 3 && a[1] == "--config"@ {
        Command::Edit { install: a[0] == "setup"@, config: Some(args[2]) }
    } else {
        Command::Invalid(CliError::ExpectedConfig)
    }
}

/// Reads the command line (without the program name).
pub fn parse_args(args: &Vec<String>) -> (r: Command)
    ensures
        r == command_for(args@),
{
    let ghost a = arg_texts(args@);
    let n = args.len();
    if n == 0 {
        return Command::Help;
    }
    assert(a[0] == args@[0]@);
    let first = args[0].as_str();
    if n == 1 && (same_text(first, "--help") || same_text(first, "help")) {
        return Command::Help;
    }
    if n == 1 && same_text(first, "report") {
        return Command::Report;
    }
    if n == 1 && same_text(first, "doctor") {
        return Command::Doctor;
    }
    let install = same_text(first, "setup");
    if !install && !same_text(first, "remove") {
        return Command::Invalid(CliError::UnknownAction);
    }
    if n == 1 {
        return Command::Edit { install, config: None };
    }
    if n == 3 {
        assert(a[1] == args@[1]@);
        if same_text(args[1].as_str(), "--config") {
            return Command::Edit { install, config: Some(args[2].clone()) };
        }
    }
    Command::Invalid(CliError::ExpectedConfig)
}

/// `t` with ASCII lower-case letters made upper-case.
pub open spec fn ascii_upper(t: Seq<char>) -> Seq<char> {
    t.map_values(|c: char| if 'a' <= c <= 'z' {
        ((c as u32) - 32) as char
    } else {
        c
    })
}

/// The environment variable that overrides the configured hook of the `i`-th event:
/// `JCODE_HOOK_` and the event's name in upper case.
pub fn override_var(i: usize) -> (r: String)
    requires
        i < EVENT_COUNT,
    ensures
        r@ == "JCODE_HOOK_"@ + ascii_upper(event_name(i as int)),
{
    let name = event(i);
    let n = name.unicode_len();
    let mut r = String::from_str("JCODE_HOOK_");
    let mut j: usize = 0;
    while j < n
        invariant
            n == name@.len(),
            j <= n,
            r@ == "JCODE_HOOK_"@ + ascii_upper(name@.take(j as int)),
        decreases n - j,
    {
        let c = name.get_char(j);
        let piece = if 'a' <= c && c <= 'z' {
            upper_letter(c)
        } else {
            name.substring_char(j, j + 1)
        };
        r.append(piece);
        assert(ascii_upper(name@.take(j + 1)) =~= ascii_upper(name@.take(j as int)).push(
            if 'a' <= c <= 'z' {
                ((c as u32) - 32) as char
            } else {
                c
            },
        ));
        j = j + 1;
    }
    assert(name@.take(n as int) =~= name@);
    r
}

/// The upper-case form of a lower-case ASCII letter, as text.
fn upper_letter(c: char) -> (r: &'static str)
    requires
        'a' <= c <= 'z',
    ensures
        r@ == seq![((c as u32) - 32) as char],
{
    proof {
        reveal_strlit("A");
        reveal_strlit("B");
        reveal_strlit("C");
        reveal_strlit("D");
        reveal_strlit("E");
        reveal_strlit("F");
        reveal_strlit("G");
        reveal_strlit("H");
        reveal_strlit("I");
        reveal_strlit("J");
        reveal_strlit("K");
        reveal_strlit("L");
        reveal_strlit("M");
        reveal_strlit("N");
        reveal_strlit("O");
        reveal_strlit("P");
        reveal_strlit("Q");
        reveal_strlit("R");
        reveal_strlit("S");
        reveal_strlit("T");
        reveal_strlit("U");
        reveal_strlit("V");
        reveal_strlit("W");
        reveal_strlit("X");
        reveal_strlit("Y");
        reveal_strlit("Z");
    }
    if c == 'a' { "A" } else if c == 'b' { "B" } else if c == 'c' { "C" } else if c == 'd' { "D" }
    else if c == 'e' { "E" } else if c == 'f' { "F" } else if c == 'g' { "G" } else if c == 'h' { "H" }
    else if c == 'i' { "I" } else if c == 'j' { "J" } else if c == 'k' { "K" } else if c == 'l' { "L" }
    else if c == 'm' { "M" } else if c == 'n' { "N" } else if c == 'o' { "O" } else if c == 'p' { "P" }
    else if c == 'q' { "Q" } else if c == 'r' { "R" } else if c == 's' { "S" } else if c == 't' { "T" }
    else if c == 'u' { "U" } else if c == 'v' { "V" } else if c == 'w' { "W" } else if c == 'x' { "X" }
    else if c == 'y' { "Y" } else { "Z" }
}

/// The refusal to set up while `var` overrides the configured hooks.
pub fn override_message(var: &str) -> (r: String)
    ensures
        r@ == var@ + " overrides config. Unset it before setup and in Jcode's launch environment."@,
{
    joined(var, " overrides config. Unset it before setup and in Jcode's launch environment.")
}

/// The status a finished setup or removal reports.
pub fn edit_status(install: bool) -> (r: &'static str)
    ensures
        r@ == if install {
            "configured"@
        } else {
            "removed"@
        },
{
    if install {
        "configured"
    } else {
        "removed"
    }
}

/// `setup` installs and `remove` removes, with or without `--config PATH`: an edit is
/// asked for only by `setup` or `remove`, it installs exactly when the first argument is
/// `setup`, and it names the file that follows `--config` when one is given.
pub proof fn law_edit_direction(args: Seq<String>)
    ensures
        command_for(args) matches Command::Edit { install, config } ==> args.len() > 0 && (
        args[0]@ == "setup"@ || args[0]@ == "remove"@) && install == (args[0]@ == "setup"@) && (
        config matches Some(p) ==> args.len() == 3 && args[1]@ == "--config"@ && p == args[2]),
        args.len() == 3 && args[0]@ == "remove"@ && args[1]@ == "--config"@ ==> command_for(args)
            == (Command::Edit { install: false, config: Some(args[2]) }),
        args.len() == 3 && args[0]@ == "setup"@ && args[1]@ == "--config"@ ==> command_for(args)
            == (Command::Edit { install: true, config: Some(args[2]) }),
        args.len() == 1 && args[0]@ == "remove"@ ==> command_for(args) == (Command::Edit {
            install: false,
            config: None,
        }),
{
    reveal_strlit("setup");
    reveal_strlit("remove");
    reveal_strlit("--help");
    reveal_strlit("help");
    reveal_strlit("report");
    reveal_strlit("doctor");
    assert("setup"@[0] != "remove"@[0]);
    assert("remove"@[2] != "report"@[2]);
    assert(args.len() > 0 ==> arg_texts(args)[0] == args[0]@);
    assert(args.len() > 1 ==> arg_texts(args)[1] == args[1]@);
}

} // verus!
