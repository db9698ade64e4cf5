//! Routing the launcher's arguments, the arguments handed to the interpreter,
//! and what the launcher prints and how it exits once the interpreter is done.
use vstd::prelude::*;

use crate::text::{join_from, joined_with, names};

verus! {

/// The interpreter that evaluates the command file.
pub const INTERPRETER: &'static str = "nu";

/// The flag that asks for the list of commands.
pub const LIST_FLAG: &'static str = "--list";

/// The flag that asks for an interactive session.
pub const INTERACTIVE_FLAG: &'static str = "--interactive";

/// Terminal code for grey text.
pub const GREY: &'static str = "\x1b[90m";

/// Terminal code that ends a colour.
pub const RESET: &'static str = "\x1b[0m";

/// The first line of the command list.
pub const LIST_HEADER: &'static str = "Commands:\n";

/// The line that closes the command list.
pub const LIST_HINT: &'static str = "Run '<command> --help' for more information.\n";

/// What the launcher was asked to do.
pub enum Mode {
    /// Print the commands that the command file declares.
    List,
    /// Start an interactive interpreter with the project's prompt.
    Interactive,
    /// Evaluate this command line once.
    Run(String),
}

/// What the launcher writes to its two output streams, and its exit code.
pub struct Report<T> {
    pub stdout: T,
    pub stderr: T,
    pub exit_code: i32,
}

/// The exit code that stands for a child's status code, 1 where it has none.
pub open spec fn exit_code_for(code: Option<i32>) -> i32 {
    match code {
        Some(c) => c,
        None => 1,
    }
}

/// The exit code that stands for a child's status code, 1 where it has none
/// (a child ended by a signal).
pub fn exit_code(code: Option<i32>) -> (r: i32)
    ensures
        r == exit_code_for(code),
{
    match code {
        Some(c) => c,
        None => 1,
    }
}

/// Chooses the mode from the launcher's arguments, the program name first:
/// none, or `--list`, lists; `--interactive` starts a session; anything else
/// is one command line, the arguments joined by single spaces.
pub fn parse_mode(args: &Vec<String>) -> (r: Mode)
    ensures
        args@.len() < 2 || args@[1]@ == LIST_FLAG@ ==> r is List,
        args@.len() >= 2 && args@[1]@ != LIST_FLAG@ && args@[1]@ == INTERACTIVE_FLAG@
            ==> r is Interactive,
        args@.len() >= 2 && args@[1]@ != LIST_FLAG@ && args@[1]@ != INTERACTIVE_FLAG@ ==> (
        match r {
            Mode::Run(c) => c@ == joined_with(names(args@.skip(1)), " "@),
            _ => false,
        }),
{
    if args.len() < 2 {
        return Mode::List;
    }
    if args[1] == String::from_str(LIST_FLAG) {
        Mode::List
    } else if args[1] == String::from_str(INTERACTIVE_FLAG) {
        Mode::Interactive
    } else {
        Mode::Run(join_from(args, 1, " "))
    }
}

/// The interpreter's arguments that evaluate `cmd` with the command file at
/// `makefile` loaded as its environment.
pub fn run_args(makefile: &str, cmd: &str) -> (r: Vec<String>)
    ensures
        names(r@) == seq!["--env-config"@, makefile@, "-c"@, cmd@],
{
    let mut r: Vec<String> = Vec::new();
    r.push(String::from_str("--env-config"));
    r.push(String::from_str(makefile));
    r.push(String::from_str("-c"));
    r.push(String::from_str(cmd));
    assert(names(r@) =~= seq!["--env-config"@, makefile@, "-c"@, cmd@]);
    r
}

/// The report of a one-shot run. On success the child's standard output is
/// written verbatim and the exit code is 0; otherwise its standard error is
/// written verbatim, nothing goes to standard output, and its exit code is
/// passed on.
pub fn run_report(success: bool, code: Option<i32>, stdout: Vec<u8>, stderr: Vec<u8>) -> (r:
    Report<Vec<u8>>)
    ensures
        success ==> r.exit_code == 0 && r.stdout@ == stdout@ && r.stderr@.len() == 0,
        !success ==> r.exit_code == exit_code_for(code) && r.stdout@.len() == 0 && r.stderr@
            == stderr@,
{
    if success {
        Report { stdout, stderr: Vec::new(), exit_code: 0 }
    } else {
        Report { stdout: Vec::new(), stderr, exit_code: exit_code(code) }
    }
}

/// The introspection command that lists the user-declared commands, one row
/// each: four spaces, the name, and in grey the first line of its usage after
/// ` # ` where it has one.
pub open spec fn list_script() -> Seq<char> {
    "help commands\n| where command_type == custom\n| each { |row| {\n    name: $row.name,\n    usage: (\n        if $row.usage != \"\" {\n            [\" # \", ($row.usage | str replace \"\\n.*\" \"\")] | str collect\n        }\n    )\n} }\n| format \"    {name}"@
        + GREY@ + "{usage}"@ + RESET@ + "\"\n| to text\n"@
}

/// The introspection command that lists the user-declared commands.
pub fn list_command() -> (r: String)
    ensures
        r@ == list_script(),
{
    let mut r = String::from_str(
        "help commands\n| where command_type == custom\n| each { |row| {\n    name: $row.name,\n    usage: (\n        if $row.usage != \"\" {\n            [\" # \", ($row.usage | str replace \"\\n.*\" \"\")] | str collect\n        }\n    )\n} }\n| format \"    {name}",
    );
    r.append(GREY);
    r.append("{usage}");
    r.append(RESET);
    r.append("\"\n| to text\n");
    r
}

/// The introspection failed: the child reported an error or a failing status.
pub open spec fn list_failed(success: bool, stderr: Seq<char>) -> bool {
    !success || stderr.len() > 0
}

/// The report of a listing. Where the introspection failed, its standard error
/// is written verbatim and the exit code is 1; otherwise the rows stand between
/// the header and the closing hint, and the exit code is 0.
pub fn list_report(success: bool, stdout: String, stderr: String) -> (r: Report<String>)
    ensures
        list_failed(success, stderr@) ==> r.exit_code == 1 && r.stdout@.len() == 0 && r.stderr@
            == stderr@,
        !list_failed(success, stderr@) ==> r.exit_code == 0 && r.stderr@.len() == 0 && r.stdout@
            == LIST_HEADER@ + stdout@ + "\n"@ + LIST_HINT@,
{
    if !success || !stderr.as_str().is_empty() {
        Report { stdout: String::new(), stderr, exit_code: 1 }
    } else {
        let mut out = String::from_str(LIST_HEADER);
        out.append(stdout.as_str());
        out.append("\n");
        out.append(LIST_HINT);
        Report { stdout: out, stderr: String::new(), exit_code: 0 }
    }
}

/// The report when no command file was found: a one-line diagnostic and exit
/// code 1.
pub fn not_found_report() -> (r: Report<String>)
    ensures
        r.exit_code == 1,
        r.stdout@.len() == 0,
        r.stderr@ == "Could not find "@ + crate::locate::MAKEFILE_NAME@ + " file\n"@,
{
    let mut err = String::from_str("Could not find ");
    err.append(crate::locate::MAKEFILE_NAME);
    err.append(" file\n");
    Report { stdout: String::new(), stderr: err, exit_code: 1 }
}

} // verus!
