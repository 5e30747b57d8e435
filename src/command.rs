//! Descriptions of the external commands that a task runs, and how each is
//! turned into a program and its arguments.

use vstd::prelude::*;
use vstd::string::*;

verus! {

/// How a command is to be launched.
#[derive(Clone, Copy, Debug, PartialEq, Eq, Structural)]
pub enum CommandType {
    /// Run as it is.
    Normal,
    /// Run through `pkexec`, for privilege escalation.
    Privileged,
    /// Run through the AUR helper (paru or yay).
    Aur,
}

/// The status of a task as shown to the user.
#[derive(Clone, Copy, Debug, PartialEq, Eq, Structural)]
pub enum TaskStatus {
    Pending,
    Running,
    Success,
    Failed,
    Cancelled,
}

/// How a command ended.
#[derive(Clone, Copy, Debug, PartialEq, Eq, Structural)]
pub enum CommandResult {
    Success,
    /// Failed, with the exit code when the process reported one.
    Failure { exit_code: Option<i32> },
}

/// One step of a task: what to run and how, and a line that describes it.
#[derive(Clone, Debug)]
pub struct Command {
    pub command_type: CommandType,
    pub program: String,
    pub args: Vec<String>,
    pub description: String,
}

/// Copies a slice of string slices into owned strings.
fn owned_strings(items: &[&str]) -> (r: Vec<String>)
    ensures
        r.deep_view() == items.deep_view(),
{
    let mut r: Vec<String> = Vec::with_capacity(items.len());
    let mut i: usize = 0;
    while i < items.len()
        invariant
            i <= items@.len(),
            r@.len() == i,
            forall|j: int| 0 <= j < i ==> r@[j]@ == items@[j]@,
        decreases items@.len() - i,
    {
        r.push(String::from_str(items[i]));
        i = i + 1;
    }
    assert(r.deep_view() =~= items.deep_view());
    r
}

/// Appends copies of `items` to `out`.
fn extend_strings(out: &mut Vec<String>, items: &Vec<String>)
    ensures
        final(out).deep_view() == old(out).deep_view() + items.deep_view(),
{
    let ghost start = out.deep_view();
    let mut i: usize = 0;
    while i < items.len()
        invariant
            i <= items@.len(),
            out.deep_view() == start + items.deep_view().take(i as int),
        decreases items@.len() - i,
    {
        let ghost prev = out.deep_view();
        let s = String::from_str(items[i].as_str());
        out.push(s);
        assert(out.deep_view() =~= prev.push(items@[i as int]@));
        assert(items.deep_view().take(i as int + 1) =~= items.deep_view().take(i as int).push(
            items@[i as int]@,
        ));
        i = i + 1;
        assert(out.deep_view() =~= start + items.deep_view().take(i as int));
    }
    assert(items.deep_view().take(i as int) =~= items.deep_view());
}

impl Command {
    /// A command of the given type.
    pub fn new(command_type: CommandType, program: &str, args: &[&str], description: &str) -> (r:
        Command)
        ensures
            r.command_type == command_type,
            r.program@ == program@,
            r.args.deep_view() == args.deep_view(),
            r.description@ == description@,
    {
        Command {
            command_type,
            program: String::from_str(program),
            args: owned_strings(args),
            description: String::from_str(description),
        }
    }

    /// A command that runs as it is.
    pub fn normal(program: &str, args: &[&str], description: &str) -> (r: Command)
        ensures
            r.command_type == CommandType::Normal,
            r.program@ == program@,
            r.args.deep_view() == args.deep_view(),
            r.description@ == description@,
    {
        Command::new(CommandType::Normal, program, args, description)
    }

    /// A command that runs through `pkexec`.
    pub fn privileged(program: &str, args: &[&str], description: &str) -> (r: Command)
        ensures
            r.command_type == CommandType::Privileged,
            r.program@ == program@,
            r.args.deep_view() == args.deep_view(),
            r.description@ == description@,
    {
        Command::new(CommandType::Privileged, program, args, description)
    }

    /// A command for the AUR helper; its program is the placeholder `"aur"`.
    pub fn aur(args: &[&str], description: &str) -> (r: Command)
        ensures
            r.command_type == CommandType::Aur,
            r.program@ == "aur"@,
            r.args.deep_view() == args.deep_view(),
            r.description@ == description@,
    {
        Command::new(CommandType::Aur, "aur", args, description)
    }
}

impl CommandResult {
    /// Whether the command succeeded.
    pub fn is_success(&self) -> (r: bool)
        ensures
            r == (*self is Success),
    {
        match self {
            CommandResult::Success => true,
            CommandResult::Failure { .. } => false,
        }
    }

    /// Whether the command failed.
    pub fn is_failure(&self) -> (r: bool)
        ensures
            r == (*self is Failure),
    {
        !self.is_success()
    }

    /// The exit code of a failure, when there is one.
    pub fn exit_code(&self) -> (r: Option<i32>)
        ensures
            r == match *self {
                CommandResult::Failure { exit_code } => exit_code,
                CommandResult::Success => None,
            },
    {
        match self {
            CommandResult::Failure { exit_code } => *exit_code,
            CommandResult::Success => None,
        }
    }
}

/// The AUR helpers in order of preference: paru when it is installed,
/// otherwise yay, otherwise none.
pub open spec fn preferred_helper(paru_found: bool, yay_found: bool) -> Option<Seq<char>> {
    if paru_found {
        Some("paru"@)
    } else if yay_found {
        Some("yay"@)
    } else {
        None
    }
}

/// Picks the AUR helper to use, given which of paru and yay are executables
/// on the search path.
pub fn detect_aur_helper(paru_found: bool, yay_found: bool) -> (r: Option<&'static str>)
    ensures
        r.deep_view() == preferred_helper(paru_found, yay_found),
{
    if paru_found {
        Some("paru")
    } else if yay_found {
        Some("yay")
    } else {
        None
    }
}

/// The message given when an AUR command is to run and no helper is known.
pub open spec fn no_helper_message() -> Seq<char> {
    "AUR helper not initialized (paru or yay required)."@
}

/// The program and arguments that carry out a command: a normal command
/// runs as it is; a privileged one runs as `pkexec <program> <args>`; an AUR
/// one runs as `<helper> --sudo pkexec <args>`, and fails when no helper is
/// known.
pub open spec fn resolution(
    command_type: CommandType,
    program: Seq<char>,
    args: Seq<Seq<char>>,
    helper: Option<Seq<char>>,
) -> Result<(Seq<char>, Seq<Seq<char>>), Seq<char>> {
    match command_type {
        CommandType::Normal => Ok((program, args)),
        CommandType::Privileged => Ok(("pkexec"@, seq![program] + args)),
        CommandType::Aur => match helper {
            Some(h) => Ok((h, seq!["--sudo"@, "pkexec"@] + args)),
            None => Err(no_helper_message()),
        },
    }
}

/// Resolves `command` into the program to launch and its arguments, with
/// `aur_helper` as the AUR helper in use, if any.
pub fn resolve_command(command: &Command, aur_helper: Option<&str>) -> (r: Result<
    (String, Vec<String>),
    String,
>)
    ensures
        (match r {
            Ok((p, a)) => Ok((p@, a.deep_view())),
            Err(m) => Err(m@),
        }) == resolution(
            command.command_type,
            command.program@,
            command.args.deep_view(),
            aur_helper.deep_view(),
        ),
{
    match command.command_type {
        CommandType::Normal => {
            let mut args: Vec<String> = Vec::new();
            extend_strings(&mut args, &command.args);
            assert(args.deep_view() =~= command.args.deep_view());
            Ok((String::from_str(command.program.as_str()), args))
        },
        CommandType::Privileged => {
            let mut args: Vec<String> = Vec::new();
            args.push(String::from_str(command.program.as_str()));
            extend_strings(&mut args, &command.args);
            assert(args.deep_view() =~= seq![command.program@] + command.args.deep_view());
            Ok((String::from_str("pkexec"), args))
        },
        CommandType::Aur => match aur_helper {
            Some(h) => {
                let mut args: Vec<String> = Vec::new();
                args.push(String::from_str("--sudo"));
                args.push(String::from_str("pkexec"));
                extend_strings(&mut args, &command.args);
                assert(args.deep_view() =~= seq!["--sudo"@, "pkexec"@] + command.args.deep_view());
                Ok((String::from_str(h), args))
            },
            None => Err(String::from_str("AUR helper not initialized (paru or yay required).")),
        },
    }
}

} // verus!
