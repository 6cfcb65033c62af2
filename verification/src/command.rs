//! Commands and the registry that resolves them by name.

use vstd::prelude::*;
use vstd::string::*;

verus! {

/// The shape of the arguments that a command expects.
#[derive(Clone, Copy, PartialEq, Eq, Debug, Structural)]
pub enum CmdArgs {
    /// No arguments.
    NoArgs,
    /// A local filename.
    Filename,
    /// Optional unprocessed text.
    Text,
    /// An expression.
    Expr,
}

/// What the engine does when a command is invoked.
#[derive(Clone, Copy, PartialEq, Eq, Debug, Structural)]
pub enum CommandAction {
    /// Switch the session into the mutable-block edit mode.
    BeginMutBlock,
    /// Render the help text of the registry, or of the command named by the argument.
    Help,
    /// An action of the embedding application, told apart by its tag. The
    /// application performs it, and writes whatever it has to say, itself.
    External(u32),
}

/// A command definition.
#[derive(Debug)]
pub struct Command {
    /// The command name.
    pub name: String,
    /// The expected shape of the arguments.
    pub arg_type: CmdArgs,
    /// Help string.
    pub help: String,
    /// Action to take.
    pub action: CommandAction,
}

/// The mathematical value of a [`Command`].
pub ghost struct CommandView {
    pub name: Seq<char>,
    pub arg_type: CmdArgs,
    pub help: Seq<char>,
    pub action: CommandAction,
}

impl View for Command {
    type V = CommandView;

    open spec fn view(&self) -> CommandView {
        CommandView {
            name: self.name@,
            arg_type: self.arg_type,
            help: self.help@,
            action: self.action,
        }
    }
}

impl Command {
    /// Create a new `Command`.
    pub fn new(name: &str, arg_type: CmdArgs, help: &str, action: CommandAction) -> (c: Self)
        ensures
            c@ == (CommandView { name: name@, arg_type: arg_type, help: help@, action: action }),
    {
        Command {
            name: String::from_str(name),
            arg_type: arg_type,
            help: String::from_str(help),
            action: action,
        }
    }
}

impl Clone for Command {
    fn clone(&self) -> (c: Self)
        ensures
            c@ == self@,
    {
        Command {
            name: self.name.clone(),
            arg_type: self.arg_type,
            help: self.help.clone(),
            action: self.action,
        }
    }
}

/// The values of the commands of a registry, in its order.
pub open spec fn command_views(cmds: Seq<Command>) -> Seq<CommandView> {
    cmds.map_values(|c: Command| c@)
}

/// The fixed text that shows a command's argument shape in a help line.
pub open spec fn arg_suffix(arg_type: CmdArgs) -> Seq<char> {
    match arg_type {
        CmdArgs::NoArgs => Seq::empty(),
        CmdArgs::Filename => " <filename>"@,
        CmdArgs::Text => " [text]"@,
        CmdArgs::Expr => " <expr>"@,
    }
}

/// One help line: name, argument suffix, a space, the help text, a newline.
pub open spec fn command_line(c: CommandView) -> Seq<char> {
    c.name + arg_suffix(c.arg_type) + seq![' '] + c.help + seq!['\n']
}

/// The help lines of the first `n` commands, in registry order.
pub open spec fn help_lines(cmds: Seq<CommandView>, n: int) -> Seq<char>
    decreases n,
{
    if n <= 0 {
        Seq::empty()
    } else {
        help_lines(cmds, n - 1) + command_line(cmds[n - 1])
    }
}

/// The text reported for a name that no command carries.
pub open spec fn not_found_text(name: Seq<char>) -> Seq<char> {
    "unrecognized command: "@ + name
}

/// The index of the first command at or after `from` whose name is exactly `name`.
pub open spec fn find_from(cmds: Seq<CommandView>, name: Seq<char>, from: int) -> Option<int>
    decreases cmds.len() - from,
{
    if from < 0 || from >= cmds.len() {
        None
    } else if cmds[from].name == name {
        Some(from)
    } else {
        find_from(cmds, name, from + 1)
    }
}

/// The command that a lookup of `name` resolves to, if any.
pub open spec fn lookup(cmds: Seq<CommandView>, name: Seq<char>) -> Option<CommandView> {
    match find_from(cmds, name, 0) {
        Some(i) => Some(cmds[i]),
        None => None,
    }
}

/// The help text: one line for the named command, the not-found text where
/// no command has that name, or a header and every line where no name is given.
pub open spec fn help_response(cmds: Seq<CommandView>, command: Option<Seq<char>>) -> Seq<char> {
    match command {
        Some(name) => match lookup(cmds, name) {
            Some(c) => command_line(c),
            None => not_found_text(name),
        },
        None => "Available commands:\n"@ + help_lines(cmds, cmds.len() as int),
    }
}

/// No two commands of the registry share a name.
pub open spec fn names_unique(cmds: Seq<CommandView>) -> bool {
    forall|i: int, j: int|
        0 <= i < j < cmds.len() ==> (#[trigger] cmds[i]).name != (#[trigger] cmds[j]).name
}

/// Appends the help line of `cmd` to `out`.
pub fn write_cmd_line(cmd: &Command, out: &mut String)
    ensures
        final(out)@ == old(out)@ + command_line(cmd@),
{
    proof {
        reveal_strlit(" ");
        reveal_strlit("\n");
    }
    let ghost before = out@;
    out.append(cmd.name.as_str());
    match cmd.arg_type {
        CmdArgs::NoArgs => (),
        CmdArgs::Filename => out.append(" <filename>"),
        CmdArgs::Text => out.append(" [text]"),
        CmdArgs::Expr => out.append(" <expr>"),
    }
    out.append(" ");
    out.append(cmd.help.as_str());
    out.append("\n");
    assert(" "@ =~= seq![' ']);
    assert("\n"@ =~= seq!['\n']);
    assert(out@ =~= before + command_line(cmd@));
}

/// Whether one of the first `upto` commands carries `name`.
pub(crate) fn named_before(cmds: &Vec<Command>, upto: usize, name: &String) -> (found: bool)
    requires
        upto <= cmds.len(),
    ensures
        found == exists|i: int| 0 <= i < upto && (#[trigger] command_views(cmds@)[i]).name == name@,
{
    let mut i: usize = 0;
    while i < upto
        invariant
            0 <= i <= upto <= cmds.len(),
            forall|k: int| 0 <= k < i ==> (#[trigger] command_views(cmds@)[k]).name != name@,
        decreases upto - i,
    {
        if cmds[i].name == *name {
            assert(command_views(cmds@)[i as int].name == name@);
            return true;
        }
        i += 1;
    }
    false
}

/// Lookup and help rendering over an ordered collection of commands.
pub trait Commands {
    /// The commands, in registry order.
    spec fn commands(&self) -> Seq<CommandView>;

    /// Builds the help string of the commands.
    fn build_help_response(&self, command: Option<&str>) -> (text: String)
        ensures
            text@ == help_response(
                self.commands(),
                match command {
                    Some(name) => Some(name@),
                    None => None,
                },
            ),
    ;

    /// Looks a command up by its exact name.
    fn find_command(&self, command: &str) -> (found: Result<Command, String>)
        ensures
            match found {
                Ok(c) => lookup(self.commands(), command@) == Some(c@),
                Err(e) => lookup(self.commands(), command@).is_none() && e@ == not_found_text(
                    command@,
                ),
            },
    ;
}

impl Commands for Vec<Command> {
    open spec fn commands(&self) -> Seq<CommandView> {
        command_views(self@)
    }

    fn build_help_response(&self, command: Option<&str>) -> (text: String) {
        let mut ret = String::new();
        match command {
            Some(name) => match self.find_command(name) {
                Err(e) => ret.append(e.as_str()),
                Ok(cmd) => write_cmd_line(&cmd, &mut ret),
            },
            None => {
                ret.append("Available commands:\n");
                let mut i: usize = 0;
                while i < self.len()
                    invariant
                        0 <= i <= self.len(),
                        ret@ == "Available commands:\n"@ + help_lines(command_views(self@), i as int),
                    decreases self.len() - i,
                {
                    write_cmd_line(&self[i], &mut ret);
                    i += 1;
                }
            },
        }
        ret
    }

    fn find_command(&self, command: &str) -> (found: Result<Command, String>) {
        let wanted = String::from_str(command);
        let mut i: usize = 0;
        while i < self.len()
            invariant
                0 <= i <= self.len(),
                wanted@ == command@,
                find_from(command_views(self@), command@, 0) == find_from(
                    command_views(self@),
                    command@,
                    i as int,
                ),
            decreases self.len() - i,
        {
            if self[i].name == wanted {
                return Ok(self[i].clone());
            }
            i += 1;
        }
        let mut text = String::from_str("unrecognized command: ");
        text.append(command);
        Err(text)
    }
}

/// Lookup is exact: the command found carries precisely the name asked for,
/// letter for letter and case for case, and it is the first such command.
pub proof fn lemma_lookup_exact(cmds: Seq<CommandView>, name: Seq<char>, from: int)
    requires
        0 <= from,
    ensures
        match find_from(cmds, name, from) {
            Some(i) => from <= i < cmds.len() && cmds[i].name == name && forall|j: int|
                from <= j < i ==> cmds[j].name != name,
            None => forall|j: int| from <= j < cmds.len() ==> cmds[j].name != name,
        },
    decreases cmds.len() - from,
{
    if from < cmds.len() && cmds[from].name != name {
        lemma_lookup_exact(cmds, name, from + 1);
    }
}

/// Lookup is total: it succeeds exactly when some command carries the name,
/// and a name that no command carries gets the not-found text, which ends
/// in that very name.
pub proof fn lemma_lookup_total(cmds: Seq<CommandView>, name: Seq<char>)
    ensures
        lookup(cmds, name).is_some() <==> exists|i: int|
            0 <= i < cmds.len() && (#[trigger] cmds[i]).name == name,
        lookup(cmds, name).is_none() ==> help_response(cmds, Some(name)) == not_found_text(name),
        not_found_text(name).len() == "unrecognized command: "@.len() + name.len(),
        not_found_text(name).subrange(
            "unrecognized command: "@.len() as int,
            not_found_text(name).len() as int,
        ) == name,
{
    lemma_lookup_exact(cmds, name, 0);
    assert(not_found_text(name).subrange(
        "unrecognized command: "@.len() as int,
        not_found_text(name).len() as int,
    ) =~= name);
}

/// Two names that differ, be it only in the case of a letter, never resolve
/// through the same registered name: where just one of them is registered,
/// only that one is found.
pub proof fn lemma_lookup_case_sensitive(cmds: Seq<CommandView>, registered: Seq<char>, other: Seq<char>)
    requires
        registered != other,
        forall|i: int| 0 <= i < cmds.len() ==> (#[trigger] cmds[i]).name != other,
    ensures
        lookup(cmds, other).is_none(),
        lookup(cmds, registered) matches Some(c) ==> c.name == registered,
{
    lemma_lookup_exact(cmds, other, 0);
    lemma_lookup_exact(cmds, registered, 0);
}

} // verus!
