//! Descriptions of external commands. The library never spawns a process:
//! it computes, for every subsystem, exactly which program is invoked with
//! which arguments, and the surrounding shell executes the description. The
//! rendered form is the contract between the two halves, and between the
//! library and its tests.

use vstd::prelude::*;

use crate::strutil::{join_strings, spec_dec_int, spec_join, i32_to_string};

verus! {

/// One external command: a program and its arguments, in order.
pub struct Cmd {
    pub program: String,
    pub args: Vec<String>,
}

/// The rendered form of a command: the program, a space, then the arguments
/// joined by single spaces.
pub open spec fn spec_render(program: Seq<char>, args: Seq<Seq<char>>) -> Seq<char> {
    program + seq![' '] + spec_join(args, seq![' '])
}

/// The rendered form of a command value.
pub open spec fn spec_cmd(cmd: Cmd) -> Seq<char> {
    spec_render(cmd.program@, cmd.args.deep_view())
}

impl Cmd {
    /// A command with no arguments yet.
    pub fn new(program: String) -> (c: Cmd)
        ensures
            c.program == program,
            c.args.deep_view() == Seq::<Seq<char>>::empty(),
    {
        let c = Cmd { program, args: Vec::new() };
        proof {
            assert(c.args.deep_view() =~= Seq::<Seq<char>>::empty());
        }
        c
    }

    /// Append one argument.
    pub fn arg(&mut self, a: String)
        ensures
            final(self).program == old(self).program,
            final(self).args.deep_view() == old(self).args.deep_view().push(a@),
    {
        self.args.push(a);
        proof {
            assert(self.args.deep_view() =~= old(self).args.deep_view().push(a@));
        }
    }
}

/// Render a command as `<program> <arg1> <arg2> …` for logs and assertions.
pub fn to_string(command: &Cmd) -> (s: String)
    ensures
        s@ == spec_cmd(*command),
{
    let mut s = String::new();
    s.append(command.program.as_str());
    proof { reveal_strlit(" "); }
    s.append(" ");
    let joined = join_strings(&command.args, " ");
    s.append(joined.as_str());
    proof {
        assert(" "@ =~= seq![' ']);
        assert(s@ =~= spec_cmd(*command));
    }
    s
}

/// What a completed command left behind: its rendered form, the captured
/// output streams, and the exit status code.
#[derive(Debug)]
pub struct CommandResult {
    pub command: String,
    pub stdout: String,
    pub stderr: String,
    pub status: i32,
}

impl CommandResult {
    /// A diagnostic line describing the failure, with the rendered command
    /// so the root cause can be re-run by hand.
    pub fn message(&self) -> (s: String)
        ensures
            s@ == "Command '"@ + self.command@ + "' executed and failed with status: "@
                + spec_dec_int(self.status as int) + "  stdout: "@ + self.stdout@
                + "  stderr: "@ + self.stderr@,
    {
        let mut s = String::new();
        s.append("Command '");
        s.append(self.command.as_str());
        s.append("' executed and failed with status: ");
        let status = i32_to_string(self.status);
        s.append(status.as_str());
        s.append("  stdout: ");
        s.append(self.stdout.as_str());
        s.append("  stderr: ");
        s.append(self.stderr.as_str());
        s
    }
}

/// Why an external command did not produce usable output: the spawn itself
/// failed, or the command ran and exited with a non-zero status.
#[derive(Debug)]
pub enum CommandExecutionError {
    ExecutionStart { command: String, err: String },
    CommandFailure(CommandResult),
}

/// Package a non-zero exit into the error carried through the library.
pub fn output_to_exec_error(command: &Cmd, status: i32, stdout: String, stderr: String) -> (e:
    CommandExecutionError)
    ensures
        e matches CommandExecutionError::CommandFailure(r) && r.command@ == spec_cmd(*command)
            && r.status == status && r.stdout == stdout && r.stderr == stderr,
{
    CommandExecutionError::CommandFailure(
        CommandResult { command: to_string(command), status, stdout, stderr },
    )
}

} // verus!
