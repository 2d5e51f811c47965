//! Elevation through the macOS privileged execution service, which hands
//! one command line to a shell.

use vstd::prelude::*;
use crate::command::{Command, CommandView};
use crate::escape::{joined, push_escaped};

verus! {

/// The command line for a configuration: the program and then the
/// arguments, each encoded, with one space between neighbours.
pub open spec fn shell_command_line(c: CommandView) -> Seq<char> {
    joined(seq![c.program] + c.args)
}

/// Prepares the command line that is run with administrator rights. The
/// prompt is always graphical here, whatever the configuration asks for.
pub fn spawn_impl(cmd: &Command) -> (line: String)
    ensures
        line@ == shell_command_line(cmd@),
{
    let mut line = String::new();
    push_escaped(&mut line, cmd.program());
    let args = cmd.arguments();
    let ghost all = seq![cmd@.program] + cmd@.args;
    assert(all.take(1) =~= seq![cmd@.program]);
    let mut i: usize = 0;
    while i < args.len()
        invariant
            i <= args.len(),
            all == seq![cmd@.program] + cmd@.args,
            args.deep_view() == cmd@.args,
            line@ == joined(all.take(i + 1)),
        decreases args.len() - i,
    {
        line.push(' ');
        push_escaped(&mut line, args[i].as_str());
        proof {
            let done = all.take(i + 2);
            assert(done.drop_last() == all.take(i + 1));
            assert(done.last() == args[i as int]@);
        }
        i += 1;
    }
    assert(all.take(args.len() + 1) == all);
    line
}

} // verus!
